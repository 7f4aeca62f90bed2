//! Schedule endpoint: create a scheduled broadcast segment for a channel.

use vstd::prelude::*;
use vstd::string::StringExecFns;

verus! {

/// Query parameters for creating a stream schedule segment.
#[derive(Clone, Debug, PartialEq, Eq)]
pub struct CreateChannelStreamScheduleSegmentRequest {
    /// User id of the broadcaster owning the schedule; must match the user
    /// id in the OAuth token.
    pub broadcaster_id: String,
}

impl CreateChannelStreamScheduleSegmentRequest {
    /// Create a scheduled broadcast in this broadcaster's schedule.
    pub fn broadcaster_id(broadcaster_id: String) -> (r: Self)
        ensures
            r.broadcaster_id@ == broadcaster_id@,
    {
        CreateChannelStreamScheduleSegmentRequest { broadcaster_id }
    }

    /// The URI this request is sent to.
    pub open spec fn uri_view(self) -> Seq<char> {
        "https://api.twitch.tv/helix/schedule/segment?broadcaster_id="@ + self.broadcaster_id@
    }

    /// Render the request URI.
    pub fn get_uri(&self) -> (u: String)
        ensures
            u@ == self.uri_view(),
    {
        let mut u = "https://api.twitch.tv/helix/schedule/segment?broadcaster_id=".to_owned();
        u.append(self.broadcaster_id.as_str());
        u
    }
}

/// Body parameters for creating a stream schedule segment.
#[derive(Clone, Debug, PartialEq, Eq)]
pub struct CreateChannelStreamScheduleSegmentBody {
    /// Start time of the scheduled broadcast, in RFC3339 format.
    pub start_time: String,
    /// Timezone of the application creating the segment, in IANA format.
    pub timezone: String,
    /// Whether the scheduled broadcast recurs weekly.
    pub is_recurring: bool,
    /// Duration of the scheduled broadcast in minutes; the server defaults
    /// it when absent.
    pub duration: Option<String>,
    /// Game or category id for the scheduled broadcast.
    pub category_id: Option<String>,
    /// Title for the scheduled broadcast.
    pub title: Option<String>,
}

impl CreateChannelStreamScheduleSegmentBody {
    /// A segment with the required fields; the optional ones left unset.
    pub fn new(start_time: String, timezone: String, is_recurring: bool) -> (r: Self)
        ensures
            r.start_time@ == start_time@,
            r.timezone@ == timezone@,
            r.is_recurring == is_recurring,
            r.duration is None,
            r.category_id is None,
            r.title is None,
    {
        CreateChannelStreamScheduleSegmentBody {
            start_time,
            timezone,
            is_recurring,
            duration: None,
            category_id: None,
            title: None,
        }
    }
}

} // verus!
