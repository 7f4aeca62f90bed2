//! Search endpoint: find channels by name or description.

use vstd::prelude::*;
use vstd::string::StringExecFns;

use crate::numfmt::{bool_chars, bool_to_text, dec_digits, usize_to_dec};

verus! {

/// Query parameters for searching channels.
#[derive(Clone, Debug, PartialEq, Eq)]
pub struct SearchChannelsRequest {
    /// URL-encoded search query.
    pub query: String,
    /// Cursor for forward pagination, from a prior response.
    pub after: Option<String>,
    /// Maximum number of objects to return per page.
    pub first: Option<usize>,
    /// Filter results for live streams only.
    pub live_only: Option<bool>,
}

impl SearchChannelsRequest {
    /// Search channels with the given query.
    pub fn query(query: String) -> (r: Self)
        ensures
            r.query@ == query@,
            r.after is None,
            r.first is None,
            r.live_only is None,
    {
        SearchChannelsRequest { query, after: None, first: None, live_only: None }
    }

    /// Restrict the search to live streams.
    pub fn live_only(self, live_only: bool) -> (r: Self)
        ensures
            r.query@ == self.query@,
            r.after == self.after,
            r.first == self.first,
            r.live_only == Some(live_only),
    {
        SearchChannelsRequest { live_only: Some(live_only), ..self }
    }

    /// Set the number of results returned per page.
    pub fn first(self, first: usize) -> (r: Self)
        ensures
            r.query@ == self.query@,
            r.after == self.after,
            r.first == Some(first),
            r.live_only == self.live_only,
    {
        SearchChannelsRequest { first: Some(first), ..self }
    }

    /// Install the continuation cursor for the next page; the streaming
    /// adapter calls this between pages.
    pub fn set_pagination(&mut self, cursor: Option<String>)
        ensures
            final(self).query@ == old(self).query@,
            final(self).after == cursor,
            final(self).first == old(self).first,
            final(self).live_only == old(self).live_only,
    {
        self.after = cursor;
    }

    /// The URI this request is sent to: present parameters only, in
    /// declaration order, with values emitted as given.
    pub open spec fn uri_view(self) -> Seq<char> {
        "https://api.twitch.tv/helix/search/channels?query="@ + self.query@
            + (match self.after {
            Some(a) => "&after="@ + a@,
            None => Seq::<char>::empty(),
        }) + (match self.first {
            Some(f) => "&first="@ + dec_digits(f as nat),
            None => Seq::<char>::empty(),
        }) + (match self.live_only {
            Some(l) => "&live_only="@ + bool_chars(l),
            None => Seq::<char>::empty(),
        })
    }

    /// Render the request URI.
    pub fn get_uri(&self) -> (u: String)
        ensures
            u@ == self.uri_view(),
    {
        let mut u = "https://api.twitch.tv/helix/search/channels?query=".to_owned();
        u.append(self.query.as_str());
        match &self.after {
            Some(a) => {
                u.append("&after=");
                u.append(a.as_str());
            },
            None => {},
        }
        match &self.first {
            Some(f) => {
                u.append("&first=");
                let num = usize_to_dec(*f);
                u.append(num.as_str());
            },
            None => {},
        }
        match &self.live_only {
            Some(l) => {
                u.append("&live_only=");
                u.append(bool_to_text(*l));
            },
            None => {},
        }
        proof {
            assert(u@ =~= self.uri_view());
        }
        u
    }
}

/// One channel found by a search: a user who has streamed recently and
/// matches the query.
#[derive(Clone, Debug, PartialEq, Eq)]
pub struct Channel {
    /// Id of the game being played on the stream.
    pub game_id: String,
    /// Name of the game being played on the stream.
    pub game_name: String,
    /// Channel id.
    pub id: String,
    /// Display name corresponding to the channel's user id.
    pub display_name: String,
    /// Channel language.
    pub broadcaster_language: String,
    /// Login of the broadcaster.
    pub broadcaster_login: String,
    /// Channel title.
    pub title: String,
    /// Thumbnail URL of the stream.
    pub thumbnail_url: String,
    /// Live status.
    pub is_live: bool,
    /// UTC timestamp the stream started at; live streams only.
    pub started_at: Option<String>,
    /// Tag ids that apply to the stream; live streams only.
    pub tag_ids: Vec<String>,
}

} // verus!
