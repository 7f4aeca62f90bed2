//! Moderation endpoints: check a message against AutoMod, and remove chat
//! messages.

use vstd::prelude::*;
use vstd::string::StringExecFns;

use crate::response::Response;

verus! {

/// Query parameters for checking whether messages meet the channel's
/// AutoMod requirements.
#[derive(Clone, Debug, PartialEq, Eq)]
pub struct CheckAutoModStatusRequest {
    /// Must match the user id in the bearer token.
    pub broadcaster_id: String,
}

impl CheckAutoModStatusRequest {
    /// Check AutoMod status in this broadcaster's channel.
    pub fn broadcaster_id(broadcaster_id: String) -> (r: Self)
        ensures
            r.broadcaster_id@ == broadcaster_id@,
    {
        CheckAutoModStatusRequest { broadcaster_id }
    }

    /// The URI this request is sent to.
    pub open spec fn uri_view(self) -> Seq<char> {
        "https://api.twitch.tv/helix/moderation/enforcements/status?broadcaster_id="@
            + self.broadcaster_id@
    }

    /// Render the request URI.
    pub fn get_uri(&self) -> (u: String)
        ensures
            u@ == self.uri_view(),
    {
        let mut u = "https://api.twitch.tv/helix/moderation/enforcements/status?broadcaster_id=".to_owned();
        u.append(self.broadcaster_id.as_str());
        u
    }
}

/// Body parameters for one message to check against AutoMod.
#[derive(Clone, Debug, PartialEq, Eq)]
pub struct CheckAutoModStatusBody {
    /// Identifier chosen by the caller, mapping this message to its result.
    pub msg_id: String,
    /// Message text.
    pub msg_text: String,
    /// User id of the sender; no longer read by the server.
    pub user_id: Option<String>,
}

impl CheckAutoModStatusBody {
    /// A message to check, with no sender recorded.
    pub fn new(msg_id: String, msg_text: String) -> (r: Self)
        ensures
            r.msg_id@ == msg_id@,
            r.msg_text@ == msg_text@,
            r.user_id is None,
    {
        CheckAutoModStatusBody { msg_id, msg_text, user_id: None }
    }
}

/// One AutoMod answer: the message identifier and whether the message is
/// permitted.
#[derive(Clone, Debug, PartialEq, Eq)]
pub struct CheckAutoModStatus {
    /// The `msg_id` passed in the request body.
    pub msg_id: String,
    /// Whether this message meets the AutoMod requirements.
    pub is_permitted: bool,
}

/// Query parameters for removing chat messages.
#[derive(Clone, Debug, PartialEq, Eq)]
pub struct DeleteChatMessagesRequest {
    /// The broadcaster whose chat room to remove messages from.
    pub broadcaster_id: String,
    /// A user permitted to moderate that chat room.
    pub moderator_id: String,
    /// The message to remove; absent removes all messages.
    pub message_id: Option<String>,
}

impl DeleteChatMessagesRequest {
    /// Remove all chat messages in this broadcaster's chat room.
    pub fn new(broadcaster_id: String, moderator_id: String) -> (r: Self)
        ensures
            r.broadcaster_id@ == broadcaster_id@,
            r.moderator_id@ == moderator_id@,
            r.message_id is None,
    {
        DeleteChatMessagesRequest { broadcaster_id, moderator_id, message_id: None }
    }

    /// Narrow the request to one specific message.
    pub fn message_id(self, message_id: String) -> (r: Self)
        ensures
            r.broadcaster_id@ == self.broadcaster_id@,
            r.moderator_id@ == self.moderator_id@,
            r.message_id matches Some(m) && m@ == message_id@,
    {
        DeleteChatMessagesRequest { message_id: Some(message_id), ..self }
    }

    /// The URI this request is sent to.
    pub open spec fn uri_view(self) -> Seq<char> {
        "https://api.twitch.tv/helix/moderation/chat?broadcaster_id="@ + self.broadcaster_id@
            + "&moderator_id="@ + self.moderator_id@ + (match self.message_id {
            Some(m) => "&message_id="@ + m@,
            None => Seq::<char>::empty(),
        })
    }

    /// Render the request URI.
    pub fn get_uri(&self) -> (u: String)
        ensures
            u@ == self.uri_view(),
    {
        let mut u = "https://api.twitch.tv/helix/moderation/chat?broadcaster_id=".to_owned();
        u.append(self.broadcaster_id.as_str());
        u.append("&moderator_id=");
        u.append(self.moderator_id.as_str());
        match &self.message_id {
            Some(m) => {
                u.append("&message_id=");
                u.append(m.as_str());
            },
            None => {},
        }
        proof {
            assert(u@ =~= self.uri_view());
        }
        u
    }

    /// Decode the server's answer to this request.  The endpoint returns no
    /// body: status `204` means the messages were removed; any other status
    /// is an invalid response, reported with its body, status and URI.
    pub fn parse_inner_response(
        request: Option<Self>,
        uri: &str,
        response: &str,
        status: u16,
    ) -> (r: Result<Response<Self, DeleteChatMessagesResponse>, HelixRequestDeleteError>)
        ensures
            status == 204 <==> r is Ok,
            match r {
                Result::Ok(resp) => {
                    &&& resp.data is Success
                    &&& resp.pagination is None
                    &&& resp.total is None
                    &&& resp.request == request
                },
                Result::Err(e) => match e {
                    HelixRequestDeleteError::InvalidResponse {
                        reason,
                        response: body,
                        status: st,
                        uri: u,
                    } => {
                        &&& reason@ == "unexpected status"@
                        &&& body@ == response@
                        &&& st == status
                        &&& u@ == uri@
                    },
                },
            },
    {
        if status == 204 {
            Ok(
                Response {
                    data: DeleteChatMessagesResponse::Success,
                    pagination: None,
                    request,
                    total: None,
                },
            )
        } else {
            Err(
                HelixRequestDeleteError::InvalidResponse {
                    reason: "unexpected status".to_owned(),
                    response: response.to_owned(),
                    status,
                    uri: uri.to_owned(),
                },
            )
        }
    }
}

/// Answer to a delete-chat-messages request.
#[derive(Clone, Debug, PartialEq, Eq)]
pub enum DeleteChatMessagesResponse {
    /// The specified messages were removed.
    Success,
}

/// What can go wrong decoding the answer to a delete request.
#[derive(Clone, Debug, PartialEq, Eq)]
pub enum HelixRequestDeleteError {
    /// The server answered with something other than the documented status.
    InvalidResponse {
        /// Why the response was rejected.
        reason: String,
        /// The response body, kept for inspection.
        response: String,
        /// The HTTP status that was received.
        status: u16,
        /// The URI the request was sent to.
        uri: String,
    },
}

} // verus!
