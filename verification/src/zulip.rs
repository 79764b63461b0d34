use crate::config::ZULIP_URL;
use vstd::prelude::*;

verus! {

/// What the chat service answers to a posted message.
#[derive(Debug)]
pub struct PostMessageResponse {
    pub id: i32,
    pub msg: String,
    pub result: String,
}

/// Why a message could not be posted.
#[derive(Debug, PartialEq, Eq)]
pub enum ZulipError {
    /// The chat service refused the message and gave `msg` as the reason.
    PostError { msg: String },
}

/// The body of the request that posts `message` to `topic` of `stream`.
pub open spec fn message_content_of(stream: Seq<char>, topic: Seq<char>, message: Seq<char>) -> Seq<
    char,
> {
    "type=stream&to="@ + stream + "&subject="@ + topic + "&content="@ + message
}

/// Address to which messages are posted.
pub fn messages_url() -> (url: String)
    ensures
        url@ == ZULIP_URL@ + "/api/v1/messages"@,
{
    String::from_str(ZULIP_URL).concat("/api/v1/messages")
}

/// The body of the request that posts `message` to `topic` of `stream`.
pub fn message_content(stream: &str, topic: &str, message: &str) -> (content: String)
    ensures
        content@ == message_content_of(stream@, topic@, message@),
{
    String::from_str("type=stream&to=").concat(stream).concat("&subject=").concat(topic).concat(
        "&content=",
    ).concat(message)
}

impl PostMessageResponse {
    /// Reads the answer: the message's id where the service reports success, its complaint
    /// otherwise.
    pub fn into_result(self) -> (outcome: Result<i32, ZulipError>)
        ensures
            self.result@ == "success"@ ==> outcome == Ok::<i32, ZulipError>(self.id),
            self.result@ != "success"@ ==> outcome == Err::<i32, ZulipError>(
                ZulipError::PostError { msg: self.msg },
            ),
    {
        if self.result == String::from_str("success") {
            Ok(self.id)
        } else {
            Err(ZulipError::PostError { msg: self.msg })
        }
    }
}

impl ZulipError {
    /// The error in words.
    pub fn description(&self) -> (text: String)
        ensures
            text@ == match self {
                ZulipError::PostError { msg } => "Failed to post message: "@ + msg@,
            },
    {
        match self {
            ZulipError::PostError { msg } => String::from_str("Failed to post message: ").concat(
                msg.as_str(),
            ),
        }
    }
}

} // verus!
