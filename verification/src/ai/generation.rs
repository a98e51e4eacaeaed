//! Talking to the text generator: what a request says, how a reply is cut to
//! the size a message can have, and what the user is told when it fails.

use vstd::prelude::*;
use vstd::string::{StrSliceExecFns, StringExecFns};
use crate::ai::GeminiClient;
use crate::text::{contains, decimal, decimal_text, occurs_in, text_of, truth, truth_text};

verus! {

/// The most characters a message can carry.
pub const MESSAGE_LIMIT: usize = 2000;

/// The seconds a request to the generator may take.
pub const REQUEST_TIMEOUT_SECS: u64 = 10;

/// Who asks: what the generator is told about the author of a message.
#[derive(Debug, Clone)]
pub struct Asker {
    pub tag: String,
    pub id: u64,
    pub bot: bool,
}

/// Where requests go, up to the key.
pub open spec fn endpoint() -> Seq<char> {
    "https://generativelanguage.googleapis.com/v1beta/models/gemini-1.5-flash-latest:generateContent?key="@
}

/// What the generator is told before anything else.
pub open spec fn preamble() -> Seq<char> {
    "You are Axis, a helpful Discord bot specifically designed for a Roblox Development server. Your primary purpose is to assist with Roblox game development, Luau scripting, and development best practices. You have extensive knowledge about Roblox Studio, Roblox APIs, game design patterns, and optimization techniques. Be friendly, concise (max 2000 characters), and helpful. When providing code examples, use Luau syntax. Current user context: "@
}

/// The line that describes the asker.
pub open spec fn user_context(tag: Seq<char>, id: u64, bot: bool) -> Seq<char> {
    "User Info - Username: "@ + tag + ", ID: "@ + decimal(id as nat) + ", Bot: "@ + truth(bot)
}

/// The whole prompt: the preamble, the asker, the message.
pub open spec fn system_prompt(tag: Seq<char>, id: u64, bot: bool, prompt: Seq<char>) -> Seq<
    char,
> {
    preamble() + user_context(tag, id, bot) + ". User message: "@ + prompt
}

/// What is sent where the generator's answer holds no text.
pub open spec fn missing_reply() -> Seq<char> {
    "I'm having trouble generating a response right now."@
}

/// A reply cut to the size of a message: one that is longer than the limit
/// keeps its first characters, three fewer than the limit, and ends in three
/// dots.
pub open spec fn truncated(reply: Seq<char>) -> Seq<char> {
    if reply.len() > MESSAGE_LIMIT {
        reply.subrange(0, MESSAGE_LIMIT - 3) + "..."@
    } else {
        reply
    }
}

/// The reply that is sent for the text found in the generator's answer.
pub open spec fn finished(candidate: Option<Seq<char>>) -> Seq<char> {
    match candidate {
        Some(reply) => truncated(reply),
        None => missing_reply(),
    }
}

/// A reply that was cut fits a message, and one that fitted before is sent
/// as it is.
pub proof fn lemma_truncated_fits(reply: Seq<char>)
    ensures
        truncated(reply).len() <= MESSAGE_LIMIT,
        reply.len() <= MESSAGE_LIMIT ==> truncated(reply) == reply,
        reply.len() > MESSAGE_LIMIT ==> truncated(reply).len() == MESSAGE_LIMIT,
{
    reveal_strlit("...");
}

/// Cuts a reply to the size of a message.
pub fn truncate_reply(reply: String) -> (cut: String)
    ensures
        cut@ == truncated(reply@),
        cut@.len() <= MESSAGE_LIMIT,
{
    proof {
        lemma_truncated_fits(reply@);
    }
    if reply.as_str().unicode_len() > MESSAGE_LIMIT {
        let kept = reply.as_str().substring_char(0, MESSAGE_LIMIT - 3);
        String::from_str(kept).concat("...")
    } else {
        reply
    }
}

/// Why a collaborator did not deliver.
#[derive(Debug, Clone, Copy, PartialEq, Eq, Structural)]
pub enum Failure {
    CollaboratorTimeout,
    CollaboratorUpstreamError,
    CollaboratorMalformedResponse,
}

impl Failure {
    /// The failure that an error's text stands for: a timeout where it says
    /// `timeout`; else an upstream error where it says `API error`; else a
    /// response that could not be used.
    pub open spec fn of_text(error_text: Seq<char>) -> Failure {
        if occurs_in("timeout"@, error_text) {
            Failure::CollaboratorTimeout
        } else if occurs_in("API error"@, error_text) {
            Failure::CollaboratorUpstreamError
        } else {
            Failure::CollaboratorMalformedResponse
        }
    }

    /// The failure of a request that did not come through: a timeout where
    /// the request ran out of time, and else what the error's text stands
    /// for.
    pub open spec fn of_request(timed_out: bool, error_text: Seq<char>) -> Failure {
        if timed_out {
            Failure::CollaboratorTimeout
        } else {
            Failure::of_text(error_text)
        }
    }

    /// What the user is told, as contracts see it. The error's own text is
    /// never shown.
    pub open spec fn fallback(self) -> Seq<char> {
        match self {
            Failure::CollaboratorTimeout => "Sorry, I'm taking too long to respond. Please try again!"@,
            Failure::CollaboratorUpstreamError => "I'm having some technical difficulties right now. Please try again later!"@,
            Failure::CollaboratorMalformedResponse => "Sorry, I'm having trouble generating a response right now."@,
        }
    }

    /// Sorts an error into its kind by what its text says.
    pub fn from_error_text(error_text: &str) -> (failure: Failure)
        ensures
            failure == Failure::of_text(error_text@),
    {
        if contains(error_text, "timeout") {
            Failure::CollaboratorTimeout
        } else if contains(error_text, "API error") {
            Failure::CollaboratorUpstreamError
        } else {
            Failure::CollaboratorMalformedResponse
        }
    }

    /// Sorts the failure of a request that did not come through: `timed_out`
    /// says whether it ran out of time, `error_text` what the error says.
    pub fn from_failed_request(timed_out: bool, error_text: &str) -> (failure: Failure)
        ensures
            failure == Failure::of_request(timed_out, error_text@),
    {
        if timed_out {
            Failure::CollaboratorTimeout
        } else {
            Failure::from_error_text(error_text)
        }
    }

    /// What the user is told when a collaborator fails in this way.
    pub fn fallback_message(&self) -> (message: &'static str)
        ensures
            message@ == self.fallback(),
    {
        match self {
            Failure::CollaboratorTimeout => "Sorry, I'm taking too long to respond. Please try again!",
            Failure::CollaboratorUpstreamError => "I'm having some technical difficulties right now. Please try again later!",
            Failure::CollaboratorMalformedResponse => "Sorry, I'm having trouble generating a response right now.",
        }
    }
}

impl GeminiClient {
    /// The address a request is sent to: the endpoint, then the key.
    pub fn request_url(&self) -> (url: String)
        ensures
            url@ == endpoint() + self.key(),
    {
        String::from_str(
            "https://generativelanguage.googleapis.com/v1beta/models/gemini-1.5-flash-latest:generateContent?key=",
        ).concat(self.api_key.as_str())
    }

    /// The prompt that is sent for a message of `user`.
    pub fn compose_prompt(&self, prompt: &str, user: &Asker) -> (composed: String)
        ensures
            composed@ == system_prompt(user.tag@, user.id, user.bot, prompt@),
    {
        let id = decimal_text(user.id as u128);
        let context = String::from_str("User Info - Username: ").concat(user.tag.as_str()).concat(
            ", ID: ",
        ).concat(id.as_str()).concat(", Bot: ").concat(truth_text(user.bot));
        let composed = String::from_str(
            "You are Axis, a helpful Discord bot specifically designed for a Roblox Development server. Your primary purpose is to assist with Roblox game development, Luau scripting, and development best practices. You have extensive knowledge about Roblox Studio, Roblox APIs, game design patterns, and optimization techniques. Be friendly, concise (max 2000 characters), and helpful. When providing code examples, use Luau syntax. Current user context: ",
        ).concat(context.as_str()).concat(". User message: ").concat(prompt);
        assert(composed@ =~= system_prompt(user.tag@, user.id, user.bot, prompt@));
        composed
    }

    /// Whether a status of the generator's answer reports success: the
    /// statuses from 200 up to 299 do.
    pub fn status_is_success(status: u16) -> (success: bool)
        ensures
            success == (200 <= status < 300),
    {
        200 <= status && status < 300
    }

    /// The reply that is sent for the text found in the generator's answer:
    /// that text, or a fixed sentence where there is none, cut to the size of
    /// a message.
    pub fn finish_reply(&self, candidate: Option<String>) -> (reply: String)
        ensures
            reply@ == finished(text_of(candidate)),
            reply@.len() <= MESSAGE_LIMIT,
    {
        proof {
            reveal_strlit("I'm having trouble generating a response right now.");
        }
        match candidate {
            Some(text) => truncate_reply(text),
            None => String::from_str("I'm having trouble generating a response right now."),
        }
    }
}

} // verus!
