//! The assistant's language side: how a message is classified, when a
//! message addresses the assistant by name, and the test for a generated
//! reply that the router applies.

pub mod generation;
pub mod intents;

use vstd::prelude::*;
use vstd::string::StringExecFns;
use crate::ai::intents::{classify, Intent, IntentMatcher};
use crate::store::{active_user, ConversationStore};
use crate::text::{
    contains, lemma_found_in_trimmed, lowercase_of, occurs_in, to_lowercase, trim, trimmed_of,
};

verus! {

/// Whether a text addresses the assistant by `name`: it greets the name
/// (`hey`, `hi`, `hello`, `yo`), asks the name for help, or mentions it with
/// `@`. Both texts are taken as they stand: the caller has normalised them.
pub open spec fn names_bot(text: Seq<char>, name: Seq<char>) -> bool {
    ||| occurs_in("hey "@ + name, text)
    ||| occurs_in("hi "@ + name, text)
    ||| occurs_in("hello "@ + name, text)
    ||| occurs_in("yo "@ + name, text)
    ||| occurs_in(name + " help"@, text)
    ||| occurs_in("@"@ + name, text)
}

/// Whether a message addresses the assistant by its name, once the message
/// is in lowercase and trimmed, and the name in lowercase.
pub open spec fn addresses_bot(content: Seq<char>, bot_name: Seq<char>) -> bool {
    names_bot(trimmed_of(lowercase_of(content)), lowercase_of(bot_name))
}

/// Trimming adds no mention: a message that addresses the assistant by name
/// does so in its lowercase form as it stands.
pub proof fn lemma_mention_survives_untrimmed(content: Seq<char>, bot_name: Seq<char>)
    requires
        addresses_bot(content, bot_name),
    ensures
        names_bot(lowercase_of(content), lowercase_of(bot_name)),
{
    let text = lowercase_of(content);
    let name = lowercase_of(bot_name);
    if occurs_in("hey "@ + name, trimmed_of(text)) {
        lemma_found_in_trimmed("hey "@ + name, text);
    }
    if occurs_in("hi "@ + name, trimmed_of(text)) {
        lemma_found_in_trimmed("hi "@ + name, text);
    }
    if occurs_in("hello "@ + name, trimmed_of(text)) {
        lemma_found_in_trimmed("hello "@ + name, text);
    }
    if occurs_in("yo "@ + name, trimmed_of(text)) {
        lemma_found_in_trimmed("yo "@ + name, text);
    }
    if occurs_in(name + " help"@, trimmed_of(text)) {
        lemma_found_in_trimmed(name + " help"@, text);
    }
    if occurs_in("@"@ + name, trimmed_of(text)) {
        lemma_found_in_trimmed("@"@ + name, text);
    }
}

/// Whether a message holds a start trigger: it classifies as a request to
/// start a conversation, or it addresses the assistant by name.
pub open spec fn start_trigger(intent: Option<Intent>, mentioned: bool) -> bool {
    intent == Some(Intent::StartConversation) || mentioned
}

/// Whether a message calls for a generated reply, given how it classifies
/// and whether it addresses the assistant by name: its author holds the
/// conversation in its channel, or the message holds a start trigger.
pub open spec fn should_respond(
    sessions: Map<u64, u64>,
    channel: u64,
    author: u64,
    intent: Option<Intent>,
    mentioned: bool,
) -> bool {
    active_user(sessions, channel) == Some(author) || start_trigger(intent, mentioned)
}

/// Whether `text` holds `prefix` directly followed by `name`.
fn holds_prefixed(text: &str, prefix: &str, name: &str) -> (found: bool)
    ensures
        found == occurs_in(prefix@ + name@, text@),
{
    let trigger = String::from_str(prefix).concat(name);
    contains(text, trigger.as_str())
}

/// Whether a normalised text addresses the assistant by a normalised name.
pub fn mentions_bot(text: &str, name: &str) -> (mentioned: bool)
    ensures
        mentioned == names_bot(text@, name@),
{
    let asks_help = String::from_str(name).concat(" help");
    holds_prefixed(text, "hey ", name) || holds_prefixed(text, "hi ", name) || holds_prefixed(
        text,
        "hello ",
        name,
    ) || holds_prefixed(text, "yo ", name) || contains(text, asks_help.as_str())
        || holds_prefixed(text, "@", name)
}

/// Whether a message as it was sent addresses the assistant by its name.
pub fn message_mentions_bot(content: &str, bot_name: &str) -> (mentioned: bool)
    ensures
        mentioned == addresses_bot(content@, bot_name@),
{
    let lowered = to_lowercase(content);
    let text = trim(lowered.as_str());
    let name = to_lowercase(bot_name);
    mentions_bot(text, name.as_str())
}

/// The client of the text generator: it knows the key that requests carry.
pub struct GeminiClient {
    api_key: String,
}

impl GeminiClient {
    /// The key that requests carry.
    pub closed spec fn key(&self) -> Seq<char> {
        self.api_key@
    }

    /// A client that sends the given key.
    pub fn new(api_key: String) -> (client: Self)
        ensures
            client.key() == api_key@,
    {
        Self { api_key }
    }

    /// Whether a message calls for a generated reply: its author holds the
    /// conversation in its channel, or the message holds a start trigger,
    /// which is a classification as a request to start a conversation or a
    /// mention of the assistant by name.
    pub fn should_respond_to_message(
        &self,
        content: &str,
        bot_name: &str,
        author_id: u64,
        channel_id: u64,
        active_conversations: &ConversationStore,
        intent_matcher: &IntentMatcher,
    ) -> (respond: bool)
        ensures
            respond == should_respond(
                active_conversations@,
                channel_id,
                author_id,
                classify(intent_matcher@, lowercase_of(content@)),
                addresses_bot(content@, bot_name@),
            ),
    {
        if active_conversations.is_active_user(channel_id, author_id) {
            return true;
        }
        let intent = intent_matcher.detect_intent(content);
        let mentioned = message_mentions_bot(content, bot_name);
        self.should_respond_classified(
            intent,
            mentioned,
            author_id,
            channel_id,
            active_conversations,
        )
    }

    /// Whether a message that has been classified already calls for a
    /// generated reply: `intent` is its classification, `mentioned` says
    /// whether it addresses the assistant by name.
    pub fn should_respond_classified(
        &self,
        intent: Option<Intent>,
        mentioned: bool,
        author_id: u64,
        channel_id: u64,
        active_conversations: &ConversationStore,
    ) -> (respond: bool)
        ensures
            respond == should_respond(
                active_conversations@,
                channel_id,
                author_id,
                intent,
                mentioned,
            ),
    {
        active_conversations.is_active_user(channel_id, author_id) || intent == Some(
            Intent::StartConversation,
        ) || mentioned
    }
}

} // verus!
