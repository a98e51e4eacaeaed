//! The conversation router: for every inbound message, one decision, and the
//! change to the conversation store that goes with it.

use vstd::prelude::*;
use vstd::string::StringExecFns;
use crate::ai::intents::{classify, default_rules, Intent, IntentMatcher, RuleView};
use crate::ai::{
    addresses_bot, message_mentions_bot, should_respond, start_trigger, GeminiClient,
};
use crate::config::Config;
use crate::store::{active_user, all_idle, ConversationStore};
use crate::text::lowercase_of;

verus! {

/// A message as the transport delivers it.
#[derive(Debug, Clone)]
pub struct Message {
    pub channel: u64,
    pub author: u64,
    pub author_is_automated: bool,
    pub text: String,
}

/// A message as contracts see it.
pub struct MessageView {
    pub channel: u64,
    pub author: u64,
    pub author_is_automated: bool,
    pub text: Seq<char>,
}

impl View for Message {
    type V = MessageView;

    open spec fn view(&self) -> MessageView {
        MessageView {
            channel: self.channel,
            author: self.author,
            author_is_automated: self.author_is_automated,
            text: self.text@,
        }
    }
}

/// What is to be done with a message.
#[derive(Debug, Clone)]
pub enum RoutingDecision {
    Ignore,
    EndConversation { farewell_text: String },
    RunStructuredAction { intent: Intent },
    GenerateFreeText { prompt: String, asker: u64 },
}

/// A decision as contracts see it.
pub enum DecisionView {
    Ignore,
    EndConversation { farewell_text: Seq<char> },
    RunStructuredAction { intent: Intent },
    GenerateFreeText { prompt: Seq<char>, asker: u64 },
}

impl View for RoutingDecision {
    type V = DecisionView;

    open spec fn view(&self) -> DecisionView {
        match self {
            RoutingDecision::Ignore => DecisionView::Ignore,
            RoutingDecision::EndConversation { farewell_text } => DecisionView::EndConversation {
                farewell_text: farewell_text@,
            },
            RoutingDecision::RunStructuredAction { intent } => DecisionView::RunStructuredAction {
                intent: *intent,
            },
            RoutingDecision::GenerateFreeText { prompt, asker } => DecisionView::GenerateFreeText {
                prompt: prompt@,
                asker: *asker,
            },
        }
    }
}

/// What the assistant says when a conversation ends.
pub open spec fn farewell() -> Seq<char> {
    "Alright! Feel free to reach out anytime you need help with Roblox development! 👋"@
}

/// Whether a message with this classification opens a conversation for an
/// author who does not hold one: it asks to start, or addresses the assistant
/// by name, and asks for no structured action.
pub open spec fn opens_session(intent: Option<Intent>, mentioned: bool) -> bool {
    &&& start_trigger(intent, mentioned)
    &&& !(intent is Some && intent->0.structured())
}

/// The routing rule, given how the message classifies and whether it
/// addresses the assistant by name. In this order: the author is automated,
/// and nothing happens; the channel's active user asks to stop, and the
/// session ends; the message asks for a structured action, and the action
/// runs, whatever the session; the message calls for a reply by
/// `should_respond`, and one is generated, for which the author gets the
/// session unless they hold it; otherwise nothing happens.
pub open spec fn step(
    sessions: Map<u64, u64>,
    message: MessageView,
    intent: Option<Intent>,
    mentioned: bool,
) -> (DecisionView, Map<u64, u64>) {
    let holds = active_user(sessions, message.channel) == Some(message.author);
    if message.author_is_automated {
        (DecisionView::Ignore, sessions)
    } else if holds && intent == Some(Intent::StopConversation) {
        (
            DecisionView::EndConversation { farewell_text: farewell() },
            sessions.remove(message.channel),
        )
    } else if intent is Some && intent->0.structured() {
        (DecisionView::RunStructuredAction { intent: intent->0 }, sessions)
    } else if should_respond(sessions, message.channel, message.author, intent, mentioned) {
        (
            DecisionView::GenerateFreeText { prompt: message.text, asker: message.author },
            if holds {
                sessions
            } else {
                sessions.insert(message.channel, message.author)
            },
        )
    } else {
        (DecisionView::Ignore, sessions)
    }
}

/// The decision for a message and the sessions after it: the message is
/// classified by its lowercase form and routed by `step`.
pub open spec fn outcome(
    sessions: Map<u64, u64>,
    rules: Seq<RuleView>,
    bot_name: Seq<char>,
    message: MessageView,
) -> (DecisionView, Map<u64, u64>) {
    step(
        sessions,
        message,
        classify(rules, lowercase_of(message.text)),
        addresses_bot(message.text, bot_name),
    )
}

/// The router and what it works with: the settings, the generator's client,
/// the sessions and the classifier. The sessions are the router's own: they
/// change through `message` and `route_classified` alone.
pub struct Handler {
    config: Config,
    gemini_client: GeminiClient,
    active_conversations: ConversationStore,
    intent_matcher: IntentMatcher,
}

impl Handler {
    /// The settings the router was made with.
    pub closed spec fn settings(&self) -> Config {
        self.config
    }

    /// The generator's client.
    pub closed spec fn generator(&self) -> GeminiClient {
        self.gemini_client
    }

    /// The sessions: for each channel with an active user, that user.
    pub closed spec fn sessions(&self) -> Map<u64, u64> {
        self.active_conversations@
    }

    /// The table that messages are classified by.
    pub closed spec fn rules(&self) -> Seq<RuleView> {
        self.intent_matcher@
    }

    /// A router with the built-in table and no session.
    pub fn new(config: Config) -> (handler: Self)
        ensures
            handler.settings() == config,
            handler.generator().key() == config.gemini_api_key@,
            handler.sessions() == all_idle(),
            handler.rules() == default_rules(),
    {
        Handler::with_matcher(config, IntentMatcher::new())
    }

    /// A router with a table of the caller's and no session.
    pub fn with_matcher(config: Config, intent_matcher: IntentMatcher) -> (handler: Self)
        ensures
            handler.settings() == config,
            handler.generator().key() == config.gemini_api_key@,
            handler.sessions() == all_idle(),
            handler.rules() == intent_matcher@,
    {
        let gemini_client = GeminiClient::new(config.gemini_api_key.clone());
        Self {
            config,
            gemini_client,
            active_conversations: ConversationStore::new(),
            intent_matcher,
        }
    }

    /// The settings the router was made with.
    pub fn config(&self) -> (config: &Config)
        ensures
            *config == self.settings(),
    {
        &self.config
    }

    /// The generator's client.
    pub fn gemini_client(&self) -> (client: &GeminiClient)
        ensures
            *client == self.generator(),
    {
        &self.gemini_client
    }

    /// The classifier.
    pub fn intent_matcher(&self) -> (matcher: &IntentMatcher)
        ensures
            matcher@ == self.rules(),
    {
        &self.intent_matcher
    }

    /// The user who holds the conversation in a channel, if anyone does.
    pub fn active_user_in(&self, channel: u64) -> (user: Option<u64>)
        ensures
            user == active_user(self.sessions(), channel),
    {
        self.active_conversations.get_active_user(channel)
    }

    /// Routes a message: decides what is to be done with it and updates the
    /// sessions before it returns. A message of an automated author is
    /// ignored and touches nothing.
    pub fn message(&mut self, message: &Message) -> (decision: RoutingDecision)
        ensures
            decision@ == outcome(
                old(self).sessions(),
                old(self).rules(),
                old(self).settings().bot_name@,
                message@,
            ).0,
            final(self).sessions() == outcome(
                old(self).sessions(),
                old(self).rules(),
                old(self).settings().bot_name@,
                message@,
            ).1,
            message.author_is_automated ==> decision@ == DecisionView::Ignore
                && final(self).sessions() == old(self).sessions(),
            final(self).rules() == old(self).rules(),
            final(self).settings() == old(self).settings(),
            final(self).generator() == old(self).generator(),
    {
        if message.author_is_automated {
            return RoutingDecision::Ignore;
        }
        let intent = self.intent_matcher.detect_intent(message.text.as_str());
        let mentioned = message_mentions_bot(message.text.as_str(), self.config.bot_name.as_str());
        self.route_classified(message, intent, mentioned)
    }

    /// Routes a message that has been classified already: `intent` is its
    /// classification, `mentioned` says whether it addresses the assistant by
    /// name. A message of an automated author is ignored here too.
    pub fn route_classified(
        &mut self,
        message: &Message,
        intent: Option<Intent>,
        mentioned: bool,
    ) -> (decision: RoutingDecision)
        ensures
            decision@ == step(old(self).sessions(), message@, intent, mentioned).0,
            final(self).sessions() == step(
                old(self).sessions(),
                message@,
                intent,
                mentioned,
            ).1,
            final(self).rules() == old(self).rules(),
            final(self).settings() == old(self).settings(),
            message.author_is_automated ==> decision@ == DecisionView::Ignore
                && final(self).sessions() == old(self).sessions(),
            final(self).generator() == old(self).generator(),
    {
        if message.author_is_automated {
            return RoutingDecision::Ignore;
        }
        let holds = self.active_conversations.is_active_user(message.channel, message.author);
        let structured = match intent {
            Some(found) => found.is_structured_query(),
            None => false,
        };
        if holds && intent == Some(Intent::StopConversation) {
            self.active_conversations.remove(message.channel);
            return RoutingDecision::EndConversation {
                farewell_text: String::from_str(
                    "Alright! Feel free to reach out anytime you need help with Roblox development! 👋",
                ),
            };
        }
        if let Some(found) = intent {
            if structured {
                return RoutingDecision::RunStructuredAction { intent: found };
            }
        }
        let respond = self.gemini_client.should_respond_classified(
            intent,
            mentioned,
            message.author,
            message.channel,
            &self.active_conversations,
        );
        if !respond {
            return RoutingDecision::Ignore;
        }
        if !holds {
            self.active_conversations.set_active_user(message.channel, message.author);
        }
        RoutingDecision::GenerateFreeText { prompt: message.text.clone(), asker: message.author }
    }
}

/// A message of an automated author is ignored, and the sessions stay as
/// they are, however the message classifies.
pub proof fn lemma_automated_is_ignored(
    sessions: Map<u64, u64>,
    rules: Seq<RuleView>,
    bot_name: Seq<char>,
    message: MessageView,
)
    requires
        message.author_is_automated,
    ensures
        outcome(sessions, rules, bot_name, message) == (DecisionView::Ignore, sessions),
        forall|intent: Option<Intent>, mentioned: bool|
            #[trigger] step(sessions, message, intent, mentioned) == (
                DecisionView::Ignore,
                sessions,
            ),
{
}

/// A request to stop in a channel without a session is ignored and leaves
/// the channel idle: only the active user can end a session. The message
/// must not address the assistant by name, since that opens a session.
pub proof fn lemma_stop_in_idle_channel(
    sessions: Map<u64, u64>,
    rules: Seq<RuleView>,
    bot_name: Seq<char>,
    message: MessageView,
)
    requires
        !message.author_is_automated,
        active_user(sessions, message.channel) is None,
        classify(rules, lowercase_of(message.text)) == Some(Intent::StopConversation),
        !addresses_bot(message.text, bot_name),
    ensures
        outcome(sessions, rules, bot_name, message) == (DecisionView::Ignore, sessions),
        active_user(outcome(sessions, rules, bot_name, message).1, message.channel) is None,
{
}

/// A session is taken over by the user who opens one in the same channel:
/// after the newcomer's message the channel is theirs, and a request to stop
/// from the user who had it before is ignored and changes nothing. That
/// request must not address the assistant by name, since that would open a
/// session for its author again.
pub proof fn lemma_takeover(
    sessions: Map<u64, u64>,
    rules: Seq<RuleView>,
    bot_name: Seq<char>,
    opening: MessageView,
    stopping: MessageView,
)
    requires
        !opening.author_is_automated,
        !stopping.author_is_automated,
        opening.channel == stopping.channel,
        opening.author != stopping.author,
        active_user(sessions, stopping.channel) == Some(stopping.author),
        opens_session(
            classify(rules, lowercase_of(opening.text)),
            addresses_bot(opening.text, bot_name),
        ),
        classify(rules, lowercase_of(stopping.text)) == Some(Intent::StopConversation),
        !addresses_bot(stopping.text, bot_name),
    ensures
        ({
            let taken = outcome(sessions, rules, bot_name, opening);
            &&& taken.0 == DecisionView::GenerateFreeText {
                prompt: opening.text,
                asker: opening.author,
            }
            &&& taken.1 == sessions.insert(opening.channel, opening.author)
            &&& active_user(taken.1, opening.channel) == Some(opening.author)
            &&& outcome(taken.1, rules, bot_name, stopping) == (DecisionView::Ignore, taken.1)
        }),
{
}

/// A message that asks for a structured action gets that action, and the
/// sessions stay as they are: in particular the author's own session goes on.
pub proof fn lemma_structured_keeps_sessions(
    sessions: Map<u64, u64>,
    rules: Seq<RuleView>,
    bot_name: Seq<char>,
    message: MessageView,
    intent: Intent,
)
    requires
        !message.author_is_automated,
        classify(rules, lowercase_of(message.text)) == Some(intent),
        intent.structured(),
    ensures
        outcome(sessions, rules, bot_name, message) == (
            DecisionView::RunStructuredAction { intent },
            sessions,
        ),
{
}

/// While a user holds the session of a channel, each of their messages there
/// that neither asks to stop nor asks for a structured action gets a
/// generated reply, and the sessions stay as they are.
pub proof fn lemma_session_continues(
    sessions: Map<u64, u64>,
    rules: Seq<RuleView>,
    bot_name: Seq<char>,
    message: MessageView,
)
    requires
        !message.author_is_automated,
        active_user(sessions, message.channel) == Some(message.author),
        ({
            let intent = classify(rules, lowercase_of(message.text));
            intent is None || intent == Some(Intent::StartConversation)
        }),
    ensures
        outcome(sessions, rules, bot_name, message) == (
            DecisionView::GenerateFreeText { prompt: message.text, asker: message.author },
            sessions,
        ),
        active_user(outcome(sessions, rules, bot_name, message).1, message.channel) == Some(
            message.author,
        ),
{
}

/// Routing changes the session of no channel but the message's own.
pub proof fn lemma_other_channels_untouched(
    sessions: Map<u64, u64>,
    rules: Seq<RuleView>,
    bot_name: Seq<char>,
    message: MessageView,
    channel: u64,
)
    requires
        channel != message.channel,
    ensures
        active_user(outcome(sessions, rules, bot_name, message).1, channel) == active_user(
            sessions,
            channel,
        ),
{
}

/// The active user ends their session with a request to stop, and the
/// channel is idle afterwards.
pub proof fn lemma_stop_ends_session(
    sessions: Map<u64, u64>,
    rules: Seq<RuleView>,
    bot_name: Seq<char>,
    message: MessageView,
)
    requires
        !message.author_is_automated,
        active_user(sessions, message.channel) == Some(message.author),
        classify(rules, lowercase_of(message.text)) == Some(Intent::StopConversation),
    ensures
        outcome(sessions, rules, bot_name, message) == (
            DecisionView::EndConversation { farewell_text: farewell() },
            sessions.remove(message.channel),
        ),
        active_user(outcome(sessions, rules, bot_name, message).1, message.channel) is None,
{
}

/// The router generates a reply exactly where `should_respond` says so, for
/// a message of a human author that neither ends the author's session nor
/// asks for a structured action; and the author holds the session afterwards.
pub proof fn lemma_reply_follows_should_respond(
    sessions: Map<u64, u64>,
    message: MessageView,
    intent: Option<Intent>,
    mentioned: bool,
)
    requires
        !message.author_is_automated,
        !(intent is Some && intent->0.structured()),
        !(active_user(sessions, message.channel) == Some(message.author) && intent == Some(
            Intent::StopConversation,
        )),
    ensures
        should_respond(sessions, message.channel, message.author, intent, mentioned) ==> step(
            sessions,
            message,
            intent,
            mentioned,
        ).0 == (DecisionView::GenerateFreeText { prompt: message.text, asker: message.author })
            && active_user(step(sessions, message, intent, mentioned).1, message.channel) == Some(
            message.author,
        ),
        !should_respond(sessions, message.channel, message.author, intent, mentioned) ==> step(
            sessions,
            message,
            intent,
            mentioned,
        ) == (DecisionView::Ignore, sessions),
{
}

} // verus!
