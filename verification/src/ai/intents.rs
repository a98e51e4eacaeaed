//! The intent classifier: an ordered table of trigger phrases, and the scan
//! that maps a message to the first rule it matches.

use vstd::prelude::*;
use crate::store::{active_user, ConversationStore};
use crate::text::{contains, lowercase_of, occurs_in, to_lowercase};

verus! {

/// What a message asks for.
#[derive(Debug, Clone, Copy, PartialEq, Eq, Structural)]
pub enum Intent {
    StopConversation,
    StartConversation,
    AskForHelp,
    ThankYou,
    CheckLatency,
    CheckServerInfo,
    CheckMemberCount,
    AskUsername,
    AskNickname,
    AskUserId,
    AskBio,
    AskAvatar,
}

impl Intent {
    /// The intents that open or close a conversation.
    pub open spec fn controls_conversation(self) -> bool {
        self == Intent::StartConversation || self == Intent::StopConversation
    }

    /// The intents that name a structured action: every intent that does not
    /// control a conversation.
    pub open spec fn structured(self) -> bool {
        !self.controls_conversation()
    }

    /// Whether the intent belongs to the structured-query family.
    pub fn is_structured_query(&self) -> (yes: bool)
        ensures
            yes == self.structured(),
    {
        match self {
            Intent::StopConversation | Intent::StartConversation => false,
            _ => true,
        }
    }
}

/// A rule of the table as contracts see it: its trigger phrases and its intent.
pub type RuleView = (Seq<Seq<char>>, Intent);

/// Some phrase of the set is a part of the text.
pub open spec fn any_phrase_in(phrases: Seq<Seq<char>>, text: Seq<char>) -> bool {
    exists|j: int| 0 <= j < phrases.len() && occurs_in(#[trigger] phrases[j], text)
}

/// The index of the first rule with a phrase in the text, or the table's
/// length where no rule has one.
pub open spec fn first_hit(rules: Seq<RuleView>, text: Seq<char>) -> int
    decreases rules.len(),
{
    if rules.len() == 0 {
        0
    } else if any_phrase_in(rules[0].0, text) {
        0
    } else {
        1 + first_hit(rules.drop_first(), text)
    }
}

/// The intent of the first rule with a phrase in the text. The text is taken
/// as it stands: the caller has normalised it.
pub open spec fn classify(rules: Seq<RuleView>, text: Seq<char>) -> Option<Intent> {
    let at = first_hit(rules, text);
    if at < rules.len() {
        Some(rules[at].1)
    } else {
        None
    }
}

/// `first_hit` is the least index of a matching rule.
pub proof fn lemma_first_hit(rules: Seq<RuleView>, text: Seq<char>)
    ensures
        0 <= first_hit(rules, text) <= rules.len(),
        first_hit(rules, text) < rules.len() ==> any_phrase_in(
            rules[first_hit(rules, text)].0,
            text,
        ),
        forall|k: int|
            0 <= k < first_hit(rules, text) ==> !any_phrase_in((#[trigger] rules[k]).0, text),
    decreases rules.len(),
{
    if rules.len() > 0 && !any_phrase_in(rules[0].0, text) {
        let rest = rules.drop_first();
        lemma_first_hit(rest, text);
        assert forall|k: int| 0 <= k < first_hit(rules, text) implies !any_phrase_in(
            (#[trigger] rules[k]).0,
            text,
        ) by {
            if k > 0 {
                assert(rules[k] == rest[k - 1]);
            }
        }
        if first_hit(rules, text) < rules.len() {
            assert(rules[first_hit(rules, text)] == rest[first_hit(rest, text)]);
        }
    }
}

/// A rule that matches while none before it does decides the classification.
pub proof fn lemma_classify_at(rules: Seq<RuleView>, text: Seq<char>, at: int)
    requires
        0 <= at < rules.len(),
        any_phrase_in(rules[at].0, text),
        forall|k: int| 0 <= k < at ==> !any_phrase_in((#[trigger] rules[k]).0, text),
    ensures
        first_hit(rules, text) == at,
        classify(rules, text) == Some(rules[at].1),
{
    lemma_first_hit(rules, text);
    let hit = first_hit(rules, text);
    if hit < at {
        assert(!any_phrase_in(rules[hit].0, text));
    } else if hit > at {
        assert(!any_phrase_in(rules[at].0, text));
    }
}

/// Without a matching rule there is no classification.
pub proof fn lemma_classify_none(rules: Seq<RuleView>, text: Seq<char>)
    requires
        forall|k: int| 0 <= k < rules.len() ==> !any_phrase_in((#[trigger] rules[k]).0, text),
    ensures
        classify(rules, text) is None,
{
    lemma_first_hit(rules, text);
    let hit = first_hit(rules, text);
    if hit < rules.len() {
        assert(!any_phrase_in(rules[hit].0, text));
    }
}

/// Of two rules that both match a text, the one declared first gives the
/// classification: the table's order breaks the tie.
pub proof fn lemma_first_rule_wins(first: RuleView, second: RuleView, text: Seq<char>)
    requires
        any_phrase_in(first.0, text),
        any_phrase_in(second.0, text),
    ensures
        classify(seq![first, second], text) == Some(first.1),
{
    lemma_classify_at(seq![first, second], text, 0);
}

/// In a table of any length, a matching rule is never overtaken by a rule
/// declared after it: the classification is the intent of a rule at or before
/// it, and of that rule itself where no earlier rule matches.
pub proof fn lemma_earlier_rule_wins(
    rules: Seq<RuleView>,
    text: Seq<char>,
    earlier: int,
    later: int,
)
    requires
        0 <= earlier < later < rules.len(),
        any_phrase_in(rules[earlier].0, text),
        any_phrase_in(rules[later].0, text),
    ensures
        first_hit(rules, text) <= earlier,
        classify(rules, text) == Some(rules[first_hit(rules, text)].1),
        (forall|k: int| 0 <= k < earlier ==> !any_phrase_in((#[trigger] rules[k]).0, text))
            ==> classify(rules, text) == Some(rules[earlier].1),
{
    lemma_first_hit(rules, text);
    let hit = first_hit(rules, text);
    if hit > earlier {
        assert(!any_phrase_in(rules[earlier].0, text));
    }
    if forall|k: int| 0 <= k < earlier ==> !any_phrase_in((#[trigger] rules[k]).0, text) {
        lemma_classify_at(rules, text, earlier);
    }
}

/// The phrases of one rule as contracts see them.
pub open spec fn phrases_of(phrases: Seq<&'static str>) -> Seq<Seq<char>> {
    Seq::new(phrases.len(), |j: int| phrases[j]@)
}

/// The table that a new matcher holds: the rule that ends a conversation
/// stands first, the one that starts it second, the structured queries after.
pub open spec fn default_rules() -> Seq<RuleView> {
    seq![
        (seq!["stop"@, "goodbye"@, "bye"@, "that's all"@, "nevermind"@, "done"@, "exit"@, "quit"@, "leave"@], Intent::StopConversation),
        (seq!["hey"@, "hi"@, "hello"@, "yo"@, "sup"@, "help"@, "assist"@], Intent::StartConversation),
        (seq!["how do i"@, "can you help"@, "what is"@, "explain"@, "show me"@, "teach me"@], Intent::AskForHelp),
        (seq!["thanks"@, "thank you"@, "thx"@, "ty"@, "appreciated"@], Intent::ThankYou),
        (seq!["what is the ping"@, "check ping"@, "ping"@, "latency"@, "bot ping"@, "what's the ping"@], Intent::CheckLatency),
        (seq!["server info"@, "serverinfo"@, "guild info"@, "about this server"@, "server details"@], Intent::CheckServerInfo),
        (seq!["member count"@, "how many members"@, "membercount"@, "total members"@], Intent::CheckMemberCount),
        (seq!["what is my username"@, "my username"@, "what's my username"@, "my name"@], Intent::AskUsername),
        (seq!["what is my nickname"@, "my nickname"@, "what's my nickname"@, "my nick"@], Intent::AskNickname),
        (seq!["what is my id"@, "my user id"@, "what's my id"@, "my userid"@], Intent::AskUserId),
        (seq!["what is my bio"@, "my bio"@, "what's my bio"@, "my about me"@], Intent::AskBio),
        (seq!["my avatar"@, "what's my avatar"@, "my profile picture"@, "my pfp"@], Intent::AskAvatar),
    ]
}

/// An ordered table of rules, each a set of trigger phrases and the intent
/// they stand for. The phrases are matched as they are written, so they are
/// written in lowercase.
pub struct IntentMatcher {
    pub patterns: Vec<(Vec<&'static str>, Intent)>,
}

impl View for IntentMatcher {
    type V = Seq<RuleView>;

    open spec fn view(&self) -> Seq<RuleView> {
        Seq::new(
            self.patterns@.len(),
            |i: int| (phrases_of(self.patterns@[i].0@), self.patterns@[i].1),
        )
    }
}

/// Whether some phrase of a rule is a part of the text.
fn any_phrase_matches(phrases: &Vec<&'static str>, text: &str) -> (hit: bool)
    ensures
        hit == any_phrase_in(phrases_of(phrases@), text@),
{
    let mut j: usize = 0;
    while j < phrases.len()
        invariant
            0 <= j <= phrases.len(),
            forall|k: int| 0 <= k < j ==> !occurs_in(#[trigger] phrases_of(phrases@)[k], text@),
        decreases phrases.len() - j,
    {
        if contains(text, phrases[j]) {
            assert(occurs_in(phrases_of(phrases@)[j as int], text@));
            return true;
        }
        j += 1;
    }
    false
}

impl IntentMatcher {
    /// The matcher with the built-in table.
    pub fn new() -> (matcher: Self)
        ensures
            matcher@ == default_rules(),
    {
        let matcher = Self {
            patterns: vec![
                (vec!["stop", "goodbye", "bye", "that's all", "nevermind", "done", "exit", "quit", "leave"], Intent::StopConversation),
                (vec!["hey", "hi", "hello", "yo", "sup", "help", "assist"], Intent::StartConversation),
                (vec!["how do i", "can you help", "what is", "explain", "show me", "teach me"], Intent::AskForHelp),
                (vec!["thanks", "thank you", "thx", "ty", "appreciated"], Intent::ThankYou),
                (vec!["what is the ping", "check ping", "ping", "latency", "bot ping", "what's the ping"], Intent::CheckLatency),
                (vec!["server info", "serverinfo", "guild info", "about this server", "server details"], Intent::CheckServerInfo),
                (vec!["member count", "how many members", "membercount", "total members"], Intent::CheckMemberCount),
                (vec!["what is my username", "my username", "what's my username", "my name"], Intent::AskUsername),
                (vec!["what is my nickname", "my nickname", "what's my nickname", "my nick"], Intent::AskNickname),
                (vec!["what is my id", "my user id", "what's my id", "my userid"], Intent::AskUserId),
                (vec!["what is my bio", "my bio", "what's my bio", "my about me"], Intent::AskBio),
                (vec!["my avatar", "what's my avatar", "my profile picture", "my pfp"], Intent::AskAvatar),
            ],
        };
        proof {
            let rules = default_rules();
            assert(matcher@.len() == rules.len());
            assert forall|i: int| 0 <= i < rules.len() implies matcher@[i] == rules[i] by {
                assert(matcher@[i].0 =~= rules[i].0);
            }
            assert(matcher@ =~= rules);
        }
        matcher
    }

    /// Classifies a message: the intent of the first rule of which a phrase
    /// is a part of the message's lowercase form, if there is such a rule.
    pub fn detect_intent(&self, content: &str) -> (found: Option<Intent>)
        ensures
            found == classify(self@, lowercase_of(content@)),
    {
        let lowered = to_lowercase(content);
        self.detect_in_normalized(lowered.as_str())
    }

    /// Whether a message ends the conversation in its channel: its author
    /// holds that conversation, and the message classifies as a request to
    /// stop.
    pub fn should_stop_conversation(
        &self,
        content: &str,
        user_id: u64,
        channel_id: u64,
        active_conversations: &ConversationStore,
    ) -> (stop: bool)
        ensures
            stop == (active_user(active_conversations@, channel_id) == Some(user_id) && classify(
                self@,
                lowercase_of(content@),
            ) == Some(Intent::StopConversation)),
    {
        if active_conversations.is_active_user(channel_id, user_id) {
            match self.detect_intent(content) {
                Some(Intent::StopConversation) => true,
                _ => false,
            }
        } else {
            false
        }
    }

    /// Classifies a text that is already in the form in which the phrases are
    /// written: the intent of the first rule of which a phrase is a part of
    /// the text, if there is such a rule.
    pub fn detect_in_normalized(&self, text: &str) -> (found: Option<Intent>)
        ensures
            found == classify(self@, text@),
    {
        let mut i: usize = 0;
        while i < self.patterns.len()
            invariant
                0 <= i <= self.patterns.len(),
                forall|k: int| 0 <= k < i ==> !any_phrase_in((#[trigger] self@[k]).0, text@),
            decreases self.patterns.len() - i,
        {
            if any_phrase_matches(&self.patterns[i].0, text) {
                proof {
                    lemma_classify_at(self@, text@, i as int);
                }
                return Some(self.patterns[i].1);
            }
            i += 1;
        }
        proof {
            lemma_classify_none(self@, text@);
        }
        None
    }
}

} // verus!
