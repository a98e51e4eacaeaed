use axis_bot::ai::intents::{Intent, IntentMatcher};
use axis_bot::ai::{mentions_bot, message_mentions_bot, GeminiClient};
use axis_bot::store::ConversationStore;

#[test]
fn earlier_rule_wins_when_two_rules_match() {
    let matcher = IntentMatcher::new();
    assert_eq!(matcher.detect_intent("thanks for the ping"), Some(Intent::ThankYou));
    assert_eq!(matcher.detect_intent("ping, and goodbye"), Some(Intent::StopConversation));
    let swapped = IntentMatcher {
        patterns: vec![
            (vec!["ping"], Intent::CheckLatency),
            (vec!["thanks"], Intent::ThankYou),
        ],
    };
    assert_eq!(swapped.detect_intent("thanks for the ping"), Some(Intent::CheckLatency));
}

#[test]
fn classification_ignores_letter_case() {
    let matcher = IntentMatcher::new();
    assert_eq!(matcher.detect_intent("PING"), Some(Intent::CheckLatency));
    assert_eq!(matcher.detect_intent("What Is My Username"), Some(Intent::AskForHelp));
    assert_eq!(matcher.detect_intent("My Username?"), Some(Intent::AskUsername));
    assert_eq!(matcher.detect_in_normalized("PING"), None);
}

#[test]
fn no_rule_no_intent() {
    let matcher = IntentMatcher::new();
    assert_eq!(matcher.detect_intent("a remote event fires twice"), None);
    assert_eq!(matcher.detect_intent(""), None);
    let empty = IntentMatcher { patterns: vec![] };
    assert_eq!(empty.detect_intent("ping"), None);
}

#[test]
fn each_builtin_rule_is_reachable() {
    let matcher = IntentMatcher::new();
    assert_eq!(matcher.detect_intent("nevermind"), Some(Intent::StopConversation));
    assert_eq!(matcher.detect_intent("yo"), Some(Intent::StartConversation));
    assert_eq!(matcher.detect_intent("teach me"), Some(Intent::AskForHelp));
    assert_eq!(matcher.detect_intent("thx"), Some(Intent::ThankYou));
    assert_eq!(matcher.detect_intent("latency"), Some(Intent::CheckLatency));
    assert_eq!(matcher.detect_intent("guild info"), Some(Intent::CheckServerInfo));
    assert_eq!(matcher.detect_intent("total members"), Some(Intent::CheckMemberCount));
    assert_eq!(matcher.detect_intent("my name"), Some(Intent::AskUsername));
    assert_eq!(matcher.detect_intent("my nick"), Some(Intent::AskNickname));
    assert_eq!(matcher.detect_intent("my userid"), Some(Intent::AskUserId));
    assert_eq!(matcher.detect_intent("my bio"), Some(Intent::AskBio));
    assert_eq!(matcher.detect_intent("my pfp"), Some(Intent::AskAvatar));
}

#[test]
fn phrases_match_inside_words() {
    let matcher = IntentMatcher::new();
    assert_eq!(matcher.detect_intent("this"), Some(Intent::StartConversation));
    assert_eq!(matcher.detect_intent("shopping"), Some(Intent::CheckLatency));
}

#[test]
fn structured_family_is_everything_but_conversation_control() {
    assert!(!Intent::StartConversation.is_structured_query());
    assert!(!Intent::StopConversation.is_structured_query());
    assert!(Intent::AskForHelp.is_structured_query());
    assert!(Intent::ThankYou.is_structured_query());
    assert!(Intent::CheckLatency.is_structured_query());
    assert!(Intent::CheckServerInfo.is_structured_query());
    assert!(Intent::CheckMemberCount.is_structured_query());
    assert!(Intent::AskUsername.is_structured_query());
    assert!(Intent::AskNickname.is_structured_query());
    assert!(Intent::AskUserId.is_structured_query());
    assert!(Intent::AskBio.is_structured_query());
    assert!(Intent::AskAvatar.is_structured_query());
}

#[test]
fn stop_needs_the_active_user() {
    let matcher = IntentMatcher::new();
    let mut store = ConversationStore::new();
    assert!(!matcher.should_stop_conversation("bye", 100, 1, &store));
    store.set_active_user(1, 100);
    assert!(matcher.should_stop_conversation("BYE", 100, 1, &store));
    assert!(!matcher.should_stop_conversation("bye", 200, 1, &store));
    assert!(!matcher.should_stop_conversation("bye", 100, 2, &store));
    assert!(!matcher.should_stop_conversation("ping", 100, 1, &store));
}

#[test]
fn bot_is_addressed_by_each_trigger() {
    assert!(mentions_bot("hey axis", "axis"));
    assert!(mentions_bot("well hi axis!", "axis"));
    assert!(mentions_bot("hello axis", "axis"));
    assert!(mentions_bot("yo axis", "axis"));
    assert!(mentions_bot("axis help", "axis"));
    assert!(mentions_bot("ask @axis", "axis"));
    assert!(!mentions_bot("axis", "axis"));
    assert!(!mentions_bot("hey there", "axis"));
    assert!(!mentions_bot("help axis", "axis"));
}

#[test]
fn message_is_normalised_before_the_name_is_sought() {
    assert!(message_mentions_bot("HEY AXIS", "Axis"));
    assert!(message_mentions_bot("  hey axis  ", "axis"));
    assert!(!message_mentions_bot("hey axis ", "axis "));
    assert!(message_mentions_bot("hey axis  now", "axis "));
}

#[test]
fn respond_to_the_active_user_or_to_a_start_trigger() {
    let client = GeminiClient::new("key".to_string());
    let matcher = IntentMatcher::new();
    let mut store = ConversationStore::new();
    let quiet = "a remote event fires twice";
    assert!(!client.should_respond_to_message(quiet, "axis", 100, 1, &store, &matcher));
    assert!(client.should_respond_to_message("hello there", "axis", 100, 1, &store, &matcher));
    assert!(client.should_respond_to_message("how are you", "axis", 100, 1, &store, &matcher));
    assert!(client.should_respond_to_message("ask @axis", "axis", 100, 1, &store, &matcher));
    assert!(!client.should_respond_to_message("ping", "axis", 100, 1, &store, &matcher));
    assert!(!client.should_respond_to_message("goodbye", "axis", 100, 1, &store, &matcher));
    store.set_active_user(1, 100);
    assert!(client.should_respond_to_message(quiet, "axis", 100, 1, &store, &matcher));
    assert!(client.should_respond_to_message("goodbye", "axis", 100, 1, &store, &matcher));
    assert!(!client.should_respond_to_message(quiet, "axis", 200, 1, &store, &matcher));
    assert!(!client.should_respond_to_message(quiet, "axis", 100, 2, &store, &matcher));
}

#[test]
fn start_trigger_comes_from_the_table_that_is_given() {
    let client = GeminiClient::new("key".to_string());
    let store = ConversationStore::new();
    let greetings = IntentMatcher {
        patterns: vec![(vec!["good morning"], Intent::StartConversation)],
    };
    assert!(client.should_respond_to_message("Good Morning!", "axis", 100, 1, &store, &greetings));
    assert!(!client.should_respond_to_message("hello there", "axis", 100, 1, &store, &greetings));
    assert!(client.should_respond_to_message("hello axis", "axis", 100, 1, &store, &greetings));
    let empty = IntentMatcher { patterns: vec![] };
    assert!(!client.should_respond_to_message("hello there", "axis", 100, 1, &store, &empty));
}

#[test]
fn classified_message_calls_for_a_reply_by_the_same_rule() {
    let client = GeminiClient::new("key".to_string());
    let mut store = ConversationStore::new();
    assert!(!client.should_respond_classified(None, false, 100, 1, &store));
    assert!(client.should_respond_classified(Some(Intent::StartConversation), false, 100, 1, &store));
    assert!(client.should_respond_classified(None, true, 100, 1, &store));
    assert!(!client.should_respond_classified(Some(Intent::StopConversation), false, 100, 1, &store));
    assert!(!client.should_respond_classified(Some(Intent::AskBio), false, 100, 1, &store));
    store.set_active_user(1, 100);
    assert!(client.should_respond_classified(None, false, 100, 1, &store));
    assert!(!client.should_respond_classified(None, false, 200, 1, &store));
}

#[test]
fn white_space_of_every_script_is_trimmed() {
    assert!(message_mentions_bot("\u{3000}\t hey axis \u{2003}\n", "axis"));
    assert!(!message_mentions_bot("hey axis\u{2003}", "axis\u{2003}"));
    assert!(message_mentions_bot("hey axis\u{2003}!", "axis\u{2003}"));
    assert!(message_mentions_bot("hey axis\u{200b}", "axis\u{200b}"));
}

#[test]
fn phrases_beyond_ascii_are_matched_by_character() {
    let matcher = IntentMatcher {
        patterns: vec![
            (vec!["école"], Intent::AskForHelp),
            (vec!["ß"], Intent::ThankYou),
            (vec![""], Intent::AskBio),
        ],
    };
    assert_eq!(matcher.detect_intent("Une ÉCOLE de code"), Some(Intent::AskForHelp));
    assert_eq!(matcher.detect_in_normalized("une école"), Some(Intent::AskForHelp));
    assert_eq!(matcher.detect_in_normalized("straße"), Some(Intent::ThankYou));
    assert_eq!(matcher.detect_in_normalized("strasse"), Some(Intent::AskBio));
    assert_eq!(matcher.detect_in_normalized(""), Some(Intent::AskBio));
}
