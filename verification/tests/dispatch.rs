use axis_bot::ai::intents::Intent;
use axis_bot::bot::Handler;
use axis_bot::commands::{GuildInfo, Reply};
use axis_bot::config::Config;
use axis_bot::dispatch::{latency, MessageContext, LATENCY_PROBE};

fn dispatcher() -> Handler {
    Handler::new(Config {
        discord_token: "token".to_string(),
        gemini_api_key: "key".to_string(),
        bot_name: "axis".to_string(),
    })
}

fn known_guild() -> GuildInfo {
    GuildInfo {
        name: "Builders".to_string(),
        icon_url: None,
        id: 81384788765712384,
        owner_tag: Some("owner#0001".to_string()),
        member_count: 1523,
        created_at_unix: 1431648000,
        roles: 12,
        channels: 40,
        premium_tier: "Tier2".to_string(),
        boosters: None,
        verification_level: "Medium".to_string(),
    }
}

fn context_in_guild() -> MessageContext {
    MessageContext {
        author_tag: "builder#0042".to_string(),
        author_name: "builder".to_string(),
        author_id: 123456789012345678,
        avatar_url: Some("https://cdn.example/me.png".to_string()),
        default_avatar_url: "https://cdn.example/default.png".to_string(),
        in_guild: true,
        nickname: Some("Bob the Builder".to_string()),
        guild: Some(known_guild()),
        api_latency_ms: 42,
        ws_latency_ms: Some(17),
    }
}

fn context_in_direct_message() -> MessageContext {
    let mut context = context_in_guild();
    context.in_guild = false;
    context.nickname = None;
    context.guild = None;
    context.avatar_url = None;
    context.ws_latency_ms = None;
    context
}

fn plain(reply: Option<Reply>) -> String {
    match reply {
        Some(Reply::Text { content, ephemeral }) => {
            assert!(!ephemeral);
            content
        },
        other => panic!("expected a plain reply, got {:?}", other),
    }
}

fn labelled(reply: &Reply) -> Vec<(String, String, bool)> {
    match reply {
        Reply::Rich { embed } => embed
            .fields
            .iter()
            .map(|field| (field.name.clone(), field.value.clone(), field.inline))
            .collect(),
        Reply::Text { .. } => panic!("expected a rich reply"),
    }
}

fn pair(name: &str, value: &str, inline: bool) -> (String, String, bool) {
    (name.to_string(), value.to_string(), inline)
}

#[test]
fn latency_reply_shows_both_delays() {
    let reply = dispatcher().handle_command_intent(Intent::CheckLatency, &context_in_guild()).unwrap();
    match &reply {
        Reply::Rich { embed } => {
            assert_eq!(embed.title, "🏓 Pong!");
            assert_eq!(embed.color, 0x57F287);
            assert!(embed.timestamped);
            assert_eq!(embed.thumbnail, None);
            assert_eq!(embed.image, None);
        },
        Reply::Text { .. } => panic!("expected a rich reply"),
    }
    assert_eq!(labelled(&reply), vec![pair("Latency", "42ms", true), pair("WebSocket", "17ms", true)]);
    assert_eq!(
        labelled(&latency(5, None)),
        vec![pair("Latency", "5ms", true), pair("WebSocket", "0ms", true)]
    );
    assert_eq!(LATENCY_PROBE, "Pinging...");
}

#[test]
fn server_question_describes_the_server() {
    let reply =
        dispatcher().handle_command_intent(Intent::CheckServerInfo, &context_in_guild()).unwrap();
    match &reply {
        Reply::Rich { embed } => {
            assert_eq!(embed.title, "📊 Builders");
            assert_eq!(embed.color, 0x5865F2);
            assert_eq!(embed.thumbnail.as_deref(), Some(""));
            assert!(embed.timestamped);
        },
        Reply::Text { .. } => panic!("expected a rich reply"),
    }
    assert_eq!(
        labelled(&reply),
        vec![
            pair("👑 Owner", "owner#0001", true),
            pair("👥 Members", "1523 members", true),
            pair("📅 Created", "May 15, 2015", true),
            pair("🎭 Roles", "12", true),
            pair("💬 Channels", "40", true),
            pair("🆔 Server ID", "`81384788765712384`", false),
        ]
    );
}

#[test]
fn member_question_counts_the_members() {
    let reply =
        dispatcher().handle_command_intent(Intent::CheckMemberCount, &context_in_guild()).unwrap();
    match &reply {
        Reply::Rich { embed } => {
            assert_eq!(embed.title, "👥 Member Statistics");
            assert_eq!(embed.color, 0x57F287);
            assert!(embed.timestamped);
        },
        Reply::Text { .. } => panic!("expected a rich reply"),
    }
    assert_eq!(
        labelled(&reply),
        vec![pair("🏠 Server", "Builders", false), pair("📊 Total Members", "**1523** members", false)]
    );
}

#[test]
fn server_questions_get_no_reply_outside_a_known_server() {
    let handler = dispatcher();
    let context = context_in_direct_message();
    assert!(handler.handle_command_intent(Intent::CheckServerInfo, &context).is_none());
    assert!(handler.handle_command_intent(Intent::CheckMemberCount, &context).is_none());
    let mut unwritable = context_in_guild();
    unwritable.guild.as_mut().unwrap().created_at_unix = i64::MAX;
    assert!(handler.handle_command_intent(Intent::CheckServerInfo, &unwritable).is_none());
    assert!(handler.handle_command_intent(Intent::CheckMemberCount, &unwritable).is_some());
}

#[test]
fn questions_about_the_author_are_answered_in_text() {
    let handler = dispatcher();
    let context = context_in_guild();
    assert_eq!(
        plain(handler.handle_command_intent(Intent::AskUsername, &context)),
        "Your username is: **builder#0042**"
    );
    assert_eq!(
        plain(handler.handle_command_intent(Intent::AskUserId, &context)),
        "Your user ID is: `123456789012345678`"
    );
    assert_eq!(
        plain(handler.handle_command_intent(Intent::AskBio, &context)),
        "I cannot access user bios through the Discord API. You can check your bio in your Discord profile settings!"
    );
}

#[test]
fn nickname_falls_back_to_the_name() {
    let handler = dispatcher();
    let mut context = context_in_guild();
    assert_eq!(
        plain(handler.handle_command_intent(Intent::AskNickname, &context)),
        "Your nickname in this server is: **Bob the Builder**"
    );
    context.nickname = None;
    assert_eq!(
        plain(handler.handle_command_intent(Intent::AskNickname, &context)),
        "Your nickname in this server is: **builder**"
    );
    assert_eq!(
        plain(handler.handle_command_intent(Intent::AskNickname, &context_in_direct_message())),
        "Your username is: **builder** (no nickname in DMs)"
    );
}

#[test]
fn avatar_falls_back_to_the_default_picture() {
    let handler = dispatcher();
    match handler.handle_command_intent(Intent::AskAvatar, &context_in_guild()) {
        Some(Reply::Rich { embed }) => {
            assert_eq!(embed.title, "builder's Avatar");
            assert_eq!(embed.image.as_deref(), Some("https://cdn.example/me.png"));
            assert_eq!(embed.color, 0x5865F2);
            assert!(embed.fields.is_empty());
            assert!(!embed.timestamped);
            assert_eq!(embed.thumbnail, None);
        },
        other => panic!("expected a rich reply, got {:?}", other),
    }
    match handler.handle_command_intent(Intent::AskAvatar, &context_in_direct_message()) {
        Some(Reply::Rich { embed }) => {
            assert_eq!(embed.image.as_deref(), Some("https://cdn.example/default.png"));
        },
        other => panic!("expected a rich reply, got {:?}", other),
    }
}

#[test]
fn general_help_and_thanks_are_acknowledged() {
    let handler = dispatcher();
    assert_eq!(
        plain(handler.handle_command_intent(Intent::AskForHelp, &context_in_guild())),
        "I'm here to help! Ask me anything about Roblox development."
    );
    assert_eq!(
        plain(handler.handle_command_intent(Intent::ThankYou, &context_in_guild())),
        "You're welcome! Happy to help."
    );
    assert_eq!(
        plain(handler.handle_command_intent(Intent::AskForHelp, &context_in_direct_message())),
        "I'm here to help! Ask me anything about Roblox development."
    );
    assert_eq!(
        plain(handler.handle_command_intent(Intent::ThankYou, &context_in_direct_message())),
        "You're welcome! Happy to help."
    );
}

#[test]
fn conversation_control_is_no_structured_action() {
    let handler = dispatcher();
    let context = context_in_guild();
    assert!(handler.handle_command_intent(Intent::StartConversation, &context).is_none());
    assert!(handler.handle_command_intent(Intent::StopConversation, &context).is_none());
}
