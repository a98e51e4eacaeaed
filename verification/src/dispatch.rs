//! The structured actions: the reply that each structured intent gets, for
//! the facts found about the message's author and server.

use vstd::prelude::*;
use vstd::string::StringExecFns;
use crate::ai::intents::Intent;
use crate::bot::Handler;
use crate::commands::{
    field, fields_of, or_text, text_or, Embed, EmbedView, FieldView, GuildInfo, Reply, ReplyView,
};
use crate::dates::{format_utc, utc_text};
use crate::text::{decimal, decimal_text};

verus! {

/// What the transport knows of a message and its surroundings when a
/// structured action runs. The delays are in milliseconds; the nickname is
/// the author's in the message's server; the server is there where the
/// message was sent in one that is known.
#[derive(Debug, Clone)]
pub struct MessageContext {
    pub author_tag: String,
    pub author_name: String,
    pub author_id: u64,
    pub avatar_url: Option<String>,
    pub default_avatar_url: String,
    pub in_guild: bool,
    pub nickname: Option<String>,
    pub guild: Option<GuildInfo>,
    pub api_latency_ms: u128,
    pub ws_latency_ms: Option<u128>,
}

/// What is said while the delay is measured.
pub const LATENCY_PROBE: &'static str = "Pinging...";

/// The form in which a reply writes the day a server was made.
pub open spec fn created_pattern() -> Seq<char> {
    "%b %d, %Y"@
}

/// A plain reply that everyone sees.
pub open spec fn said(content: Seq<char>) -> ReplyView {
    ReplyView::Text { content, ephemeral: false }
}

/// The reply to a question about the delay.
pub open spec fn latency_reply(api_latency_ms: u128, ws_latency_ms: Option<u128>) -> ReplyView {
    ReplyView::Rich {
        embed: EmbedView {
            title: "🏓 Pong!"@,
            color: 0x57F287,
            thumbnail: None,
            image: None,
            fields: seq![
                FieldView {
                    name: "Latency"@,
                    value: decimal(api_latency_ms as nat) + "ms"@,
                    inline: true,
                },
                FieldView {
                    name: "WebSocket"@,
                    value: decimal(
                        match ws_latency_ms {
                            Some(delay) => delay as nat,
                            None => 0,
                        },
                    ) + "ms"@,
                    inline: true,
                },
            ],
            timestamped: true,
        },
    }
}

/// The reply to a question about the server, with the day it was made
/// already written out.
pub open spec fn server_reply(guild: GuildInfo, created_at: Seq<char>) -> ReplyView {
    ReplyView::Rich {
        embed: EmbedView {
            title: "📊 "@ + guild.name@,
            color: 0x5865F2,
            thumbnail: Some(or_text(guild.icon_url, ""@)),
            image: None,
            fields: seq![
                FieldView {
                    name: "👑 Owner"@,
                    value: or_text(guild.owner_tag, "Unknown"@),
                    inline: true,
                },
                FieldView {
                    name: "👥 Members"@,
                    value: decimal(guild.member_count as nat) + " members"@,
                    inline: true,
                },
                FieldView { name: "📅 Created"@, value: created_at, inline: true },
                FieldView { name: "🎭 Roles"@, value: decimal(guild.roles as nat), inline: true },
                FieldView {
                    name: "💬 Channels"@,
                    value: decimal(guild.channels as nat),
                    inline: true,
                },
                FieldView {
                    name: "🆔 Server ID"@,
                    value: "`"@ + decimal(guild.id as nat) + "`"@,
                    inline: false,
                },
            ],
            timestamped: true,
        },
    }
}

/// The reply to a question about the number of members.
pub open spec fn members_reply(guild: GuildInfo) -> ReplyView {
    ReplyView::Rich {
        embed: EmbedView {
            title: "👥 Member Statistics"@,
            color: 0x57F287,
            thumbnail: None,
            image: None,
            fields: seq![
                FieldView { name: "🏠 Server"@, value: guild.name@, inline: false },
                FieldView {
                    name: "📊 Total Members"@,
                    value: "**"@ + decimal(guild.member_count as nat) + "** members"@,
                    inline: false,
                },
            ],
            timestamped: true,
        },
    }
}

/// The reply to a question about the author's nickname: the nickname, or the
/// name where the author has none, in a server; the name elsewhere.
pub open spec fn nickname_reply(context: MessageContext) -> ReplyView {
    if context.in_guild {
        said(
            "Your nickname in this server is: **"@ + or_text(
                context.nickname,
                context.author_name@,
            ) + "**"@,
        )
    } else {
        said("Your username is: **"@ + context.author_name@ + "** (no nickname in DMs)"@)
    }
}

/// The reply to a question about the author's picture: their own, or the
/// one they have by default.
pub open spec fn avatar_reply(context: MessageContext) -> ReplyView {
    ReplyView::Rich {
        embed: EmbedView {
            title: context.author_name@ + "'s Avatar"@,
            color: 0x5865F2,
            thumbnail: None,
            image: Some(or_text(context.avatar_url, context.default_avatar_url@)),
            fields: Seq::empty(),
            timestamped: false,
        },
    }
}

/// What is said to a question about the author's biography.
pub open spec fn bio_text() -> Seq<char> {
    "I cannot access user bios through the Discord API. You can check your bio in your Discord profile settings!"@
}

/// What is said to a request for help in general.
pub open spec fn help_text() -> Seq<char> {
    "I'm here to help! Ask me anything about Roblox development."@
}

/// What is said to thanks.
pub open spec fn thanks_text() -> Seq<char> {
    "You're welcome! Happy to help."@
}

/// The reply that an intent gets, if it gets one. A request for help in
/// general and thanks get a fixed acknowledgement. Questions about a server
/// get no reply where the server is not known, or the day it was made cannot
/// be written; the intents that open or close a conversation are no
/// structured actions and get none.
pub open spec fn intent_reply(intent: Intent, context: MessageContext) -> Option<ReplyView> {
    match intent {
        Intent::CheckLatency => Some(latency_reply(context.api_latency_ms, context.ws_latency_ms)),
        Intent::CheckServerInfo => match context.guild {
            Some(guild) => match utc_text(guild.created_at_unix, created_pattern()) {
                Some(created_at) => Some(server_reply(guild, created_at)),
                None => None,
            },
            None => None,
        },
        Intent::CheckMemberCount => match context.guild {
            Some(guild) => Some(members_reply(guild)),
            None => None,
        },
        Intent::AskUsername => Some(said("Your username is: **"@ + context.author_tag@ + "**"@)),
        Intent::AskNickname => Some(nickname_reply(context)),
        Intent::AskUserId => Some(
            said("Your user ID is: `"@ + decimal(context.author_id as nat) + "`"@),
        ),
        Intent::AskBio => Some(said(bio_text())),
        Intent::AskAvatar => Some(avatar_reply(context)),
        Intent::AskForHelp => Some(said(help_text())),
        Intent::ThankYou => Some(said(thanks_text())),
        Intent::StartConversation | Intent::StopConversation => None,
    }
}

/// Every structured intent gets a reply whatever the context, but for the
/// two questions about the server; a request for help in general and thanks
/// are always acknowledged.
pub proof fn lemma_structured_intents_are_answered(intent: Intent, context: MessageContext)
    requires
        intent.structured(),
    ensures
        intent_reply(intent, context) is None ==> (intent == Intent::CheckServerInfo
            || intent == Intent::CheckMemberCount),
        intent == Intent::AskForHelp || intent == Intent::ThankYou ==> intent_reply(
            intent,
            context,
        ) is Some,
{
}

/// A text as a plain reply that everyone sees.
fn say_plainly(content: &str) -> (reply: Reply)
    ensures
        reply@ == said(content@),
{
    Reply::Text { content: String::from_str(content), ephemeral: false }
}

/// Three texts in a row, as a plain reply that everyone sees.
fn say(before: &str, middle: &str, after: &str) -> (reply: Reply)
    ensures
        reply@ == said(before@ + middle@ + after@),
{
    Reply::Text {
        content: String::from_str(before).concat(middle).concat(after),
        ephemeral: false,
    }
}

/// A reply made of labelled values.
fn rich(
    title: String,
    color: u32,
    thumbnail: Option<String>,
    image: Option<String>,
    fields: Vec<crate::commands::EmbedField>,
    timestamped: bool,
) -> (reply: Reply)
    ensures
        reply@ == (ReplyView::Rich {
            embed: EmbedView {
                title: title@,
                color,
                thumbnail: crate::text::text_of(thumbnail),
                image: crate::text::text_of(image),
                fields: fields_of(fields@),
                timestamped,
            },
        }),
{
    Reply::Rich { embed: Embed { title, color, thumbnail, image, fields, timestamped } }
}

/// Writes the reply to a question about the delay.
pub fn latency(api_latency_ms: u128, ws_latency_ms: Option<u128>) -> (reply: Reply)
    ensures
        reply@ == latency_reply(api_latency_ms, ws_latency_ms),
{
    let ws: u128 = match ws_latency_ms {
        Some(delay) => delay,
        None => 0,
    };
    let fields = vec![
        field("Latency", decimal_text(api_latency_ms).concat("ms"), true),
        field("WebSocket", decimal_text(ws).concat("ms"), true),
    ];
    assert(fields_of(fields@) =~= latency_reply(api_latency_ms, ws_latency_ms)->embed.fields);
    rich(String::from_str("🏓 Pong!"), 0x57F287, None, None, fields, true)
}

/// Writes the reply to a question about the server, for the day it was made
/// as it is to be shown.
pub fn server_overview(guild: &GuildInfo, created_at: String) -> (reply: Reply)
    ensures
        reply@ == server_reply(*guild, created_at@),
{
    let fields = vec![
        field("👑 Owner", text_or(&guild.owner_tag, "Unknown"), true),
        field("👥 Members", decimal_text(guild.member_count as u128).concat(" members"), true),
        field("📅 Created", created_at, true),
        field("🎭 Roles", decimal_text(guild.roles as u128), true),
        field("💬 Channels", decimal_text(guild.channels as u128), true),
        field(
            "🆔 Server ID",
            String::from_str("`").concat(decimal_text(guild.id as u128).as_str()).concat("`"),
            false,
        ),
    ];
    assert(fields_of(fields@) =~= server_reply(*guild, created_at@)->embed.fields);
    rich(
        String::from_str("📊 ").concat(guild.name.as_str()),
        0x5865F2,
        Some(text_or(&guild.icon_url, "")),
        None,
        fields,
        true,
    )
}

/// Writes the reply to a question about the number of members.
pub fn member_statistics(guild: &GuildInfo) -> (reply: Reply)
    ensures
        reply@ == members_reply(*guild),
{
    let fields = vec![
        field("🏠 Server", guild.name.clone(), false),
        field(
            "📊 Total Members",
            String::from_str("**").concat(decimal_text(guild.member_count as u128).as_str()).concat(
                "** members",
            ),
            false,
        ),
    ];
    assert(fields_of(fields@) =~= members_reply(*guild)->embed.fields);
    rich(String::from_str("👥 Member Statistics"), 0x57F287, None, None, fields, true)
}

impl Handler {
    /// Writes the reply that an intent gets, if it gets one.
    pub fn handle_command_intent(&self, intent: Intent, context: &MessageContext) -> (reply:
        Option<Reply>)
        ensures
            match intent_reply(intent, *context) {
                Some(expected) => reply is Some && reply->0@ == expected,
                None => reply is None,
            },
    {
        match intent {
            Intent::CheckLatency => Some(latency(context.api_latency_ms, context.ws_latency_ms)),
            Intent::CheckServerInfo => match &context.guild {
                Some(guild) => match format_utc(guild.created_at_unix, "%b %d, %Y") {
                    Some(created_at) => Some(server_overview(guild, created_at)),
                    None => None,
                },
                None => None,
            },
            Intent::CheckMemberCount => match &context.guild {
                Some(guild) => Some(member_statistics(guild)),
                None => None,
            },
            Intent::AskUsername => Some(
                say("Your username is: **", context.author_tag.as_str(), "**"),
            ),
            Intent::AskNickname => {
                if context.in_guild {
                    let nickname = text_or(&context.nickname, context.author_name.as_str());
                    Some(say("Your nickname in this server is: **", nickname.as_str(), "**"))
                } else {
                    Some(
                        say(
                            "Your username is: **",
                            context.author_name.as_str(),
                            "** (no nickname in DMs)",
                        ),
                    )
                }
            },
            Intent::AskUserId => Some(
                say("Your user ID is: `", decimal_text(context.author_id as u128).as_str(), "`"),
            ),
            Intent::AskBio => Some(
                say_plainly(
                    "I cannot access user bios through the Discord API. You can check your bio in your Discord profile settings!",
                ),
            ),
            Intent::AskForHelp => Some(
                say_plainly("I'm here to help! Ask me anything about Roblox development."),
            ),
            Intent::ThankYou => Some(say_plainly("You're welcome! Happy to help.")),
            Intent::AskAvatar => {
                let picture = text_or(&context.avatar_url, context.default_avatar_url.as_str());
                let none: Vec<crate::commands::EmbedField> = Vec::new();
                assert(fields_of(none@) =~= Seq::<FieldView>::empty());
                Some(
                    rich(
                        context.author_name.clone().concat("'s Avatar"),
                        0x5865F2,
                        None,
                        Some(picture),
                        none,
                        false,
                    ),
                )
            },
            Intent::StartConversation | Intent::StopConversation => None,
        }
    }
}

} // verus!
