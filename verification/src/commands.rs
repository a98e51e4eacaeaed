//! The slash commands: what each is called, and the reply each one gives for
//! the facts found about the server it was used in.

use vstd::prelude::*;
use vstd::string::StringExecFns;
use crate::dates::{format_utc, utc_text};
use crate::text::{decimal, decimal_text, text_of};

verus! {

/// A labelled value of a rich reply.
#[derive(Debug, Clone)]
pub struct EmbedField {
    pub name: String,
    pub value: String,
    pub inline: bool,
}

/// A labelled value as contracts see it.
pub struct FieldView {
    pub name: Seq<char>,
    pub value: Seq<char>,
    pub inline: bool,
}

impl View for EmbedField {
    type V = FieldView;

    open spec fn view(&self) -> FieldView {
        FieldView { name: self.name@, value: self.value@, inline: self.inline }
    }
}

/// A rich reply: a title, a colour, pictures and labelled values. One that is
/// `timestamped` carries the moment at which it is sent.
#[derive(Debug, Clone)]
pub struct Embed {
    pub title: String,
    pub color: u32,
    pub thumbnail: Option<String>,
    pub image: Option<String>,
    pub fields: Vec<EmbedField>,
    pub timestamped: bool,
}

/// A rich reply as contracts see it.
pub struct EmbedView {
    pub title: Seq<char>,
    pub color: u32,
    pub thumbnail: Option<Seq<char>>,
    pub image: Option<Seq<char>>,
    pub fields: Seq<FieldView>,
    pub timestamped: bool,
}

/// The labelled values as contracts see them.
pub open spec fn fields_of(fields: Seq<EmbedField>) -> Seq<FieldView> {
    Seq::new(fields.len(), |i: int| fields[i]@)
}

impl View for Embed {
    type V = EmbedView;

    open spec fn view(&self) -> EmbedView {
        EmbedView {
            title: self.title@,
            color: self.color,
            thumbnail: text_of(self.thumbnail),
            image: text_of(self.image),
            fields: fields_of(self.fields@),
            timestamped: self.timestamped,
        }
    }
}

/// What is sent back: plain text, which only its receiver sees where it is
/// `ephemeral`, or a rich reply.
#[derive(Debug, Clone)]
pub enum Reply {
    Text { content: String, ephemeral: bool },
    Rich { embed: Embed },
}

/// A reply as contracts see it.
pub enum ReplyView {
    Text { content: Seq<char>, ephemeral: bool },
    Rich { embed: EmbedView },
}

impl View for Reply {
    type V = ReplyView;

    open spec fn view(&self) -> ReplyView {
        match self {
            Reply::Text { content, ephemeral } => ReplyView::Text {
                content: content@,
                ephemeral: *ephemeral,
            },
            Reply::Rich { embed } => ReplyView::Rich { embed: embed@ },
        }
    }
}

/// What is known of a server when a reply about it is written.
#[derive(Debug, Clone)]
pub struct GuildInfo {
    pub name: String,
    pub icon_url: Option<String>,
    pub id: u64,
    pub owner_tag: Option<String>,
    pub member_count: u64,
    pub created_at_unix: i64,
    pub roles: u64,
    pub channels: u64,
    pub premium_tier: String,
    pub boosters: Option<u64>,
    pub verification_level: String,
}

/// Where a command was used: outside any server, in a server of which
/// nothing is known at the moment, or in a known one.
#[derive(Debug, Clone)]
pub enum GuildLookup {
    NotInGuild,
    NotCached,
    Found { guild: GuildInfo },
}

/// A labelled value.
pub(crate) fn field(name: &str, value: String, inline: bool) -> (made: EmbedField)
    ensures
        made@ == (FieldView { name: name@, value: value@, inline }),
{
    EmbedField { name: String::from_str(name), value, inline }
}

/// A text or, where there is none, another in its place.
pub open spec fn or_text(value: Option<String>, otherwise: Seq<char>) -> Seq<char> {
    match value {
        Some(text) => text@,
        None => otherwise,
    }
}

/// A copy of a text or, where there is none, of another in its place.
pub(crate) fn text_or(value: &Option<String>, otherwise: &str) -> (text: String)
    ensures
        text@ == or_text(*value, otherwise@),
{
    match value {
        Some(text) => text.clone(),
        None => String::from_str(otherwise),
    }
}

/// A text that only its receiver sees.
pub(crate) fn private_text(content: &str) -> (reply: Reply)
    ensures
        reply@ == (ReplyView::Text { content: content@, ephemeral: true }),
{
    Reply::Text { content: String::from_str(content), ephemeral: true }
}

/// The form in which the slash command writes the day a server was made.
pub open spec fn creation_pattern() -> Seq<char> {
    "%Y-%m-%d %H:%M:%S UTC"@
}

/// The reply of `ping` for a delay in milliseconds.
pub open spec fn ping_reply(api_latency_ms: u128) -> ReplyView {
    ReplyView::Text {
        content: "**API Latency:** "@ + decimal(api_latency_ms as nat) + "ms"@,
        ephemeral: false,
    }
}

/// The rich reply of `serverinfo` for a known server, with the day it was
/// made already written out.
pub open spec fn serverinfo_embed(guild: GuildInfo, created_at: Seq<char>) -> EmbedView {
    EmbedView {
        title: guild.name@ + " Server Information"@,
        color: 0x00ff00,
        thumbnail: Some(or_text(guild.icon_url, ""@)),
        image: None,
        fields: seq![
            FieldView { name: "Server ID"@, value: decimal(guild.id as nat), inline: true },
            FieldView { name: "Owner"@, value: or_text(guild.owner_tag, "Unknown"@), inline: true },
            FieldView {
                name: "Member Count"@,
                value: decimal(guild.member_count as nat),
                inline: true,
            },
            FieldView { name: "Creation Date"@, value: created_at, inline: true },
            FieldView { name: "Roles"@, value: decimal(guild.roles as nat), inline: true },
            FieldView { name: "Channels"@, value: decimal(guild.channels as nat), inline: true },
            FieldView { name: "Boost Level"@, value: guild.premium_tier@, inline: true },
            FieldView {
                name: "Boosters"@,
                value: decimal(
                    match guild.boosters {
                        Some(count) => count as nat,
                        None => 0,
                    },
                ),
                inline: true,
            },
            FieldView {
                name: "Verification Level"@,
                value: guild.verification_level@,
                inline: true,
            },
        ],
        timestamped: false,
    }
}

/// The reply of `serverinfo`, or nothing where the day the server was made
/// cannot be written.
pub open spec fn serverinfo_reply(lookup: GuildLookup) -> Option<ReplyView> {
    match lookup {
        GuildLookup::NotInGuild => Some(
            ReplyView::Text {
                content: "This command can only be used in a server."@,
                ephemeral: true,
            },
        ),
        GuildLookup::NotCached => Some(
            ReplyView::Text { content: "Could not fetch server information."@, ephemeral: true },
        ),
        GuildLookup::Found { guild } => match utc_text(guild.created_at_unix, creation_pattern()) {
            Some(created_at) => Some(
                ReplyView::Rich { embed: serverinfo_embed(guild, created_at) },
            ),
            None => None,
        },
    }
}

/// The reply of `membercount`.
pub open spec fn membercount_reply(lookup: GuildLookup) -> ReplyView {
    match lookup {
        GuildLookup::NotInGuild => ReplyView::Text {
            content: "This command can only be used in a server."@,
            ephemeral: true,
        },
        GuildLookup::NotCached => ReplyView::Text {
            content: "Could not fetch server information for member count."@,
            ephemeral: true,
        },
        GuildLookup::Found { guild } => ReplyView::Rich {
            embed: EmbedView {
                title: "Member Statistics"@,
                color: 0x00bfff,
                thumbnail: None,
                image: None,
                fields: seq![
                    FieldView { name: "Server"@, value: guild.name@, inline: true },
                    FieldView {
                        name: "Members"@,
                        value: decimal(guild.member_count as nat),
                        inline: true,
                    },
                ],
                timestamped: false,
            },
        },
    }
}

/// Answers `ping` with the delay that was measured, in milliseconds.
pub fn ping(api_latency_ms: u128) -> (reply: Reply)
    ensures
        reply@ == ping_reply(api_latency_ms),
{
    let content = String::from_str("**API Latency:** ").concat(
        decimal_text(api_latency_ms).as_str(),
    ).concat("ms");
    Reply::Text { content, ephemeral: false }
}

/// Writes the rich reply of `serverinfo` for a known server and the day it
/// was made.
pub fn serverinfo_for(guild: &GuildInfo, created_at: String) -> (embed: Embed)
    ensures
        embed@ == serverinfo_embed(*guild, created_at@),
{
    let boosters: u64 = match guild.boosters {
        Some(count) => count,
        None => 0,
    };
    let fields = vec![
        field("Server ID", decimal_text(guild.id as u128), true),
        field("Owner", text_or(&guild.owner_tag, "Unknown"), true),
        field("Member Count", decimal_text(guild.member_count as u128), true),
        field("Creation Date", created_at, true),
        field("Roles", decimal_text(guild.roles as u128), true),
        field("Channels", decimal_text(guild.channels as u128), true),
        field("Boost Level", guild.premium_tier.clone(), true),
        field("Boosters", decimal_text(boosters as u128), true),
        field("Verification Level", guild.verification_level.clone(), true),
    ];
    let embed = Embed {
        title: guild.name.clone().concat(" Server Information"),
        color: 0x00ff00,
        thumbnail: Some(text_or(&guild.icon_url, "")),
        image: None,
        fields,
        timestamped: false,
    };
    assert(embed@.fields =~= serverinfo_embed(*guild, created_at@).fields);
    embed
}

/// Answers `serverinfo`: a refusal outside a server, an apology where the
/// server is not known, and else the server's description. There is no
/// answer where the day the server was made cannot be written.
pub fn serverinfo(lookup: &GuildLookup) -> (reply: Option<Reply>)
    ensures
        match serverinfo_reply(*lookup) {
            Some(expected) => reply is Some && reply->0@ == expected,
            None => reply is None,
        },
{
    match lookup {
        GuildLookup::NotInGuild => Some(private_text("This command can only be used in a server.")),
        GuildLookup::NotCached => Some(private_text("Could not fetch server information.")),
        GuildLookup::Found { guild } => {
            match format_utc(guild.created_at_unix, "%Y-%m-%d %H:%M:%S UTC") {
                Some(created_at) => Some(Reply::Rich { embed: serverinfo_for(guild, created_at) }),
                None => None,
            }
        },
    }
}

/// Answers `membercount`: a refusal outside a server, an apology where the
/// server is not known, and else the server's name and how many members it
/// has.
pub fn membercount(lookup: &GuildLookup) -> (reply: Reply)
    ensures
        reply@ == membercount_reply(*lookup),
{
    match lookup {
        GuildLookup::NotInGuild => private_text("This command can only be used in a server."),
        GuildLookup::NotCached => private_text(
            "Could not fetch server information for member count.",
        ),
        GuildLookup::Found { guild } => {
            let fields = vec![
                field("Server", guild.name.clone(), true),
                field("Members", decimal_text(guild.member_count as u128), true),
            ];
            let embed = Embed {
                title: String::from_str("Member Statistics"),
                color: 0x00bfff,
                thumbnail: None,
                image: None,
                fields,
                timestamped: false,
            };
            assert(embed@.fields =~= membercount_reply(*lookup)->embed.fields);
            Reply::Rich { embed }
        },
    }
}

/// A slash command as it is registered: its name and what it says it does.
#[derive(Debug, Clone, Copy)]
pub struct CommandSpec {
    pub name: &'static str,
    pub description: &'static str,
}

/// The registration of `ping`.
pub fn register_ping() -> (command: CommandSpec)
    ensures
        command.name@ == "ping"@,
        command.description@ == "Check the bot's latency"@,
{
    CommandSpec { name: "ping", description: "Check the bot's latency" }
}

/// The registration of `serverinfo`.
pub fn register_serverinfo() -> (command: CommandSpec)
    ensures
        command.name@ == "serverinfo"@,
        command.description@ == "Display information about the current server"@,
{
    CommandSpec {
        name: "serverinfo",
        description: "Display information about the current server",
    }
}

/// The registration of `membercount`.
pub fn register_membercount() -> (command: CommandSpec)
    ensures
        command.name@ == "membercount"@,
        command.description@ == "Display the current member count of the server"@,
{
    CommandSpec {
        name: "membercount",
        description: "Display the current member count of the server",
    }
}

/// The slash commands that are answered.
#[derive(Debug, Clone, Copy, PartialEq, Eq, Structural)]
pub enum SlashCommand {
    Ping,
    ServerInfo,
    MemberCount,
}

/// The command that goes by a name, if one does.
pub open spec fn named(name: Seq<char>) -> Option<SlashCommand> {
    if name == "ping"@ {
        Some(SlashCommand::Ping)
    } else if name == "serverinfo"@ {
        Some(SlashCommand::ServerInfo)
    } else if name == "membercount"@ {
        Some(SlashCommand::MemberCount)
    } else {
        None
    }
}

/// Finds the command that was used by its name. A name that no command has
/// gives nothing, and such a use is left unanswered.
pub fn command_named(name: &str) -> (found: Option<SlashCommand>)
    ensures
        found == named(name@),
{
    let name = String::from_str(name);
    if name == String::from_str("ping") {
        Some(SlashCommand::Ping)
    } else if name == String::from_str("serverinfo") {
        Some(SlashCommand::ServerInfo)
    } else if name == String::from_str("membercount") {
        Some(SlashCommand::MemberCount)
    } else {
        None
    }
}

/// The commands that are registered when the assistant is ready, in order.
pub fn registered_commands() -> (commands: Vec<CommandSpec>)
    ensures
        commands@.len() == 3,
        commands@[0].name@ == "ping"@,
        commands@[0].description@ == "Check the bot's latency"@,
        commands@[1].name@ == "serverinfo"@,
        commands@[1].description@ == "Display information about the current server"@,
        commands@[2].name@ == "membercount"@,
        commands@[2].description@ == "Display the current member count of the server"@,
{
    vec![register_ping(), register_serverinfo(), register_membercount()]
}

/// What the user is told when a command could not be answered: a fixed
/// sentence that only they see.
pub fn command_failed() -> (reply: Reply)
    ensures
        reply@ == (ReplyView::Text {
            content: "An error occurred while processing the command."@,
            ephemeral: true,
        }),
{
    private_text("An error occurred while processing the command.")
}

} // verus!
