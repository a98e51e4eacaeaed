use axis_bot::commands::{
    command_failed, command_named, membercount, ping, register_membercount, register_ping,
    register_serverinfo, registered_commands, serverinfo, serverinfo_for, GuildInfo, GuildLookup,
    Reply, SlashCommand,
};

fn sample_guild() -> GuildInfo {
    GuildInfo {
        name: "Builders".to_string(),
        icon_url: Some("https://cdn.example/icon.png".to_string()),
        id: 81384788765712384,
        owner_tag: Some("owner#0001".to_string()),
        member_count: 1523,
        created_at_unix: 1431648000,
        roles: 12,
        channels: 40,
        premium_tier: "Tier2".to_string(),
        boosters: Some(7),
        verification_level: "Medium".to_string(),
    }
}

fn text_of_reply(reply: &Reply) -> (String, bool) {
    match reply {
        Reply::Text { content, ephemeral } => (content.clone(), *ephemeral),
        Reply::Rich { .. } => panic!("expected a plain reply"),
    }
}

fn field_rows(reply: &Reply) -> Vec<(String, String, bool)> {
    match reply {
        Reply::Rich { embed } => embed
            .fields
            .iter()
            .map(|field| (field.name.clone(), field.value.clone(), field.inline))
            .collect(),
        Reply::Text { .. } => panic!("expected a rich reply"),
    }
}

fn row(name: &str, value: &str, inline: bool) -> (String, String, bool) {
    (name.to_string(), value.to_string(), inline)
}

#[test]
fn ping_reports_the_delay_in_decimal() {
    assert_eq!(text_of_reply(&ping(0)), ("**API Latency:** 0ms".to_string(), false));
    assert_eq!(text_of_reply(&ping(9)).0, "**API Latency:** 9ms");
    assert_eq!(text_of_reply(&ping(10)).0, "**API Latency:** 10ms");
    assert_eq!(text_of_reply(&ping(1234567890)).0, "**API Latency:** 1234567890ms");
    assert_eq!(
        text_of_reply(&ping(u128::MAX)).0,
        "**API Latency:** 340282366920938463463374607431768211455ms"
    );
}

#[test]
fn serverinfo_needs_a_server() {
    let reply = serverinfo(&GuildLookup::NotInGuild).unwrap();
    assert_eq!(
        text_of_reply(&reply),
        ("This command can only be used in a server.".to_string(), true)
    );
    let reply = serverinfo(&GuildLookup::NotCached).unwrap();
    assert_eq!(text_of_reply(&reply), ("Could not fetch server information.".to_string(), true));
}

#[test]
fn serverinfo_describes_a_known_server() {
    let reply = serverinfo(&GuildLookup::Found { guild: sample_guild() }).unwrap();
    match &reply {
        Reply::Rich { embed } => {
            assert_eq!(embed.title, "Builders Server Information");
            assert_eq!(embed.color, 0x00ff00);
            assert_eq!(embed.thumbnail.as_deref(), Some("https://cdn.example/icon.png"));
            assert_eq!(embed.image, None);
            assert!(!embed.timestamped);
        },
        Reply::Text { .. } => panic!("expected a rich reply"),
    }
    assert_eq!(
        field_rows(&reply),
        vec![
            row("Server ID", "81384788765712384", true),
            row("Owner", "owner#0001", true),
            row("Member Count", "1523", true),
            row("Creation Date", "2015-05-15 00:00:00 UTC", true),
            row("Roles", "12", true),
            row("Channels", "40", true),
            row("Boost Level", "Tier2", true),
            row("Boosters", "7", true),
            row("Verification Level", "Medium", true),
        ]
    );
}

#[test]
fn serverinfo_fills_in_what_is_missing() {
    let mut guild = sample_guild();
    guild.icon_url = None;
    guild.owner_tag = None;
    guild.boosters = None;
    guild.created_at_unix = 0;
    let reply = serverinfo(&GuildLookup::Found { guild }).unwrap();
    match &reply {
        Reply::Rich { embed } => assert_eq!(embed.thumbnail.as_deref(), Some("")),
        Reply::Text { .. } => panic!("expected a rich reply"),
    }
    let rows = field_rows(&reply);
    assert_eq!(rows[1], row("Owner", "Unknown", true));
    assert_eq!(rows[3], row("Creation Date", "1970-01-01 00:00:00 UTC", true));
    assert_eq!(rows[7], row("Boosters", "0", true));
}

#[test]
fn serverinfo_has_no_answer_for_a_day_beyond_the_calendar() {
    let mut guild = sample_guild();
    guild.created_at_unix = i64::MAX;
    assert!(serverinfo(&GuildLookup::Found { guild }).is_none());
    let mut guild = sample_guild();
    guild.created_at_unix = i64::MIN;
    assert!(serverinfo(&GuildLookup::Found { guild }).is_none());
}

#[test]
fn serverinfo_shows_the_day_it_is_given() {
    let embed = serverinfo_for(&sample_guild(), "some day".to_string());
    assert_eq!(embed.fields[3].name, "Creation Date");
    assert_eq!(embed.fields[3].value, "some day");
    assert_eq!(embed.fields.len(), 9);
}

#[test]
fn membercount_counts_a_known_server() {
    let reply = membercount(&GuildLookup::Found { guild: sample_guild() });
    match &reply {
        Reply::Rich { embed } => {
            assert_eq!(embed.title, "Member Statistics");
            assert_eq!(embed.color, 0x00bfff);
            assert_eq!(embed.thumbnail, None);
            assert_eq!(embed.image, None);
            assert!(!embed.timestamped);
        },
        Reply::Text { .. } => panic!("expected a rich reply"),
    }
    assert_eq!(field_rows(&reply), vec![row("Server", "Builders", true), row("Members", "1523", true)]);
}

#[test]
fn membercount_needs_a_server() {
    assert_eq!(
        text_of_reply(&membercount(&GuildLookup::NotInGuild)),
        ("This command can only be used in a server.".to_string(), true)
    );
    assert_eq!(
        text_of_reply(&membercount(&GuildLookup::NotCached)),
        ("Could not fetch server information for member count.".to_string(), true)
    );
}

#[test]
fn commands_are_registered_under_their_names() {
    assert_eq!(register_ping().name, "ping");
    assert_eq!(register_ping().description, "Check the bot's latency");
    assert_eq!(register_serverinfo().name, "serverinfo");
    assert_eq!(
        register_serverinfo().description,
        "Display information about the current server"
    );
    assert_eq!(register_membercount().name, "membercount");
    assert_eq!(
        register_membercount().description,
        "Display the current member count of the server"
    );
    let names: Vec<&str> = registered_commands().iter().map(|command| command.name).collect();
    assert_eq!(names, vec!["ping", "serverinfo", "membercount"]);
}

#[test]
fn commands_are_found_by_their_exact_names() {
    assert_eq!(command_named("ping"), Some(SlashCommand::Ping));
    assert_eq!(command_named("serverinfo"), Some(SlashCommand::ServerInfo));
    assert_eq!(command_named("membercount"), Some(SlashCommand::MemberCount));
    assert_eq!(command_named("Ping"), None);
    assert_eq!(command_named("ping "), None);
    assert_eq!(command_named(""), None);
    assert_eq!(command_named("help"), None);
}

#[test]
fn failed_command_gets_a_private_apology() {
    assert_eq!(
        text_of_reply(&command_failed()),
        ("An error occurred while processing the command.".to_string(), true)
    );
}
