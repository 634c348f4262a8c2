use disco_monk::bot::{startup_roles, Bot, Config};
use disco_monk::handlers::{remaining, Action};
use disco_monk::roles::{contains_text, role_by_name, select_roles, GuildRole, Member};
use disco_monk::router::Command;

fn reply(text: &str) -> Action {
    Action::Reply { text: text.to_string() }
}

fn role(id: u64, name: &str) -> GuildRole {
    GuildRole { id, name: name.to_string() }
}

fn member() -> Member {
    Member {
        roles: vec![1, 2],
        guild: vec![
            role(1, "everyone"),
            role(2, "regulars"),
            role(10, "politics"),
            role(11, "makers"),
            role(12, "admins"),
            role(13, "bot watchers"),
        ],
    }
}

fn strings(items: &[&str]) -> Vec<String> {
    items.iter().map(|s| s.to_string()).collect()
}

#[test]
fn ping_replies_pong() {
    let bot = Bot::standard(42);
    assert_eq!(bot.ping(), vec![reply("Pong!")]);
    assert_eq!(bot.run(Command::Ping, None, ""), vec![reply("Pong!")]);
}

#[test]
fn pong_replies_ping() {
    let bot = Bot::standard(42);
    assert_eq!(bot.pong(), vec![reply("Ping!")]);
    assert_eq!(bot.run(Command::Pong, None, "anything"), vec![reply("Ping!")]);
}

#[test]
fn startup_roles_are_the_four_names_in_order() {
    assert_eq!(startup_roles(), strings(&["bot watchers", "politics", "makers", "venters"]));
    assert_eq!(Bot::standard(1).joinable(), &startup_roles());
}

#[test]
fn list_reply_reads_back_as_the_startup_roles() {
    let bot = Bot::standard(42);
    let actions = bot.list();
    assert_eq!(
        actions,
        vec![reply("[\n    \"bot watchers\",\n    \"politics\",\n    \"makers\",\n    \"venters\",\n]")]
    );
    let text = match &actions[0] {
        Action::Reply { text } => text.clone(),
        other => panic!("unexpected action {:?}", other),
    };
    let inner = text.trim().strip_prefix('[').unwrap().strip_suffix(']').unwrap();
    let mut names: Vec<String> = Vec::new();
    for line in inner.lines() {
        let item = line.trim().trim_end_matches(',');
        if item.is_empty() {
            continue;
        }
        names.push(item.strip_prefix('"').unwrap().strip_suffix('"').unwrap().to_string());
    }
    assert_eq!(names, strings(&["bot watchers", "politics", "makers", "venters"]));
}

#[test]
fn list_and_roles_answer_alike() {
    let bot = Bot::new(Config::standard(42), strings(&["a", "b \"quoted\""]));
    let expected = vec![reply("[\n    \"a\",\n    \"b \\\"quoted\\\"\",\n]")];
    assert_eq!(bot.list(), expected);
    assert_eq!(bot.roles(), expected);
    assert_eq!(bot.run(Command::List, None, "ignored"), expected);
    assert_eq!(bot.run(Command::Roles, None, ""), expected);
    assert_eq!(bot.respond(None, "!list"), expected);
    assert_eq!(bot.respond(None, "!list roles"), expected);
    let empty = Bot::new(Config::standard(42), vec![]);
    assert_eq!(empty.list(), vec![reply("[]")]);
}

#[test]
fn join_two_joinable_guild_roles() {
    let bot = Bot::standard(42);
    let member = member();
    let expected = vec![
        Action::EditRoles { roles: vec![1, 2, 10, 11] },
        reply("Joining [\"politics\", \"makers\"]"),
    ];
    assert_eq!(bot.join(Some(&member), "politics, makers"), expected);
    assert_eq!(bot.join(Some(&member), "politics,makers"), expected);
    assert_eq!(bot.respond(Some(&member), "!join politics, makers"), expected);
    assert_eq!(
        bot.join_roles(Some(&member), &strings(&["politics", "makers"])),
        expected
    );
}

#[test]
fn join_keeps_the_order_asked_for() {
    let bot = Bot::standard(42);
    let member = member();
    assert_eq!(
        bot.join(Some(&member), "makers, bot watchers, politics"),
        vec![
            Action::EditRoles { roles: vec![1, 2, 11, 13, 10] },
            reply("Joining [\"makers\", \"bot watchers\", \"politics\"]"),
        ]
    );
}

#[test]
fn join_nonexistent_role_grants_nothing() {
    let bot = Bot::standard(42);
    let member = member();
    let actions = bot.join(Some(&member), "nonexistent-role");
    assert_eq!(actions, vec![Action::EditRoles { roles: vec![1, 2] }, reply("Joining []")]);
    for action in &actions {
        if let Action::Reply { text } = action {
            assert!(!text.contains("nonexistent-role"));
        }
    }
}

#[test]
fn join_needs_both_a_guild_role_and_a_joinable_name() {
    let bot = Bot::standard(42);
    let member = member();
    // "admins" exists in the guild but is not joinable; "venters" is joinable
    // but the guild has no such role.
    assert_eq!(
        bot.join(Some(&member), "admins, venters, makers"),
        vec![Action::EditRoles { roles: vec![1, 2, 11] }, reply("Joining [\"makers\"]")]
    );
}

#[test]
fn join_repeats_a_role_asked_for_twice_or_already_held() {
    let bot = Bot::standard(42);
    let mut member = member();
    member.roles = vec![10];
    assert_eq!(
        bot.join(Some(&member), "politics,politics"),
        vec![
            Action::EditRoles { roles: vec![10, 10, 10] },
            reply("Joining [\"politics\", \"politics\"]"),
        ]
    );
}

#[test]
fn join_is_case_sensitive_and_keeps_spaces_and_quotes() {
    let bot = Bot::standard(42);
    let member = member();
    assert_eq!(
        bot.join(Some(&member), "Politics,  makers, \"makers\", politics"),
        vec![Action::EditRoles { roles: vec![1, 2, 10] }, reply("Joining [\"politics\"]")]
    );
}

#[test]
fn join_reads_quotes_as_the_framework_does() {
    let bot = Bot::standard(42);
    let member = member();
    let nothing = vec![Action::EditRoles { roles: vec![1, 2] }, reply("Joining []")];
    // A quoted argument keeps its quotes and so names no role.
    assert_eq!(
        bot.join(Some(&member), "\"politics\", makers"),
        vec![Action::EditRoles { roles: vec![1, 2, 11] }, reply("Joining [\"makers\"]")]
    );
    // A quote that is never closed takes the rest of the text with it.
    assert_eq!(bot.join(Some(&member), "\"politics, makers"), nothing);
    assert_eq!(bot.join(Some(&member), "\"politics"), nothing);
    assert_eq!(bot.join(Some(&member), "\""), nothing);
    assert_eq!(bot.join(Some(&member), "\"\""), nothing);
    // Empty arguments are skipped.
    assert_eq!(bot.join(Some(&member), ",,, ,"), nothing);
    assert_eq!(
        bot.join(Some(&member), ",politics,,makers,"),
        vec![
            Action::EditRoles { roles: vec![1, 2, 10, 11] },
            reply("Joining [\"politics\", \"makers\"]"),
        ]
    );
    assert_eq!(bot.join(Some(&member), "pólitics, mäkers, 🦀"), nothing);
}

#[test]
fn join_without_arguments_or_member() {
    let bot = Bot::standard(42);
    let member = member();
    assert_eq!(
        bot.join(Some(&member), ""),
        vec![Action::EditRoles { roles: vec![1, 2] }, reply("Joining []")]
    );
    assert_eq!(bot.join(None, "politics"), vec![]);
    assert_eq!(bot.respond(None, "!join politics"), vec![]);
    assert_eq!(bot.join_roles(None, &strings(&["politics"])), vec![]);
}

#[test]
fn join_splits_at_the_configured_delimiters() {
    let config = Config::new("!", None, strings(&[";"])).unwrap();
    let bot = Bot::new(config, startup_roles());
    let member = member();
    assert_eq!(
        bot.join(Some(&member), "politics;makers"),
        vec![
            Action::EditRoles { roles: vec![1, 2, 10, 11] },
            reply("Joining [\"politics\", \"makers\"]"),
        ]
    );
    assert_eq!(
        bot.join(Some(&member), "politics,makers"),
        vec![Action::EditRoles { roles: vec![1, 2] }, reply("Joining []")]
    );
}

#[test]
fn select_roles_takes_the_first_guild_role_of_a_name() {
    let member = Member { roles: vec![], guild: vec![role(5, "makers"), role(6, "makers")] };
    let plan = select_roles(&strings(&["makers"]), &member, &strings(&["makers"]));
    assert_eq!(plan.roles, vec![5]);
    assert_eq!(plan.names, strings(&["makers"]));
    assert_eq!(role_by_name(&member.guild, &"makers".to_string()), Some(5));
    assert_eq!(role_by_name(&member.guild, &"Makers".to_string()), None);
    assert_eq!(role_by_name(&vec![], &"makers".to_string()), None);
}

#[test]
fn contains_text_compares_whole_strings() {
    let items = strings(&["bot watchers", "politics"]);
    assert!(contains_text(&items, &"politics".to_string()));
    assert!(contains_text(&items, &"bot watchers".to_string()));
    assert!(!contains_text(&items, &"bot".to_string()));
    assert!(!contains_text(&items, &" politics".to_string()));
    assert!(!contains_text(&vec![], &"politics".to_string()));
}

#[test]
fn drop_acknowledges_a_joinable_role() {
    let bot = Bot::standard(42);
    assert_eq!(bot.drop("politics"), vec![reply("Leaving politics")]);
    assert_eq!(bot.drop_roles("politics"), vec![reply("Leaving politics")]);
    assert_eq!(bot.run(Command::Drop, None, "politics"), vec![reply("Leaving politics")]);
    // The member's roles play no part: the answer is the same for a member
    // who does not hold the role.
    let member = member();
    assert_eq!(bot.respond(Some(&member), "!drop politics"), vec![reply("Leaving politics")]);
    assert_eq!(bot.respond(None, "!drop politics"), vec![reply("Leaving politics")]);
}

#[test]
fn drop_answers_once_for_each_listed_field() {
    let bot = Bot::standard(42);
    assert_eq!(
        bot.drop("politics,makers,bot watchers"),
        vec![reply("Leaving politics"), reply("Leaving makers"), reply("Leaving bot watchers")]
    );
    assert_eq!(bot.drop("politics,politics"), vec![reply("Leaving politics"); 2]);
}

#[test]
fn drop_compares_fields_as_they_stand() {
    let bot = Bot::standard(42);
    assert_eq!(bot.drop("politics, makers"), vec![reply("Leaving politics")]);
    assert_eq!(bot.drop("Politics"), vec![]);
    assert_eq!(bot.drop("admins"), vec![]);
    assert_eq!(bot.drop(""), vec![]);
    assert_eq!(bot.drop("politics,"), vec![reply("Leaving politics")]);
}

#[test]
fn drop_starts_at_the_first_argument() {
    let bot = Bot::standard(42);
    // Delimiters in front of the first argument are not part of the
    // remaining argument text.
    assert_eq!(bot.drop(", politics"), vec![reply("Leaving politics")]);
    assert_eq!(bot.drop(",,makers,politics"), vec![reply("Leaving makers"), reply("Leaving politics")]);
    assert_eq!(bot.drop_roles(", politics"), vec![]);
}

#[test]
fn drop_reads_quoted_text_like_any_other() {
    let bot = Bot::standard(42);
    assert_eq!(bot.drop("\"politics\",makers"), vec![reply("Leaving makers")]);
    assert_eq!(bot.drop("\"politics,makers"), vec![reply("Leaving makers")]);
    assert_eq!(bot.drop("pólitics,🦀,makers"), vec![reply("Leaving makers")]);
}

#[test]
fn play_and_loop_sound_do_nothing() {
    let bot = Bot::standard(42);
    assert_eq!(bot.play(), vec![]);
    assert_eq!(bot.loop_sound(), vec![]);
    assert_eq!(bot.run(Command::Play, None, "song"), vec![]);
    assert_eq!(bot.run(Command::LoopSound, None, "song"), vec![]);
}

#[test]
fn unknown_command_replies_to_prefixed_messages_only() {
    let bot = Bot::standard(42);
    let apology = vec![reply("bzzz... don't know that one :pensive:")];
    assert_eq!(bot.unknown_command("!dance"), apology);
    assert_eq!(bot.unknown_command("!"), apology);
    assert_eq!(bot.unknown_command("<@42> dance"), vec![]);
    assert_eq!(bot.unknown_command(" !dance"), vec![]);
    assert_eq!(bot.unknown_command(""), vec![]);
    let other = Bot::new(Config::new("bot:", None, vec![]).unwrap(), vec![]);
    assert_eq!(other.unknown_command("bot:dance"), apology);
    assert_eq!(other.unknown_command("bot dance"), vec![]);
    assert_eq!(other.unknown_command("!dance"), vec![]);
}

#[test]
fn help_is_handed_to_the_caller() {
    let bot = Bot::standard(42);
    assert_eq!(
        bot.run(Command::Help, None, "join"),
        vec![Action::Help { topic: "join".to_string() }]
    );
}

#[test]
fn remaining_follows_success_and_stops_at_failure() {
    let plan = || vec![Action::EditRoles { roles: vec![1, 10] }, reply("Joining [\"politics\"]")];
    assert_eq!(remaining(plan(), true), vec![reply("Joining [\"politics\"]")]);
    assert_eq!(remaining(plan(), false), vec![]);
    assert_eq!(remaining(vec![reply("Pong!")], true), vec![]);
    assert_eq!(remaining(vec![], true), vec![]);
    assert_eq!(remaining(vec![], false), vec![]);
}
