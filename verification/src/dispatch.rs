//! From a message to the bot's actions: the router followed by the handler
//! of the command it found.

use crate::arguments::{parsed_arguments, remaining_arguments};
use crate::bot::{Bot, BotView, ConfigView};
use crate::handlers::{
    actions_view, drop_actions, join_actions, member_view, reply, unknown_command_actions, Action,
    ActionView,
};
use crate::render::pretty_debug_text;
use crate::roles::{Member, MemberView};
use crate::router::{
    command_named, command_start, is_registered, mention_of, name_of, route, route_of, tail,
    Command, Route, RouteView,
};
use crate::text::{
    is_space, lemma_run_end, lemma_run_end_behind, lemma_run_end_is, occurs_at, run_end,
    CharClass,
};
use vstd::prelude::*;
use vstd::string::*;

verus! {

/// The actions of the handler of `command`, given the argument text `args`.
pub open spec fn run_actions(
    bot: BotView,
    command: Command,
    member: Option<MemberView>,
    args: Seq<char>,
) -> Seq<ActionView> {
    match command {
        Command::Help => seq![ActionView::Help { topic: args }],
        Command::Ping => reply("Pong!"@),
        Command::Pong => reply("Ping!"@),
        Command::List => reply(pretty_debug_text(bot.joinable)),
        Command::Roles => reply(pretty_debug_text(bot.joinable)),
        Command::Join => join_actions(
            bot.joinable,
            member,
            parsed_arguments(args, bot.config.delimiters),
        ),
        Command::Drop => drop_actions(
            bot.joinable,
            remaining_arguments(args, bot.config.delimiters),
        ),
        Command::Play => Seq::empty(),
        Command::LoopSound => Seq::empty(),
    }
}

/// The bot's actions in response to the message `content`.
pub open spec fn response(bot: BotView, member: Option<MemberView>, content: Seq<char>) -> Seq<
    ActionView,
> {
    match route_of(bot.config, content) {
        RouteView::Ignore => Seq::empty(),
        RouteView::Unknown { name } => unknown_command_actions(bot.config.prefix, content),
        RouteView::Invoke { command, args } => run_actions(bot, command, member, args),
    }
}

impl Bot {
    /// Runs the handler of `command` on the argument text `args`. `member`
    /// is the author of the message and their guild, where both are known.
    pub fn run(&self, command: Command, member: Option<&Member>, args: &str) -> (actions: Vec<
        Action,
    >)
        ensures
            actions_view(actions@) == run_actions(self@, command, member_view(member), args@),
    {
        match command {
            Command::Help => {
                let mut actions: Vec<Action> = Vec::new();
                actions.push(Action::Help { topic: String::from_str(args) });
                assert(actions_view(actions@) =~= seq![ActionView::Help { topic: args@ }]);
                actions
            },
            Command::Ping => self.ping(),
            Command::Pong => self.pong(),
            Command::List => self.list(),
            Command::Roles => self.roles(),
            Command::Join => self.join(member, args),
            Command::Drop => self.drop(args),
            Command::Play => self.play(),
            Command::LoopSound => self.loop_sound(),
        }
    }

    /// Decides what the bot does about the message `content`: nothing when
    /// the message is not for the bot, the apology of
    /// [`Bot::unknown_command`] when it names no known command, and otherwise
    /// the actions of the one handler the router selects.
    pub fn respond(&self, member: Option<&Member>, content: &str) -> (actions: Vec<Action>)
        ensures
            actions_view(actions@) == response(self@, member_view(member), content@),
    {
        match route(self.config(), content) {
            Route::Ignore => {
                let actions: Vec<Action> = Vec::new();
                assert(actions_view(actions@) =~= Seq::<ActionView>::empty());
                actions
            },
            Route::Unknown { name } => self.unknown_command(content),
            Route::Invoke { command, args } => self.run(command, member, args.as_str()),
        }
    }
}

/// The name of every command is a non-empty word without white space.
pub proof fn lemma_name_is_word(command: Command)
    ensures
        name_of(command).len() > 0,
        forall|i: int| 0 <= i < name_of(command).len() ==> !is_space(#[trigger] name_of(command)[i]),
{
    reveal_strlit("help");
    reveal_strlit("ping");
    reveal_strlit("pong");
    reveal_strlit("list");
    reveal_strlit("roles");
    reveal_strlit("join");
    reveal_strlit("drop");
    reveal_strlit("play");
    reveal_strlit("loop_sound");
}

/// Looking a registered command's name up finds that command: no two
/// registered commands share a name.
pub proof fn lemma_name_finds_command(command: Command)
    requires
        is_registered(command),
    ensures
        command_named(name_of(command)) == Some(command),
{
    reveal_strlit("help");
    reveal_strlit("ping");
    reveal_strlit("pong");
    reveal_strlit("list");
    reveal_strlit("join");
    reveal_strlit("drop");
    reveal_strlit("play");
    reveal_strlit("loop_sound");
    assert("help"@.len() == 4 && "help"@[0] == 'h');
    assert("ping"@.len() == 4 && "ping"@[0] == 'p' && "ping"@[1] == 'i');
    assert("pong"@.len() == 4 && "pong"@[0] == 'p' && "pong"@[1] == 'o');
    assert("list"@.len() == 4 && "list"@[0] == 'l');
    assert("join"@.len() == 4 && "join"@[0] == 'j');
    assert("drop"@.len() == 4 && "drop"@[0] == 'd');
    assert("play"@.len() == 4 && "play"@[0] == 'p' && "play"@[1] == 'l');
    assert("loop_sound"@.len() == 10);
}

/// The command text begins inside the message.
pub proof fn lemma_command_start_in_range(config: ConfigView, s: Seq<char>)
    ensures
        command_start(config, s) matches Some(start) ==> 0 <= start <= s.len(),
{
    match config.bot_id {
        Some(id) => {
            let digits_from: int = if s.len() > 2 && s[2] == '!' {
                3
            } else {
                2
            };
            if digits_from <= s.len() {
                lemma_run_end(s, digits_from, CharClass::Digit);
            }
        },
        None => {},
    }
}

/// A message that opens with neither the prefix nor a mention of the bot is
/// ignored: no handler runs and nothing is sent.
pub proof fn lemma_unaddressed_message_is_ignored(
    bot: BotView,
    member: Option<MemberView>,
    content: Seq<char>,
)
    requires
        !occurs_at(content, 0, bot.config.prefix),
        mention_of(bot.config, content) is None,
    ensures
        route_of(bot.config, content) == RouteView::Ignore,
        response(bot, member, content) == Seq::<ActionView>::empty(),
{
}

/// A registered command name, matched exactly, invokes the handler of that
/// command and no other, once. The name must stand where the command text
/// begins, behind the prefix or mention and any white space, and must end
/// at the end of the message or at white space; the handler gets what
/// follows the name and the white space behind it.
pub proof fn lemma_registered_name_invokes_its_handler(
    bot: BotView,
    member: Option<MemberView>,
    content: Seq<char>,
    command: Command,
)
    requires
        is_registered(command),
        command_start(bot.config, content) is Some,
        ({
            let from = run_end(content, command_start(bot.config, content)->0, CharClass::Space);
            let to = from + name_of(command).len();
            &&& occurs_at(content, from, name_of(command))
            &&& to == content.len() || is_space(content[to])
        }),
    ensures
        ({
            let from = run_end(content, command_start(bot.config, content)->0, CharClass::Space);
            let to = from + name_of(command).len();
            response(bot, member, content) == run_actions(
                bot,
                command,
                member,
                tail(content, run_end(content, to, CharClass::Space)),
            )
        }),
{
    let start = command_start(bot.config, content)->0;
    let name = name_of(command);
    let from = run_end(content, start, CharClass::Space);
    let to = from + name.len();
    lemma_command_start_in_range(bot.config, content);
    lemma_run_end(content, start, CharClass::Space);
    lemma_name_is_word(command);
    lemma_name_finds_command(command);
    assert forall|k: int| from <= k < to implies CharClass::Word.holds(#[trigger] content[k]) by {
        assert(content.subrange(from, to)[k - from] == name[k - from]);
    }
    lemma_run_end_is(content, from, CharClass::Word, to);
}

/// Only an exact name invokes a command. Where a message is routed to a
/// command, the word that stands where the command text begins is that
/// command's name, letter for letter; for `roles` it is `list`, and `roles`
/// is the word behind it. A word that is merely close to a name invokes
/// nothing.
pub proof fn lemma_invoked_command_was_named(config: ConfigView, content: Seq<char>)
    requires
        route_of(config, content) is Invoke,
    ensures
        command_start(config, content) is Some,
        ({
            let command = route_of(config, content)->command;
            let from = run_end(content, command_start(config, content)->0, CharClass::Space);
            let to = run_end(content, from, CharClass::Word);
            let next = run_end(content, to, CharClass::Space);
            if command == Command::Roles {
                &&& content.subrange(from, to) == name_of(Command::List)
                &&& content.subrange(next, run_end(content, next, CharClass::Word)) == name_of(
                    Command::Roles,
                )
            } else {
                content.subrange(from, to) == name_of(command)
            }
        }),
{
}

/// The prefix directly followed by a registered command name invokes the
/// handler of that command on what follows the name, provided the name ends
/// the message or is followed by white space, and the message as a whole
/// does not open with a mention of the bot (a mention is looked for first).
pub proof fn lemma_prefixed_name_invokes_its_handler(
    bot: BotView,
    member: Option<MemberView>,
    command: Command,
    rest: Seq<char>,
)
    requires
        is_registered(command),
        rest.len() == 0 || is_space(rest[0]),
        mention_of(bot.config, bot.config.prefix + name_of(command) + rest) is None,
    ensures
        response(bot, member, bot.config.prefix + name_of(command) + rest) == run_actions(
            bot,
            command,
            member,
            tail(rest, run_end(rest, 0, CharClass::Space)),
        ),
{
    let prefix = bot.config.prefix;
    let name = name_of(command);
    let head = prefix + name;
    let content = head + rest;
    let from = prefix.len() as int;
    let to = from + name.len();
    lemma_name_is_word(command);
    assert(content.subrange(0, from) =~= prefix);
    assert(content.subrange(from, to) =~= name);
    assert(content[from] == name[0]);
    assert(run_end(content, from, CharClass::Space) == from);
    if rest.len() > 0 {
        assert(content[to] == rest[0]);
    }
    lemma_registered_name_invokes_its_handler(bot, member, content, command);
    lemma_run_end_behind(head, rest, 0, CharClass::Space);
    lemma_run_end(rest, 0, CharClass::Space);
    let skipped = run_end(rest, 0, CharClass::Space);
    assert(tail(content, to + skipped) =~= tail(rest, skipped));
}

} // verus!
