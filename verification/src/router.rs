//! The command router: from the text of a message to the command it invokes.

use crate::bot::{Config, ConfigView};
use crate::text::{
    chars_of, decimal, decimal_text, found_at, lemma_run_end, occurs_at, run_end, scan,
    slice_text, CharClass,
};
use vstd::prelude::*;
use vstd::string::*;

verus! {

/// The commands the bot knows.
#[derive(Clone, Copy, Debug, PartialEq, Eq, Structural)]
pub enum Command {
    /// `help`: the generated overview of all commands.
    Help,
    /// `ping`.
    Ping,
    /// `pong`.
    Pong,
    /// `list`.
    List,
    /// `roles`, known only as the word that may follow `list`.
    Roles,
    /// `join`.
    Join,
    /// `drop`.
    Drop,
    /// `play`.
    Play,
    /// `loop_sound`.
    LoopSound,
}

/// The word that invokes `command`.
pub open spec fn name_of(command: Command) -> Seq<char> {
    match command {
        Command::Help => "help"@,
        Command::Ping => "ping"@,
        Command::Pong => "pong"@,
        Command::List => "list"@,
        Command::Roles => "roles"@,
        Command::Join => "join"@,
        Command::Drop => "drop"@,
        Command::Play => "play"@,
        Command::LoopSound => "loop_sound"@,
    }
}

/// Whether `command` can be invoked directly after the prefix. `roles` cannot:
/// it is only recognised behind `list`.
pub open spec fn is_registered(command: Command) -> bool {
    command != Command::Roles
}

/// The registered command whose name is exactly `name`, case included.
pub open spec fn command_named(name: Seq<char>) -> Option<Command> {
    if name == "help"@ {
        Some(Command::Help)
    } else if name == "ping"@ {
        Some(Command::Ping)
    } else if name == "pong"@ {
        Some(Command::Pong)
    } else if name == "list"@ {
        Some(Command::List)
    } else if name == "join"@ {
        Some(Command::Join)
    } else if name == "drop"@ {
        Some(Command::Drop)
    } else if name == "play"@ {
        Some(Command::Play)
    } else if name == "loop_sound"@ {
        Some(Command::LoopSound)
    } else {
        None
    }
}

impl Command {
    /// The word that invokes the command.
    pub fn name(self) -> (name: &'static str)
        ensures
            name@ == name_of(self),
    {
        match self {
            Command::Help => "help",
            Command::Ping => "ping",
            Command::Pong => "pong",
            Command::List => "list",
            Command::Roles => "roles",
            Command::Join => "join",
            Command::Drop => "drop",
            Command::Play => "play",
            Command::LoopSound => "loop_sound",
        }
    }

    /// Finds the registered command called `name`.
    pub fn lookup(name: &String) -> (command: Option<Command>)
        ensures
            command == command_named(name@),
    {
        if *name == String::from_str("help") {
            Some(Command::Help)
        } else if *name == String::from_str("ping") {
            Some(Command::Ping)
        } else if *name == String::from_str("pong") {
            Some(Command::Pong)
        } else if *name == String::from_str("list") {
            Some(Command::List)
        } else if *name == String::from_str("join") {
            Some(Command::Join)
        } else if *name == String::from_str("drop") {
            Some(Command::Drop)
        } else if *name == String::from_str("play") {
            Some(Command::Play)
        } else if *name == String::from_str("loop_sound") {
            Some(Command::LoopSound)
        } else {
            None
        }
    }
}

/// Where a mention of the user `id` that opens `s` ends: `<@`, an optional
/// `!`, the decimal id and `>`. `None` when `s` does not open with one.
pub open spec fn mention_end(s: Seq<char>, id: u64) -> Option<int> {
    let digits_from: int = if s.len() > 2 && s[2] == '!' {
        3
    } else {
        2
    };
    let digits_to = run_end(s, digits_from, CharClass::Digit);
    if s.len() >= 2 && s[0] == '<' && s[1] == '@' && s.subrange(digits_from, digits_to) == decimal(
        id as nat,
    ) && digits_to < s.len() && s[digits_to] == '>' {
        Some(digits_to + 1)
    } else {
        None
    }
}

/// Where the mention of the bot that opens `s` ends, if the configuration
/// accepts mentions and `s` opens with one.
pub open spec fn mention_of(config: ConfigView, s: Seq<char>) -> Option<int> {
    match config.bot_id {
        Some(id) => mention_end(s, id),
        None => None,
    }
}

/// Where the command text of `s` begins: behind a mention of the bot or,
/// failing that, behind the prefix. `None` when `s` opens with neither.
pub open spec fn command_start(config: ConfigView, s: Seq<char>) -> Option<int> {
    match mention_of(config, s) {
        Some(end) => Some(end),
        None => if occurs_at(s, 0, config.prefix) {
            Some(config.prefix.len() as int)
        } else {
            None
        },
    }
}

/// Mathematical view of a [`Route`].
pub enum RouteView {
    /// The message is not for the bot.
    Ignore,
    /// The message asks for a command the bot does not know.
    Unknown { name: Seq<char> },
    /// The message invokes `command` with the argument text `args`.
    Invoke { command: Command, args: Seq<char> },
}

/// What the router makes of a message.
#[derive(Clone, Debug, PartialEq, Eq)]
pub enum Route {
    /// The message is not for the bot: it opens with neither the prefix nor a
    /// mention of the bot, or nothing but white space follows.
    Ignore,
    /// The word `name` was given as a command but no command has that name.
    Unknown { name: String },
    /// The message invokes `command` with the argument text `args`.
    Invoke { command: Command, args: String },
}

impl View for Route {
    type V = RouteView;

    open spec fn view(&self) -> RouteView {
        match self {
            Route::Ignore => RouteView::Ignore,
            Route::Unknown { name } => RouteView::Unknown { name: name@ },
            Route::Invoke { command, args } => RouteView::Invoke { command: *command, args: args@ },
        }
    }
}

/// The part of `s` from position `from` on.
pub open spec fn tail(s: Seq<char>, from: int) -> Seq<char> {
    s.subrange(from, s.len() as int)
}

/// The route of the message `s`.
///
/// Behind the prefix or mention white space is skipped; the word that
/// follows, up to the next white space, is the command name and must equal a
/// registered name exactly. The argument text is what follows the name and
/// the white space behind it. After `list`, the word `roles` is taken as a
/// command of its own.
pub open spec fn route_of(config: ConfigView, s: Seq<char>) -> RouteView {
    match command_start(config, s) {
        None => RouteView::Ignore,
        Some(start) => {
            let from = run_end(s, start, CharClass::Space);
            let to = run_end(s, from, CharClass::Word);
            let rest = run_end(s, to, CharClass::Space);
            if from >= s.len() {
                RouteView::Ignore
            } else {
                match command_named(s.subrange(from, to)) {
                    None => RouteView::Unknown { name: s.subrange(from, to) },
                    Some(Command::List) => {
                        let sub_to = run_end(s, rest, CharClass::Word);
                        if s.subrange(rest, sub_to) == "roles"@ {
                            RouteView::Invoke {
                                command: Command::Roles,
                                args: tail(s, run_end(s, sub_to, CharClass::Space)),
                            }
                        } else {
                            RouteView::Invoke { command: Command::List, args: tail(s, rest) }
                        }
                    },
                    Some(command) => RouteView::Invoke { command, args: tail(s, rest) },
                }
            }
        },
    }
}

fn find_mention(chars: &Vec<char>, id: u64) -> (end: Option<usize>)
    ensures
        match end {
            Some(e) => mention_end(chars@, id) == Some(e as int) && e <= chars.len(),
            None => mention_end(chars@, id) is None,
        },
{
    if chars.len() < 2 || chars[0] != '<' || chars[1] != '@' {
        return None;
    }
    let digits_from: usize = if chars.len() > 2 && chars[2] == '!' {
        3
    } else {
        2
    };
    let digits_to = scan(chars, digits_from, CharClass::Digit);
    proof {
        lemma_run_end(chars@, digits_from as int, CharClass::Digit);
    }
    let id_text = decimal_text(id);
    if digits_to < chars.len() && chars[digits_to] == '>' && digits_to - digits_from
        == id_text.len() && found_at(chars, digits_from, &id_text) {
        Some(digits_to + 1)
    } else {
        None
    }
}

fn find_start(config: &Config, chars: &Vec<char>) -> (start: Option<usize>)
    ensures
        match start {
            Some(s) => command_start(config@, chars@) == Some(s as int) && s <= chars.len(),
            None => command_start(config@, chars@) is None,
        },
{
    let mention = match config.bot_id() {
        Some(id) => find_mention(chars, id),
        None => None,
    };
    match mention {
        Some(end) => Some(end),
        None => {
            let prefix = chars_of(config.prefix().as_str());
            if found_at(chars, 0, &prefix) {
                Some(prefix.len())
            } else {
                None
            }
        },
    }
}

/// Routes the message `content`.
pub fn route(config: &Config, content: &str) -> (route: Route)
    ensures
        route@ == route_of(config@, content@),
{
    let chars = chars_of(content);
    let len = chars.len();
    let start = match find_start(config, &chars) {
        Some(start) => start,
        None => {
            return Route::Ignore;
        },
    };
    let from = scan(&chars, start, CharClass::Space);
    let to = scan(&chars, from, CharClass::Word);
    let rest = scan(&chars, to, CharClass::Space);
    proof {
        lemma_run_end(chars@, start as int, CharClass::Space);
        lemma_run_end(chars@, from as int, CharClass::Word);
        lemma_run_end(chars@, to as int, CharClass::Space);
    }
    if from >= len {
        return Route::Ignore;
    }
    let name = slice_text(content, from, to);
    match Command::lookup(&name) {
        None => Route::Unknown { name },
        Some(Command::List) => {
            let sub_to = scan(&chars, rest, CharClass::Word);
            let after = scan(&chars, sub_to, CharClass::Space);
            proof {
                lemma_run_end(chars@, rest as int, CharClass::Word);
                lemma_run_end(chars@, sub_to as int, CharClass::Space);
            }
            if slice_text(content, rest, sub_to) == String::from_str("roles") {
                Route::Invoke { command: Command::Roles, args: slice_text(content, after, len) }
            } else {
                Route::Invoke { command: Command::List, args: slice_text(content, rest, len) }
            }
        },
        Some(command) => Route::Invoke { command, args: slice_text(content, rest, len) },
    }
}

} // verus!
