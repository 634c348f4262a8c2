//! The bot's configuration and the read-only state it is started with.

use crate::arguments::delimiters_usable;
use crate::text::texts;
use vstd::prelude::*;
use vstd::string::*;

verus! {

/// Mathematical view of a [`Config`].
pub struct ConfigView {
    /// The text a message must begin with to be read as a command.
    pub prefix: Seq<char>,
    /// The bot's own user id, if mentioning the bot also introduces a command.
    pub bot_id: Option<u64>,
    /// The strings at which argument text is split, in order of preference.
    pub delimiters: Seq<Seq<char>>,
}

impl ConfigView {
    /// The configuration the bot runs with by default: prefix `!`, commands
    /// accepted after a mention of `bot_id`, arguments split at `", "` and `","`.
    pub open spec fn standard(bot_id: u64) -> ConfigView {
        ConfigView { prefix: "!"@, bot_id: Some(bot_id), delimiters: seq![", "@, ","@] }
    }
}

/// How the router recognises commands and how argument text is split.
///
/// Every delimiter of a `Config` is non-empty; [`Config::new`] refuses a list
/// that holds an empty one.
#[derive(Debug)]
pub struct Config {
    prefix: String,
    bot_id: Option<u64>,
    delimiters: Vec<String>,
}

impl View for Config {
    type V = ConfigView;

    closed spec fn view(&self) -> ConfigView {
        ConfigView {
            prefix: self.prefix@,
            bot_id: self.bot_id,
            delimiters: texts(self.delimiters@),
        }
    }
}

impl Config {
    #[verifier::type_invariant]
    spec fn usable(self) -> bool {
        delimiters_usable(texts(self.delimiters@))
    }

    /// Builds a configuration, or returns `None` when one of the delimiters is empty.
    pub fn new(prefix: &str, bot_id: Option<u64>, delimiters: Vec<String>) -> (config: Option<
        Config,
    >)
        ensures
            config is Some <==> delimiters_usable(texts(delimiters@)),
            config matches Some(c) ==> c@ == (ConfigView {
                prefix: prefix@,
                bot_id,
                delimiters: texts(delimiters@),
            }),
    {
        let mut i: usize = 0;
        while i < delimiters.len()
            invariant
                i <= delimiters.len(),
                forall|k: int| 0 <= k < i ==> (#[trigger] texts(delimiters@)[k]).len() > 0,
            decreases delimiters.len() - i,
        {
            if delimiters[i].as_str().unicode_len() == 0 {
                assert(texts(delimiters@)[i as int].len() == 0);
                return None;
            }
            i = i + 1;
        }
        Some(Config { prefix: String::from_str(prefix), bot_id, delimiters })
    }

    /// The default configuration for the bot whose user id is `bot_id`.
    pub fn standard(bot_id: u64) -> (config: Config)
        ensures
            config@ == ConfigView::standard(bot_id),
    {
        let mut delimiters: Vec<String> = Vec::new();
        delimiters.push(String::from_str(", "));
        delimiters.push(String::from_str(","));
        proof {
            reveal_strlit(", ");
            reveal_strlit(",");
            assert(texts(delimiters@) =~= seq![", "@, ","@]);
        }
        Config { prefix: String::from_str("!"), bot_id: Some(bot_id), delimiters }
    }

    /// The command prefix.
    pub fn prefix(&self) -> (prefix: &String)
        ensures
            prefix@ == self@.prefix,
    {
        &self.prefix
    }

    /// The user id whose mention introduces a command, if any.
    pub fn bot_id(&self) -> (bot_id: Option<u64>)
        ensures
            bot_id == self@.bot_id,
    {
        self.bot_id
    }

    /// The argument delimiters, none of them empty.
    pub fn delimiters(&self) -> (delimiters: &Vec<String>)
        ensures
            texts(delimiters@) == self@.delimiters,
            delimiters_usable(self@.delimiters),
    {
        proof {
            use_type_invariant(self);
        }
        &self.delimiters
    }
}

/// The role names members may give themselves when the bot starts.
pub open spec fn startup_role_names() -> Seq<Seq<char>> {
    seq!["bot watchers"@, "politics"@, "makers"@, "venters"@]
}

/// Builds the list named by [`startup_role_names`].
pub fn startup_roles() -> (roles: Vec<String>)
    ensures
        texts(roles@) == startup_role_names(),
{
    let mut roles: Vec<String> = Vec::new();
    roles.push(String::from_str("bot watchers"));
    roles.push(String::from_str("politics"));
    roles.push(String::from_str("makers"));
    roles.push(String::from_str("venters"));
    assert(texts(roles@) =~= startup_role_names());
    roles
}

/// Mathematical view of a [`Bot`].
pub struct BotView {
    /// The configuration.
    pub config: ConfigView,
    /// The joinable role names, in the order they were given.
    pub joinable: Seq<Seq<char>>,
}

/// The bot's state: its configuration and the joinable role names. Both are
/// fixed when the bot is built and only read afterwards.
#[derive(Debug)]
pub struct Bot {
    config: Config,
    joinable: Vec<String>,
}

impl View for Bot {
    type V = BotView;

    closed spec fn view(&self) -> BotView {
        BotView { config: self.config@, joinable: texts(self.joinable@) }
    }
}

impl Bot {
    /// A bot with the given configuration and joinable role names.
    pub fn new(config: Config, joinable: Vec<String>) -> (bot: Bot)
        ensures
            bot@ == (BotView { config: config@, joinable: texts(joinable@) }),
    {
        Bot { config, joinable }
    }

    /// The bot as it is started by default: [`Config::standard`] and [`startup_roles`].
    pub fn standard(bot_id: u64) -> (bot: Bot)
        ensures
            bot@ == (BotView {
                config: ConfigView::standard(bot_id),
                joinable: startup_role_names(),
            }),
    {
        Bot { config: Config::standard(bot_id), joinable: startup_roles() }
    }

    /// The configuration.
    pub fn config(&self) -> (config: &Config)
        ensures
            config@ == self@.config,
    {
        &self.config
    }

    /// The joinable role names.
    pub fn joinable(&self) -> (joinable: &Vec<String>)
        ensures
            texts(joinable@) == self@.joinable,
    {
        &self.joinable
    }
}

} // verus!
