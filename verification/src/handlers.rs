//! The command handlers. Each one decides, from the bot's state and the
//! argument text, which actions the caller is to perform.

use crate::arguments::{argument_list, argument_rest, parsed_arguments, remaining_arguments};
use crate::bot::Bot;
use crate::render::{debug_list, debug_text, pretty_debug_list, pretty_debug_text};
use crate::roles::{join_plan, select_roles, contains_text, Member, MemberView};
use crate::text::{
    chars_of, fields, found_at, lemma_run_end_is, occurs_at, split_fields, texts, CharClass,
};
use vstd::prelude::*;
use vstd::string::*;

verus! {

/// Mathematical view of an [`Action`].
pub enum ActionView {
    /// Reply with `text` in the channel of the message.
    Reply { text: Seq<char> },
    /// Set the author's roles to `roles`.
    EditRoles { roles: Seq<u64> },
    /// Show the help for `topic`.
    Help { topic: Seq<char> },
}

/// Something the caller does on the bot's behalf. Actions are performed in
/// the order given; see [`remaining`] for what follows a failure.
#[derive(Clone, Debug, PartialEq, Eq)]
pub enum Action {
    /// Reply with `text` in the channel of the message.
    Reply { text: String },
    /// Set the author's roles to exactly `roles`.
    EditRoles { roles: Vec<u64> },
    /// Show the help for `topic`; the overview when `topic` is empty.
    Help { topic: String },
}

impl View for Action {
    type V = ActionView;

    open spec fn view(&self) -> ActionView {
        match self {
            Action::Reply { text } => ActionView::Reply { text: text@ },
            Action::EditRoles { roles } => ActionView::EditRoles { roles: roles@ },
            Action::Help { topic } => ActionView::Help { topic: topic@ },
        }
    }
}

/// The views of a list of actions.
pub open spec fn actions_view(actions: Seq<Action>) -> Seq<ActionView> {
    actions.map_values(|a: Action| a@)
}

/// The view of a member that may be unknown.
pub open spec fn member_view(member: Option<&Member>) -> Option<MemberView> {
    match member {
        Some(m) => Some(m@),
        None => None,
    }
}

/// A single reply.
pub open spec fn reply(text: Seq<char>) -> Seq<ActionView> {
    seq![ActionView::Reply { text }]
}

/// The actions of `join` once the argument text has been split into `requested`.
pub open spec fn join_actions(
    joinable: Seq<Seq<char>>,
    member: Option<MemberView>,
    requested: Seq<Seq<char>>,
) -> Seq<ActionView> {
    match member {
        None => Seq::empty(),
        Some(m) => {
            let plan = join_plan(joinable, m, requested);
            seq![
                ActionView::EditRoles { roles: plan.roles },
                ActionView::Reply { text: "Joining "@ + debug_text(plan.names) },
            ]
        },
    }
}

/// The test `drop` applies to each field: is it one of the joinable names?
pub open spec fn is_listed(joinable: Seq<Seq<char>>) -> spec_fn(Seq<char>) -> bool {
    |name: Seq<char>| joinable.contains(name)
}

/// The reply that acknowledges leaving the role called `name`.
pub open spec fn leaving() -> spec_fn(Seq<char>) -> ActionView {
    |name: Seq<char>| ActionView::Reply { text: "Leaving "@ + name }
}

/// The actions of `drop` for the argument text `rest`: one reply for each
/// comma-separated field that is a joinable name, in order.
pub open spec fn drop_actions(joinable: Seq<Seq<char>>, rest: Seq<char>) -> Seq<ActionView> {
    fields(rest).filter(is_listed(joinable)).map_values(leaving())
}

/// Leaving a single joinable role is acknowledged with exactly one reply,
/// whoever asks and whatever roles they hold.
pub proof fn lemma_drop_acknowledges_joinable_name(joinable: Seq<Seq<char>>, name: Seq<char>)
    requires
        joinable.contains(name),
        !name.contains(','),
    ensures
        drop_actions(joinable, name) == reply("Leaving "@ + name),
{
    assert forall|k: int| 0 <= k < name.len() implies CharClass::Field.holds(#[trigger] name[k]) by {
        if name[k] == ',' {
            assert(name.contains(','));
        }
    }
    lemma_run_end_is(name, 0, CharClass::Field, name.len() as int);
    assert(name.subrange(0, name.len() as int) =~= name);
    assert(fields(name) == seq![name]);
    let listed = is_listed(joinable);
    assert(seq![name] =~= Seq::<Seq<char>>::empty().push(name));
    Seq::<Seq<char>>::empty().lemma_filter_len(listed);
    assert(Seq::<Seq<char>>::empty().filter(listed) =~= Seq::<Seq<char>>::empty());
    Seq::<Seq<char>>::empty().lemma_filter_push(name, listed);
    assert(seq![name].filter(listed) =~= seq![name]);
    assert(seq![name].map_values(leaving()) =~= reply("Leaving "@ + name));
}

/// The reply to a command the bot does not know, sent only to messages that
/// begin with the prefix.
pub open spec fn unknown_command_actions(prefix: Seq<char>, content: Seq<char>) -> Seq<
    ActionView,
> {
    if occurs_at(content, 0, prefix) {
        reply("bzzz... don't know that one :pensive:"@)
    } else {
        Seq::empty()
    }
}

/// What is still to be done after the first of `pending` was attempted.
pub open spec fn remaining_actions(pending: Seq<ActionView>, succeeded: bool) -> Seq<ActionView> {
    if succeeded && pending.len() > 0 {
        pending.skip(1)
    } else {
        Seq::empty()
    }
}

/// Tells the caller how to go on after it attempted the first action of
/// `pending`: when the attempt succeeded the others follow in order, when it
/// failed nothing more is done.
pub fn remaining(pending: Vec<Action>, succeeded: bool) -> (rest: Vec<Action>)
    ensures
        actions_view(rest@) == remaining_actions(actions_view(pending@), succeeded),
{
    let mut pending = pending;
    if succeeded && pending.len() > 0 {
        let ghost before = pending@;
        let _ = pending.remove(0);
        assert(actions_view(pending@) =~= actions_view(before).skip(1));
        pending
    } else {
        let rest: Vec<Action> = Vec::new();
        assert(actions_view(rest@) =~= Seq::<ActionView>::empty());
        rest
    }
}

fn single_reply(text: String) -> (actions: Vec<Action>)
    ensures
        actions_view(actions@) == reply(text@),
{
    let mut actions: Vec<Action> = Vec::new();
    actions.push(Action::Reply { text });
    assert(actions_view(actions@) =~= reply(text@));
    actions
}

fn no_action() -> (actions: Vec<Action>)
    ensures
        actions_view(actions@) == Seq::<ActionView>::empty(),
{
    let actions: Vec<Action> = Vec::new();
    assert(actions_view(actions@) =~= Seq::<ActionView>::empty());
    actions
}

impl Bot {
    /// `ping` is answered with "Pong!".
    pub fn ping(&self) -> (actions: Vec<Action>)
        ensures
            actions_view(actions@) == reply("Pong!"@),
    {
        single_reply(String::from_str("Pong!"))
    }

    /// `pong` is answered with "Ping!".
    pub fn pong(&self) -> (actions: Vec<Action>)
        ensures
            actions_view(actions@) == reply("Ping!"@),
    {
        single_reply(String::from_str("Ping!"))
    }

    /// `list` is answered with the joinable role names, pretty-printed.
    pub fn list(&self) -> (actions: Vec<Action>)
        ensures
            actions_view(actions@) == reply(pretty_debug_text(self@.joinable)),
    {
        self.roles()
    }

    /// `list roles` is answered like `list`.
    pub fn roles(&self) -> (actions: Vec<Action>)
        ensures
            actions_view(actions@) == reply(pretty_debug_text(self@.joinable)),
    {
        single_reply(pretty_debug_list(self.joinable()))
    }

    /// Grants `member` those of the `requested` role names that are joinable
    /// and exist in the guild: one edit that sets the member's roles to the
    /// ones held before followed by the granted ones, then a reply listing the
    /// granted names. Without a known member nothing is done.
    pub fn join_roles(&self, member: Option<&Member>, requested: &Vec<String>) -> (actions: Vec<
        Action,
    >)
        ensures
            actions_view(actions@) == join_actions(
                self@.joinable,
                member_view(member),
                texts(requested@),
            ),
    {
        match member {
            None => no_action(),
            Some(m) => {
                let plan = select_roles(self.joinable(), m, requested);
                let listing = debug_list(&plan.names);
                let text = String::from_str("Joining ").concat(listing.as_str());
                let mut actions: Vec<Action> = Vec::new();
                actions.push(Action::EditRoles { roles: plan.roles });
                actions.push(Action::Reply { text });
                assert(actions_view(actions@) =~= join_actions(
                    self@.joinable,
                    member_view(member),
                    texts(requested@),
                ));
                actions
            },
        }
    }

    /// `join`: splits `args` as the framework does and hands the names to
    /// [`Bot::join_roles`].
    pub fn join(&self, member: Option<&Member>, args: &str) -> (actions: Vec<Action>)
        ensures
            actions_view(actions@) == join_actions(
                self@.joinable,
                member_view(member),
                parsed_arguments(args@, self@.config.delimiters),
            ),
    {
        let requested = argument_list(args, self.config().delimiters());
        self.join_roles(member, &requested)
    }

    /// Acknowledges leaving each role named in `rest`, a comma-separated
    /// list. Fields are compared as they stand, surrounding spaces included.
    /// No role is taken away and the member's roles are not consulted.
    pub fn drop_roles(&self, rest: &str) -> (actions: Vec<Action>)
        ensures
            actions_view(actions@) == drop_actions(self@.joinable, rest@),
    {
        let parts = split_fields(rest);
        let ghost listed = is_listed(self@.joinable);
        let ghost all = texts(parts@);
        let mut actions: Vec<Action> = Vec::new();
        assert(all.take(0).filter(listed).map_values(leaving()) =~= Seq::<ActionView>::empty())
            by {
            assert(all.take(0) =~= Seq::<Seq<char>>::empty());
            Seq::<Seq<char>>::empty().lemma_filter_len(listed);
        }
        assert(actions_view(actions@) =~= Seq::<ActionView>::empty());
        let mut i: usize = 0;
        while i < parts.len()
            invariant
                i <= parts.len(),
                all == texts(parts@),
                listed == is_listed(self@.joinable),
                actions_view(actions@) == all.take(i as int).filter(listed).map_values(leaving()),
            decreases parts.len() - i,
        {
            let part = &parts[i];
            let hit = contains_text(self.joinable(), part);
            proof {
                all.lemma_take_succ_push(i as int);
                all.take(i as int).lemma_filter_push(all[i as int], listed);
                assert(all[i as int] == part@);
                assert(listed(part@) == hit);
            }
            if hit {
                let text = String::from_str("Leaving ").concat(part.as_str());
                let action = Action::Reply { text };
                proof {
                    actions@.lemma_push_map_commute(|a: Action| a@, action);
                    all.take(i as int).filter(listed).lemma_push_map_commute(leaving(), part@);
                    assert(leaving()(part@) == action@);
                }
                actions.push(action);
            }
            i = i + 1;
        }
        proof {
            all.lemma_take_len();
        }
        actions
    }

    /// `drop`: takes what the framework reports as the remaining argument
    /// text of `args` and hands it to [`Bot::drop_roles`].
    pub fn drop(&self, args: &str) -> (actions: Vec<Action>)
        ensures
            actions_view(actions@) == drop_actions(
                self@.joinable,
                remaining_arguments(args@, self@.config.delimiters),
            ),
    {
        let rest = argument_rest(args, self.config().delimiters());
        self.drop_roles(rest.as_str())
    }

    /// `play` is accepted and does nothing.
    pub fn play(&self) -> (actions: Vec<Action>)
        ensures
            actions_view(actions@) == Seq::<ActionView>::empty(),
    {
        no_action()
    }

    /// `loop_sound` is accepted and does nothing.
    pub fn loop_sound(&self) -> (actions: Vec<Action>)
        ensures
            actions_view(actions@) == Seq::<ActionView>::empty(),
    {
        no_action()
    }

    /// Answers a message whose command is not known. The apology is sent
    /// only when `content` begins with the prefix; a command that was
    /// introduced by mentioning the bot gets no answer.
    pub fn unknown_command(&self, content: &str) -> (actions: Vec<Action>)
        ensures
            actions_view(actions@) == unknown_command_actions(self@.config.prefix, content@),
    {
        let chars = chars_of(content);
        let prefix = chars_of(self.config().prefix().as_str());
        if found_at(&chars, 0, &prefix) {
            single_reply(String::from_str("bzzz... don't know that one :pensive:"))
        } else {
            no_action()
        }
    }
}

} // verus!
