//! Role selection: which of the roles a member asks for are granted, and
//! which of the roles a member wants to leave are acknowledged.

use crate::text::texts;
use vstd::prelude::*;
use vstd::string::*;

verus! {

/// Mathematical view of a [`GuildRole`].
pub struct GuildRoleView {
    /// The role's id.
    pub id: u64,
    /// The role's name.
    pub name: Seq<char>,
}

/// A role that exists in the guild the message was sent in.
#[derive(Clone, Debug, PartialEq, Eq)]
pub struct GuildRole {
    /// The role's id.
    pub id: u64,
    /// The role's name.
    pub name: String,
}

impl View for GuildRole {
    type V = GuildRoleView;

    open spec fn view(&self) -> GuildRoleView {
        GuildRoleView { id: self.id, name: self.name@ }
    }
}

/// The views of a list of guild roles.
pub open spec fn guild_view(roles: Seq<GuildRole>) -> Seq<GuildRoleView> {
    roles.map_values(|r: GuildRole| r@)
}

/// Mathematical view of a [`Member`].
pub struct MemberView {
    /// The ids of the roles the member holds.
    pub roles: Seq<u64>,
    /// The roles of the member's guild.
    pub guild: Seq<GuildRoleView>,
}

/// The author of a message, as far as role selection needs to know them.
#[derive(Clone, Debug, PartialEq, Eq)]
pub struct Member {
    /// The ids of the roles the member holds, in the order the guild reports them.
    pub roles: Vec<u64>,
    /// The roles of the member's guild. Where two roles share a name, the
    /// one listed first is the one found by name.
    pub guild: Vec<GuildRole>,
}

impl View for Member {
    type V = MemberView;

    open spec fn view(&self) -> MemberView {
        MemberView { roles: self.roles@, guild: guild_view(self.guild@) }
    }
}

/// Whether position `i` holds the first role of `guild` that is called `name`.
pub open spec fn names_role(guild: Seq<GuildRoleView>, name: Seq<char>, i: int) -> bool {
    &&& 0 <= i < guild.len()
    &&& guild[i].name == name
    &&& forall|j: int| 0 <= j < i ==> (#[trigger] guild[j]).name != name
}

/// The id of the first role of `guild` that is called `name`, if there is one.
pub open spec fn role_named(guild: Seq<GuildRoleView>, name: Seq<char>) -> Option<u64> {
    if exists|i: int| names_role(guild, name, i) {
        Some(guild[choose|i: int| names_role(guild, name, i)].id)
    } else {
        None
    }
}

/// Looks a role up by its exact name.
pub fn role_by_name(guild: &Vec<GuildRole>, name: &String) -> (found: Option<u64>)
    ensures
        found == role_named(guild_view(guild@), name@),
{
    let ghost roles = guild_view(guild@);
    let mut i: usize = 0;
    while i < guild.len()
        invariant
            i <= guild.len(),
            roles == guild_view(guild@),
            forall|j: int| 0 <= j < i ==> (#[trigger] roles[j]).name != name@,
        decreases guild.len() - i,
    {
        if guild[i].name == *name {
            proof {
                assert(roles[i as int] == guild@[i as int]@);
                assert(names_role(roles, name@, i as int));
                let k = choose|k: int| names_role(roles, name@, k);
                assert(k == i);
            }
            return Some(guild[i].id);
        }
        assert(roles[i as int] == guild@[i as int]@);
        i = i + 1;
    }
    None
}

/// Whether `items` holds a string equal to `wanted`.
pub fn contains_text(items: &Vec<String>, wanted: &String) -> (found: bool)
    ensures
        found == texts(items@).contains(wanted@),
{
    let mut i: usize = 0;
    while i < items.len()
        invariant
            i <= items.len(),
            forall|j: int| 0 <= j < i ==> (#[trigger] texts(items@)[j]) != wanted@,
        decreases items.len() - i,
    {
        if items[i] == *wanted {
            assert(texts(items@)[i as int] == wanted@);
            return true;
        }
        i = i + 1;
    }
    false
}

/// The test a requested name must pass to be granted: it is one of the
/// joinable names and the guild has a role of that name.
pub open spec fn is_granted(joinable: Seq<Seq<char>>, guild: Seq<GuildRoleView>) -> spec_fn(
    Seq<char>,
) -> bool {
    |name: Seq<char>| joinable.contains(name) && role_named(guild, name) is Some
}

/// Maps a role name to the id [`role_named`] finds for it.
pub open spec fn id_in(guild: Seq<GuildRoleView>) -> spec_fn(Seq<char>) -> u64 {
    |name: Seq<char>| role_named(guild, name)->0
}

/// Mathematical view of a [`JoinPlan`].
pub struct JoinPlanView {
    /// The complete list of role ids the member is to hold.
    pub roles: Seq<u64>,
    /// The names that were granted.
    pub names: Seq<Seq<char>>,
}

/// The outcome of a request to join roles.
#[derive(Clone, Debug, PartialEq, Eq)]
pub struct JoinPlan {
    /// The complete list of role ids to set on the member: the roles held
    /// before, followed by the id of each granted role.
    pub roles: Vec<u64>,
    /// The requested names that were granted, in the order they were asked for.
    pub names: Vec<String>,
}

impl View for JoinPlan {
    type V = JoinPlanView;

    open spec fn view(&self) -> JoinPlanView {
        JoinPlanView { roles: self.roles@, names: texts(self.names@) }
    }
}

/// What a member who asks for `requested` gets: every requested name that
/// passes [`is_granted`], in the order asked, and the member's roles extended
/// by the ids of those names.
pub open spec fn join_plan(
    joinable: Seq<Seq<char>>,
    member: MemberView,
    requested: Seq<Seq<char>>,
) -> JoinPlanView {
    let names = requested.filter(is_granted(joinable, member.guild));
    JoinPlanView { roles: member.roles + names.map_values(id_in(member.guild)), names }
}

/// The names granted are exactly the requested names that are joinable and
/// name a role of the guild, and the roles to set are, as a set, the roles
/// held before together with the roles of the granted names.
pub proof fn lemma_join_plan_grants(
    joinable: Seq<Seq<char>>,
    member: MemberView,
    requested: Seq<Seq<char>>,
)
    ensures
        forall|name: Seq<char>| #[trigger]
            join_plan(joinable, member, requested).names.contains(name) <==> requested.contains(
                name,
            ) && joinable.contains(name) && role_named(member.guild, name) is Some,
        join_plan(joinable, member, requested).roles.to_set() == member.roles.to_set().union(
            join_plan(joinable, member, requested).names.map_values(id_in(member.guild)).to_set(),
        ),
{
    let granted = is_granted(joinable, member.guild);
    let names = requested.filter(granted);
    assert forall|name: Seq<char>| #[trigger] names.contains(name) implies requested.contains(name)
        && granted(name) by {
        let i = choose|i: int| 0 <= i < names.len() && names[i] == name;
        requested.lemma_filter_pred(granted, i);
        requested.lemma_filter_contains_rev(granted, name);
    }
    assert forall|name: Seq<char>| requested.contains(name) && granted(name) implies #[trigger]
        names.contains(name) by {
        let i = choose|i: int| 0 <= i < requested.len() && requested[i] == name;
        requested.lemma_filter_contains(granted, i);
    }
    vstd::seq_lib::seq_to_set_distributes_over_add(
        member.roles,
        names.map_values(id_in(member.guild)),
    );
}

/// Where none of the requested names is both joinable and a role of the
/// guild, nothing is granted: no name is listed and the roles to set are the
/// roles held before.
pub proof fn lemma_join_plan_grants_nothing(
    joinable: Seq<Seq<char>>,
    member: MemberView,
    requested: Seq<Seq<char>>,
)
    requires
        forall|i: int|
            0 <= i < requested.len() ==> !(joinable.contains(#[trigger] requested[i])
                && role_named(member.guild, requested[i]) is Some),
    ensures
        join_plan(joinable, member, requested) == (JoinPlanView {
            roles: member.roles,
            names: Seq::empty(),
        }),
{
    let granted = is_granted(joinable, member.guild);
    assert(requested.all(|name: Seq<char>| !granted(name)));
    requested.lemma_all_neg_filter_empty(granted);
    let names = requested.filter(granted);
    assert(names =~= Seq::<Seq<char>>::empty());
    assert(member.roles + names.map_values(id_in(member.guild)) =~= member.roles);
}

/// Decides which of the `requested` role names `member` is given.
pub fn select_roles(joinable: &Vec<String>, member: &Member, requested: &Vec<String>) -> (plan:
    JoinPlan)
    ensures
        plan@ == join_plan(texts(joinable@), member@, texts(requested@)),
{
    let ghost granted = is_granted(texts(joinable@), member@.guild);
    let ghost id_of = id_in(member@.guild);
    let ghost asked = texts(requested@);
    let mut roles: Vec<u64> = Vec::new();
    let mut k: usize = 0;
    while k < member.roles.len()
        invariant
            k <= member.roles.len(),
            roles@ == member.roles@.take(k as int),
        decreases member.roles.len() - k,
    {
        roles.push(member.roles[k]);
        k = k + 1;
    }
    assert(member.roles@.take(k as int) == member.roles@);
    let mut names: Vec<String> = Vec::new();
    assert(asked.take(0).filter(granted) =~= Seq::<Seq<char>>::empty()) by {
        assert(asked.take(0) =~= Seq::<Seq<char>>::empty());
        Seq::<Seq<char>>::empty().lemma_filter_len(granted);
    }
    assert(texts(names@) =~= Seq::<Seq<char>>::empty());
    let mut i: usize = 0;
    while i < requested.len()
        invariant
            i <= requested.len(),
            asked == texts(requested@),
            granted == is_granted(texts(joinable@), member@.guild),
            id_of == id_in(member@.guild),
            texts(names@) == asked.take(i as int).filter(granted),
            roles@ == member.roles@ + texts(names@).map_values(id_of),
        decreases requested.len() - i,
    {
        let name = &requested[i];
        let found = role_by_name(&member.guild, name);
        let listed = contains_text(joinable, name);
        proof {
            asked.lemma_take_succ_push(i as int);
            asked.take(i as int).lemma_filter_push(asked[i as int], granted);
            assert(asked[i as int] == name@);
            assert(granted(name@) == (listed && found is Some));
        }
        if let Some(id) = found {
            if listed {
                proof {
                    names@.lemma_push_map_commute(|s: String| s@, *name);
                    texts(names@).lemma_push_map_commute(id_of, name@);
                    assert(id_of(name@) == id);
                }
                roles.push(id);
                names.push(name.clone());
            }
        }
        i = i + 1;
    }
    proof {
        asked.lemma_take_len();
    }
    JoinPlan { roles, names }
}

} // verus!
