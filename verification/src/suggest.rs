//! Suggestions for mistyped command names, by edit distance. The router does
//! not use them: a name that is merely close to a command invokes nothing.

use crate::router::{name_of, Command};
use crate::text::chars_of;
use vstd::prelude::*;

verus! {

/// The largest edit distance at which a command is still suggested.
pub const MAX_SUGGESTION_DISTANCE: usize = 3;

/// The smallest of three numbers.
pub open spec fn min3(x: nat, y: nat, z: nat) -> nat {
    if x <= y && x <= z {
        x
    } else if y <= z {
        y
    } else {
        z
    }
}

/// The Levenshtein distance of `a` and `b`: the least number of single
/// character insertions, deletions and substitutions that turn one into the
/// other.
pub open spec fn edit_distance(a: Seq<char>, b: Seq<char>) -> nat
    decreases a.len() + b.len(),
{
    if a.len() == 0 {
        b.len()
    } else if b.len() == 0 {
        a.len()
    } else {
        min3(
            edit_distance(a.drop_last(), b.drop_last()) + if a.last() == b.last() {
                0nat
            } else {
                1nat
            },
            edit_distance(a.drop_last(), b) + 1,
            edit_distance(a, b.drop_last()) + 1,
        )
    }
}

/// The distance never exceeds the length of the longer text.
pub proof fn lemma_distance_bound(a: Seq<char>, b: Seq<char>)
    ensures
        edit_distance(a, b) <= a.len() || edit_distance(a, b) <= b.len(),
    decreases a.len() + b.len(),
{
    if a.len() > 0 && b.len() > 0 {
        lemma_distance_bound(a.drop_last(), b.drop_last());
    }
}

/// A text is at distance zero from itself.
pub proof fn lemma_distance_to_self(a: Seq<char>)
    ensures
        edit_distance(a, a) == 0,
    decreases a.len(),
{
    if a.len() > 0 {
        lemma_distance_to_self(a.drop_last());
    }
}

/// Only equal texts are at distance zero: an exact match is the one name at
/// distance zero.
pub proof fn lemma_distance_zero_is_equal(a: Seq<char>, b: Seq<char>)
    requires
        edit_distance(a, b) == 0,
    ensures
        a == b,
    decreases a.len() + b.len(),
{
    if a.len() == 0 || b.len() == 0 {
        assert(a =~= b);
    } else {
        lemma_distance_zero_is_equal(a.drop_last(), b.drop_last());
        assert(a =~= a.drop_last().push(a.last()));
        assert(b =~= b.drop_last().push(b.last()));
    }
}

/// The distance does not depend on the direction.
pub proof fn lemma_distance_symmetric(a: Seq<char>, b: Seq<char>)
    ensures
        edit_distance(a, b) == edit_distance(b, a),
    decreases a.len() + b.len(),
{
    if a.len() > 0 && b.len() > 0 {
        lemma_distance_symmetric(a.drop_last(), b.drop_last());
        lemma_distance_symmetric(a.drop_last(), b);
        lemma_distance_symmetric(a, b.drop_last());
    }
}

fn smallest(x: usize, y: usize, z: usize) -> (m: usize)
    ensures
        m == min3(x as nat, y as nat, z as nat),
{
    if x <= y && x <= z {
        x
    } else if y <= z {
        y
    } else {
        z
    }
}

/// Computes the Levenshtein distance of `a` and `b`, counted in characters.
pub fn distance(a: &str, b: &str) -> (d: usize)
    ensures
        d == edit_distance(a@, b@),
{
    let a = chars_of(a);
    let b = chars_of(b);
    let n = a.len();
    let m = b.len();
    let mut prev: Vec<usize> = Vec::new();
    while prev.len() <= m
        invariant
            prev.len() <= m + 1,
            m == b.len(),
            forall|j: int| 0 <= j < prev.len() ==> prev[j] == j,
        decreases m + 1 - prev.len(),
    {
        prev.push(prev.len());
    }
    assert forall|j: int| 0 <= j <= m implies prev[j] == edit_distance(a@.take(0), b@.take(j)) by {
        assert(a@.take(0).len() == 0);
    }
    let mut i: usize = 0;
    while i < n
        invariant
            i <= n,
            n == a.len(),
            m == b.len(),
            prev.len() == m + 1,
            forall|j: int| 0 <= j <= m ==> prev[j] == edit_distance(a@.take(i as int), b@.take(j)),
        decreases n - i,
    {
        let mut cur: Vec<usize> = Vec::new();
        cur.push(i + 1);
        assert(edit_distance(a@.take(i + 1), b@.take(0)) == i + 1) by {
            assert(b@.take(0).len() == 0);
        }
        let mut j: usize = 0;
        while j < m
            invariant
                j <= m,
                i < n,
                n == a.len(),
                m == b.len(),
                prev.len() == m + 1,
                cur.len() == j + 1,
                forall|k: int|
                    0 <= k <= m ==> prev[k] == edit_distance(a@.take(i as int), b@.take(k)),
                forall|k: int|
                    0 <= k <= j ==> cur[k] == edit_distance(a@.take(i + 1), b@.take(k)),
            decreases m - j,
        {
            let cost: usize = if a[i] == b[j] {
                0
            } else {
                1
            };
            let best = smallest(
                prev[j].saturating_add(cost),
                prev[j + 1].saturating_add(1),
                cur[j].saturating_add(1),
            );
            proof {
                let x = a@.take(i + 1);
                let y = b@.take(j + 1);
                assert(x.drop_last() =~= a@.take(i as int));
                assert(y.drop_last() =~= b@.take(j as int));
                assert(x.last() == a@[i as int]);
                assert(y.last() == b@[j as int]);
                lemma_distance_bound(x, y);
                assert(best == edit_distance(x, y));
            }
            cur.push(best);
            j = j + 1;
        }
        prev = cur;
        i = i + 1;
    }
    assert(a@.take(n as int) =~= a@);
    assert(b@.take(m as int) =~= b@);
    prev[m]
}

/// The commands that can be suggested, in the order they are registered.
pub open spec fn suggestable() -> Seq<Command> {
    seq![
        Command::Ping,
        Command::Pong,
        Command::List,
        Command::Join,
        Command::Drop,
        Command::Play,
        Command::LoopSound,
    ]
}

/// The test for suggesting a command to someone who typed `name`.
pub open spec fn is_near(name: Seq<char>) -> spec_fn(Command) -> bool {
    |command: Command| edit_distance(name_of(command), name) <= MAX_SUGGESTION_DISTANCE
}

/// The commands to suggest for `name`: those of [`suggestable`] whose name is
/// within [`MAX_SUGGESTION_DISTANCE`] of it, in registration order.
pub open spec fn suggestions_for(name: Seq<char>) -> Seq<Command> {
    suggestable().filter(is_near(name))
}

fn candidates() -> (all: Vec<Command>)
    ensures
        all@ == suggestable(),
{
    let mut all: Vec<Command> = Vec::new();
    all.push(Command::Ping);
    all.push(Command::Pong);
    all.push(Command::List);
    all.push(Command::Join);
    all.push(Command::Drop);
    all.push(Command::Play);
    all.push(Command::LoopSound);
    assert(all@ =~= suggestable());
    all
}

/// Finds the commands whose name is close to `name`.
pub fn suggestions(name: &str) -> (near: Vec<Command>)
    ensures
        near@ == suggestions_for(name@),
{
    let all = candidates();
    let ghost wanted = is_near(name@);
    let mut near: Vec<Command> = Vec::new();
    assert(all@.take(0).filter(wanted) =~= Seq::<Command>::empty()) by {
        assert(all@.take(0) =~= Seq::<Command>::empty());
        Seq::<Command>::empty().lemma_filter_len(wanted);
    }
    let mut i: usize = 0;
    while i < all.len()
        invariant
            i <= all.len(),
            wanted == is_near(name@),
            near@ == all@.take(i as int).filter(wanted),
        decreases all.len() - i,
    {
        let command = all[i];
        let d = distance(command.name(), name);
        proof {
            all@.lemma_take_succ_push(i as int);
            all@.take(i as int).lemma_filter_push(command, wanted);
        }
        if d <= MAX_SUGGESTION_DISTANCE {
            near.push(command);
        }
        i = i + 1;
    }
    proof {
        all@.lemma_take_len();
    }
    near
}

} // verus!
