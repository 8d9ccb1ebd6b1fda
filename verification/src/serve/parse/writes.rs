//! The cap on a prompt's cache writes: every marker a body yields writes,
//! and there are at most four of them, since only the last four explicit
//! breakpoints are kept, three when the automatic write needs a slot of its
//! own.
use vstd::prelude::*;
use crate::chat::request::Automatic;
use crate::chat::request::Marked;
use crate::serve::parse::cache::cache_marks;
use crate::serve::parse::cache::dropped;
use crate::serve::parse::cache::enabled;
use crate::serve::parse::cache::explicit_count;
use crate::serve::parse::cache::explicit_total;
use crate::serve::parse::cache::kept_writes;
use crate::serve::parse::cache::merges;
use crate::serve::parse::cache::part_marks;
use crate::serve::parse::cache::part_slot;
use crate::serve::parse::cache::rank;
use crate::serve::parse::cache::target_in;
use crate::serve::parse::cache::target_of;
use crate::serve::parse::cache::turn_marks;
use crate::serve::parse::cache::turns_marks;
use crate::serve::parse::cache::MarkView;
use crate::serve::parse::cache::Target;
use crate::serve::parse::hints::AutomaticWrite;
use crate::serve::parse::turns::TurnView;

verus! {

/// The explicit breakpoints among markers.
pub open spec fn explicit_marks(marks: Seq<MarkView>) -> nat
    decreases marks.len(),
{
    if marks.len() == 0 {
        0
    } else {
        explicit_marks(marks.drop_last()) + if marks.last().1 == Marked::Explicit {
            1nat
        } else {
            0nat
        }
    }
}

/// The markers that carry no explicit breakpoint.
pub open spec fn other_marks(marks: Seq<MarkView>) -> nat
    decreases marks.len(),
{
    if marks.len() == 0 {
        0
    } else {
        other_marks(marks.drop_last()) + if marks.last().1 == Marked::Explicit {
            0nat
        } else {
            1nat
        }
    }
}

/// A count that is never negative: `x`, or zero below it.
pub open spec fn clip(x: int) -> nat {
    if x > 0 {
        x as nat
    } else {
        0
    }
}

/// Whether the explicit breakpoint after part `p` of turn `t` survives.
pub open spec fn kept(turns: Seq<TurnView>, tools: nat, policy: AutomaticWrite, t: int, p: int) -> bool {
    turns[t].1[p].1 == Marked::Explicit && rank(turns, t, p) >= dropped(turns, tools, policy)
}

/// Whether every turn and part count fits `usize`, as those of a body do.
pub open spec fn countable(turns: Seq<TurnView>) -> bool {
    &&& turns.len() <= usize::MAX
    &&& forall|t: int| 0 <= t < turns.len() ==> #[trigger] turns[t].1.len() <= usize::MAX
}

/// Both counts of a joined list are the sums of their parts'.
proof fn lemma_counts_split(a: Seq<MarkView>, b: Seq<MarkView>)
    ensures
        explicit_marks(a + b) == explicit_marks(a) + explicit_marks(b),
        other_marks(a + b) == other_marks(a) + other_marks(b),
    decreases b.len(),
{
    if b.len() == 0 {
        assert(a + b =~= a);
    } else {
        lemma_counts_split(a, b.drop_last());
        assert((a + b).drop_last() =~= a + b.drop_last());
        assert((a + b).last() == b.last());
    }
}

/// Every marker is counted once, as explicit or as other.
proof fn lemma_counts_cover(marks: Seq<MarkView>)
    ensures
        marks.len() == explicit_marks(marks) + other_marks(marks),
    decreases marks.len(),
{
    if marks.len() > 0 {
        lemma_counts_cover(marks.drop_last());
    }
}

/// The counts of a single marker.
proof fn lemma_counts_one(mark: MarkView)
    ensures
        explicit_marks(seq![mark]) == (if mark.1 == Marked::Explicit { 1nat } else { 0nat }),
        other_marks(seq![mark]) == (if mark.1 == Marked::Explicit { 0nat } else { 1nat }),
{
    let single = seq![mark];
    assert(single.drop_last() =~= Seq::<MarkView>::empty());
    assert(single.last() == mark);
    assert(explicit_marks(Seq::<MarkView>::empty()) == 0);
    assert(other_marks(Seq::<MarkView>::empty()) == 0);
}

/// Where the automatic write lands among the turns: the last turn with
/// calls or parts, all later turns having neither; at a part, its last.
proof fn lemma_target_in(turns: Seq<TurnView>)
    requires
        countable(turns),
    ensures
        target_in(turns) matches Some(Target::Turn(t)) ==> (t as int) < turns.len(),
        target_in(turns) matches Some(Target::Part(t, p)) ==> {
            &&& (t as int) < turns.len()
            &&& turns[t as int].1.len() > 0
            &&& p as int == turns[t as int].1.len() - 1
            &&& forall|j: int| t < j < turns.len() ==> #[trigger] turns[j].1.len() == 0
        },
    decreases turns.len(),
{
    if turns.len() > 0 && turns.last().3.len() == 0 && turns.last().1.len() == 0 {
        let shorter = turns.drop_last();
        assert forall|t: int| 0 <= t < shorter.len() implies #[trigger] shorter[t].1.len() <= usize::MAX by {
            assert(shorter[t] == turns[t]);
        }
        lemma_target_in(shorter);
        if let Some(Target::Part(t, p)) = target_in(turns) {
            assert(shorter[t as int] == turns[t as int]);
            assert forall|j: int| t < j < turns.len() implies #[trigger] turns[j].1.len() == 0 by {
                if j < shorter.len() {
                    assert(shorter[j] == turns[j]);
                }
            }
        }
    } else if turns.len() > 0 {
        assert(turns[turns.len() - 1] == turns.last());
    }
}

/// With no parts after turn `t`, the breakpoints of all turns are those of
/// the first `t + 1`.
proof fn lemma_total_ends_at(turns: Seq<TurnView>, t: int)
    requires
        0 <= t < turns.len(),
        forall|j: int| t < j < turns.len() ==> #[trigger] turns[j].1.len() == 0,
    ensures
        explicit_total(turns) == explicit_total(turns.take(t + 1)),
    decreases turns.len(),
{
    if turns.len() > t + 1 {
        let shorter = turns.drop_last();
        assert forall|j: int| t < j < shorter.len() implies #[trigger] shorter[j].1.len() == 0 by {
            assert(shorter[j] == turns[j]);
        }
        lemma_total_ends_at(shorter, t);
        assert(shorter.take(t + 1) =~= turns.take(t + 1));
        assert(turns[turns.len() - 1].1.len() == 0);
        assert(turns.last() == turns[turns.len() - 1]);
    } else {
        assert(turns.take(t + 1) =~= turns);
    }
}

/// The kept breakpoints among the first `k` parts of turn `t`, counted
/// from the breakpoints before them.
proof fn lemma_part_explicit(turns: Seq<TurnView>, tools: nat, policy: AutomaticWrite, t: int, k: int)
    requires
        0 <= t < turns.len(),
        0 <= k <= turns[t].1.len(),
    ensures
        explicit_marks(part_marks(turns, tools, policy, t, k)) + clip(
            rank(turns, t, 0) - dropped(turns, tools, policy),
        ) == clip(rank(turns, t, k) - dropped(turns, tools, policy)),
    decreases k,
{
    let parts = turns[t].1;
    if k > 0 {
        lemma_part_explicit(turns, tools, policy, t, k - 1);
        assert(parts.take(k).drop_last() =~= parts.take(k - 1));
        assert(parts.take(k).last() == parts[k - 1]);
        let before = part_marks(turns, tools, policy, t, k - 1);
        match part_slot(turns, tools, policy, t, k - 1) {
            Some((marked, automatic)) => {
                let mark = (crate::serve::parse::cache::part_place(turns, t, k - 1), marked, automatic);
                lemma_counts_split(before, seq![mark]);
                lemma_counts_one(mark);
            },
            None => {
                assert(before + Seq::<MarkView>::empty() =~= before);
            },
        }
    } else {
        assert(parts.take(0) =~= Seq::<(Seq<char>, Marked)>::empty());
    }
}

/// The kept breakpoints of turn `t`, counted from those before it.
proof fn lemma_turn_explicit(turns: Seq<TurnView>, tools: nat, policy: AutomaticWrite, t: int)
    requires
        0 <= t < turns.len(),
    ensures
        explicit_marks(turn_marks(turns, tools, policy, t)) + clip(
            explicit_total(turns.take(t)) - dropped(turns, tools, policy),
        ) == clip(explicit_total(turns.take(t + 1)) - dropped(turns, tools, policy)),
{
    let parts = turns[t].1;
    lemma_part_explicit(turns, tools, policy, t, parts.len() as int);
    assert(parts.take(parts.len() as int) =~= parts);
    assert(parts.take(0) =~= Seq::<(Seq<char>, Marked)>::empty());
    assert(turns.take(t + 1).drop_last() =~= turns.take(t));
    assert(turns.take(t + 1).last() == turns[t]);
    let inner = part_marks(turns, tools, policy, t, parts.len() as int);
    if enabled(turns, tools, policy) && target_of(turns, tools) == Some(Target::Turn(t as usize)) {
        let mark = (
            crate::serve::parse::cache::Place::Message((t + 1) as nat),
            Marked::Unmarked,
            crate::serve::parse::cache::automatic_for(policy),
        );
        lemma_counts_split(inner, seq![mark]);
        lemma_counts_one(mark);
    } else {
        assert(inner + Seq::<MarkView>::empty() =~= inner);
    }
}

/// The kept breakpoints of the first `n` turns.
proof fn lemma_turns_explicit(turns: Seq<TurnView>, tools: nat, policy: AutomaticWrite, n: int)
    requires
        0 <= n <= turns.len(),
    ensures
        explicit_marks(turns_marks(turns, tools, policy, n)) == clip(
            explicit_total(turns.take(n)) - dropped(turns, tools, policy),
        ),
    decreases n,
{
    if n > 0 {
        lemma_turns_explicit(turns, tools, policy, n - 1);
        lemma_turn_explicit(turns, tools, policy, n - 1);
        lemma_counts_split(
            turns_marks(turns, tools, policy, n - 1),
            turn_marks(turns, tools, policy, n - 1),
        );
    } else {
        assert(turns.take(0) =~= Seq::<TurnView>::empty());
    }
}

/// The automatic write's own slot among the first `k` parts of turn `t`:
/// one when it lands on one of them without a kept breakpoint there.
proof fn lemma_part_other(turns: Seq<TurnView>, tools: nat, policy: AutomaticWrite, t: int, k: int)
    requires
        countable(turns),
        0 <= t < turns.len(),
        0 <= k <= turns[t].1.len(),
    ensures
        other_marks(part_marks(turns, tools, policy, t, k)) == match target_of(turns, tools) {
            Some(Target::Part(tt, pp)) => if enabled(turns, tools, policy) && tt as int == t && (pp
                as int) < k && !kept(turns, tools, policy, t, pp as int) {
                1nat
            } else {
                0nat
            },
            _ => 0nat,
        },
    decreases k,
{
    assert(turns[t].1.len() <= usize::MAX);
    if k > 0 {
        lemma_part_other(turns, tools, policy, t, k - 1);
        let before = part_marks(turns, tools, policy, t, k - 1);
        match part_slot(turns, tools, policy, t, k - 1) {
            Some((marked, automatic)) => {
                let mark = (crate::serve::parse::cache::part_place(turns, t, k - 1), marked, automatic);
                lemma_counts_split(before, seq![mark]);
                lemma_counts_one(mark);
            },
            None => {
                assert(before + Seq::<MarkView>::empty() =~= before);
            },
        }
    }
}

/// The automatic write's own slot in turn `t`.
proof fn lemma_turn_other(turns: Seq<TurnView>, tools: nat, policy: AutomaticWrite, t: int)
    requires
        countable(turns),
        0 <= t < turns.len(),
    ensures
        other_marks(turn_marks(turns, tools, policy, t)) == match target_of(turns, tools) {
            Some(Target::Part(tt, pp)) => if enabled(turns, tools, policy) && tt as int == t && (pp
                as int) < turns[t].1.len() && !kept(turns, tools, policy, t, pp as int) {
                1nat
            } else {
                0nat
            },
            Some(Target::Turn(tt)) => if enabled(turns, tools, policy) && tt as int == t {
                1nat
            } else {
                0nat
            },
            _ => 0nat,
        },
{
    let parts = turns[t].1;
    lemma_part_other(turns, tools, policy, t, parts.len() as int);
    let inner = part_marks(turns, tools, policy, t, parts.len() as int);
    if enabled(turns, tools, policy) && target_of(turns, tools) == Some(Target::Turn(t as usize)) {
        let mark = (
            crate::serve::parse::cache::Place::Message((t + 1) as nat),
            Marked::Unmarked,
            crate::serve::parse::cache::automatic_for(policy),
        );
        lemma_counts_split(inner, seq![mark]);
        lemma_counts_one(mark);
    } else {
        assert(inner + Seq::<MarkView>::empty() =~= inner);
    }
}

/// The automatic write's own slot among the first `n` turns.
proof fn lemma_turns_other(turns: Seq<TurnView>, tools: nat, policy: AutomaticWrite, n: int)
    requires
        countable(turns),
        0 <= n <= turns.len(),
    ensures
        other_marks(turns_marks(turns, tools, policy, n)) == match target_of(turns, tools) {
            Some(Target::Part(tt, pp)) => if enabled(turns, tools, policy) && (tt as int) < n && (
            pp as int) < turns[tt as int].1.len() && !kept(turns, tools, policy, tt as int, pp as int) {
                1nat
            } else {
                0nat
            },
            Some(Target::Turn(tt)) => if enabled(turns, tools, policy) && (tt as int) < n {
                1nat
            } else {
                0nat
            },
            _ => 0nat,
        },
    decreases n,
{
    if n > 0 {
        lemma_turns_other(turns, tools, policy, n - 1);
        lemma_turn_other(turns, tools, policy, n - 1);
        lemma_counts_split(
            turns_marks(turns, tools, policy, n - 1),
            turn_marks(turns, tools, policy, n - 1),
        );
    }
}

/// Whether a marker writes: it is an explicit breakpoint or the automatic
/// write.
pub open spec fn writes(mark: MarkView) -> bool {
    mark.1 == Marked::Explicit || mark.2 != Automatic::Not
}

/// Whether every marker of a list writes.
pub open spec fn all_write(marks: Seq<MarkView>) -> bool {
    forall|i: int| 0 <= i < marks.len() ==> writes(#[trigger] marks[i])
}

/// Two lists whose markers all write join into one whose markers all write.
proof fn lemma_join_writes(a: Seq<MarkView>, b: Seq<MarkView>)
    requires
        all_write(a),
        all_write(b),
    ensures
        all_write(a + b),
{
    assert forall|i: int| 0 <= i < (a + b).len() implies writes(#[trigger] (a + b)[i]) by {
        if i < a.len() {
            assert((a + b)[i] == a[i]);
        } else {
            assert((a + b)[i] == b[i - a.len()]);
        }
    }
}

/// Every marker of the first `k` parts of turn `t` writes.
proof fn lemma_part_write(turns: Seq<TurnView>, tools: nat, policy: AutomaticWrite, t: int, k: int)
    requires
        0 <= t < turns.len(),
    ensures
        all_write(part_marks(turns, tools, policy, t, k)),
    decreases k,
{
    if k > 0 {
        lemma_part_write(turns, tools, policy, t, k - 1);
        let before = part_marks(turns, tools, policy, t, k - 1);
        match part_slot(turns, tools, policy, t, k - 1) {
            Some((marked, automatic)) => {
                let mark = (crate::serve::parse::cache::part_place(turns, t, k - 1), marked, automatic);
                assert(writes(seq![mark][0]));
                lemma_join_writes(before, seq![mark]);
            },
            None => {
                assert(before + Seq::<MarkView>::empty() =~= before);
            },
        }
    }
}

/// Every marker of the first `n` turns writes.
proof fn lemma_turns_write(turns: Seq<TurnView>, tools: nat, policy: AutomaticWrite, n: int)
    requires
        0 <= n <= turns.len(),
    ensures
        all_write(turns_marks(turns, tools, policy, n)),
    decreases n,
{
    if n > 0 {
        let t = n - 1;
        lemma_turns_write(turns, tools, policy, t);
        lemma_part_write(turns, tools, policy, t, turns[t].1.len() as int);
        let inner = part_marks(turns, tools, policy, t, turns[t].1.len() as int);
        if enabled(turns, tools, policy) && target_of(turns, tools) == Some(Target::Turn(t as usize)) {
            let mark = (
                crate::serve::parse::cache::Place::Message((t + 1) as nat),
                Marked::Unmarked,
                crate::serve::parse::cache::automatic_for(policy),
            );
            assert(writes(seq![mark][0]));
            lemma_join_writes(inner, seq![mark]);
        } else {
            lemma_join_writes(inner, Seq::<MarkView>::empty());
        }
        lemma_join_writes(turns_marks(turns, tools, policy, t), turn_marks(turns, tools, policy, t));
    }
}

/// A prompt carries at most four cache markers, and each of them writes:
/// the kept explicit breakpoints are at most four, three when the automatic
/// write needs a slot of its own, and that slot is at most one.
pub proof fn law_at_most_four_cache_writes(turns: Seq<TurnView>, tools: nat, policy: AutomaticWrite)
    requires
        countable(turns),
    ensures
        cache_marks(turns, tools, policy).len() <= 4,
        forall|i: int|
            0 <= i < cache_marks(turns, tools, policy).len() ==> writes(
                #[trigger] cache_marks(turns, tools, policy)[i],
            ),
{
    let n = turns.len() as int;
    let d = dropped(turns, tools, policy);
    let keep = kept_writes(turns, tools, policy);
    let total = explicit_total(turns);
    let marks = cache_marks(turns, tools, policy);
    let listed = turns_marks(turns, tools, policy, n);
    lemma_turns_explicit(turns, tools, policy, n);
    lemma_turns_other(turns, tools, policy, n);
    lemma_target_in(turns);
    assert(turns.take(n) =~= turns);
    let tool_mark: MarkView = (
        crate::serve::parse::cache::Place::Tool(tools),
        Marked::Unmarked,
        crate::serve::parse::cache::automatic_for(policy),
    );
    if enabled(turns, tools, policy) && target_of(turns, tools) == Some(Target::Tool) {
        assert(writes(seq![tool_mark][0]));
        lemma_counts_split(listed, seq![tool_mark]);
        lemma_counts_one(tool_mark);
    } else {
        assert(listed + Seq::<MarkView>::empty() =~= listed);
        lemma_counts_split(listed, Seq::<MarkView>::empty());
    }
    lemma_counts_cover(marks);
    assert(explicit_marks(marks) <= keep);
    if let Some(Target::Part(tt, pp)) = target_of(turns, tools) {
        let t = tt as int;
        let p = pp as int;
        if enabled(turns, tools, policy) && t < n && p < turns[t].1.len() && turns[t].1[p].1
            == Marked::Explicit {
            assert(target_in(turns) == Some(Target::Part(tt, pp)));
            lemma_total_ends_at(turns, t);
            let parts = turns[t].1;
            assert(parts.take(p) =~= parts.drop_last());
            assert(parts.last() == parts[p]);
            assert(turns.take(t + 1).drop_last() =~= turns.take(t));
            assert(turns.take(t + 1).last() == turns[t]);
            assert(rank(turns, t, p) + 1 == total);
            assert(kept(turns, tools, policy, t, p));
        }
    }
    assert(other_marks(marks) <= 1);
    assert(other_marks(marks) == 1 ==> keep == 3);
    lemma_turns_write(turns, tools, policy, n);
    if enabled(turns, tools, policy) && target_of(turns, tools) == Some(Target::Tool) {
        lemma_join_writes(listed, seq![tool_mark]);
    } else {
        lemma_join_writes(listed, Seq::<MarkView>::empty());
    }
}

} // verus!
