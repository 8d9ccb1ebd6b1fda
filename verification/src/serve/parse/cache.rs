//! The prompt's cache markers, as ninfer's server derives them for a Chat
//! Completions body: the explicit breakpoints a client placed, at most four
//! of them kept, and the automatic write the body's policy asks for.
use vstd::prelude::*;
use vstd::utf8::encode_utf8;
use crate::chat::request::Automatic;
use crate::chat::request::CacheBoundary;
use crate::chat::request::CacheMarker;
use crate::chat::request::Count;
use crate::chat::request::InstructionBytes;
use crate::chat::request::Marked;
use crate::chat::request::PromptCache;
use crate::chat::request::Role;
use crate::chat::request::StructuralPrefixes;
use crate::serve::error::ApiError;
use crate::serve::error::Why;
use crate::serve::error::refused_as;
use crate::serve::parse::hints::AutomaticWrite;
use crate::serve::parse::turns::PartView;
use crate::serve::parse::turns::Turn;
use crate::serve::parse::turns::TurnView;

verus! {

/// The most explicit cache writes one request keeps.
pub const EXPLICIT_WRITES: u128 = 4;

/// The explicit cache writes kept beside an automatic write that needs its
/// own slot: one fewer than [`EXPLICIT_WRITES`].
pub const EXPLICIT_WRITES_BESIDE_AUTOMATIC: u128 = 3;

/// Where a body's automatic cache write lands.
#[derive(Debug, Clone, Copy, PartialEq, Eq, Structural)]
pub enum Target {
    /// After this part of this turn.
    Part(usize, usize),
    /// After this turn, whose tool calls end it.
    Turn(usize),
    /// After the last offered tool.
    Tool,
}

/// A marker's place, its counts unbounded.
pub enum Place {
    /// After this many bytes of the leading instruction.
    Leading(nat),
    /// After this many parts of the turn at this one-based position.
    Part(nat, nat),
    /// After this many turns.
    Message(nat),
    /// After this many tools.
    Tool(nat),
}

/// A marker as its place and evidence.
pub type MarkView = (Place, Marked, Automatic);

/// The place a marker's boundary names.
pub open spec fn place_of(boundary: CacheBoundary) -> Place {
    match boundary {
        CacheBoundary::LeadingInstruction(bytes) => Place::Leading(bytes.0 as nat),
        CacheBoundary::MessagePart { message, parts } => Place::Part(message.0 as nat, parts.0 as nat),
        CacheBoundary::Message(count) => Place::Message(count.0 as nat),
        CacheBoundary::Tool(count) => Place::Tool(count.0 as nat),
    }
}

/// The views of a list of markers.
pub open spec fn mark_views(markers: Seq<CacheMarker>) -> Seq<MarkView> {
    markers.map_values(|m: CacheMarker| (place_of(m.boundary), m.marked, m.automatic))
}

/// The last turn, from the end, with tool calls (its boundary) or parts
/// (its last part).
pub open spec fn target_in(turns: Seq<TurnView>) -> Option<Target>
    decreases turns.len(),
{
    if turns.len() == 0 {
        None
    } else if turns.last().3.len() > 0 {
        Some(Target::Turn((turns.len() - 1) as usize))
    } else if turns.last().1.len() > 0 {
        Some(Target::Part((turns.len() - 1) as usize, (turns.last().1.len() - 1) as usize))
    } else {
        target_in(turns.drop_last())
    }
}

/// Where the automatic write lands: the last turn with calls or parts, else
/// the last offered tool.
pub open spec fn target_of(turns: Seq<TurnView>, tools: nat) -> Option<Target> {
    match target_in(turns) {
        Some(target) => Some(target),
        None => if tools > 0 {
            Some(Target::Tool)
        } else {
            None
        },
    }
}

/// The evidence of the automatic write a policy asks for.
pub open spec fn automatic_for(policy: AutomaticWrite) -> Automatic {
    match policy {
        AutomaticWrite::Disabled => Automatic::Not,
        AutomaticWrite::Default => Automatic::Default,
        AutomaticWrite::Requested => Automatic::Requested,
    }
}

/// Whether the automatic write happens: the policy asks for one and it has
/// a target.
pub open spec fn enabled(turns: Seq<TurnView>, tools: nat, policy: AutomaticWrite) -> bool {
    automatic_for(policy) != Automatic::Not && target_of(turns, tools) is Some
}

/// The explicit breakpoints among `parts`.
pub open spec fn explicit_count(parts: Seq<PartView>) -> nat
    decreases parts.len(),
{
    if parts.len() == 0 {
        0
    } else {
        explicit_count(parts.drop_last()) + if parts.last().1 == Marked::Explicit {
            1nat
        } else {
            0nat
        }
    }
}

/// The explicit breakpoints among the turns' parts.
pub open spec fn explicit_total(turns: Seq<TurnView>) -> nat
    decreases turns.len(),
{
    if turns.len() == 0 {
        0
    } else {
        explicit_total(turns.drop_last()) + explicit_count(turns.last().1)
    }
}

/// Whether the automatic write joins an explicit breakpoint at its target.
pub open spec fn merges(turns: Seq<TurnView>, tools: nat, policy: AutomaticWrite) -> bool {
    &&& enabled(turns, tools, policy)
    &&& target_of(turns, tools) matches Some(Target::Part(t, p))
    &&& t < turns.len() && p < turns[t as int].1.len()
    &&& turns[t as int].1[p as int].1 == Marked::Explicit
}

/// The explicit writes kept: four, or three when an enabled automatic write
/// needs a slot of its own.
pub open spec fn kept_writes(turns: Seq<TurnView>, tools: nat, policy: AutomaticWrite) -> nat {
    if !enabled(turns, tools, policy) || merges(turns, tools, policy) {
        4
    } else {
        3
    }
}

/// The earliest explicit breakpoints dropped so that only the kept number
/// remain.
pub open spec fn dropped(turns: Seq<TurnView>, tools: nat, policy: AutomaticWrite) -> nat {
    let total = explicit_total(turns);
    let keep = kept_writes(turns, tools, policy);
    if total > keep {
        (total - keep) as nat
    } else {
        0
    }
}

/// The explicit breakpoints before part `p` of turn `t`.
pub open spec fn rank(turns: Seq<TurnView>, t: int, p: int) -> nat {
    explicit_total(turns.take(t)) + explicit_count(turns[t].1.take(p))
}

/// The slot after part `p` of turn `t`: the automatic write at its target,
/// joining a kept breakpoint there; a kept explicit breakpoint; or nothing.
pub open spec fn part_slot(turns: Seq<TurnView>, tools: nat, policy: AutomaticWrite, t: int, p: int) -> Option<
    (Marked, Automatic),
> {
    let kept = turns[t].1[p].1 == Marked::Explicit && rank(turns, t, p) >= dropped(
        turns,
        tools,
        policy,
    );
    if enabled(turns, tools, policy) && target_of(turns, tools) == Some(
        Target::Part(t as usize, p as usize),
    ) {
        Some(
            (
                if kept {
                    Marked::Explicit
                } else {
                    Marked::Unmarked
                },
                automatic_for(policy),
            ),
        )
    } else if kept {
        Some((Marked::Explicit, Automatic::Not))
    } else {
        None
    }
}

/// Whether turn `t` is a leading system or developer instruction.
pub open spec fn leading(turns: Seq<TurnView>, t: int) -> bool {
    t == 0 && (turns[0].0 == Role::System || turns[0].0 == Role::Developer)
}

/// The UTF-8 bytes of the parts' texts.
pub open spec fn text_bytes(parts: Seq<PartView>) -> nat
    decreases parts.len(),
{
    if parts.len() == 0 {
        0
    } else {
        text_bytes(parts.drop_last()) + encode_utf8(parts.last().0).len()
    }
}

/// A byte count as a saturating `usize` sum reaches it.
pub open spec fn saturated(n: nat) -> nat {
    if n > usize::MAX {
        usize::MAX as nat
    } else {
        n
    }
}

/// The place of the slot after part `p` of turn `t`: a leading
/// instruction's part by its cumulative bytes, any other by its turn's
/// one-based position and its part count.
pub open spec fn part_place(turns: Seq<TurnView>, t: int, p: int) -> Place {
    if leading(turns, t) {
        Place::Leading(saturated(text_bytes(turns[t].1.take(p + 1))))
    } else {
        Place::Part((t + 1) as nat, (p + 1) as nat)
    }
}

/// The markers after the first `k` parts of turn `t`.
pub open spec fn part_marks(turns: Seq<TurnView>, tools: nat, policy: AutomaticWrite, t: int, k: int) -> Seq<
    MarkView,
>
    decreases k,
{
    if k <= 0 {
        Seq::empty()
    } else {
        part_marks(turns, tools, policy, t, k - 1) + match part_slot(turns, tools, policy, t, k - 1) {
            Some((marked, automatic)) => seq![(part_place(turns, t, k - 1), marked, automatic)],
            None => Seq::empty(),
        }
    }
}

/// The markers of turn `t`: its parts', then its own boundary's.
pub open spec fn turn_marks(turns: Seq<TurnView>, tools: nat, policy: AutomaticWrite, t: int) -> Seq<
    MarkView,
> {
    part_marks(turns, tools, policy, t, turns[t].1.len() as int) + if enabled(turns, tools, policy)
        && target_of(turns, tools) == Some(Target::Turn(t as usize)) {
        seq![(Place::Message((t + 1) as nat), Marked::Unmarked, automatic_for(policy))]
    } else {
        Seq::empty()
    }
}

/// The markers of the first `n` turns.
pub open spec fn turns_marks(turns: Seq<TurnView>, tools: nat, policy: AutomaticWrite, n: int) -> Seq<
    MarkView,
>
    decreases n,
{
    if n <= 0 {
        Seq::empty()
    } else {
        turns_marks(turns, tools, policy, n - 1) + turn_marks(turns, tools, policy, n - 1)
    }
}

/// The prompt's markers, per turn, parts before the turn's own boundary,
/// then the last tool's.
pub open spec fn cache_marks(turns: Seq<TurnView>, tools: nat, policy: AutomaticWrite) -> Seq<MarkView> {
    turns_marks(turns, tools, policy, turns.len() as int) + if enabled(turns, tools, policy)
        && target_of(turns, tools) == Some(Target::Tool) {
        seq![(Place::Tool(tools), Marked::Unmarked, automatic_for(policy))]
    } else {
        Seq::empty()
    }
}

/// Whether a marker's count exceeds the marker's `u32`.
pub open spec fn overflows(mark: MarkView) -> bool {
    match mark.0 {
        Place::Leading(bytes) => bytes > u32::MAX,
        Place::Part(message, parts) => message > u32::MAX || parts > u32::MAX,
        Place::Message(count) => count > u32::MAX,
        Place::Tool(count) => count > u32::MAX,
    }
}

/// ninfer's refusal of a count past `u32`.
pub open spec fn overflow() -> Why {
    ("conversation cache boundary exceeds uint32"@, "messages"@, ""@)
}

/// The prompt's cache markers, or the refusal of a turn position or marker
/// count past `u32`.
pub open spec fn prompt_cache_of(turns: Seq<TurnView>, tools: nat, policy: AutomaticWrite) -> Result<
    Seq<MarkView>,
    Why,
> {
    let marks = cache_marks(turns, tools, policy);
    if turns.len() > u32::MAX || exists|i: int| 0 <= i < marks.len() && overflows(#[trigger] marks[i]) {
        Err(overflow())
    } else {
        Ok(marks)
    }
}

/// The views of a list of turns.
pub open spec fn turn_views(turns: Seq<Turn>) -> Seq<TurnView> {
    turns.map_values(|t: Turn| t@)
}

/// Where the automatic write lands.
fn find_target(turns: &[Turn], tools: usize) -> (r: Option<Target>)
    ensures
        r == target_of(turn_views(turns@), tools as nat),
{
    let ghost views = turn_views(turns@);
    let mut t = turns.len();
    assert(views.take(t as int) == views);
    while t > 0
        invariant
            t <= turns@.len(),
            views == turn_views(turns@),
            target_in(views) == target_in(views.take(t as int)),
        decreases t,
    {
        let ghost before = views.take(t as int);
        assert(before.drop_last() == views.take(t - 1));
        assert(before.last() == turns@[t - 1]@);
        t = t - 1;
        if turns[t].tool_calls.len() > 0 {
            return Some(Target::Turn(t));
        }
        if turns[t].parts.len() > 0 {
            return Some(Target::Part(t, turns[t].parts.len() - 1));
        }
    }
    if tools > 0 {
        Some(Target::Tool)
    } else {
        None
    }
}

/// The explicit breakpoints among the turns' parts.
fn count_explicit(turns: &[Turn]) -> (r: u128)
    ensures
        r == explicit_total(turn_views(turns@)),
{
    let ghost views = turn_views(turns@);
    let mut total: u128 = 0;
    let mut t: usize = 0;
    assert(views.take(0).len() == 0);
    while t < turns.len()
        invariant
            t <= turns@.len(),
            views == turn_views(turns@),
            total == explicit_total(views.take(t as int)),
            total <= t * 0x1_0000_0000_0000_0000,
        decreases turns@.len() - t,
    {
        let parts = &turns[t].parts;
        let ghost part_list = views[t as int].1;
        assert(part_list == crate::serve::parse::turns::part_views(parts@));
        let mut count: u128 = 0;
        let mut p: usize = 0;
        assert(part_list.take(0).len() == 0);
        while p < parts.len()
            invariant
                p <= parts@.len(),
                part_list == crate::serve::parse::turns::part_views(parts@),
                count == explicit_count(part_list.take(p as int)),
                count <= p,
            decreases parts@.len() - p,
        {
            assert(part_list.take(p + 1).drop_last() == part_list.take(p as int));
            assert(part_list.take(p + 1).last() == (parts@[p as int].0@, parts@[p as int].1));
            if parts[p].1 == Marked::Explicit {
                count = count + 1;
            }
            p = p + 1;
        }
        assert(part_list.take(parts@.len() as int) == part_list);
        assert(views.take(t + 1).drop_last() == views.take(t as int));
        assert(views.take(t + 1).last() == views[t as int]);
        total = total + count;
        t = t + 1;
    }
    assert(views.take(turns@.len() as int) == views);
    total
}

/// A count narrowed to a marker's `u32`, or ninfer's refusal of one past it.
fn narrow(count: usize) -> (r: Result<u32, ApiError>)
    ensures
        count <= u32::MAX ==> r == Ok::<u32, ApiError>(count as u32),
        count > u32::MAX ==> (r matches Err(e) && refused_as(e, overflow())),
{
    if count <= 4294967295 {
        Ok(count as u32)
    } else {
        Err(ApiError::refusal("conversation cache boundary exceeds uint32", "messages", ""))
    }
}

/// The markers of the first `k` parts lead those of the first `m`.
pub proof fn lemma_part_marks_grow(
    turns: Seq<TurnView>,
    tools: nat,
    policy: AutomaticWrite,
    t: int,
    k: int,
    m: int,
)
    requires
        0 <= k <= m,
    ensures
        part_marks(turns, tools, policy, t, k).len() <= part_marks(turns, tools, policy, t, m).len(),
        part_marks(turns, tools, policy, t, m).take(
            part_marks(turns, tools, policy, t, k).len() as int,
        ) == part_marks(turns, tools, policy, t, k),
    decreases m - k,
{
    let short = part_marks(turns, tools, policy, t, k);
    if k == m {
        assert(short.take(short.len() as int) == short);
    } else {
        lemma_part_marks_grow(turns, tools, policy, t, k, m - 1);
        let shorter = part_marks(turns, tools, policy, t, m - 1);
        let longer = part_marks(turns, tools, policy, t, m);
        let extra = match part_slot(turns, tools, policy, t, m - 1) {
            Some((marked, automatic)) => seq![(part_place(turns, t, m - 1), marked, automatic)],
            None => Seq::<MarkView>::empty(),
        };
        assert(longer == shorter + extra);
        assert(longer.take(short.len() as int) =~= shorter.take(short.len() as int));
    }
}

/// The markers of the first `n` turns lead those of the first `m`.
pub proof fn lemma_turns_marks_grow(
    turns: Seq<TurnView>,
    tools: nat,
    policy: AutomaticWrite,
    n: int,
    m: int,
)
    requires
        0 <= n <= m,
    ensures
        turns_marks(turns, tools, policy, n).len() <= turns_marks(turns, tools, policy, m).len(),
        turns_marks(turns, tools, policy, m).take(
            turns_marks(turns, tools, policy, n).len() as int,
        ) == turns_marks(turns, tools, policy, n),
    decreases m - n,
{
    let short = turns_marks(turns, tools, policy, n);
    if n == m {
        assert(short.take(short.len() as int) == short);
    } else {
        lemma_turns_marks_grow(turns, tools, policy, n, m - 1);
        let shorter = turns_marks(turns, tools, policy, m - 1);
        let longer = turns_marks(turns, tools, policy, m);
        assert(longer == shorter + turn_marks(turns, tools, policy, m - 1));
        assert(longer.take(short.len() as int) =~= shorter.take(short.len() as int));
    }
}

/// A marker built at part `p` of turn `t` stands in the prompt's markers
/// right after those before it.
pub proof fn lemma_mark_in_cache(
    turns: Seq<TurnView>,
    tools: nat,
    policy: AutomaticWrite,
    t: int,
    p: int,
)
    requires
        0 <= t < turns.len(),
        0 <= p < turns[t].1.len(),
        part_slot(turns, tools, policy, t, p) is Some,
    ensures
        ({
            let before = turns_marks(turns, tools, policy, t) + part_marks(turns, tools, policy, t, p);
            let slot = part_slot(turns, tools, policy, t, p)->Some_0;
            &&& before.len() < cache_marks(turns, tools, policy).len()
            &&& cache_marks(turns, tools, policy)[before.len() as int] == (
                part_place(turns, t, p),
                slot.0,
                slot.1,
            )
        }),
{
    let head = turns_marks(turns, tools, policy, t);
    let before = head + part_marks(turns, tools, policy, t, p);
    let slot = part_slot(turns, tools, policy, t, p)->Some_0;
    let mark = (part_place(turns, t, p), slot.0, slot.1);
    let grown = part_marks(turns, tools, policy, t, p + 1);
    assert(grown == part_marks(turns, tools, policy, t, p) + seq![mark]);
    lemma_part_marks_grow(turns, tools, policy, t, p + 1, turns[t].1.len() as int);
    let whole = part_marks(turns, tools, policy, t, turns[t].1.len() as int);
    let turn = turn_marks(turns, tools, policy, t);
    let upto = turns_marks(turns, tools, policy, t + 1);
    assert(upto == head + turn);
    lemma_turns_marks_grow(turns, tools, policy, t + 1, turns.len() as int);
    let all = turns_marks(turns, tools, policy, turns.len() as int);
    let cache = cache_marks(turns, tools, policy);
    let index = before.len() as int;
    let inner = p_len(turns, tools, policy, t, p);
    assert(grown[inner] == mark);
    assert(whole[inner] == grown[inner]);
    assert(turn[inner] == whole[inner]);
    assert(upto[index] == turn[inner]);
    assert(all[index] == upto[index]);
    assert(cache[index] == all[index]);
}

/// The number of markers after the first `p` parts of turn `t`.
pub open spec fn p_len(turns: Seq<TurnView>, tools: nat, policy: AutomaticWrite, t: int, p: int) -> int {
    part_marks(turns, tools, policy, t, p).len() as int
}

/// The marker views carry `u32` counts, so none overflows.
proof fn lemma_views_fit(markers: Seq<CacheMarker>)
    ensures
        forall|i: int| 0 <= i < mark_views(markers).len() ==> !overflows(#[trigger] mark_views(markers)[i]),
{
}

/// The prompt's cache markers, as ninfer's server derives them for a Chat
/// Completions body: the automatic write targets the last turn, from the
/// end, with tool calls (its boundary) or parts (its last part), else the
/// last offered tool, and is enabled unless the policy disables it or there
/// is no target; of the explicit breakpoints only the last four are kept,
/// three when an enabled automatic write needs a slot of its own; the
/// automatic write joins an explicit breakpoint at its target or stands
/// alone. Markers are listed per turn, parts before the turn's own boundary,
/// then per tool; a part of a leading system or developer turn is placed by
/// its cumulative text bytes, any other part by its turn's one-based
/// position and its part count. Structural shared prefixes are withheld.
pub fn prompt_cache(turns: &[Turn], tools: &[String], policy: AutomaticWrite) -> (r: Result<PromptCache, ApiError>)
    ensures
        match (r, prompt_cache_of(turn_views(turns@), tools@.len(), policy)) {
            (Ok(cache), Ok(marks)) => mark_views(cache.markers@) == marks && cache.structural
                == StructuralPrefixes::Withheld,
            (Err(e), Err(why)) => refused_as(e, why),
            _ => false,
        },
{
    let ghost views = turn_views(turns@);
    let ghost ntools = tools@.len();
    let target = find_target(turns, tools.len());
    let automatic = match policy {
        AutomaticWrite::Disabled => Automatic::Not,
        AutomaticWrite::Default => Automatic::Default,
        AutomaticWrite::Requested => Automatic::Requested,
    };
    let enabled = automatic != Automatic::Not && target.is_some();
    let merges = enabled && match target {
        Some(Target::Part(t, p)) => t < turns.len() && p < turns[t].parts.len() && turns[t].parts[p].1
            == Marked::Explicit,
        _ => false,
    };
    proof {
        if enabled {
            if let Some(Target::Part(t, p)) = target {
                if t < turns@.len() && p < turns@[t as int].parts@.len() {
                    assert(views[t as int].1[p as int].1 == turns@[t as int].parts@[p as int].1);
                }
            }
        }
        assert(merges == crate::serve::parse::cache::merges(views, ntools, policy));
    }
    let keep: u128 = if !enabled || merges {
        EXPLICIT_WRITES
    } else {
        EXPLICIT_WRITES_BESIDE_AUTOMATIC
    };
    let total = count_explicit(turns);
    let drop: u128 = total.saturating_sub(keep);
    assert(drop == dropped(views, ntools, policy));
    let mut markers: Vec<CacheMarker> = Vec::new();
    let mut seen: u128 = 0;
    let mut t: usize = 0;
    assert(views.take(0).len() == 0);
    assert(mark_views(markers@) =~= Seq::empty());
    while t < turns.len()
        invariant
            t <= turns@.len(),
            t <= u32::MAX,
            views == turn_views(turns@),
            ntools == tools@.len(),
            target == target_of(views, ntools),
            automatic == automatic_for(policy),
            enabled == crate::serve::parse::cache::enabled(views, ntools, policy),
            drop == dropped(views, ntools, policy),
            seen == explicit_total(views.take(t as int)),
            seen <= total,
            total == explicit_total(views),
            mark_views(markers@) == turns_marks(views, ntools, policy, t as int),
        decreases turns@.len() - t,
    {
        let message = match narrow(t + 1) {
            Ok(message) => message,
            Err(e) => return Err(e),
        };
        let turn = &turns[t];
        let leading = t == 0 && (turn.role == Role::System || turn.role == Role::Developer);
        let ghost part_list = views[t as int].1;
        assert(part_list == crate::serve::parse::turns::part_views(turn.parts@));
        assert(leading == crate::serve::parse::cache::leading(views, t as int));
        let mut bytes: usize = 0;
        let mut p: usize = 0;
        assert(part_list.take(0).len() == 0);
        while p < turn.parts.len()
            invariant
                t < turns@.len(),
                t < u32::MAX,
                message == t + 1,
                views == turn_views(turns@),
                ntools == tools@.len(),
                *turn == turns@[t as int],
                part_list == views[t as int].1,
                part_list == crate::serve::parse::turns::part_views(turn.parts@),
                leading == crate::serve::parse::cache::leading(views, t as int),
                p <= turn.parts@.len(),
                target == target_of(views, ntools),
                automatic == automatic_for(policy),
                enabled == crate::serve::parse::cache::enabled(views, ntools, policy),
                drop == dropped(views, ntools, policy),
                seen == explicit_total(views.take(t as int)) + explicit_count(
                    part_list.take(p as int),
                ),
                seen <= total,
                total == explicit_total(views),
                bytes == saturated(text_bytes(part_list.take(p as int))),
                mark_views(markers@) == turns_marks(views, ntools, policy, t as int) + part_marks(
                    views,
                    ntools,
                    policy,
                    t as int,
                    p as int,
                ),
            decreases turn.parts@.len() - p,
        {
            let ghost taken = part_list.take(p + 1);
            assert(taken.drop_last() == part_list.take(p as int));
            assert(taken.last() == part_list[p as int]);
            assert(part_list[p as int] == (turn.parts@[p as int].0@, turn.parts@[p as int].1));
            bytes = bytes.saturating_add(turn.parts[p].0.as_str().as_bytes().len());
            let explicit = turn.parts[p].1 == Marked::Explicit;
            let kept = explicit && seen >= drop;
            proof {
                assert(views.take(t as int) == views.take(t as int));
                lemma_explicit_rank(views, total, t as int, p as int);
            }
            if explicit {
                seen = seen + 1;
            }
            let at_target = enabled && match target {
                Some(Target::Part(tt, pp)) => tt == t && pp == p,
                _ => false,
            };
            let slot: Option<(Marked, Automatic)> = if at_target {
                Some(
                    (
                        if kept {
                            Marked::Explicit
                        } else {
                            Marked::Unmarked
                        },
                        automatic,
                    ),
                )
            } else if kept {
                Some((Marked::Explicit, Automatic::Not))
            } else {
                None
            };
            assert(slot == part_slot(views, ntools, policy, t as int, p as int));
            let ghost earlier = markers@;
            if let Some((marked, evidence)) = slot {
                proof {
                    lemma_mark_in_cache(views, ntools, policy, t as int, p as int);
                }
                let boundary = if leading {
                    match narrow(bytes) {
                        Ok(n) => CacheBoundary::LeadingInstruction(InstructionBytes(n)),
                        Err(e) => return Err(e),
                    }
                } else {
                    match narrow(p + 1) {
                        Ok(n) => CacheBoundary::MessagePart { message: Count(message), parts: Count(n) },
                        Err(e) => return Err(e),
                    }
                };
                markers.push(CacheMarker { boundary, marked, automatic: evidence });
                assert(mark_views(markers@) =~= mark_views(earlier).push(
                    (place_of(boundary), marked, evidence),
                ));
            }
            p = p + 1;
        }
        assert(part_list.take(turn.parts@.len() as int) == part_list);
        let ghost earlier = markers@;
        let at_boundary = enabled && match target {
            Some(Target::Turn(tt)) => tt == t,
            _ => false,
        };
        if at_boundary {
            markers.push(
                CacheMarker {
                    boundary: CacheBoundary::Message(Count(message)),
                    marked: Marked::Unmarked,
                    automatic,
                },
            );
            assert(mark_views(markers@) =~= mark_views(earlier).push(
                (Place::Message((t + 1) as nat), Marked::Unmarked, automatic),
            ));
        }
        proof {
            assert(views.take(t + 1).drop_last() == views.take(t as int));
            assert(views.take(t + 1).last() == views[t as int]);
            assert(turns_marks(views, ntools, policy, t + 1) == turns_marks(
                views,
                ntools,
                policy,
                t as int,
            ) + turn_marks(views, ntools, policy, t as int));
        }
        t = t + 1;
    }
    assert(views.take(turns@.len() as int) == views);
    let ghost earlier = markers@;
    let at_tool = enabled && match target {
        Some(Target::Tool) => true,
        _ => false,
    };
    if at_tool {
        let count = match narrow(tools.len()) {
            Ok(count) => count,
            Err(e) => {
                proof {
                    let marks = cache_marks(views, ntools, policy);
                    assert(marks.last() == (Place::Tool(ntools), Marked::Unmarked, automatic));
                    assert(overflows(marks[marks.len() - 1]));
                }
                return Err(e);
            },
        };
        markers.push(
            CacheMarker {
                boundary: CacheBoundary::Tool(Count(count)),
                marked: Marked::Unmarked,
                automatic,
            },
        );
        assert(mark_views(markers@) =~= mark_views(earlier).push(
            (Place::Tool(ntools), Marked::Unmarked, automatic),
        ));
    } else {
        assert(mark_views(markers@) =~= mark_views(earlier) + Seq::<MarkView>::empty());
    }
    proof {
        lemma_views_fit(markers@);
    }
    Ok(PromptCache { markers, structural: StructuralPrefixes::Withheld })
}

/// The explicit breakpoints seen before part `p` of turn `t` are its rank,
/// and no more than all of them.
proof fn lemma_explicit_rank(turns: Seq<TurnView>, total: u128, t: int, p: int)
    requires
        0 <= t < turns.len(),
        0 <= p < turns[t].1.len(),
        total == explicit_total(turns),
    ensures
        rank(turns, t, p) == explicit_total(turns.take(t)) + explicit_count(turns[t].1.take(p)),
        turns[t].1[p].1 == Marked::Explicit ==> rank(turns, t, p) + 1 <= total,
        turns[t].1[p].1 != Marked::Explicit ==> rank(turns, t, p) <= total,
{
    lemma_rank_bound(turns, t, p);
}

/// The explicit breakpoints up to and including part `p` of turn `t` are
/// among them all.
proof fn lemma_rank_bound(turns: Seq<TurnView>, t: int, p: int)
    requires
        0 <= t < turns.len(),
        0 <= p < turns[t].1.len(),
    ensures
        rank(turns, t, p) + (if turns[t].1[p].1 == Marked::Explicit {
            1nat
        } else {
            0nat
        }) <= explicit_total(turns),
{
    let parts = turns[t].1;
    lemma_count_prefix(parts, p + 1);
    assert(parts.take(p + 1).drop_last() == parts.take(p));
    assert(parts.take(p + 1).last() == parts[p]);
    lemma_total_prefix(turns, t + 1);
    assert(turns.take(t + 1).drop_last() == turns.take(t));
    assert(turns.take(t + 1).last() == turns[t]);
}

/// A prefix's explicit breakpoints are among the whole list's.
proof fn lemma_count_prefix(parts: Seq<PartView>, k: int)
    requires
        0 <= k <= parts.len(),
    ensures
        explicit_count(parts.take(k)) <= explicit_count(parts),
    decreases parts.len(),
{
    if k == parts.len() {
        assert(parts.take(k) == parts);
    } else {
        assert(parts.drop_last().take(k) == parts.take(k));
        lemma_count_prefix(parts.drop_last(), k);
    }
}

/// A prefix of turns' explicit breakpoints are among all of them.
proof fn lemma_total_prefix(turns: Seq<TurnView>, n: int)
    requires
        0 <= n <= turns.len(),
    ensures
        explicit_total(turns.take(n)) <= explicit_total(turns),
    decreases turns.len(),
{
    if n == turns.len() {
        assert(turns.take(n) == turns);
    } else {
        assert(turns.drop_last().take(n) == turns.take(n));
        lemma_total_prefix(turns.drop_last(), n);
    }
}

} // verus!
