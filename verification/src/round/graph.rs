//! The round graph and the builder that keeps it well formed.
//!
//! Fragments live in one arena in insertion order, and an edge names an
//! earlier fragment by its position, so every graph the builder returns is
//! acyclic by construction and two graphs built by the same steps are equal.
use vstd::prelude::*;
use crate::pretty::decimal_digits;
use crate::pretty::decimal_into;
use crate::round::fragment::kind_name;
use crate::round::fragment::kind_phase;
use crate::round::fragment::FragmentKind;
use crate::round::fragment::Phase;
use crate::round::maybe::Maybe;
use vstd::string::*;

verus! {

/// A fragment's position in its graph.
#[derive(Debug, Clone, Copy, PartialEq, Eq, Structural, PartialOrd, Ord, Hash)]
pub struct FragmentId(pub usize);

impl FragmentId {
    /// The position as `fragment #<n>`.
    pub fn render(&self) -> (r: String)
        ensures
            r@ == fragment_name(*self),
    {
        let mut out = String::from_str("fragment #");
        decimal_into(&mut out, self.0 as u64);
        out
    }
}

/// How a fragment id is rendered.
pub open spec fn fragment_name(id: FragmentId) -> Seq<char> {
    "fragment #"@ + decimal_digits(id.0 as nat)
}

/// A fragment as the rules read it: its kind and the ids it reads, in order.
pub type FragmentView = (FragmentKind, Seq<FragmentId>);

/// One node: what it computes and the earlier fragments it reads.
#[derive(Debug, Clone, PartialEq, Eq, Hash)]
pub struct Fragment {
    /// What the fragment computes.
    kind: FragmentKind,
    /// The fragments whose outputs it reads, each earlier than it, without
    /// repeats, in the order the component named them.
    inputs: Vec<FragmentId>,
}

impl View for Fragment {
    type V = FragmentView;

    closed spec fn view(&self) -> FragmentView {
        (self.kind, self.inputs@)
    }
}

impl Fragment {
    /// What the fragment computes.
    pub fn kind(&self) -> (r: FragmentKind)
        ensures
            r == self@.0,
    {
        self.kind
    }

    /// The fragments it reads.
    pub fn inputs(&self) -> (r: &[FragmentId])
        ensures
            r@ == self@.1,
    {
        self.inputs.as_slice()
    }
}

/// Every input names an earlier fragment.
pub open spec fn inputs_earlier(frags: Seq<FragmentView>) -> bool {
    forall|i: int, j: int|
        0 <= i < frags.len() && 0 <= j < frags[i].1.len() ==> (#[trigger] frags[i].1[j]).0 < i
}

/// No fragment names an input twice.
pub open spec fn inputs_distinct(frags: Seq<FragmentView>) -> bool {
    forall|i: int, j: int, k: int|
        0 <= i < frags.len() && 0 <= j < k < frags[i].1.len() ==> #[trigger] frags[i].1[j]
            != #[trigger] frags[i].1[k]
}

/// Some of `inputs` names an acceptance among `frags`.
pub open spec fn reads_acceptance(frags: Seq<FragmentView>, inputs: Seq<FragmentId>) -> bool {
    exists|j: int|
        0 <= j < inputs.len() && (#[trigger] inputs[j]).0 < frags.len() && frags[inputs[j].0 as int].0 is Accept
}

/// Every commit fragment reads an acceptance.
pub open spec fn commits_read_acceptance(frags: Seq<FragmentView>) -> bool {
    forall|i: int|
        0 <= i < frags.len() && kind_phase(#[trigger] frags[i].0) == Phase::Commit
            ==> reads_acceptance(frags.take(i), frags[i].1)
}

/// No execute fragment follows a commit fragment.
pub open spec fn phases_ordered(frags: Seq<FragmentView>) -> bool {
    forall|i: int, j: int|
        0 <= i < j < frags.len() && kind_phase(#[trigger] frags[i].0) == Phase::Commit
            ==> kind_phase(#[trigger] frags[j].0) == Phase::Commit
}

/// The rules every prefix of a round keeps.
pub open spec fn round_rules(frags: Seq<FragmentView>) -> bool {
    &&& inputs_earlier(frags)
    &&& inputs_distinct(frags)
    &&& commits_read_acceptance(frags)
    &&& phases_ordered(frags)
}

/// Some fragment runs in `phase`.
pub open spec fn has_phase(frags: Seq<FragmentView>, phase: Phase) -> bool {
    exists|i: int| 0 <= i < frags.len() && kind_phase(#[trigger] frags[i].0) == phase
}

/// A well-formed round: the rules, and both phases present.
pub open spec fn is_round(frags: Seq<FragmentView>) -> bool {
    &&& round_rules(frags)
    &&& has_phase(frags, Phase::Execute)
    &&& has_phase(frags, Phase::Commit)
}

/// A well-formed round: execute fragments, then commit fragments, each
/// commit fragment reading an acceptance.
#[derive(Debug, PartialEq, Eq, Hash)]
pub struct RoundGraph {
    /// The fragments in insertion order.
    fragments: Vec<Fragment>,
}

impl View for RoundGraph {
    type V = Seq<FragmentView>;

    closed spec fn view(&self) -> Seq<FragmentView> {
        self.fragments@.map_values(|f: Fragment| f@)
    }
}

/// Why two graphs have no first difference.
#[derive(Debug, Clone, Copy, PartialEq, Eq, Structural)]
pub enum Congruence {
    /// The graphs are equal fragment for fragment.
    Identical,
}

/// `d` is the first divergence of `a` from `b`: absent exactly when the two
/// are equal, else the smallest position at which they differ, or the shorter
/// one's length where it is a proper prefix of the other.
pub open spec fn is_divergence(
    a: Seq<FragmentView>,
    b: Seq<FragmentView>,
    d: Maybe<FragmentId, Congruence>,
) -> bool {
    match d {
        Maybe::Absent(_) => a == b,
        Maybe::Present(at) => {
            let p = at.0 as int;
            &&& p <= a.len()
            &&& p <= b.len()
            &&& a.take(p) == b.take(p)
            &&& (p < a.len() && p < b.len() ==> a[p] != b[p])
            &&& a != b
        },
    }
}

impl RoundGraph {
    #[verifier::type_invariant]
    spec fn well_formed(self) -> bool {
        is_round(self@)
    }

    /// The fragments in insertion order, which keep the round's rules.
    pub fn fragments(&self) -> (r: &[Fragment])
        ensures
            r@.map_values(|f: Fragment| f@) == self@,
            is_round(self@),
    {
        proof {
            use_type_invariant(self);
        }
        self.fragments.as_slice()
    }

    /// The fragments with their ids, in insertion order.
    pub fn entries(&self) -> (r: Vec<(FragmentId, &Fragment)>)
        ensures
            r@.len() == self@.len(),
            forall|i: int|
                0 <= i < r@.len() ==> (#[trigger] r@[i]).0 == FragmentId(i as usize) && r@[i].1@
                    == self@[i],
    {
        let mut out: Vec<(FragmentId, &Fragment)> = Vec::new();
        let mut i: usize = 0;
        while i < self.fragments.len()
            invariant
                i <= self.fragments@.len(),
                out@.len() == i,
                forall|k: int|
                    0 <= k < i ==> (#[trigger] out@[k]).0 == FragmentId(k as usize) && out@[k].1@
                        == self@[k],
            decreases self.fragments@.len() - i,
        {
            out.push((FragmentId(i), &self.fragments[i]));
            i = i + 1;
        }
        out
    }

    /// The first position at which `self` and `other` differ.
    pub fn divergence(&self, other: &Self) -> (r: Maybe<FragmentId, Congruence>)
        ensures
            is_divergence(self@, other@, r),
    {
        let ours = &self.fragments;
        let theirs = &other.fragments;
        let mut position: usize = 0;
        while position < ours.len() && position < theirs.len()
            invariant
                position <= ours@.len(),
                position <= theirs@.len(),
                self@.take(position as int) == other@.take(position as int),
                self@.len() == ours@.len(),
                other@.len() == theirs@.len(),
                self@ == ours@.map_values(|f: Fragment| f@),
                other@ == theirs@.map_values(|f: Fragment| f@),
            decreases ours@.len() - position,
        {
            if !same_fragment(&ours[position], &theirs[position]) {
                proof {
                    assert(self@[position as int] == ours@[position as int]@);
                    assert(other@[position as int] == theirs@[position as int]@);
                    assert(self@ != other@);
                }
                return Maybe::Present(FragmentId(position));
            }
            proof {
                assert(self@.take(position + 1) == self@.take(position as int).push(
                    self@[position as int],
                ));
                assert(other@.take(position + 1) == other@.take(position as int).push(
                    other@[position as int],
                ));
            }
            position = position + 1;
        }
        if position == ours.len() && position == theirs.len() {
            proof {
                assert(self@ == self@.take(position as int));
                assert(other@ == other@.take(position as int));
            }
            Maybe::Absent(Congruence::Identical)
        } else {
            proof {
                assert(self@.len() != other@.len());
            }
            Maybe::Present(FragmentId(position))
        }
    }
}

/// Whether two fragments have the same kind and inputs.
fn same_fragment(a: &Fragment, b: &Fragment) -> (r: bool)
    ensures
        r == (a@ == b@),
{
    if a.kind != b.kind || a.inputs.len() != b.inputs.len() {
        return false;
    }
    let mut i: usize = 0;
    while i < a.inputs.len()
        invariant
            a.inputs@.len() == b.inputs@.len(),
            i <= a.inputs@.len(),
            forall|k: int| 0 <= k < i ==> a.inputs@[k] == b.inputs@[k],
        decreases a.inputs@.len() - i,
    {
        if a.inputs[i].0 != b.inputs[i].0 {
            proof {
                assert(a@.1[i as int] != b@.1[i as int]);
            }
            return false;
        }
        i = i + 1;
    }
    proof {
        assert(a.inputs@ == b.inputs@);
    }
    true
}

/// Two divergences of the same pair are the same.
pub proof fn lemma_divergence_unique(
    a: Seq<FragmentView>,
    b: Seq<FragmentView>,
    d: Maybe<FragmentId, Congruence>,
    e: Maybe<FragmentId, Congruence>,
)
    requires
        is_divergence(a, b, d),
        is_divergence(a, b, e),
    ensures
        d == e,
{
    match (d, e) {
        (Maybe::Present(x), Maybe::Present(y)) => {
            if x.0 != y.0 {
                let p = if x.0 < y.0 { x.0 as int } else { y.0 as int };
                let q = if x.0 < y.0 { y.0 as int } else { x.0 as int };
                assert(p < q <= a.len() && q <= b.len());
                assert(a.take(q)[p] == a[p]);
                assert(b.take(q)[p] == b[p]);
                assert(a.take(q) == b.take(q));
                assert(a[p] == b[p]);
                if x.0 < y.0 {
                    assert(is_divergence(a, b, d));
                    assert(a[p] != b[p]);
                } else {
                    assert(is_divergence(a, b, e));
                    assert(a[p] != b[p]);
                }
                assert(false);
            }
            assert(x == y);
            assert(d == e);
        },
        (Maybe::Absent(c), Maybe::Absent(k)) => {
            assert(c == Congruence::Identical);
            assert(k == Congruence::Identical);
            assert(d == Maybe::<FragmentId, Congruence>::Absent(c));
            assert(d == e);
        },
        (Maybe::Present(_), Maybe::Absent(_)) => {
            assert(a == b);
            assert(a != b);
        },
        (Maybe::Absent(_), Maybe::Present(_)) => {
            assert(a == b);
            assert(a != b);
        },
    }
}

/// The divergence relation is symmetric: `a` diverges from `b` where `b`
/// diverges from `a`.
pub proof fn law_divergence_symmetric(
    a: Seq<FragmentView>,
    b: Seq<FragmentView>,
    d: Maybe<FragmentId, Congruence>,
)
    requires
        is_divergence(a, b, d),
    ensures
        is_divergence(b, a, d),
{
}

/// A graph the builder refused.
#[derive(Debug, Clone, Copy, PartialEq, Eq, Structural)]
pub enum BuildFailure {
    /// An input names no fragment added so far.
    UnknownInput(FragmentId),
    /// A fragment names the same input twice.
    RepeatedInput(FragmentId),
    /// An execute-phase fragment was added after the commit phase began.
    ExecuteAfterCommit(FragmentKind),
    /// A commit-phase fragment reads no acceptance.
    CommitWithoutAcceptance(FragmentKind),
    /// The graph has no fragment in this phase.
    EmptyPhase(Phase),
}

/// The operator's reading of a refusal.
pub open spec fn build_failure_text(failure: BuildFailure) -> Seq<char> {
    match failure {
        BuildFailure::UnknownInput(input) => fragment_name(input) + " does not exist yet"@,
        BuildFailure::RepeatedInput(input) => fragment_name(input) + " is named twice as an input"@,
        BuildFailure::ExecuteAfterCommit(kind) => "a "@ + kind_name(kind)
            + " runs before the commit and cannot follow a commit fragment"@,
        BuildFailure::CommitWithoutAcceptance(kind) => "a "@ + kind_name(kind)
            + " commits without reading an acceptance"@,
        BuildFailure::EmptyPhase(phase) => "the round has no "@ + (match phase {
            Phase::Execute => "execute"@,
            Phase::Commit => "commit"@,
        }) + " fragment"@,
    }
}

impl BuildFailure {
    /// Render the refusal.
    pub fn render(&self) -> (r: String)
        ensures
            r@ == build_failure_text(*self),
    {
        match *self {
            BuildFailure::UnknownInput(input) => {
                let mut out = input.render();
                out.append(" does not exist yet");
                out
            },
            BuildFailure::RepeatedInput(input) => {
                let mut out = input.render();
                out.append(" is named twice as an input");
                out
            },
            BuildFailure::ExecuteAfterCommit(kind) => {
                let mut out = String::from_str("a ");
                out.append(kind.render());
                out.append(" runs before the commit and cannot follow a commit fragment");
                out
            },
            BuildFailure::CommitWithoutAcceptance(kind) => {
                let mut out = String::from_str("a ");
                out.append(kind.render());
                out.append(" commits without reading an acceptance");
                out
            },
            BuildFailure::EmptyPhase(phase) => {
                let mut out = String::from_str("the round has no ");
                out.append(phase.render());
                out.append(" fragment");
                out
            },
        }
    }
}

/// Whether the builder has entered the commit phase.
#[derive(Debug, Clone, Copy, Default, PartialEq, Eq, Structural)]
enum Committing {
    /// Only execute fragments so far.
    #[default]
    NotYet,
    /// A commit fragment has been added.
    Begun,
}

/// What a builder holds, as the rules read it.
pub struct BuilderView {
    /// The fragments added so far.
    pub fragments: Seq<FragmentView>,
    /// Whether a commit fragment has been added.
    pub committing: bool,
}

/// The first refusal the inputs from position `i` on draw against a graph of
/// `len` fragments: an input naming no fragment yet, or one named before.
pub open spec fn input_refusal(len: nat, inputs: Seq<FragmentId>, i: int) -> Option<BuildFailure>
    decreases inputs.len() - i,
{
    if i < 0 || i >= inputs.len() {
        None
    } else if inputs[i].0 >= len {
        Some(BuildFailure::UnknownInput(inputs[i]))
    } else if inputs.take(i).contains(inputs[i]) {
        Some(BuildFailure::RepeatedInput(inputs[i]))
    } else {
        input_refusal(len, inputs, i + 1)
    }
}

/// What adding `kind` reading `inputs` does to a builder: the refusal, or
/// the builder with the fragment appended and the new fragment's id.
pub open spec fn spec_add(
    view: BuilderView,
    kind: FragmentKind,
    inputs: Seq<FragmentId>,
) -> Result<(BuilderView, FragmentId), BuildFailure> {
    match input_refusal(view.fragments.len(), inputs, 0) {
        Some(failure) => Err(failure),
        None => {
            if kind_phase(kind) == Phase::Execute && view.committing {
                Err(BuildFailure::ExecuteAfterCommit(kind))
            } else if kind_phase(kind) == Phase::Commit && !reads_acceptance(
                view.fragments,
                inputs,
            ) {
                Err(BuildFailure::CommitWithoutAcceptance(kind))
            } else {
                Ok(
                    (
                        BuilderView {
                            fragments: view.fragments.push((kind, inputs)),
                            committing: view.committing || kind_phase(kind) == Phase::Commit,
                        },
                        FragmentId(view.fragments.len() as usize),
                    ),
                )
            }
        },
    }
}

/// What finishing a builder gives: its fragments, when both phases are
/// present, else the first empty phase.
pub open spec fn spec_finish(view: BuilderView) -> Result<Seq<FragmentView>, BuildFailure> {
    if !has_phase(view.fragments, Phase::Execute) {
        Err(BuildFailure::EmptyPhase(Phase::Execute))
    } else if !view.committing {
        Err(BuildFailure::EmptyPhase(Phase::Commit))
    } else {
        Ok(view.fragments)
    }
}

/// The builder rules: the round's rules hold of what was added, and the
/// builder is committing exactly when a commit fragment was added.
pub open spec fn builder_rules(view: BuilderView) -> bool {
    &&& round_rules(view.fragments)
    &&& (view.committing <==> has_phase(view.fragments, Phase::Commit))
}

/// Adding a fragment keeps the builder rules.
pub proof fn lemma_add_keeps_rules(view: BuilderView, kind: FragmentKind, inputs: Seq<FragmentId>)
    requires
        builder_rules(view),
        spec_add(view, kind, inputs) is Ok,
    ensures
        builder_rules(spec_add(view, kind, inputs)->Ok_0.0),
{
    let next = spec_add(view, kind, inputs)->Ok_0.0;
    let frags = view.fragments;
    let n = frags.len() as int;
    let grown = next.fragments;
    lemma_no_input_refusal(frags.len(), inputs, 0);
    assert(grown.take(n) == frags);
    assert forall|i: int, j: int| 0 <= i < grown.len() && 0 <= j < grown[i].1.len() implies (
    #[trigger] grown[i].1[j]).0 < i by {
        if i < n {
            assert(grown[i] == frags[i]);
        }
    }
    assert forall|i: int, j: int, k: int|
        0 <= i < grown.len() && 0 <= j < k < grown[i].1.len() implies #[trigger] grown[i].1[j]
        != #[trigger] grown[i].1[k] by {
        if i < n {
            assert(grown[i] == frags[i]);
        } else {
            assert(inputs.take(k)[j] == inputs[j]);
        }
    }
    assert forall|i: int|
        0 <= i < grown.len() && kind_phase(#[trigger] grown[i].0) == Phase::Commit implies reads_acceptance(
        grown.take(i),
        grown[i].1,
    ) by {
        if i < n {
            assert(grown[i] == frags[i]);
            assert(grown.take(i) == frags.take(i));
        } else {
            assert(grown.take(i) == frags);
        }
    }
    assert forall|i: int, j: int|
        0 <= i < j < grown.len() && kind_phase(#[trigger] grown[i].0) == Phase::Commit
            implies kind_phase(#[trigger] grown[j].0) == Phase::Commit by {
        if j < n {
            assert(grown[i] == frags[i]);
            assert(grown[j] == frags[j]);
        } else {
            assert(grown[i] == frags[i]);
            assert(has_phase(frags, Phase::Commit));
        }
    }
    if next.committing {
        if kind_phase(kind) == Phase::Commit {
            assert(kind_phase(grown[n].0) == Phase::Commit);
        } else {
            let w = choose|i: int| 0 <= i < frags.len() && kind_phase(#[trigger] frags[i].0) == Phase::Commit;
            assert(grown[w] == frags[w]);
        }
    }
    if has_phase(grown, Phase::Commit) {
        let w = choose|i: int| 0 <= i < grown.len() && kind_phase(#[trigger] grown[i].0) == Phase::Commit;
        if w < n {
            assert(grown[w] == frags[w]);
        }
    }
}

/// Without a refusal from position `i` on, every input from there names an
/// earlier fragment and repeats none before it.
pub proof fn lemma_no_input_refusal(len: nat, inputs: Seq<FragmentId>, i: int)
    requires
        0 <= i <= inputs.len(),
        input_refusal(len, inputs, i) is None,
    ensures
        forall|k: int| i <= k < inputs.len() ==> (#[trigger] inputs[k]).0 < len && !inputs.take(
            k,
        ).contains(inputs[k]),
    decreases inputs.len() - i,
{
    if i < inputs.len() {
        lemma_no_input_refusal(len, inputs, i + 1);
    }
}

/// Builds a [`RoundGraph`], refusing each step that would break its rules.
#[derive(Debug, Clone)]
pub struct RoundBuilder {
    /// The fragments added so far.
    fragments: Vec<Fragment>,
    /// Whether a commit fragment has been added.
    committing: Committing,
}

impl RoundBuilder {
    /// What the builder holds.
    pub closed spec fn view(&self) -> BuilderView {
        BuilderView {
            fragments: self.fragments@.map_values(|f: Fragment| f@),
            committing: self.committing == Committing::Begun,
        }
    }

    /// The builder keeps the builder rules.
    pub open spec fn well_formed(&self) -> bool {
        builder_rules(self.view())
    }

    /// An empty builder.
    pub fn new() -> (r: Self)
        ensures
            r.view().fragments == Seq::<FragmentView>::empty(),
            !r.view().committing,
            r.well_formed(),
    {
        let r = RoundBuilder { fragments: Vec::new(), committing: Committing::NotYet };
        proof {
            assert(r.view().fragments =~= Seq::<FragmentView>::empty());
        }
        r
    }

    /// Add a fragment reading `inputs`: on success the fragment is the
    /// graph's last and the id names it; on a refusal the builder is
    /// unchanged.
    pub fn add(&mut self, kind: FragmentKind, inputs: &[FragmentId]) -> (r: Result<
        FragmentId,
        BuildFailure,
    >)
        requires
            old(self).well_formed(),
        ensures
            final(self).well_formed(),
            match spec_add(old(self).view(), kind, inputs@) {
                Ok((next, id)) => r == Ok::<FragmentId, BuildFailure>(id) && final(self).view()
                    == next,
                Err(failure) => r == Err::<FragmentId, BuildFailure>(failure)
                    && final(self).view() == old(self).view(),
            },
    {
        let ghost frags = self.view().fragments;
        let mut accepted = false;
        let mut index: usize = 0;
        while index < inputs.len()
            invariant
                *self == *old(self),
                old(self).well_formed(),
                index <= inputs@.len(),
                frags == self.view().fragments,
                frags.len() == self.fragments@.len(),
                input_refusal(frags.len(), inputs@, 0) == input_refusal(
                    frags.len(),
                    inputs@,
                    index as int,
                ),
                accepted <==> exists|j: int|
                    0 <= j < index && (#[trigger] inputs@[j]).0 < frags.len()
                        && frags[inputs@[j].0 as int].0 is Accept,
            decreases inputs@.len() - index,
        {
            let input = inputs[index];
            if input.0 >= self.fragments.len() {
                return Err(BuildFailure::UnknownInput(input));
            }
            let mut earlier: usize = 0;
            while earlier < index
                invariant
                    *self == *old(self),
                    old(self).well_formed(),
                    frags == self.view().fragments,
                    frags.len() == self.fragments@.len(),
                    input.0 < frags.len(),
                    input_refusal(frags.len(), inputs@, 0) == input_refusal(
                        frags.len(),
                        inputs@,
                        index as int,
                    ),
                    earlier <= index < inputs@.len(),
                    input == inputs@[index as int],
                    forall|k: int| 0 <= k < earlier ==> inputs@[k] != input,
                decreases index - earlier,
            {
                if inputs[earlier].0 == input.0 {
                    proof {
                        assert(inputs@.take(index as int)[earlier as int] == input);
                        assert(inputs@.take(index as int).contains(input));
                    }
                    return Err(BuildFailure::RepeatedInput(input));
                }
                earlier = earlier + 1;
            }
            proof {
                assert(!inputs@.take(index as int).contains(input)) by {
                    if inputs@.take(index as int).contains(input) {
                        let k = choose|k: int|
                            0 <= k < index && inputs@.take(index as int)[k] == input;
                        assert(inputs@[k] == input);
                    }
                }
                assert(frags[input.0 as int] == self.fragments@[input.0 as int]@);
            }
            if matches!(self.fragments[input.0].kind, FragmentKind::Accept { .. }) {
                accepted = true;
            }
            index = index + 1;
        }
        proof {
            assert(accepted == reads_acceptance(frags, inputs@));
        }
        let phase = kind.phase();
        match (phase, self.committing, accepted) {
            (Phase::Execute, Committing::Begun, _) => {
                return Err(BuildFailure::ExecuteAfterCommit(kind));
            },
            (Phase::Commit, _, false) => {
                return Err(BuildFailure::CommitWithoutAcceptance(kind));
            },
            _ => {},
        }
        let id = FragmentId(self.fragments.len());
        let ghost before = self.view();
        let fragment = Fragment { kind, inputs: vstd::slice::slice_to_vec(inputs) };
        self.fragments.push(fragment);
        if phase == Phase::Commit {
            self.committing = Committing::Begun;
        }
        proof {
            assert(self.view().fragments =~= before.fragments.push((kind, inputs@)));
            lemma_add_keeps_rules(before, kind, inputs@);
        }
        Ok(id)
    }

    /// Finish the graph: every fragment added, in order, when both phases are
    /// present.
    pub fn finish(self) -> (r: Result<RoundGraph, BuildFailure>)
        requires
            self.well_formed(),
        ensures
            match spec_finish(self.view()) {
                Ok(frags) => r matches Ok(g) && g@ == frags,
                Err(failure) => r == Err::<RoundGraph, BuildFailure>(failure),
            },
    {
        let mut i: usize = 0;
        let mut execute = false;
        while i < self.fragments.len()
            invariant
                i <= self.fragments@.len(),
                self.view().fragments == self.fragments@.map_values(|f: Fragment| f@),
                execute <==> exists|k: int|
                    0 <= k < i && kind_phase(#[trigger] self.view().fragments[k].0)
                        == Phase::Execute,
            decreases self.fragments@.len() - i,
        {
            proof {
                assert(self.view().fragments[i as int] == self.fragments@[i as int]@);
            }
            if self.fragments[i].kind.phase() == Phase::Execute {
                execute = true;
                proof {
                    assert(kind_phase(self.view().fragments[i as int].0) == Phase::Execute);
                }
            }
            i = i + 1;
        }
        if !execute {
            return Err(BuildFailure::EmptyPhase(Phase::Execute));
        }
        if self.committing == Committing::NotYet {
            return Err(BuildFailure::EmptyPhase(Phase::Commit));
        }
        Ok(RoundGraph { fragments: self.fragments })
    }
}

impl Default for RoundBuilder {
    fn default() -> (r: Self)
        ensures
            r.view().fragments == Seq::<FragmentView>::empty(),
            !r.view().committing,
            r.well_formed(),
    {
        RoundBuilder::new()
    }
}

/// A builder's graph is acyclic and ordered: every graph the builder returns
/// is a round whose every input names an earlier fragment, with no execute
/// fragment after a commit fragment and every commit reading an acceptance.
pub proof fn law_finished_graph_is_round(view: BuilderView)
    requires
        builder_rules(view),
        spec_finish(view) is Ok,
    ensures
        is_round(spec_finish(view)->Ok_0),
{
}

/// Two builders driven by the same steps agree: adding the same fragment to
/// equal builders gives equal builders and the same answer.
pub proof fn law_same_steps_same_graph(
    a: BuilderView,
    b: BuilderView,
    kind: FragmentKind,
    inputs: Seq<FragmentId>,
)
    requires
        a == b,
    ensures
        spec_add(a, kind, inputs) == spec_add(b, kind, inputs),
{
}

/// A builder after one step: the fragment added, or the builder unchanged
/// when the step was refused.
pub open spec fn after_step(view: BuilderView, step: FragmentView) -> BuilderView {
    match spec_add(view, step.0, step.1) {
        Ok((next, _)) => next,
        Err(_) => view,
    }
}

/// A builder after a run of steps, in order.
pub open spec fn after_steps(view: BuilderView, steps: Seq<FragmentView>) -> BuilderView
    decreases steps.len(),
{
    if steps.len() == 0 {
        view
    } else {
        after_step(after_steps(view, steps.drop_last()), steps.last())
    }
}

/// Steps never change or drop a fragment already added.
proof fn lemma_steps_keep_fragments(view: BuilderView, steps: Seq<FragmentView>)
    ensures
        after_steps(view, steps).fragments.len() >= view.fragments.len(),
        forall|i: int|
            0 <= i < view.fragments.len() ==> #[trigger] after_steps(view, steps).fragments[i]
                == view.fragments[i],
    decreases steps.len(),
{
    if steps.len() > 0 {
        lemma_steps_keep_fragments(view, steps.drop_last());
    }
}

/// A fragment the builder accepted keeps its kind and its inputs, in the
/// order they were named, through any later steps and into the finished
/// graph, at the position its id names; each of its inputs names an earlier
/// fragment, and none repeats.
pub proof fn law_added_fragment_kept(
    view: BuilderView,
    kind: FragmentKind,
    inputs: Seq<FragmentId>,
    steps: Seq<FragmentView>,
)
    requires
        view.fragments.len() <= usize::MAX,
        spec_add(view, kind, inputs) is Ok,
    ensures
        ({
            let (next, id) = spec_add(view, kind, inputs)->Ok_0;
            let later = after_steps(next, steps);
            &&& id.0 == view.fragments.len()
            &&& (id.0 as int) < later.fragments.len()
            &&& later.fragments[id.0 as int] == (kind, inputs)
            &&& spec_finish(later) matches Ok(frags) ==> frags[id.0 as int] == (kind, inputs)
            &&& forall|k: int|
                0 <= k < inputs.len() ==> (#[trigger] inputs[k]).0 < id.0 && !inputs.take(
                    k,
                ).contains(inputs[k])
        }),
{
    let (next, id) = spec_add(view, kind, inputs)->Ok_0;
    lemma_no_input_refusal(view.fragments.len(), inputs, 0);
    lemma_steps_keep_fragments(next, steps);
    assert(next.fragments[id.0 as int] == (kind, inputs));
}

} // verus!
