//! The template resolver: of the candidates on the search path, the first
//! readable one wins and every later readable one is shadowed.

use vstd::prelude::*;

verus! {

/// What probing one template path found.
#[derive(Clone, Debug, PartialEq, Eq)]
pub enum Probe {
    /// Nothing exists at the path.
    Missing,
    /// Something exists at the path, but it could not be read.
    Unreadable,
    /// A template with these bytes.
    Readable(Vec<u8>),
}

/// A probe as a mathematical value.
pub enum ProbeView {
    Missing,
    Unreadable,
    Readable(Seq<u8>),
}

impl View for Probe {
    type V = ProbeView;

    open spec fn view(&self) -> ProbeView {
        match self {
            Probe::Missing => ProbeView::Missing,
            Probe::Unreadable => ProbeView::Unreadable,
            Probe::Readable(bytes) => ProbeView::Readable(bytes@),
        }
    }
}

impl DeepView for Probe {
    type V = ProbeView;

    open spec fn deep_view(&self) -> ProbeView {
        self.view()
    }
}

/// One template path of the search path, with what probing it found.
#[derive(Clone, Debug, PartialEq, Eq)]
pub struct Candidate {
    pub path: String,
    pub probe: Probe,
}

/// A candidate as a mathematical value.
pub struct CandidateView {
    pub path: Seq<char>,
    pub probe: ProbeView,
}

impl View for Candidate {
    type V = CandidateView;

    open spec fn view(&self) -> CandidateView {
        CandidateView { path: self.path@, probe: self.probe@ }
    }
}

impl DeepView for Candidate {
    type V = CandidateView;

    open spec fn deep_view(&self) -> CandidateView {
        self.view()
    }
}

/// Candidate `i` exists and holds a readable template.
pub open spec fn readable(candidates: Seq<CandidateView>, i: int) -> bool {
    0 <= i < candidates.len() && candidates[i].probe is Readable
}

/// Candidate `i` is readable and no candidate before it is.
pub open spec fn wins(candidates: Seq<CandidateView>, i: int) -> bool {
    readable(candidates, i) && forall|j: int| 0 <= j < i ==> !readable(candidates, j)
}

/// The index of the winning candidate: the first readable one.
pub open spec fn winner(candidates: Seq<CandidateView>) -> Option<int> {
    if exists|i: int| wins(candidates, i) {
        Some(choose|i: int| wins(candidates, i))
    } else {
        None
    }
}

/// The resolved template: the bytes of the winning candidate.
pub open spec fn resolved(candidates: Seq<CandidateView>) -> Option<Seq<u8>> {
    match winner(candidates) {
        Some(i) => match candidates[i].probe {
            ProbeView::Readable(bytes) => Some(bytes),
            _ => None,
        },
        None => None,
    }
}

/// At most one candidate wins, and `winner` names it.
pub proof fn lemma_winner_unique(candidates: Seq<CandidateView>, i: int)
    requires
        wins(candidates, i),
    ensures
        winner(candidates) == Some(i),
{
    let w = choose|k: int| wins(candidates, k);
    assert(wins(candidates, w));
    if w < i {
        assert(!readable(candidates, w));
    } else if i < w {
        assert(!readable(candidates, i));
    }
}

/// The winner is the first readable candidate, and without a winner no
/// candidate is readable.
pub proof fn lemma_winner_first(candidates: Seq<CandidateView>)
    ensures
        match winner(candidates) {
            Some(i) => wins(candidates, i),
            None => forall|i: int| !readable(candidates, i),
        },
{
    if winner(candidates) is None {
        assert forall|i: int| !readable(candidates, i) by {
            if readable(candidates, i) {
                lemma_winner_at_or_before(candidates, i);
            }
        }
    }
}

/// A readable candidate has a winner at or before it.
proof fn lemma_winner_at_or_before(candidates: Seq<CandidateView>, i: int)
    requires
        readable(candidates, i),
    ensures
        exists|w: int| 0 <= w <= i && wins(candidates, w),
    decreases i,
{
    if exists|j: int| 0 <= j < i && readable(candidates, j) {
        let j = choose|j: int| 0 <= j < i && readable(candidates, j);
        lemma_winner_at_or_before(candidates, j);
    } else {
        assert(wins(candidates, i));
    }
}

/// The template is taken from the readable candidate of highest priority,
/// and what any candidate of lower priority holds does not change it: two
/// search paths that agree up to their first readable candidate resolve to
/// the same bytes.
pub proof fn lemma_highest_priority_wins(
    candidates: Seq<CandidateView>,
    others: Seq<CandidateView>,
    i: int,
)
    requires
        wins(candidates, i),
        i < others.len(),
        others.take(i + 1) == candidates.take(i + 1),
    ensures
        candidates[i].probe matches ProbeView::Readable(bytes) && resolved(candidates) == Some(
            bytes,
        ),
        resolved(others) == resolved(candidates),
{
    lemma_winner_unique(candidates, i);
    assert forall|j: int| 0 <= j <= i implies others[j] == candidates[j] by {
        assert(others.take(i + 1)[j] == others[j]);
        assert(candidates.take(i + 1)[j] == candidates[j]);
    }
    assert(wins(others, i)) by {
        assert(readable(others, i));
        assert forall|j: int| 0 <= j < i implies !readable(others, j) by {
            assert(!readable(candidates, j));
        }
    }
    lemma_winner_unique(others, i);
}

/// Where no candidate holds a readable template, none is resolved.
pub proof fn lemma_no_match_resolves_to_none(candidates: Seq<CandidateView>)
    requires
        forall|i: int| !readable(candidates, i),
    ensures
        winner(candidates) is None,
        resolved(candidates) is None,
{
    lemma_winner_first(candidates);
}

/// Finds the winning candidate: the first one that holds a readable template.
pub fn first_readable(candidates: &Vec<Candidate>) -> (found: Option<usize>)
    ensures
        match found {
            Some(i) => i < candidates.len() && winner(candidates.deep_view()) == Some(i as int),
            None => winner(candidates.deep_view()) is None,
        },
{
    let mut i: usize = 0;
    while i < candidates.len()
        invariant
            i <= candidates.len(),
            forall|j: int| 0 <= j < i ==> !readable(candidates.deep_view(), j),
        decreases candidates.len() - i,
    {
        if let Probe::Readable(_) = &candidates[i].probe {
            proof {
                lemma_winner_unique(candidates.deep_view(), i as int);
            }
            return Some(i);
        }
        i += 1;
    }
    proof {
        lemma_winner_first(candidates.deep_view());
    }
    None
}

/// Get the template for the extension whose candidates these are: the bytes
/// of the first readable candidate, or `None` if no candidate is readable.
pub fn template_contents(candidates: &Vec<Candidate>) -> (template: Option<Vec<u8>>)
    ensures
        match template {
            Some(bytes) => resolved(candidates.deep_view()) == Some(bytes@),
            None => resolved(candidates.deep_view()) is None,
        },
{
    match first_readable(candidates) {
        Some(i) => {
            proof {
                lemma_winner_first(candidates.deep_view());
            }
            match &candidates[i].probe {
                Probe::Readable(bytes) => Some(bytes.clone()),
                _ => None,
            }
        },
        None => None,
    }
}

} // verus!
