//! Which element is under the pointer: the first of the closest ones.

use vstd::prelude::*;

verus! {

/// A pointer within this many points of an element hovers over it; the
/// constant is the square of that distance.
pub const INTERACT_RADIUS_SQ: u128 = 256;

/// Which rulers to draw through the hovered value.
#[derive(Clone, Copy, Debug, PartialEq, Eq, Structural)]
pub enum HoverLine {
    /// No ruler.
    Off,
    /// A vertical ruler, at the hovered x.
    X,
    /// A horizontal ruler, at the hovered y.
    Y,
    /// Both rulers.
    XY,
}

impl HoverLine {
    /// All four modes.
    pub fn all() -> (r: Vec<HoverLine>)
        ensures
            r@ == seq![HoverLine::Off, HoverLine::X, HoverLine::Y, HoverLine::XY],
    {
        let mut r: Vec<HoverLine> = Vec::new();
        r.push(HoverLine::Off);
        r.push(HoverLine::X);
        r.push(HoverLine::Y);
        r.push(HoverLine::XY);
        assert(r@ =~= seq![HoverLine::Off, HoverLine::X, HoverLine::Y, HoverLine::XY]);
        r
    }

    /// Whether the ruler at the hovered x is drawn.
    pub fn show_x_line(&self) -> (r: bool)
        ensures
            r == (*self == HoverLine::X || *self == HoverLine::XY),
    {
        match self {
            HoverLine::X => true,
            HoverLine::XY => true,
            _ => false,
        }
    }

    /// Whether the ruler at the hovered y is drawn.
    pub fn show_y_line(&self) -> (r: bool)
        ensures
            r == (*self == HoverLine::Y || *self == HoverLine::XY),
    {
        match self {
            HoverLine::Y => true,
            HoverLine::XY => true,
            _ => false,
        }
    }

    /// Whether no ruler is drawn.
    pub fn is_off(&self) -> (r: bool)
        ensures
            r == (*self == HoverLine::Off),
    {
        match self {
            HoverLine::Off => true,
            _ => false,
        }
    }
}

impl Default for HoverLine {
    fn default() -> (r: Self)
        ensures
            r == HoverLine::XY,
    {
        HoverLine::XY
    }
}

/// What an item draws for the hovered element.
#[derive(Clone, Copy, Debug, PartialEq, Eq, Structural)]
pub struct HoverConfig {
    pub hover_line: HoverLine,
    pub show_hover_label: bool,
}

/// The element of an item that is closest to the pointer.
#[derive(Clone, Copy, Debug, PartialEq, Eq, Structural)]
pub struct ClosestElem {
    /// The position of the element within its item.
    pub index: usize,
    /// The squared distance on the screen between the element and the
    /// pointer.
    pub dist_sq: u128,
}

/// The index of the first of the smallest distances in `dists`, where
/// `None` stands for no distance at all; `None` if there is no distance.
pub open spec fn first_min(dists: Seq<Option<int>>) -> Option<int>
    decreases dists.len(),
{
    if dists.len() == 0 {
        None
    } else {
        let before = first_min(dists.drop_last());
        match (before, dists.last()) {
            (None, None) => None,
            (None, Some(_)) => Some(dists.len() - 1),
            (Some(j), None) => Some(j),
            (Some(j), Some(d)) => if d < dists[j].unwrap() {
                Some(dists.len() - 1)
            } else {
                Some(j)
            },
        }
    }
}

/// `first_min` finds a smallest distance, and the first of them.
pub proof fn lemma_first_min(dists: Seq<Option<int>>)
    ensures
        first_min(dists) is None <==> (forall|j: int| 0 <= j < dists.len() ==> dists[j] is None),
        first_min(dists) matches Some(i) ==> {
            &&& 0 <= i < dists.len()
            &&& dists[i] is Some
            &&& forall|j: int|
                0 <= j < dists.len() && dists[j] is Some ==> dists[i].unwrap() <= (
                #[trigger] dists[j]).unwrap()
            &&& forall|j: int|
                0 <= j < i && dists[j] is Some ==> dists[i].unwrap() < (#[trigger] dists[j]).unwrap()
        },
    decreases dists.len(),
{
    if dists.len() > 0 {
        lemma_first_min(dists.drop_last());
        let before = first_min(dists.drop_last());
        assert forall|j: int| 0 <= j < dists.len() - 1 implies dists[j] == dists.drop_last()[j] by {}
        if before is None {
            assert forall|j: int| 0 <= j < dists.len() - 1 implies dists[j] is None by {
                assert(dists.drop_last()[j] is None);
            }
        } else {
            let i0 = before.unwrap();
            assert(dists.drop_last()[i0] is Some);
            assert(dists[i0] is Some);
            let i = first_min(dists).unwrap();
            assert forall|j: int| 0 <= j < dists.len() && dists[j] is Some implies dists[i].unwrap()
                <= (#[trigger] dists[j]).unwrap() by {
                if j < dists.len() - 1 {
                    assert(dists.drop_last()[j] is Some);
                }
            }
            assert forall|j: int| 0 <= j < i && dists[j] is Some implies dists[i].unwrap() < (
            #[trigger] dists[j]).unwrap() by {
                if j < dists.len() - 1 {
                    assert(dists.drop_last()[j] is Some);
                }
            }
        }
    }
}

/// The distances of the closest elements that a list of items reported.
pub open spec fn distances(candidates: Seq<Option<ClosestElem>>) -> Seq<Option<int>> {
    Seq::new(
        candidates.len(),
        |i: int|
            match candidates[i] {
                Some(e) => Some(e.dist_sq as int),
                None => None,
            },
    )
}

/// The item whose closest element is hovered: the first of the items whose
/// element is closest to the pointer, if that element is within the
/// interaction radius.
pub open spec fn spec_hovered(candidates: Seq<Option<ClosestElem>>) -> Option<int> {
    match first_min(distances(candidates)) {
        Some(i) => if candidates[i].unwrap().dist_sq <= INTERACT_RADIUS_SQ {
            Some(i)
        } else {
            None
        },
        None => None,
    }
}

/// The first of the items whose closest element is nearest to the pointer,
/// or `None` if no item has a closest element.
pub fn closest_candidate(candidates: &Vec<Option<ClosestElem>>) -> (r: Option<usize>)
    ensures
        r is Some == first_min(distances(candidates@)) is Some,
        r matches Some(i) ==> first_min(distances(candidates@)) == Some(i as int) && i
            < candidates.len() && candidates[i as int] is Some,
{
    let ghost dists = distances(candidates@);
    let mut best: Option<usize> = None;
    let mut best_dist: u128 = 0;
    let mut i: usize = 0;
    assert(dists.take(0) =~= Seq::empty());
    while i < candidates.len()
        invariant
            0 <= i <= candidates.len(),
            dists == distances(candidates@),
            best is Some == first_min(dists.take(i as int)) is Some,
            best matches Some(j) ==> first_min(dists.take(i as int)) == Some(j as int) && j < i
                && candidates[j as int] is Some && candidates[j as int].unwrap().dist_sq
                == best_dist,
        decreases candidates.len() - i,
    {
        proof {
            assert(dists.take(i + 1).drop_last() =~= dists.take(i as int));
            assert(dists.take(i + 1).last() == dists[i as int]);
            if best is Some {
                assert(dists.take(i + 1)[best.unwrap() as int] == dists[best.unwrap() as int]);
            }
        }
        match candidates[i] {
            Some(e) => {
                if best.is_none() || e.dist_sq < best_dist {
                    best = Some(i);
                    best_dist = e.dist_sq;
                }
            },
            None => {},
        }
        i = i + 1;
    }
    assert(dists.take(i as int) =~= dists);
    best
}

/// The item that is hovered, given the closest element of each item in the
/// order of the items: the first of the items whose element is nearest to
/// the pointer, unless even that element is beyond the interaction radius.
pub fn hovered_candidate(candidates: &Vec<Option<ClosestElem>>) -> (r: Option<usize>)
    ensures
        r is Some == spec_hovered(candidates@) is Some,
        r matches Some(i) ==> spec_hovered(candidates@) == Some(i as int) && i < candidates.len()
            && candidates[i as int] is Some,
{
    match closest_candidate(candidates) {
        Some(i) => {
            match candidates[i] {
                Some(e) => if e.dist_sq <= INTERACT_RADIUS_SQ {
                    Some(i)
                } else {
                    None
                },
                None => None,
            }
        },
        None => None,
    }
}

/// Among the items that report an element, the hovered one has the nearest,
/// it is within the interaction radius, and every earlier item's element is
/// strictly farther. No item is hovered exactly when no element is within
/// the radius.
pub proof fn lemma_hovered(candidates: Seq<Option<ClosestElem>>)
    ensures
        spec_hovered(candidates) is None <==> (forall|j: int|
            0 <= j < candidates.len() && candidates[j] is Some ==> (
            #[trigger] candidates[j]).unwrap().dist_sq > INTERACT_RADIUS_SQ),
        spec_hovered(candidates) matches Some(i) ==> {
            &&& 0 <= i < candidates.len()
            &&& candidates[i] is Some
            &&& candidates[i].unwrap().dist_sq <= INTERACT_RADIUS_SQ
            &&& forall|j: int|
                0 <= j < candidates.len() && candidates[j] is Some ==> candidates[i].unwrap().dist_sq
                    <= (#[trigger] candidates[j]).unwrap().dist_sq
            &&& forall|j: int|
                0 <= j < i && candidates[j] is Some ==> candidates[i].unwrap().dist_sq < (
                #[trigger] candidates[j]).unwrap().dist_sq
        },
{
    let dists = distances(candidates);
    lemma_first_min(dists);
    assert forall|j: int| 0 <= j < candidates.len() implies (dists[j] is Some) == (
    #[trigger] candidates[j] is Some) && (candidates[j] is Some ==> dists[j].unwrap()
        == candidates[j].unwrap().dist_sq) by {}
    match first_min(dists) {
        Some(i) => {
            assert(dists[i] is Some);
            assert forall|j: int| 0 <= j < candidates.len() && candidates[j] is Some implies
                candidates[i].unwrap().dist_sq <= (#[trigger] candidates[j]).unwrap().dist_sq by {
                assert(dists[j] is Some);
            }
            assert forall|j: int| 0 <= j < i && candidates[j] is Some implies candidates[i].unwrap().dist_sq
                < (#[trigger] candidates[j]).unwrap().dist_sq by {
                assert(dists[j] is Some);
            }
        },
        None => {
            assert forall|j: int| 0 <= j < candidates.len() implies candidates[j] is None by {
                assert(dists[j] is None);
            }
        },
    }
}

} // verus!
