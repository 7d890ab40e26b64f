//! What a plot remembers from one frame to the next.

use vstd::prelude::*;
use std::collections::HashMap;
use epaint::ahash::AHashSet;
use crate::bounds::PlotBounds;
use crate::geometry::{Pos2, Rect};
use crate::transform::ScreenTransform;

verus! {

/// `ahash::AHashSet`, the hash set in which the names of the hidden items
/// are kept. Nothing is known of what is inside a value of it but what
/// `hidden_names` and the functions below say.
#[verifier::external_type_specification]
#[verifier::external_body]
#[verifier::reject_recursive_types(T)]
#[verifier::reject_recursive_types(S)]
pub struct ExAHashSet<T, S>(epaint::ahash::AHashSet<T, S>);

/// `ahash::RandomState`, the hasher that `AHashSet` is made with.
#[verifier::external_type_specification]
#[verifier::external_body]
pub struct ExRandomState(epaint::ahash::RandomState);

/// The names that a set of hidden items holds. Two sets that were filled
/// with the same names hold the same names, whatever their hashers are.
pub uninterp spec fn hidden_names(set: AHashSet<String>) -> Set<Seq<char>>;

/// Calls `AHashSet::new`. Taken on trust: the new set holds no name.
#[verifier::external_body]
pub(crate) fn hidden_new() -> (set: AHashSet<String>)
    ensures
        hidden_names(set) == Set::<Seq<char>>::empty(),
{
    AHashSet::new()
}

/// Calls `HashSet::contains`, which an `AHashSet` hands through to the set
/// of the standard library inside it. Taken on trust: the result says
/// whether the set holds the name.
#[verifier::external_body]
pub(crate) fn hidden_contains(set: &AHashSet<String>, name: &String) -> (r: bool)
    ensures
        r == hidden_names(*set).contains(name@),
{
    set.contains(name)
}

/// Calls `AHashSet::clone`, which copies the set of the standard library
/// inside it. Taken on trust: the copy holds the names that the set holds.
#[verifier::external_body]
pub(crate) fn hidden_clone(set: &AHashSet<String>) -> (r: AHashSet<String>)
    ensures
        hidden_names(r) == hidden_names(*set),
{
    set.clone()
}

/// Calls `HashSet::insert`, which an `AHashSet` hands through to the set of
/// the standard library inside it. Taken on trust: afterwards the set holds
/// the name and whatever it held before, and the result says whether the
/// name was new.
#[verifier::external_body]
pub(crate) fn hidden_insert(set: &mut AHashSet<String>, name: String) -> (r: bool)
    ensures
        hidden_names(*final(set)) == hidden_names(*old(set)).insert(name@),
        r == !hidden_names(*old(set)).contains(name@),
{
    set.insert(name)
}

/// The characters of a name, if there is one.
pub open spec fn entry_name(entry: Option<String>) -> Option<Seq<char>> {
    match entry {
        Some(name) => Some(name@),
        None => None,
    }
}

/// What a plot keeps between two frames.
pub struct PlotMemory {
    /// Whether the bounds follow the items.
    pub auto_bounds: bool,
    /// The name of the legend entry under the pointer.
    pub hovered_entry: Option<String>,
    /// The names of the items that the legend has switched off.
    pub hidden_items: AHashSet<String>,
    /// The bounds that the plot shows at least when its bounds follow the
    /// items.
    pub min_auto_bounds: PlotBounds,
    /// The transform of the last frame.
    pub last_screen_transform: ScreenTransform,
    /// Where the drag of a box zoom started.
    pub last_click_pos_for_zoom: Option<Pos2>,
}

/// Where the memories of the plots are kept between frames, each under the
/// identity of its plot.
pub struct MemoryStore {
    records: HashMap<u64, PlotMemory>,
}

impl MemoryStore {
    /// The memories that the store holds, by the identity of their plot.
    pub closed spec fn view(self) -> Map<u64, PlotMemory> {
        self.records@
    }

    /// A store that holds nothing.
    pub fn new() -> (r: MemoryStore)
        ensures
            r@ == Map::<u64, PlotMemory>::empty(),
    {
        MemoryStore { records: HashMap::new() }
    }
}

impl PlotMemory {
    /// Whether two memories hold the same: the same names of hidden items,
    /// and everything else equal.
    pub open spec fn spec_same(self, other: PlotMemory) -> bool {
        &&& self.auto_bounds == other.auto_bounds
        &&& self.hovered_entry == other.hovered_entry
        &&& self.spec_hidden() == other.spec_hidden()
        &&& self.min_auto_bounds == other.min_auto_bounds
        &&& self.last_screen_transform == other.last_screen_transform
        &&& self.last_click_pos_for_zoom == other.last_click_pos_for_zoom
    }

    /// A copy of the memory.
    pub fn duplicate(&self) -> (r: PlotMemory)
        ensures
            r.spec_same(*self),
    {
        PlotMemory {
            auto_bounds: self.auto_bounds,
            hovered_entry: match &self.hovered_entry {
                Some(name) => Some(name.clone()),
                None => None,
            },
            hidden_items: hidden_clone(&self.hidden_items),
            min_auto_bounds: self.min_auto_bounds,
            last_screen_transform: self.last_screen_transform,
            last_click_pos_for_zoom: self.last_click_pos_for_zoom,
        }
    }

    /// A copy of the memory that the store holds for the plot `id`, or
    /// `None` if it holds none. The store stays as it is.
    pub fn load(store: &MemoryStore, id: u64) -> (r: Option<PlotMemory>)
        ensures
            r is Some == store@.contains_key(id),
            r matches Some(m) ==> m.spec_same(store@[id]),
    {
        broadcast use vstd::std_specs::hash::group_hash_axioms;

        match store.records.get(&id) {
            Some(m) => Some(m.duplicate()),
            None => None,
        }
    }

    /// Puts the memory into the store under the plot `id`, in place of
    /// what the store held for it. The memories of the other plots stay as
    /// they are.
    pub fn store(self, store: &mut MemoryStore, id: u64)
        ensures
            final(store)@ == old(store)@.insert(id, self),
    {
        broadcast use vstd::std_specs::hash::group_hash_axioms;

        let _ = store.records.insert(id, self);
    }

    /// The names of the hidden items.
    pub open spec fn spec_hidden(self) -> Set<Seq<char>> {
        hidden_names(self.hidden_items)
    }

    /// The name of the hovered legend entry.
    pub open spec fn spec_hovered_entry(self) -> Option<Seq<char>> {
        entry_name(self.hovered_entry)
    }

    /// The memory of a plot that was never drawn: its bounds follow the
    /// items unless valid minimum bounds were set, nothing is hidden or
    /// hovered, and the last transform shows the minimum bounds in `rect`.
    pub fn initial(min_auto_bounds: PlotBounds, rect: Rect, center_x: bool, center_y: bool) -> (r:
        PlotMemory)
        ensures
            r.auto_bounds == !min_auto_bounds.spec_is_valid(),
            r.hovered_entry is None,
            r.spec_hidden() == Set::<Seq<char>>::empty(),
            r.min_auto_bounds == min_auto_bounds,
            r.last_screen_transform == ScreenTransform::spec_new(
                rect,
                min_auto_bounds,
                center_x,
                center_y,
            ),
            r.last_click_pos_for_zoom is None,
    {
        PlotMemory {
            auto_bounds: !min_auto_bounds.is_valid(),
            hovered_entry: None,
            hidden_items: hidden_new(),
            min_auto_bounds,
            last_screen_transform: ScreenTransform::new(rect, min_auto_bounds, center_x, center_y),
            last_click_pos_for_zoom: None,
        }
    }

    /// The memory with which a frame starts: `loaded`, or the initial memory
    /// where there is none. Where the minimum bounds have changed since the
    /// memory was stored, the bounds follow the items again unless the new
    /// minimum bounds are valid, and no legend entry is hovered.
    pub fn resolve(
        loaded: Option<PlotMemory>,
        min_auto_bounds: PlotBounds,
        rect: Rect,
        center_x: bool,
        center_y: bool,
    ) -> (r: PlotMemory)
        ensures
            r.min_auto_bounds == min_auto_bounds,
            loaded is None ==> {
                &&& r.auto_bounds == !min_auto_bounds.spec_is_valid()
                &&& r.hovered_entry is None
                &&& r.spec_hidden() == Set::<Seq<char>>::empty()
                &&& r.last_screen_transform == ScreenTransform::spec_new(
                    rect,
                    min_auto_bounds,
                    center_x,
                    center_y,
                )
                &&& r.last_click_pos_for_zoom is None
            },
            loaded matches Some(m) ==> {
                &&& r.hidden_items == m.hidden_items
                &&& r.last_screen_transform == m.last_screen_transform
                &&& r.last_click_pos_for_zoom == m.last_click_pos_for_zoom
                &&& m.min_auto_bounds == min_auto_bounds ==> r.auto_bounds == m.auto_bounds
                    && r.hovered_entry == m.hovered_entry
                &&& m.min_auto_bounds != min_auto_bounds ==> r.auto_bounds
                    == !min_auto_bounds.spec_is_valid() && r.hovered_entry is None
            },
    {
        match loaded {
            Some(m) => {
                if min_auto_bounds.equals(&m.min_auto_bounds) {
                    m
                } else {
                    PlotMemory {
                        auto_bounds: !min_auto_bounds.is_valid(),
                        hovered_entry: None,
                        min_auto_bounds,
                        ..m
                    }
                }
            },
            None => PlotMemory::initial(min_auto_bounds, rect, center_x, center_y),
        }
    }

    /// Whether the legend has switched off the item of this name.
    pub fn is_hidden(&self, name: &String) -> (r: bool)
        ensures
            r == self.spec_hidden().contains(name@),
    {
        hidden_contains(&self.hidden_items, name)
    }

    /// Switches off the item of this name.
    pub fn hide_item(&mut self, name: String)
        ensures
            final(self).spec_hidden() == old(self).spec_hidden().insert(name@),
            final(self).auto_bounds == old(self).auto_bounds,
            final(self).hovered_entry == old(self).hovered_entry,
            final(self).min_auto_bounds == old(self).min_auto_bounds,
            final(self).last_screen_transform == old(self).last_screen_transform,
            final(self).last_click_pos_for_zoom == old(self).last_click_pos_for_zoom,
    {
        let _ = hidden_insert(&mut self.hidden_items, name);
    }

    /// Takes over what the legend reports after it was drawn: the items
    /// that are switched off now and the entry under the pointer.
    pub fn set_legend_state(&mut self, hidden_items: AHashSet<String>, hovered_entry: Option<String>)
        ensures
            final(self).hidden_items == hidden_items,
            final(self).hovered_entry == hovered_entry,
            final(self).auto_bounds == old(self).auto_bounds,
            final(self).min_auto_bounds == old(self).min_auto_bounds,
            final(self).last_screen_transform == old(self).last_screen_transform,
            final(self).last_click_pos_for_zoom == old(self).last_click_pos_for_zoom,
    {
        self.hidden_items = hidden_items;
        self.hovered_entry = hovered_entry;
    }
}

} // verus!
