//! Bounds that several plots share.

use vstd::prelude::*;
use crate::bounds::PlotBounds;

verus! {

/// How several plots share the range of one or both of their axes. The
/// group holds the bounds that the last of its plots wrote. There is one
/// value of a group, which cannot be copied: a plot takes it when it is
/// configured and hands it back with its frame, for the next plot of the
/// group. So the plots of a group are drawn one after the other, and the
/// last one to write wins.
#[derive(Debug, PartialEq, Eq)]
pub struct LinkedAxisGroup {
    link_x: bool,
    link_y: bool,
    bounds: Option<PlotBounds>,
}

impl LinkedAxisGroup {
    /// Whether the x axis is shared.
    pub closed spec fn spec_link_x(self) -> bool {
        self.link_x
    }

    /// Whether the y axis is shared.
    pub closed spec fn spec_link_y(self) -> bool {
        self.link_y
    }

    /// The bounds that a plot of the group wrote last, if any did.
    pub closed spec fn spec_get(self) -> Option<PlotBounds> {
        self.bounds
    }

    /// `bounds` with each shared axis replaced by that of the group's
    /// bounds; `bounds` itself where no plot has written yet.
    pub open spec fn spec_apply(self, bounds: PlotBounds) -> PlotBounds {
        match self.spec_get() {
            Some(shared) => PlotBounds {
                min: [
                    if self.spec_link_x() { shared.min[0] } else { bounds.min[0] },
                    if self.spec_link_y() { shared.min[1] } else { bounds.min[1] },
                ],
                max: [
                    if self.spec_link_x() { shared.max[0] } else { bounds.max[0] },
                    if self.spec_link_y() { shared.max[1] } else { bounds.max[1] },
                ],
            },
            None => bounds,
        }
    }

    /// A group that no plot has written to.
    pub fn new(link_x: bool, link_y: bool) -> (r: Self)
        ensures
            r.spec_link_x() == link_x,
            r.spec_link_y() == link_y,
            r.spec_get() is None,
    {
        Self { link_x, link_y, bounds: None }
    }

    /// Only link the x axis.
    pub fn x() -> (r: Self)
        ensures
            r.spec_link_x(),
            !r.spec_link_y(),
            r.spec_get() is None,
    {
        Self::new(true, false)
    }

    /// Only link the y axis.
    pub fn y() -> (r: Self)
        ensures
            !r.spec_link_x(),
            r.spec_link_y(),
            r.spec_get() is None,
    {
        Self::new(false, true)
    }

    /// Link both axes.
    pub fn both() -> (r: Self)
        ensures
            r.spec_link_x(),
            r.spec_link_y(),
            r.spec_get() is None,
    {
        Self::new(true, true)
    }

    /// Changes whether the x axis is shared.
    pub fn set_link_x(&mut self, link: bool)
        ensures
            final(self).spec_link_x() == link,
            final(self).spec_link_y() == old(self).spec_link_y(),
            final(self).spec_get() == old(self).spec_get(),
    {
        self.link_x = link;
    }

    /// Changes whether the y axis is shared.
    pub fn set_link_y(&mut self, link: bool)
        ensures
            final(self).spec_link_y() == link,
            final(self).spec_link_x() == old(self).spec_link_x(),
            final(self).spec_get() == old(self).spec_get(),
    {
        self.link_y = link;
    }

    /// Whether the x axis is shared.
    pub fn link_x(&self) -> (r: bool)
        ensures
            r == self.spec_link_x(),
    {
        self.link_x
    }

    /// Whether the y axis is shared.
    pub fn link_y(&self) -> (r: bool)
        ensures
            r == self.spec_link_y(),
    {
        self.link_y
    }

    /// The bounds that a plot of the group wrote last, or `None` if none
    /// has written yet.
    pub fn get(&self) -> (r: Option<PlotBounds>)
        ensures
            r == self.spec_get(),
    {
        self.bounds
    }

    /// Stores `bounds`, whatever the group held.
    pub fn set(&mut self, bounds: PlotBounds)
        ensures
            final(self).spec_get() == Some(bounds),
            final(self).spec_link_x() == old(self).spec_link_x(),
            final(self).spec_link_y() == old(self).spec_link_y(),
    {
        self.bounds = Some(bounds);
    }

    /// `bounds` with each shared axis replaced by that of the group's
    /// bounds.
    pub fn apply(&self, bounds: PlotBounds) -> (r: PlotBounds)
        ensures
            r == self.spec_apply(bounds),
    {
        match self.bounds {
            Some(shared) => {
                let r = PlotBounds {
                    min: [
                        if self.link_x { shared.min[0] } else { bounds.min[0] },
                        if self.link_y { shared.min[1] } else { bounds.min[1] },
                    ],
                    max: [
                        if self.link_x { shared.max[0] } else { bounds.max[0] },
                        if self.link_y { shared.max[1] } else { bounds.max[1] },
                    ],
                };
                proof {
                    r.lemma_eq(self.spec_apply(bounds));
                }
                r
            },
            None => bounds,
        }
    }
}

} // verus!
