//! One frame of a plot: which items it draws and in which order, and what
//! it hands back to its host.

use vstd::prelude::*;
use crate::bounds::PlotBounds;
use crate::geometry::Rect;
use crate::hover::HoverLine;
use crate::input::{CursorIcon, InputState, Response};
use crate::interaction::Interaction;
use crate::items::PlotItem;
use crate::link::LinkedAxisGroup;
use crate::memory::{entry_name, PlotMemory};
use crate::plot::Plot;
use crate::plot_ui::PlotUi;
use crate::prepared::PreparedPlot;
use crate::transform::ScreenTransform;

verus! {

/// The items whose name is not among the hidden ones, in their order.
pub open spec fn without_hidden(items: Seq<PlotItem>, hidden: Set<Seq<char>>) -> Seq<PlotItem> {
    items.filter(|i: PlotItem| !hidden.contains(i.spec_name()))
}

/// An item, highlighted if it has the hovered name.
pub open spec fn marked(item: PlotItem, hovered: Option<Seq<char>>) -> PlotItem {
    if hovered == Some(item.spec_name()) {
        item.spec_highlight()
    } else {
        item
    }
}

/// The items, with every one of the hovered name highlighted.
pub open spec fn with_hovered(items: Seq<PlotItem>, hovered: Option<Seq<char>>) -> Seq<PlotItem> {
    Seq::new(items.len(), |k: int| marked(items[k], hovered))
}

/// The items that are not highlighted, in their order.
pub open spec fn plain_items(items: Seq<PlotItem>) -> Seq<PlotItem> {
    items.filter(|i: PlotItem| !i.spec_highlighted())
}

/// The highlighted items, in their order.
pub open spec fn highlighted_items(items: Seq<PlotItem>) -> Seq<PlotItem> {
    items.filter(|i: PlotItem| i.spec_highlighted())
}

/// The items with the highlighted ones moved behind the others, which
/// draws them on top; within each of the two groups the order stays.
pub open spec fn highlighted_last(items: Seq<PlotItem>) -> Seq<PlotItem> {
    plain_items(items) + highlighted_items(items)
}

/// The items that a frame draws, in drawing order: those that are not
/// hidden, those of the hovered name highlighted, the highlighted ones
/// last.
pub open spec fn shown_items(
    items: Seq<PlotItem>,
    hidden: Set<Seq<char>>,
    hovered: Option<Seq<char>>,
) -> Seq<PlotItem> {
    highlighted_last(with_hovered(without_hidden(items, hidden), hovered))
}

/// What one more item adds to those that are not hidden.
pub proof fn lemma_without_hidden_push(items: Seq<PlotItem>, item: PlotItem, hidden: Set<Seq<char>>)
    ensures
        without_hidden(items.push(item), hidden) == if hidden.contains(item.spec_name()) {
            without_hidden(items, hidden)
        } else {
            without_hidden(items, hidden).push(item)
        },
        without_hidden(Seq::<PlotItem>::empty(), hidden) == Seq::<PlotItem>::empty(),
{
    reveal(Seq::filter);
    assert(items.push(item).drop_last() =~= items);
}

/// What one more item adds to the two groups of `highlighted_last`.
pub proof fn lemma_groups_push(items: Seq<PlotItem>, item: PlotItem)
    ensures
        plain_items(items.push(item)) == if item.spec_highlighted() {
            plain_items(items)
        } else {
            plain_items(items).push(item)
        },
        highlighted_items(items.push(item)) == if item.spec_highlighted() {
            highlighted_items(items).push(item)
        } else {
            highlighted_items(items)
        },
        plain_items(Seq::<PlotItem>::empty()) == Seq::<PlotItem>::empty(),
        highlighted_items(Seq::<PlotItem>::empty()) == Seq::<PlotItem>::empty(),
{
    reveal(Seq::filter);
    assert(items.push(item).drop_last() =~= items);
}

/// Drops the items whose name the legend has switched off.
pub fn retain_visible(items: Vec<PlotItem>, memory: &PlotMemory) -> (r: Vec<PlotItem>)
    ensures
        r@ == without_hidden(items@, memory.spec_hidden()),
{
    let ghost all: Seq<PlotItem> = items@;
    let ghost hidden = memory.spec_hidden();
    let mut kept: Vec<PlotItem> = Vec::new();
    proof {
        lemma_without_hidden_push(Seq::empty(), all[0], hidden);
        assert(all.take(0) =~= Seq::empty());
    }
    for item in it: items
        invariant
            it.seq() == all,
            hidden == memory.spec_hidden(),
            kept@ == without_hidden(all.take(it.index() as int), hidden),
    {
        proof {
            assert(all.take(it.index() + 1) =~= all.take(it.index() as int).push(item));
            lemma_without_hidden_push(all.take(it.index() as int), item, hidden);
        }
        if !memory.is_hidden(item.name()) {
            kept.push(item);
        }
    }
    assert(all.take(all.len() as int) =~= all);
    kept
}

/// Highlights the items of the hovered name.
pub fn highlight_hovered(items: Vec<PlotItem>, hovered: &Option<String>) -> (r: Vec<PlotItem>)
    ensures
        r@ == with_hovered(items@, entry_name(*hovered)),
{
    let ghost all: Seq<PlotItem> = items@;
    let ghost name: Option<Seq<char>> = entry_name(*hovered);
    let mut out: Vec<PlotItem> = Vec::new();
    for item in it: items
        invariant
            it.seq() == all,
            name == entry_name(*hovered),
            out@ == with_hovered(all.take(it.index() as int), name),
    {
        let hit: bool = match hovered {
            Some(n) => *item.name() == *n,
            None => false,
        };
        let ghost before = out@;
        let ghost given = item;
        let mut item = item;
        if hit {
            item.highlight();
        }
        out.push(item);
        assert(out@ =~= with_hovered(all.take(it.index() + 1), name)) by {
            assert(out@ == before.push(marked(given, name)));
            assert(all.take(it.index() + 1) =~= all.take(it.index() as int).push(given));
        }
    }
    assert(all.take(all.len() as int) =~= all);
    out
}

/// Moves the highlighted items behind the others and keeps the order
/// within each of the two groups.
pub fn move_highlighted_last(items: Vec<PlotItem>) -> (r: Vec<PlotItem>)
    ensures
        r@ == highlighted_last(items@),
{
    let ghost all: Seq<PlotItem> = items@;
    let mut plain: Vec<PlotItem> = Vec::new();
    let mut lit: Vec<PlotItem> = Vec::new();
    proof {
        lemma_groups_push(Seq::empty(), all[0]);
        assert(all.take(0) =~= Seq::empty());
    }
    for item in it: items
        invariant
            it.seq() == all,
            plain@ == plain_items(all.take(it.index() as int)),
            lit@ == highlighted_items(all.take(it.index() as int)),
    {
        proof {
            assert(all.take(it.index() + 1) =~= all.take(it.index() as int).push(item));
            lemma_groups_push(all.take(it.index() as int), item);
        }
        if item.highlighted() {
            lit.push(item);
        } else {
            plain.push(item);
        }
    }
    assert(all.take(all.len() as int) =~= all);
    plain.append(&mut lit);
    plain
}

/// What a plot hands back for one frame.
pub struct PlotFrame {
    /// The plot, ready to be drawn.
    pub prepared: PreparedPlot,
    /// What to keep for the next frame.
    pub memory: PlotMemory,
    /// The box that a box zoom is dragging out, to be drawn over the plot.
    pub boxed_zoom_rect: Option<Rect>,
    /// The shape that the pointer takes over the plot.
    pub cursor: Option<CursorIcon>,
    /// The link group of the plot, with the bounds of this frame written
    /// to it.
    pub linked_axes: Option<LinkedAxisGroup>,
}

impl Plot {
    /// Which rulers a frame draws: none while a legend entry is hovered.
    pub open spec fn spec_frame_hover_line(self, memory: PlotMemory) -> HoverLine {
        if memory.hovered_entry is Some {
            HoverLine::Off
        } else {
            self.hover_line
        }
    }

    /// The shape of the pointer over the plot: a crosshair where rulers are
    /// drawn, what the interaction asks for otherwise.
    pub open spec fn spec_frame_cursor(self, memory: PlotMemory, interaction: Interaction) -> Option<CursorIcon> {
        if self.spec_frame_hover_line(memory) != HoverLine::Off {
            Some(CursorIcon::Crosshair)
        } else {
            interaction.cursor
        }
    }

    /// One frame of the plot. `plot_ui` holds the items that were added for
    /// this frame and what the host reported; `memory` is what the plot
    /// kept from the last frame. The frame that comes back holds the items
    /// in drawing order, the transform after the input of the frame was
    /// applied, what to keep for the next frame, and the link group with
    /// the new bounds written to it.
    pub fn show(self, plot_ui: PlotUi, memory: PlotMemory) -> (r: PlotFrame)
        ensures
            r.prepared.items@ == shown_items(
                plot_ui.spec_items(),
                memory.spec_hidden(),
                memory.spec_hovered_entry(),
            ),
            ({
                let interaction = self.spec_interact(
                    plot_ui.spec_last_screen_transform().spec_bounds(),
                    memory.auto_bounds,
                    memory.last_click_pos_for_zoom,
                    plot_ui.spec_response(),
                    plot_ui.spec_ctx().input,
                    self.spec_fit(r.prepared.items@),
                );
                &&& r.prepared.transform == interaction.transform
                &&& r.prepared.hover_line == self.spec_frame_hover_line(memory)
                &&& r.prepared.show_hover_label == self.show_hover_label
                &&& r.prepared.show_axes == self.show_axes
                &&& r.memory.auto_bounds == interaction.auto_bounds
                &&& r.memory.last_screen_transform == interaction.transform
                &&& r.memory.last_click_pos_for_zoom == interaction.last_click_pos_for_zoom
                &&& r.memory.hovered_entry == memory.hovered_entry
                &&& r.memory.hidden_items == memory.hidden_items
                &&& r.memory.min_auto_bounds == self.min_auto_bounds
                &&& r.boxed_zoom_rect == interaction.boxed_zoom_rect
                &&& r.cursor == self.spec_frame_cursor(memory, interaction)
                &&& r.linked_axes is Some == self.linked_axes is Some
                &&& r.linked_axes matches Some(g) ==> g.spec_get() == Some(
                    interaction.transform.spec_bounds(),
                ) && g.spec_link_x() == self.linked_axes.unwrap().spec_link_x() && g.spec_link_y()
                    == self.linked_axes.unwrap().spec_link_y()
            }),
    {
        let hover_line: HoverLine = if memory.hovered_entry.is_some() {
            HoverLine::Off
        } else {
            self.hover_line
        };
        let parts = plot_ui.into_parts();
        let items: Vec<PlotItem> = parts.0;
        let response: Response = parts.1;
        let last: ScreenTransform = parts.2;
        let input: InputState = parts.3.input;
        let items: Vec<PlotItem> = retain_visible(items, &memory);
        let items: Vec<PlotItem> = highlight_hovered(items, &memory.hovered_entry);
        let items: Vec<PlotItem> = move_highlighted_last(items);
        let fit: PlotBounds = self.fit(&items);
        let interaction: Interaction = self.interact(
            last.bounds(),
            memory.auto_bounds,
            memory.last_click_pos_for_zoom,
            &response,
            &input,
            &fit,
        );
        let linked_axes: Option<LinkedAxisGroup> = match self.linked_axes {
            Some(group) => {
                let mut group: LinkedAxisGroup = group;
                group.set(*interaction.transform.bounds());
                Some(group)
            },
            None => None,
        };
        let cursor: Option<CursorIcon> = if !hover_line.is_off() {
            Some(CursorIcon::Crosshair)
        } else {
            interaction.cursor
        };
        PlotFrame {
            prepared: PreparedPlot {
                items,
                hover_line,
                show_hover_label: self.show_hover_label,
                show_axes: self.show_axes,
                transform: interaction.transform,
            },
            memory: PlotMemory {
                auto_bounds: interaction.auto_bounds,
                hovered_entry: memory.hovered_entry,
                hidden_items: memory.hidden_items,
                min_auto_bounds: self.min_auto_bounds,
                last_screen_transform: interaction.transform,
                last_click_pos_for_zoom: interaction.last_click_pos_for_zoom,
            },
            boxed_zoom_rect: interaction.boxed_zoom_rect,
            cursor,
            linked_axes,
        }
    }
}

} // verus!
