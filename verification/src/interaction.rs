//! The pointer state of the automation editor between frames: where the last
//! right click fell, and the edge that is being dragged out of a terminal.

use vstd::prelude::*;
use crate::automation::AutomationEditor;
use crate::automation::block_added;
use crate::automation::connected;
use crate::blocks::BlockArchetype;
use crate::blocks::BlockId;
use crate::blocks::Point;
use crate::blocks::TermType;
use crate::blocks::TerminalId;
use crate::editor_view::is_iterator_target;

verus! {

/// What the editor remembers of the pointer from one frame to the next.
#[derive(Clone, Copy, Debug, PartialEq, Eq, Structural)]
pub struct DragState {
    /// Where the context menu was opened; new blocks are placed there.
    pub click_pos: Option<Point>,
    /// Where the edge being dragged starts.
    pub drag_start: Option<Point>,
    /// Where the edge being dragged ends for now.
    pub drag_target: Option<Point>,
    /// The terminal the drag started from.
    pub term_start: Option<TerminalId>,
    /// The terminal the pointer was last seen over.
    pub term_target: Option<TerminalId>,
}

impl DragState {
    /// The state before any pointer event.
    pub open spec fn idle() -> DragState {
        DragState { click_pos: None, drag_start: None, drag_target: None, term_start: None, term_target: None }
    }

    /// The state before any pointer event.
    pub fn new() -> (d: DragState)
        ensures
            d == DragState::idle(),
    {
        DragState { click_pos: None, drag_start: None, drag_target: None, term_start: None, term_target: None }
    }

    /// Remembers where the context menu was opened.
    pub fn click(&mut self, at: Point)
        ensures
            *final(self) == (DragState { click_pos: Some(at), ..*old(self) }),
    {
        self.click_pos = Some(at);
    }

    /// The pointer is held down on terminal `t`, drawn at `at`. A drag starts
    /// only from a live OUT terminal, and only if none is under way. Tells
    /// whether an edge is being dragged after this event.
    pub fn press(&mut self, editor: &AutomationEditor, t: TerminalId, at: Point) -> (edging: bool)
        ensures
            edging == (editor@.terminals.dom().contains(t) && editor@.terminals[t].io == TermType::OUT),
            *final(self) == (if edging && old(self).drag_target.is_none() {
                DragState { drag_start: Some(at), drag_target: Some(at), term_start: Some(t), ..*old(self) }
            } else {
                *old(self)
            }),
    {
        let is_out = match editor.terminal(t) {
            Some(term) => term.io == TermType::OUT,
            None => false,
        };
        if is_out && self.drag_target.is_none() {
            self.drag_start = Some(at);
            self.drag_target = Some(at);
            self.term_start = Some(t);
        }
        is_out
    }

    /// The free end of the dragged edge follows the pointer to `to`. Does
    /// nothing where no drag is under way.
    pub fn drag_to(&mut self, to: Point)
        ensures
            *final(self) == (if old(self).drag_target.is_some() {
                DragState { drag_target: Some(to), ..*old(self) }
            } else {
                *old(self)
            }),
    {
        if self.drag_target.is_some() {
            self.drag_target = Some(to);
        }
    }

    /// The pointer is over terminal `t`.
    pub fn hover(&mut self, t: TerminalId)
        ensures
            *final(self) == (DragState { term_target: Some(t), ..*old(self) }),
    {
        self.term_target = Some(t);
    }

    /// The connection that a release of the pointer would ask for: from the
    /// terminal the drag started at to the terminal last hovered.
    pub fn pending(&self) -> (r: Option<(TerminalId, TerminalId)>)
        ensures
            r == (if self.term_start.is_some() && self.term_target.is_some() {
                Some((self.term_start.unwrap(), self.term_target.unwrap()))
            } else {
                None
            }),
    {
        match (self.term_start, self.term_target) {
            (Some(a), Some(b)) => Some((a, b)),
            _ => None,
        }
    }

    /// The pointer was released: asks the editor for the pending connection,
    /// if there is one. The editor makes it only from an OUT terminal to an IN
    /// terminal. Tells whether a connection was made.
    pub fn release(&self, editor: &mut AutomationEditor) -> (done: bool)
        requires
            old(editor)@.wf(),
        ensures
            final(editor)@.wf(),
            done == (self.term_start.is_some() && self.term_target.is_some() && old(editor)@.terminals.dom().contains(
                self.term_start.unwrap(),
            ) && old(editor)@.terminals[self.term_start.unwrap()].io == TermType::OUT
                && old(editor)@.terminals.dom().contains(self.term_target.unwrap())
                && old(editor)@.terminals[self.term_target.unwrap()].io == TermType::IN),
            !done ==> final(editor)@ == old(editor)@,
            done ==> connected(old(editor)@, final(editor)@, self.term_start.unwrap(), self.term_target.unwrap()),
    {
        match self.pending() {
            Some((a, b)) => editor.connect(a, b),
            None => false,
        }
    }

    /// Forgets the dragged edge, as is done in every frame in which no
    /// terminal is held. The place of the last click stays.
    pub fn clear(&mut self)
        ensures
            *final(self) == (DragState { click_pos: old(self).click_pos, ..DragState::idle() }),
    {
        self.drag_start = None;
        self.drag_target = None;
        self.term_start = None;
        self.term_target = None;
    }

    /// Adds a block of the chosen archetype where the context menu was
    /// opened; without such a place nothing is added.
    pub fn add_at_click(&self, editor: &mut AutomationEditor, arch: &BlockArchetype) -> (id: Option<BlockId>)
        requires
            old(editor)@.wf(),
            arch.wf(),
            !is_iterator_target(arch.block_type),
            old(editor)@.blocks.dom().len() < 0xffff_fffe,
            old(editor)@.terminals.dom().len() + arch.inputs@.len() + arch.outputs@.len() < u32::MAX,
        ensures
            final(editor)@.wf(),
            id.is_some() == self.click_pos.is_some(),
            id.is_none() ==> final(editor)@ == old(editor)@,
            id.is_some() ==> block_added(
                old(editor)@,
                final(editor)@,
                *arch,
                self.click_pos.unwrap(),
                id.unwrap(),
            ),
    {
        match self.click_pos {
            Some(pos) => Some(editor.add_block(arch, pos)),
            None => None,
        }
    }
}

} // verus!
