pub mod hover;
pub mod utils;

use vstd::prelude::*;

verus! {

/// A pair of positions in the backing sequence describing an active drag.
///
/// `source` is the slot the dragged item occupies in the unshifted sequence,
/// fixed for the whole session; `target` is the slot the item would be
/// inserted at if the pointer were released right now, recomputed each frame.
#[derive(Default, Clone, Copy, Debug, PartialEq, Eq, Structural)]
pub struct DragIndices {
    pub source: usize,
    pub target: usize,
}

/// The per-frame outcome reported to the caller: nothing is being dragged, a
/// drag is in progress with the current indices, or a drag just finished and
/// the caller should commit the pair to its backing sequence.
#[derive(Clone, Copy, Debug, PartialEq, Eq, Structural)]
pub enum DragDropResponse {
    NoDrag,
    CurrentDrag(DragIndices),
    Completed(DragIndices),
}

/// The state of one drag-and-drop list, owned by the caller and consulted
/// once per frame.
///
/// `drag_indices` is `Some` exactly while a drag session is active.
/// `drag_delta` is the pointer position relative to the dragged item's
/// top-left corner when the session began; it keeps the dragged visual glued
/// to the grab point instead of snapping to the pointer.
#[derive(Clone)]
pub struct DragDropUi {
    pub drag_indices: Option<DragIndices>,
    pub drag_delta: Option<hover::Vec2i>,
    pub draw_drop_preview: bool,
}

impl DragDropUi {
    /// The source index of the active session, if any.
    pub open spec fn active_source(self) -> Option<usize> {
        match self.drag_indices {
            Some(di) => Some(di.source),
            None => None,
        }
    }

    /// Start a drag session on the item at `source_idx`, recording the grab
    /// offset. A duplicate trigger while a session is already active is a
    /// no-op: the active drag's source stays authoritative.
    pub fn begin(&mut self, source_idx: usize, grab_offset: hover::Vec2i)
        ensures
            old(self).drag_indices is None ==> *final(self) == (DragDropUi {
                drag_indices: Some(DragIndices { source: source_idx, target: source_idx }),
                drag_delta: Some(grab_offset),
                ..*old(self)
            }),
            old(self).drag_indices is Some ==> *final(self) == *old(self),
    {
        if self.drag_indices.is_none() {
            self.drag_indices = Some(DragIndices { source: source_idx, target: source_idx });
            self.drag_delta = Some(grab_offset);
        }
    }

    /// Apply this frame's hover candidate: with no active session nothing
    /// changes; otherwise the target becomes the candidate, or collapses
    /// back to the source when no valid drop point exists this frame.
    pub fn update_target(&mut self, candidate: Option<usize>)
        ensures
            old(self).drag_indices is None ==> *final(self) == *old(self),
            old(self).drag_indices matches Some(di) ==> *final(self) == (DragDropUi {
                drag_indices: Some(
                    DragIndices {
                        source: di.source,
                        target: match candidate {
                            Some(c) => c,
                            None => di.source,
                        },
                    },
                ),
                ..*old(self)
            }),
    {
        match &mut self.drag_indices {
            Some(di) => {
                di.target = match candidate {
                    Some(c) => c,
                    None => di.source,
                };
            },
            None => (),
        }
    }

    /// End the session: an active drag yields its `(source, target)` pair
    /// and the state returns to absent; with no session this is a no-op.
    pub fn release(&mut self) -> (r: Option<DragIndices>)
        ensures
            r == old(self).drag_indices,
            *final(self) == (DragDropUi { drag_indices: None, ..*old(self) }),
    {
        let r = self.drag_indices;
        self.drag_indices = None;
        r
    }

    /// Defensive clamp against a sequence that shrank between frames: any
    /// stored index above `len` is pulled down to `len`. Must run before the
    /// indices are read in a new frame.
    pub fn repair(&mut self, len: usize)
        ensures
            old(self).drag_indices is None ==> *final(self) == *old(self),
            old(self).drag_indices matches Some(di) ==> *final(self) == (DragDropUi {
                drag_indices: Some(
                    DragIndices {
                        source: if di.source <= len {
                            di.source
                        } else {
                            len
                        },
                        target: if di.target <= len {
                            di.target
                        } else {
                            len
                        },
                    },
                ),
                ..*old(self)
            }),
    {
        match &mut self.drag_indices {
            Some(di) => {
                if di.source > len {
                    di.source = len;
                }
                if di.target > len {
                    di.target = len;
                }
            },
            None => (),
        }
    }

    /// Settle one frame: apply the hover candidate, then either finish the
    /// session on a pointer release — reporting `Completed` exactly once —
    /// or report the drag still in progress; with no session, `NoDrag`.
    pub fn frame_response(&mut self, candidate: Option<usize>, pointer_released: bool) -> (r:
        DragDropResponse)
        ensures
            old(self).drag_indices is None ==> r == DragDropResponse::NoDrag && *final(self)
                == *old(self),
            old(self).drag_indices matches Some(di) ==> ({
                let settled = DragIndices {
                    source: di.source,
                    target: match candidate {
                        Some(c) => c,
                        None => di.source,
                    },
                };
                if pointer_released {
                    r == DragDropResponse::Completed(settled) && *final(self) == (DragDropUi {
                        drag_indices: None,
                        ..*old(self)
                    })
                } else {
                    r == DragDropResponse::CurrentDrag(settled) && *final(self) == (DragDropUi {
                        drag_indices: Some(settled),
                        ..*old(self)
                    })
                }
            }),
    {
        self.update_target(candidate);
        match self.drag_indices {
            None => DragDropResponse::NoDrag,
            Some(di) => {
                if pointer_released {
                    self.drag_indices = None;
                    DragDropResponse::Completed(di)
                } else {
                    DragDropResponse::CurrentDrag(di)
                }
            },
        }
    }

    /// Whether a drag session is active; the host may show a grabbing
    /// cursor while this holds.
    pub fn is_dragging(&self) -> (r: bool)
        ensures
            r == (self.drag_indices is Some),
    {
        self.drag_indices.is_some()
    }

    /// Whether the item at backing index `idx` is the one being dragged;
    /// the host renders that item as a floating overlay instead of inline.
    pub fn is_source(&self, idx: usize) -> (r: bool)
        ensures
            r == (self.active_source() == Some(idx)),
    {
        match self.drag_indices {
            Some(di) => di.source == idx,
            None => false,
        }
    }

    /// Determine the insertion index the dragged item would occupy if
    /// dropped now, from this frame's pointer position and the rectangles of
    /// the displayed items in display order. `None` when no pointer position
    /// is available (e.g. the pointer left the surface).
    pub fn determine_hovering_index(
        &self,
        pointer: Option<hover::Vec2i>,
        list_len: usize,
        item_rects: Vec<(usize, hover::ItemRect)>,
    ) -> (r: Option<usize>)
        ensures
            ({
                let rt = hover::resolved_target(
                    pointer,
                    self.drag_delta,
                    self.active_source(),
                    list_len as int,
                    item_rects@,
                );
                match r {
                    None => rt is None,
                    Some(t) => rt == Some(t as int),
                }
            }),
            item_rects@.len() <= list_len ==> match r {
                Some(t) => t <= list_len,
                None => true,
            },
    {
        let source = match self.drag_indices {
            Some(di) => Some(di.source),
            None => None,
        };
        hover::resolve_hover(pointer, self.drag_delta, source, list_len, &item_rects)
    }
}

impl Default for DragDropUi {
    /// The absent state: no session, no recorded grab offset, and drop
    /// previews drawn in the vacated slot.
    fn default() -> (r: Self)
        ensures
            r.drag_indices is None,
            r.drag_delta is None,
            r.draw_drop_preview,
    {
        DragDropUi { drag_indices: None, drag_delta: None, draw_drop_preview: true }
    }
}

} // verus!
