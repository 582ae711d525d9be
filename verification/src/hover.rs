use vstd::prelude::*;

verus! {

/// A two-dimensional screen-space offset or position, in whole units.
///
/// The host layer measures pointer positions and grab offsets; the resolver
/// itself only ever reads the vertical component.
#[derive(Clone, Copy, Debug, PartialEq, Eq, Structural)]
pub struct Vec2i {
    pub x: i32,
    pub y: i32,
}

/// The vertical extent of one displayed item's bounding rectangle.
///
/// The resolver compares pointer positions against rectangle tops and
/// vertical centers only, so the horizontal extent is not part of the model.
#[derive(Clone, Copy, Debug, PartialEq, Eq, Structural)]
pub struct ItemRect {
    pub top: i32,
    pub bottom: i32,
}

/// The pointer's comparison point: the raw position minus the drag delta, so
/// that it corresponds to the origin of the dragged visual rather than to
/// wherever inside the item the user grabbed it.
pub open spec fn adjusted_y(pointer: Vec2i, delta: Option<Vec2i>) -> int {
    match delta {
        Some(d) => pointer.y - d.y,
        None => pointer.y as int,
    }
}

/// Absolute vertical distance from a rectangle's top edge to `y`.
pub open spec fn top_distance(rect: ItemRect, y: int) -> int {
    if rect.top >= y {
        rect.top - y
    } else {
        y - rect.top
    }
}

/// The display position of the rectangle whose top edge is vertically
/// closest to `y`; a tie keeps the earlier rectangle, so ties resolve to the
/// first one encountered in display order.
pub open spec fn first_closest(rects: Seq<(usize, ItemRect)>, y: int) -> int
    decreases rects.len(),
{
    if rects.len() <= 1 {
        0
    } else {
        let prev = first_closest(rects.drop_last(), y);
        if top_distance(rects.last().1, y) < top_distance(rects[prev].1, y) {
            rects.len() - 1
        } else {
            prev
        }
    }
}

/// The insertion slot suggested by the winning rectangle: one past its
/// display position when the comparison point lies below its vertical
/// center, its display position otherwise.
pub open spec fn hover_candidate(rects: Seq<(usize, ItemRect)>, y: int) -> int {
    let k = first_closest(rects, y);
    if 2 * y > rects[k].1.top + rects[k].1.bottom {
        k + 1
    } else {
        k
    }
}

/// Correction for the conceptually removed source slot: while a drag is
/// active the dragged item no longer occupies `source` for layout purposes,
/// so a candidate strictly after it (and still inside the sequence) names
/// one slot too early in the unshifted sequence and moves up by one.
pub open spec fn source_correction(candidate: int, source: Option<usize>, list_len: int) -> int {
    match source {
        Some(s) => if (s as int) < candidate && candidate < list_len {
            candidate + 1
        } else {
            candidate
        },
        None => candidate,
    }
}

/// The full resolution: no pointer position (or nothing displayed) yields no
/// target; otherwise the adjusted pointer is matched against the rectangles
/// and the winning slot is corrected for the removed source.
pub open spec fn resolved_target(
    pointer: Option<Vec2i>,
    delta: Option<Vec2i>,
    source: Option<usize>,
    list_len: int,
    rects: Seq<(usize, ItemRect)>,
) -> Option<int> {
    match pointer {
        None => None,
        Some(p) => if rects.len() == 0 {
            None
        } else {
            Some(source_correction(hover_candidate(rects, adjusted_y(p, delta)), source, list_len))
        },
    }
}

/// Law: the winning index is a valid display position whose top-edge
/// distance no rectangle beats, and every earlier rectangle is strictly
/// farther — equidistant rectangles therefore lose to the first one in
/// display order.
pub proof fn lemma_first_closest_minimal(rects: Seq<(usize, ItemRect)>, y: int)
    requires
        rects.len() > 0,
    ensures
        0 <= first_closest(rects, y) < rects.len(),
        forall|i: int|
            0 <= i < rects.len() ==> #[trigger] top_distance(rects[i].1, y) >= top_distance(
                rects[first_closest(rects, y)].1,
                y,
            ),
        forall|i: int|
            0 <= i < first_closest(rects, y) ==> #[trigger] top_distance(rects[i].1, y)
                > top_distance(rects[first_closest(rects, y)].1, y),
    decreases rects.len(),
{
    if rects.len() > 1 {
        let fc = first_closest(rects, y);
        let sub = rects.drop_last();
        let prev = first_closest(sub, y);
        lemma_first_closest_minimal(sub, y);
        assert(sub[prev] == rects[prev]);
        assert forall|i: int| 0 <= i < rects.len() implies #[trigger] top_distance(rects[i].1, y)
            >= top_distance(rects[fc].1, y) by {
            if i < rects.len() - 1 {
                assert(sub[i] == rects[i]);
                assert(top_distance(sub[i].1, y) >= top_distance(sub[prev].1, y));
            }
        }
        assert forall|i: int| 0 <= i < fc implies #[trigger] top_distance(rects[i].1, y)
            > top_distance(rects[fc].1, y) by {
            assert(sub[i] == rects[i]);
            if i < prev {
                assert(top_distance(sub[i].1, y) > top_distance(sub[prev].1, y));
            } else {
                assert(top_distance(sub[i].1, y) >= top_distance(sub[prev].1, y));
            }
        }
    }
}

/// Law: as long as anything is displayed, the resolver returns no target
/// exactly when no pointer position was supplied this frame.
pub proof fn lemma_hover_none_iff_no_pointer(
    pointer: Option<Vec2i>,
    delta: Option<Vec2i>,
    source: Option<usize>,
    list_len: int,
    rects: Seq<(usize, ItemRect)>,
)
    requires
        rects.len() > 0,
    ensures
        resolved_target(pointer, delta, source, list_len, rects) is None <==> pointer is None,
{
}

/// Map a pointer position and the displayed rectangles to the insertion slot
/// the dragged item would occupy if dropped now.
///
/// `rects` pairs each rectangle with the backing index of the item it was
/// drawn for, in display order; only the order is consulted here. Returns
/// `None` when no pointer position is available or nothing is displayed.
pub fn resolve_hover(
    pointer: Option<Vec2i>,
    delta: Option<Vec2i>,
    drag_source: Option<usize>,
    list_len: usize,
    item_rects: &Vec<(usize, ItemRect)>,
) -> (r: Option<usize>)
    ensures
        ({
            let rt = resolved_target(pointer, delta, drag_source, list_len as int, item_rects@);
            match r {
                None => rt is None,
                Some(t) => rt == Some(t as int),
            }
        }),
        item_rects@.len() <= list_len ==> match r {
            Some(t) => t <= list_len,
            None => true,
        },
{
    let p = match pointer {
        None => { return None; },
        Some(p) => p,
    };
    let n = item_rects.len();
    if n == 0 {
        return None;
    }
    let ay: i64 = match delta {
        Some(d) => p.y as i64 - d.y as i64,
        None => p.y as i64,
    };
    let top0 = item_rects[0].1.top as i64;
    let mut best: usize = 0;
    let mut best_dist: i64 = if top0 >= ay {
        top0 - ay
    } else {
        ay - top0
    };
    let mut i: usize = 1;
    while i < n
        invariant
            1 <= i <= n,
            n == item_rects@.len(),
            best < i,
            ay as int == adjusted_y(p, delta),
            best as int == first_closest(item_rects@.take(i as int), ay as int),
            best_dist == top_distance(item_rects@[best as int].1, ay as int),
        decreases n - i,
    {
        let top = item_rects[i].1.top as i64;
        let d: i64 = if top >= ay {
            top - ay
        } else {
            ay - top
        };
        proof {
            assert(item_rects@.take(i as int + 1).drop_last() =~= item_rects@.take(i as int));
            assert(item_rects@.take(i as int + 1).last() == item_rects@[i as int]);
        }
        if d < best_dist {
            best = i;
            best_dist = d;
        }
        i += 1;
    }
    proof {
        assert(item_rects@.take(n as int) =~= item_rects@);
    }
    let top = item_rects[best].1.top as i64;
    let bottom = item_rects[best].1.bottom as i64;
    let candidate: usize = if 2 * ay > top + bottom {
        best + 1
    } else {
        best
    };
    let corrected: usize = match drag_source {
        Some(s) => if s < candidate && candidate < list_len {
            candidate + 1
        } else {
            candidate
        },
        None => candidate,
    };
    Some(corrected)
}

} // verus!
