//! Viewport bookkeeping: which rectangle of the window each named
//! viewport occupies, and the arithmetic that turns chrome heights and
//! margins into such a rectangle.

use std::collections::HashMap;
use vstd::prelude::*;

verus! {

broadcast use vstd::std_specs::hash::group_hash_axioms;

/// A name for one of the viewports the window is divided into.
#[derive(Clone, Copy, PartialEq, Eq, Hash, Debug, Structural)]
pub enum ViewportId {
    Ui,
    Primary,
    Secondary(u8),
}

/// An axis-aligned region of the window, in physical pixels.
#[derive(Clone, Copy, PartialEq, Eq, Debug, Structural)]
pub struct ViewportRect {
    pub x: u32,
    pub y: u32,
    pub width: u32,
    pub height: u32,
}

/// `v` held inside `0..=hi`.
pub open spec fn clamped(v: int, hi: int) -> int {
    if v > hi {
        hi
    } else {
        v
    }
}

/// What is left of `total` after the two margins are taken off, floored
/// at nothing.
pub open spec fn remaining_extent(total: int, low: int, high: int) -> int {
    if total - low - high > 0 {
        total - low - high
    } else {
        0
    }
}

/// Cuts a viewport out of a window: each margin is first clamped to the
/// window's extent, the position is the top-left margin pair, and the size
/// is whatever the margins leave over.
pub fn viewport_rect(win_width: u32, win_height: u32, left: u32, right: u32, top: u32, bottom: u32)
    -> (r: ViewportRect)
    ensures
        r.x == clamped(left as int, win_width as int),
        r.y == clamped(top as int, win_height as int),
        r.width == remaining_extent(
            win_width as int,
            clamped(left as int, win_width as int),
            clamped(right as int, win_width as int),
        ),
        r.height == remaining_extent(
            win_height as int,
            clamped(top as int, win_height as int),
            clamped(bottom as int, win_height as int),
        ),
{
    let l: u32 = if left > win_width {
        win_width
    } else {
        left
    };
    let rt: u32 = if right > win_width {
        win_width
    } else {
        right
    };
    let t: u32 = if top > win_height {
        win_height
    } else {
        top
    };
    let b: u32 = if bottom > win_height {
        win_height
    } else {
        bottom
    };
    let width: u32 = if rt >= win_width - l {
        0
    } else {
        win_width - l - rt
    };
    let height: u32 = if b >= win_height - t {
        0
    } else {
        win_height - t - b
    };
    ViewportRect { x: l, y: t, width, height }
}

/// The integer each viewport name is filed under.
pub open spec fn id_code_of(id: ViewportId) -> u64 {
    match id {
        ViewportId::Ui => 0,
        ViewportId::Primary => 1,
        ViewportId::Secondary(n) => (2 + n) as u64,
    }
}

/// Distinct names are filed under distinct integers.
pub proof fn lemma_id_code_injective(a: ViewportId, b: ViewportId)
    requires
        id_code_of(a) == id_code_of(b),
    ensures
        a == b,
{
}

fn id_code(id: &ViewportId) -> (r: u64)
    ensures
        r == id_code_of(*id),
{
    match id {
        ViewportId::Ui => 0,
        ViewportId::Primary => 1,
        ViewportId::Secondary(n) => 2 + (*n as u64),
    }
}

/// The rectangles currently assigned to the named viewports.
pub struct Viewports {
    table: HashMap<u64, ViewportRect>,
}

impl View for Viewports {
    type V = Map<ViewportId, ViewportRect>;

    closed spec fn view(&self) -> Map<ViewportId, ViewportRect> {
        Map::new(
            |id: ViewportId| self.table@.contains_key(id_code_of(id)),
            |id: ViewportId| self.table@[id_code_of(id)],
        )
    }
}

impl Viewports {
    /// An assignment with no viewports in it.
    pub fn new() -> (r: Self)
        ensures
            r@ == Map::<ViewportId, ViewportRect>::empty(),
    {
        let r = Viewports { table: HashMap::new() };
        proof {
            assert(r@ =~= Map::<ViewportId, ViewportRect>::empty());
        }
        r
    }

    /// Assigns a rectangle to a viewport, replacing whatever the name held.
    pub fn insert(&mut self, id: ViewportId, rect: ViewportRect)
        ensures
            final(self)@ == old(self)@.insert(id, rect),
    {
        self.table.insert(id_code(&id), rect);
        proof {
            assert forall|other: ViewportId|
                final(self)@.contains_key(other) == old(self)@.insert(id, rect).contains_key(other)
                && (final(self)@.contains_key(other) ==> final(self)@[other] == old(self)@.insert(
                id,
                rect,
            )[other]) by {
                if id_code_of(other) == id_code_of(id) {
                    lemma_id_code_injective(other, id);
                }
            }
            assert(final(self)@ =~= old(self)@.insert(id, rect));
        }
    }

    /// Looks a viewport's rectangle up.
    pub fn get(&self, id: &ViewportId) -> (r: Option<&ViewportRect>)
        ensures
            match r {
                Some(rect) => self@.contains_key(*id) && *rect == self@[*id],
                None => !self@.contains_key(*id),
            },
    {
        self.table.get(&id_code(id))
    }
}

} // verus!
