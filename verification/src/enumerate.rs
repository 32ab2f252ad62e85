//! Window enumeration: from what the platform reports of each top-level
//! window to the list of windows recorded in a screenshot.

use vstd::prelude::*;
use crate::geometry::{Rectangle, Window};

verus! {

/// Style bit that marks a window as a popup.
pub const WS_POPUP: u32 = 0x8000_0000;

/// What the platform reports of one top-level window: whether it is visible,
/// its style bits, and the edges of its extended frame in signed screen
/// coordinates.
#[derive(Clone, Copy, Debug, PartialEq, Eq)]
pub struct RawWindow {
    pub visible: bool,
    pub style: u32,
    pub left: i32,
    pub top: i32,
    pub right: i32,
    pub bottom: i32,
}

/// The value in `0 .. 2^32` that is congruent to `v` modulo `2^32`: how a
/// signed coordinate, or a difference of two, is stored in 32 unsigned bits.
pub open spec fn wrap32(v: int) -> u32 {
    (v % 0x1_0000_0000) as u32
}

impl RawWindow {
    /// The style marks the window as a popup.
    pub open spec fn is_popup(self) -> bool {
        self.style & WS_POPUP != 0
    }

    /// The window is recorded: it is visible and no popup.
    pub open spec fn is_recorded(self) -> bool {
        self.visible && !self.is_popup()
    }

    /// The rectangle recorded for the window.
    pub open spec fn frame(self) -> Rectangle<u32> {
        Rectangle {
            x: wrap32(self.left as int),
            y: wrap32(self.top as int),
            w: wrap32(self.right - self.left),
            h: wrap32(self.bottom - self.top),
        }
    }

    /// The window recorded for it.
    pub open spec fn window(self) -> Window {
        Window { bounds: self.frame() }
    }

    /// Whether the window is recorded, and if so, as what.
    pub fn record(&self) -> (recorded: Option<Window>)
        ensures
            recorded == (if self.is_recorded() {
                Some(self.window())
            } else {
                None
            }),
    {
        if self.visible && self.style & WS_POPUP == 0 {
            Some(
                Window {
                    bounds: Rectangle {
                        x: wrap_to_u32(self.left as i64),
                        y: wrap_to_u32(self.top as i64),
                        w: wrap_to_u32(self.right as i64 - self.left as i64),
                        h: wrap_to_u32(self.bottom as i64 - self.top as i64),
                    },
                },
            )
        } else {
            None
        }
    }
}

fn wrap_to_u32(v: i64) -> (wrapped: u32)
    requires
        -0x1_0000_0000 < v < 0x1_0000_0000,
    ensures
        wrapped == wrap32(v as int),
{
    if v >= 0 {
        v as u32
    } else {
        (v + 0x1_0000_0000) as u32
    }
}

/// The windows recorded for a run of reports: the visible windows that are no
/// popups, in the order in which the platform reported them.
pub open spec fn recorded_windows(raw: Seq<RawWindow>) -> Seq<Window> {
    raw.filter(|r: RawWindow| r.is_recorded()).map_values(|r: RawWindow| r.window())
}

/// A popup is a window whose highest style bit is set.
pub proof fn lemma_popup_is_high_bit(style: u32)
    ensures
        (style & WS_POPUP != 0) <==> style >= 0x8000_0000,
{
    assert((style & 0x8000_0000 != 0) <==> style >= 0x8000_0000) by (bit_vector);
}

/// A window whose frame has its edges in order is recorded with the exact
/// width and height of that frame, which are then not negative; a frame with
/// no extent is recorded with width or height zero.
pub proof fn lemma_frame_of_ordered_edges(raw: RawWindow)
    requires
        raw.left <= raw.right,
        raw.top <= raw.bottom,
    ensures
        raw.frame().w == raw.right - raw.left,
        raw.frame().h == raw.bottom - raw.top,
        0 <= raw.left ==> raw.frame().x == raw.left,
        0 <= raw.top ==> raw.frame().y == raw.top,
{
}

/// Every recorded window has a width and a height that are not negative,
/// and stands for a report that is visible and no popup.
pub proof fn lemma_recorded_windows_sound(raw: Seq<RawWindow>, k: int)
    requires
        0 <= k < recorded_windows(raw).len(),
    ensures
        recorded_windows(raw)[k].bounds.w >= 0,
        recorded_windows(raw)[k].bounds.h >= 0,
        exists|i: int|
            0 <= i < raw.len() && (#[trigger] raw[i]).visible && !raw[i].is_popup()
                && recorded_windows(raw)[k] == raw[i].window(),
{
    let pred = |r: RawWindow| r.is_recorded();
    let kept = raw.filter(pred);
    raw.lemma_filter_pred(pred, k);
    assert(kept.contains(kept[k]));
    raw.lemma_filter_contains_rev(pred, kept[k]);
    let i = choose|i: int| 0 <= i < raw.len() && raw[i] == kept[k];
    assert(raw[i].visible && !raw[i].is_popup() && recorded_windows(raw)[k] == raw[i].window());
}

/// Every report that is visible and no popup is recorded, a window without
/// extent too.
pub proof fn lemma_recorded_windows_complete(raw: Seq<RawWindow>, i: int)
    requires
        0 <= i < raw.len(),
        raw[i].is_recorded(),
    ensures
        recorded_windows(raw).contains(raw[i].window()),
{
    let pred = |r: RawWindow| r.is_recorded();
    let kept = raw.filter(pred);
    raw.lemma_filter_contains(pred, i);
    let k = choose|k: int| 0 <= k < kept.len() && kept[k] == raw[i];
    assert(recorded_windows(raw)[k] == raw[i].window());
}

/// Lists the windows of a screenshot from the platform's reports, taken in
/// the platform's order.
pub fn enumerate_windows(raw: &Vec<RawWindow>) -> (windows: Vec<Window>)
    ensures
        windows@ == recorded_windows(raw@),
{
    let mut windows: Vec<Window> = Vec::new();
    let mut i: usize = 0;
    while i < raw.len()
        invariant
            i <= raw.len(),
            windows@ == recorded_windows(raw@.take(i as int)),
        decreases raw.len() - i,
    {
        let ghost seen = raw@.take(i as int);
        let ghost pred = |r: RawWindow| r.is_recorded();
        let ghost conv = |r: RawWindow| r.window();
        proof {
            assert(raw@.take(i + 1) =~= seen.push(raw@[i as int]));
            seen.lemma_filter_push(raw@[i as int], pred);
            if raw@[i as int].is_recorded() {
                seen.filter(pred).lemma_push_map_commute(conv, raw@[i as int]);
            }
        }
        match raw[i].record() {
            Some(window) => {
                windows.push(window);
            },
            None => {},
        }
        i = i + 1;
    }
    assert(raw@.take(raw.len() as int) =~= raw@);
    windows
}

} // verus!
