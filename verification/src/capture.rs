//! The screen capturer: from what the platform handed back to a
//! [`Screenshot`], or to the reason why there is none.

use vstd::prelude::*;
use crate::enumerate::{enumerate_windows, recorded_windows, RawWindow};
use crate::geometry::{Rectangle, Window};
use crate::guard::{release_all, Disposal, Guard, Release};
use crate::pixels::{
    normalize_byte_order, pack_rows, packed_len, packed_rows, padded_len, swap_red_blue,
};

verus! {

/// Why a capture gave no screenshot.
#[derive(Clone, Copy, Debug, PartialEq, Eq)]
pub enum CaptureError {
    /// The virtual screen has no extent, or the platform returned a null
    /// handle for the screen context, the memory context or the bitmap.
    DisplayUnavailable,
    /// The pixels read back are not those of the whole virtual screen: the
    /// buffer does not hold its padded rows, no byte more or less.
    IncompleteRead,
}

/// What the platform handed back in one capture: the virtual screen's origin
/// and size, the three handles in the order of their acquisition (null where
/// an acquisition failed), the pixels as read back, in rows padded to a
/// multiple of four bytes and blue first, and the reports of the top-level
/// windows.
#[derive(Debug)]
pub struct RawCapture {
    pub screen: Rectangle<i32>,
    pub h_screen: usize,
    pub h_dc: usize,
    pub h_bitmap: usize,
    pub pixels: Vec<u8>,
    pub windows: Vec<RawWindow>,
}

/// A capture that failed: the reason, and the releases that are due for the
/// handles that had been acquired.
#[derive(Debug)]
pub struct CaptureFailure {
    pub error: CaptureError,
    pub releases: Vec<Release>,
}

/// The native handles that a screenshot owns: the bitmap that holds the
/// captured pixels, the screen context it was copied from, and the memory
/// context it is selected into for a later copy.
#[derive(Debug)]
pub struct OsScreenshot {
    h_bitmap: Guard,
    h_screen: Guard,
    h_dc: Guard,
}

/// A captured virtual screen.
#[derive(Debug)]
pub struct Screenshot {
    dimensions: (u32, u32),
    data: Vec<u8>,
    windows: Vec<Window>,
    os: OsScreenshot,
}

/// What a screenshot holds.
pub struct ScreenshotView {
    /// Width and height in pixels.
    pub dimensions: (u32, u32),
    /// The pixels, row by row, three bytes each: red, green, blue.
    pub data: Seq<u8>,
    /// The windows that were visible at the instant of capture.
    pub windows: Seq<Window>,
    /// The screen context.
    pub h_screen: usize,
    /// The memory context.
    pub h_dc: usize,
    /// The bitmap.
    pub h_bitmap: usize,
}

/// The release owed for a handle, if it is not null.
pub open spec fn owed_for(handle: usize, disposal: Disposal) -> Seq<Release> {
    if handle != 0 {
        seq![Release { handle, disposal }]
    } else {
        Seq::empty()
    }
}

/// The releases owed for three handles of a capture, in the order of their
/// acquisition: the screen context is released, the memory context and the
/// bitmap are deleted.
pub open spec fn owed_for_capture(h_screen: usize, h_dc: usize, h_bitmap: usize) -> Seq<Release> {
    owed_for(h_screen, Disposal::ReleaseContext) + owed_for(h_dc, Disposal::DeleteContext)
        + owed_for(h_bitmap, Disposal::DeleteObject)
}

impl RawCapture {
    /// The virtual screen has an extent and all three handles were acquired.
    pub open spec fn has_display(&self) -> bool {
        &&& self.screen.has_extent()
        &&& self.h_screen != 0
        &&& self.h_dc != 0
        &&& self.h_bitmap != 0
    }

    /// The capture gives a screenshot.
    pub open spec fn is_complete(&self) -> bool {
        &&& self.has_display()
        &&& self.pixels@.len() == padded_len(self.screen.w as int, self.screen.h as int)
    }

    /// The releases owed for the handles that were acquired.
    pub open spec fn acquired(&self) -> Seq<Release> {
        owed_for_capture(self.h_screen, self.h_dc, self.h_bitmap)
    }

    /// What the screenshot holds if the capture is complete.
    pub open spec fn screenshot(&self) -> ScreenshotView {
        ScreenshotView {
            dimensions: (self.screen.w as u32, self.screen.h as u32),
            data: swap_red_blue(
                packed_rows(self.pixels@, self.screen.w as int, self.screen.h as int),
            ),
            windows: recorded_windows(self.windows@),
            h_screen: self.h_screen,
            h_dc: self.h_dc,
            h_bitmap: self.h_bitmap,
        }
    }

    /// Why there is no screenshot if the capture is not complete.
    pub open spec fn error(&self) -> CaptureError {
        if self.has_display() {
            CaptureError::IncompleteRead
        } else {
            CaptureError::DisplayUnavailable
        }
    }
}

impl ScreenshotView {
    /// The invariant of a screenshot: it has an extent that the platform can
    /// express, a pixel buffer that covers it exactly, and three handles.
    pub open spec fn wf(self) -> bool {
        &&& 0 < self.dimensions.0 <= i32::MAX
        &&& 0 < self.dimensions.1 <= i32::MAX
        &&& self.data.len() == packed_len(self.dimensions.0 as int, self.dimensions.1 as int)
        &&& self.h_screen != 0
        &&& self.h_dc != 0
        &&& self.h_bitmap != 0
    }

    /// The releases owed for the handles of the screenshot, in the order of
    /// their acquisition.
    pub open spec fn acquired(self) -> Seq<Release> {
        owed_for_capture(self.h_screen, self.h_dc, self.h_bitmap)
    }
}

impl View for Screenshot {
    type V = ScreenshotView;

    closed spec fn view(&self) -> ScreenshotView {
        ScreenshotView {
            dimensions: self.dimensions,
            data: self.data@,
            windows: self.windows@,
            h_screen: self.os.h_screen@.handle,
            h_dc: self.os.h_dc@.handle,
            h_bitmap: self.os.h_bitmap@.handle,
        }
    }
}

/// The size in bytes of the buffer that receives the padded rows of a
/// virtual screen, where the screen has an extent and the size can be
/// addressed.
pub fn pixel_buffer_len(screen: Rectangle<i32>) -> (len: Option<usize>)
    ensures
        len is Some <==> screen.has_extent() && padded_len(screen.w as int, screen.h as int)
            <= usize::MAX,
        len matches Some(n) ==> n == padded_len(screen.w as int, screen.h as int),
{
    if screen.w <= 0 || screen.h <= 0 {
        return None;
    }
    let line: u64 = 3 * (screen.w as u64);
    let stride: u64 = (line + 3) / 4 * 4;
    assert(stride * screen.h <= 0x1_8000_0004 * 0x7fff_ffff) by (nonlinear_arith)
        requires
            0 <= stride <= 0x1_8000_0004,
            0 < screen.h <= 0x7fff_ffff,
    ;
    let bytes: u64 = stride * (screen.h as u64);
    if bytes > usize::MAX as u64 {
        None
    } else {
        Some(bytes as usize)
    }
}

impl Screenshot {
    #[verifier::type_invariant]
    spec fn inv(self) -> bool {
        &&& self@.wf()
        &&& self.os.h_screen@.disposal == Disposal::ReleaseContext
        &&& self.os.h_dc@.disposal == Disposal::DeleteContext
        &&& self.os.h_bitmap@.disposal == Disposal::DeleteObject
    }

    /// Makes a screenshot of what the platform handed back.
    ///
    /// There is a screenshot exactly if the capture is complete. It then has
    /// the size of the virtual screen, the pixels row by row without padding
    /// and in red-green-blue order, the windows that are visible and no
    /// popups, and it owns the three handles. Otherwise nothing of a
    /// screenshot is handed out: the result names the reason and lists the
    /// releases that are due, last acquired first.
    pub fn take(raw: RawCapture) -> (result: Result<Screenshot, CaptureFailure>)
        ensures
            result is Ok <==> raw.is_complete(),
            result matches Ok(shot) ==> shot@ == raw.screenshot() && shot@.wf(),
            result matches Ok(shot) ==> shot@.data.len() == raw.screen.w * raw.screen.h * 3,
            result matches Err(failure) ==> failure.error == raw.error() && failure.releases@
                == raw.acquired().reverse(),
    {
        let ghost given = raw;
        let RawCapture { screen, h_screen, h_dc, h_bitmap, pixels, windows } = raw;
        let has_display = screen.w > 0 && screen.h > 0 && h_screen != 0 && h_dc != 0 && h_bitmap
            != 0;
        let packed = if has_display {
            pack_rows(&pixels, screen.w, screen.h)
        } else {
            None
        };
        match packed {
            Some(data) => {
                let mut data = data;
                normalize_byte_order(&mut data);
                assert(data@.len() == screen.w * screen.h * 3);
                Ok(
                    Screenshot {
                        dimensions: (screen.w as u32, screen.h as u32),
                        data,
                        windows: enumerate_windows(&windows),
                        os: OsScreenshot {
                            h_bitmap: Guard::acquire(h_bitmap, Disposal::DeleteObject).unwrap(),
                            h_screen: Guard::acquire(h_screen, Disposal::ReleaseContext).unwrap(),
                            h_dc: Guard::acquire(h_dc, Disposal::DeleteContext).unwrap(),
                        },
                    },
                )
            },
            None => {
                let mut guards: Vec<Guard> = Vec::new();
                if let Some(guard) = Guard::acquire(h_screen, Disposal::ReleaseContext) {
                    guards.push(guard);
                }
                if let Some(guard) = Guard::acquire(h_dc, Disposal::DeleteContext) {
                    guards.push(guard);
                }
                if let Some(guard) = Guard::acquire(h_bitmap, Disposal::DeleteObject) {
                    guards.push(guard);
                }
                assert(crate::guard::owed(guards@) =~= given.acquired());
                let error = if has_display {
                    CaptureError::IncompleteRead
                } else {
                    CaptureError::DisplayUnavailable
                };
                Err(CaptureFailure { error, releases: release_all(guards) })
            },
        }
    }

    /// Width and height in pixels.
    pub fn dimensions(&self) -> (dimensions: (u32, u32))
        ensures
            dimensions == self@.dimensions,
            self@.wf(),
    {
        proof {
            use_type_invariant(self);
        }
        self.dimensions
    }

    /// The pixel buffer.
    pub fn data(&self) -> (data: &Vec<u8>)
        ensures
            data@ == self@.data,
            data@.len() == packed_len(self@.dimensions.0 as int, self@.dimensions.1 as int),
    {
        proof {
            use_type_invariant(self);
        }
        &self.data
    }

    /// The windows that were visible at the instant of capture.
    pub fn windows(&self) -> (windows: &Vec<Window>)
        ensures
            windows@ == self@.windows,
    {
        &self.windows
    }

    /// The handles of the screen context, the memory context and the bitmap.
    /// The screenshot keeps owning them.
    pub fn handles(&self) -> (handles: (usize, usize, usize))
        ensures
            handles == (self@.h_screen, self@.h_dc, self@.h_bitmap),
            self@.wf(),
    {
        proof {
            use_type_invariant(self);
        }
        (self.os.h_screen.get(), self.os.h_dc.get(), self.os.h_bitmap.get())
    }

    /// Ends the screenshot and hands out the releases of its three handles,
    /// last acquired first: the bitmap, the memory context, the screen
    /// context. The crate makes no platform call: whoever ends a screenshot
    /// makes these three.
    pub fn release(self) -> (releases: Vec<Release>)
        ensures
            releases@ == self@.acquired().reverse(),
            releases@ == seq![
                Release { handle: self@.h_bitmap, disposal: Disposal::DeleteObject },
                Release { handle: self@.h_dc, disposal: Disposal::DeleteContext },
                Release { handle: self@.h_screen, disposal: Disposal::ReleaseContext },
            ],
    {
        proof {
            use_type_invariant(&self);
        }
        let ghost view = self@;
        let Screenshot { dimensions: _, data: _, windows: _, os } = self;
        let OsScreenshot { h_bitmap, h_screen, h_dc } = os;
        let mut guards: Vec<Guard> = Vec::new();
        guards.push(h_screen);
        guards.push(h_dc);
        guards.push(h_bitmap);
        assert(crate::guard::owed(guards@) =~= view.acquired());
        let releases = release_all(guards);
        assert(releases@ =~= seq![
            Release { handle: view.h_bitmap, disposal: Disposal::DeleteObject },
            Release { handle: view.h_dc, disposal: Disposal::DeleteContext },
            Release { handle: view.h_screen, disposal: Disposal::ReleaseContext },
        ]);
        releases
    }
}

/// The number of releases owed for a handle: one, or none for a null handle.
pub open spec fn times_owed(handle: usize) -> nat {
    if handle != 0 {
        1
    } else {
        0
    }
}

/// Whatever a capture handed back, every handle that was acquired is given
/// back exactly once, in the way that belongs to it, and nothing else is
/// given back: by the failure's releases if there is no screenshot, by the
/// screenshot's own releases if there is one. Either way the releases are
/// those of the acquisitions in reverse order.
pub proof fn lemma_capture_releases_each_handle_once(raw: RawCapture)
    ensures
        raw.is_complete() ==> raw.screenshot().acquired() == raw.acquired(),
        ({
            let made = raw.acquired().reverse();
            &&& made.len() == times_owed(raw.h_screen) + times_owed(raw.h_dc) + times_owed(
                raw.h_bitmap,
            )
            &&& made.to_multiset().count(
                Release { handle: raw.h_screen, disposal: Disposal::ReleaseContext },
            ) == times_owed(raw.h_screen)
            &&& made.to_multiset().count(
                Release { handle: raw.h_dc, disposal: Disposal::DeleteContext },
            ) == times_owed(raw.h_dc)
            &&& made.to_multiset().count(
                Release { handle: raw.h_bitmap, disposal: Disposal::DeleteObject },
            ) == times_owed(raw.h_bitmap)
            &&& forall|i: int|
                0 <= i < made.len() ==> #[trigger] made[i] == raw.acquired()[made.len() - 1 - i]
        }),
{
    crate::guard::lemma_reverse_releases_each_once(raw.acquired());
    let a = owed_for(raw.h_screen, Disposal::ReleaseContext);
    let b = owed_for(raw.h_dc, Disposal::DeleteContext);
    let c = owed_for(raw.h_bitmap, Disposal::DeleteObject);
    vstd::seq_lib::lemma_multiset_commutative(a, b);
    vstd::seq_lib::lemma_multiset_commutative(a + b, c);
    broadcast use vstd::seq_lib::group_to_multiset_ensures;
    assert(a =~= Seq::<Release>::empty() || a =~= Seq::<Release>::empty().push(a[0]));
    assert(b =~= Seq::<Release>::empty() || b =~= Seq::<Release>::empty().push(b[0]));
    assert(c =~= Seq::<Release>::empty() || c =~= Seq::<Release>::empty().push(c[0]));
}

} // verus!
