//! The cropper: resolving what the user selected against a screenshot and
//! handing the result to the clipboard exporter.

use vstd::prelude::*;
use crate::capture::{Screenshot, ScreenshotView};
use crate::clipboard::ExportSession;
use crate::protocol::ExportModel;
use crate::geometry::{Bounds, Rectangle};

verus! {

/// The signal to the trigger loop: `true` to stop listening for further
/// triggers.
pub type ShouldQuit = bool;

/// Why the cropper gave no region.
#[derive(Clone, Copy, Debug, PartialEq, Eq)]
pub enum CropperError {
    /// The one-time platform setup could not be completed.
    InitFailed,
    /// The selected window is not in the screenshot's window list.
    InvalidWindowIndex,
    /// The region reaches beyond the screenshot.
    OutOfBounds,
    /// The region holds no pixel.
    EmptyRegion,
}

/// What the user asked for in one cycle.
#[derive(Clone, Copy, Debug, PartialEq, Eq)]
pub enum Request {
    /// Export this selection.
    Select(Bounds),
    /// Stop listening for triggers.
    Quit,
}

/// What one cycle leads to.
#[derive(Debug)]
pub enum Decision<'a> {
    /// The export of the resolved region, with nothing done yet.
    Export(ExportSession<'a>),
    /// Nothing is exported and the trigger loop stops.
    Quit,
}

/// The cropper. It keeps nothing from one cycle to the next.
#[derive(Debug)]
pub struct Cropper {}

/// A region checked against an image of the given dimensions: one that
/// reaches beyond the image is out of bounds, whether or not it is empty;
/// one inside it that holds no pixel is empty.
pub open spec fn checked(region: Rectangle<u32>, dimensions: (u32, u32)) -> Result<
    Rectangle<u32>,
    CropperError,
> {
    if !region.fits_within(dimensions) {
        Err(CropperError::OutOfBounds)
    } else if region.is_empty() {
        Err(CropperError::EmptyRegion)
    } else {
        Ok(region)
    }
}

/// The region that a selection stands for in a screenshot.
pub open spec fn resolved(shot: ScreenshotView, selection: Bounds) -> Result<
    Rectangle<u32>,
    CropperError,
> {
    match selection {
        Bounds::FullScreen => Ok(Rectangle::covering(shot.dimensions)),
        Bounds::Explicit(region) => checked(region, shot.dimensions),
        Bounds::Window(index) => if index >= shot.windows.len() {
            Err(CropperError::InvalidWindowIndex)
        } else {
            checked(shot.windows[index as int].bounds, shot.dimensions)
        },
    }
}

/// What a request leads to in a screenshot: the region to export, or none
/// where the user quits.
pub open spec fn decided(shot: ScreenshotView, request: Request) -> Result<
    Option<Rectangle<u32>>,
    CropperError,
> {
    match request {
        Request::Quit => Ok(None),
        Request::Select(selection) => match resolved(shot, selection) {
            Ok(region) => Ok(Some(region)),
            Err(error) => Err(error),
        },
    }
}

impl<'a> Decision<'a> {
    /// The region that is exported, if any.
    pub open spec fn region(self) -> Option<Rectangle<u32>> {
        match self {
            Decision::Export(session) => Some(session@.region),
            Decision::Quit => None,
        }
    }

    /// Whether the trigger loop stops.
    pub fn should_quit(&self) -> (quit: ShouldQuit)
        ensures
            quit == (*self is Quit),
            quit == (self.region() is None),
    {
        match self {
            Decision::Export(_) => false,
            Decision::Quit => true,
        }
    }
}

fn check(region: Rectangle<u32>, dimensions: (u32, u32)) -> (result: Result<
    Rectangle<u32>,
    CropperError,
>)
    ensures
        result == checked(region, dimensions),
{
    if !region.lies_within(dimensions) {
        Err(CropperError::OutOfBounds)
    } else if region.has_no_pixels() {
        Err(CropperError::EmptyRegion)
    } else {
        Ok(region)
    }
}

impl Cropper {
    /// Makes the cropper once the platform setup has been tried. Without the
    /// setup no capture is possible, so there is no cropper then.
    pub fn new(setup_completed: bool) -> (result: Result<Cropper, CropperError>)
        ensures
            result is Ok <==> setup_completed,
            result matches Err(error) ==> error == CropperError::InitFailed,
    {
        if setup_completed {
            Ok(Cropper {  })
        } else {
            Err(CropperError::InitFailed)
        }
    }

    /// Resolves a selection against a screenshot.
    ///
    /// The full screen is the whole image, whatever windows there are. A
    /// window is looked up in the window list by its index. A window's
    /// rectangle and an explicit one must lie inside the image and hold at
    /// least one pixel.
    pub fn resolve(&self, screenshot: &Screenshot, selection: Bounds) -> (result: Result<
        Rectangle<u32>,
        CropperError,
    >)
        ensures
            result == resolved(screenshot@, selection),
            result matches Ok(region) ==> region.fits_within(screenshot@.dimensions)
                && !region.is_empty(),
    {
        let dimensions = screenshot.dimensions();
        match selection {
            Bounds::FullScreen => Ok(Rectangle::full(dimensions)),
            Bounds::Explicit(region) => check(region, dimensions),
            Bounds::Window(index) => {
                let windows = screenshot.windows();
                if index >= windows.len() {
                    Err(CropperError::InvalidWindowIndex)
                } else {
                    check(windows[index].bounds, dimensions)
                }
            },
        }
    }

    /// Runs the cropper's part of one cycle: resolves what the user asked
    /// for and begins the export of the resolved region.
    ///
    /// Where the user quits, nothing is resolved or exported. Where the
    /// selection does not resolve, the cycle fails with the reason and
    /// nothing is exported.
    pub fn apply<'a>(&self, screenshot: &'a Screenshot, request: Request) -> (result: Result<
        Decision<'a>,
        CropperError,
    >)
        ensures
            match decided(screenshot@, request) {
                Err(error) => result matches Err(e) && e == error,
                Ok(None) => result matches Ok(Decision::Quit),
                Ok(Some(region)) => result matches Ok(Decision::Export(session)) && session@
                    == ExportModel::start(screenshot@, region) && session@.wf(),
            },
    {
        match request {
            Request::Quit => Ok(Decision::Quit),
            Request::Select(selection) => match self.resolve(screenshot, selection) {
                Err(error) => Err(error),
                Ok(region) => match screenshot.copy_to_clipboard(region) {
                    Ok(session) => Ok(Decision::Export(session)),
                    Err(_) => {
                        proof {
                            assert(false);
                        }
                        vstd::pervasive::unreached()
                    },
                },
            },
        }
    }
}

/// A window index at or past the end of the window list is refused as such,
/// whatever else the screenshot holds.
pub proof fn lemma_window_index_out_of_range(shot: ScreenshotView, index: usize)
    requires
        index >= shot.windows.len(),
    ensures
        resolved(shot, Bounds::Window(index)) == Err::<Rectangle<u32>, CropperError>(
            CropperError::InvalidWindowIndex,
        ),
        decided(shot, Request::Select(Bounds::Window(index))) == Err::<
            Option<Rectangle<u32>>,
            CropperError,
        >(CropperError::InvalidWindowIndex),
{
}

/// An explicit rectangle that reaches past the right or the bottom edge of
/// the screenshot is out of bounds.
pub proof fn lemma_explicit_region_out_of_bounds(shot: ScreenshotView, region: Rectangle<u32>)
    requires
        region.x + region.w > shot.dimensions.0 || region.y + region.h > shot.dimensions.1,
    ensures
        resolved(shot, Bounds::Explicit(region)) == Err::<Rectangle<u32>, CropperError>(
            CropperError::OutOfBounds,
        ),
{
}

/// The full screen resolves to the whole image, whatever the window list
/// holds, and that region is one that the exporter takes.
pub proof fn lemma_full_screen_is_whole_image(shot: ScreenshotView)
    ensures
        resolved(shot, Bounds::FullScreen) == Ok::<Rectangle<u32>, CropperError>(
            Rectangle { x: 0, y: 0, w: shot.dimensions.0, h: shot.dimensions.1 },
        ),
        Rectangle::covering(shot.dimensions).fits_within(shot.dimensions),
        shot.wf() ==> !Rectangle::covering(shot.dimensions).is_empty(),
{
}

/// What resolves can be exported: a resolved region lies inside the
/// screenshot and holds at least one pixel.
pub proof fn lemma_resolved_region_is_exportable(shot: ScreenshotView, selection: Bounds)
    requires
        shot.wf(),
        resolved(shot, selection) is Ok,
    ensures
        resolved(shot, selection)->Ok_0.fits_within(shot.dimensions),
        !resolved(shot, selection)->Ok_0.is_empty(),
        ExportModel::start(shot, resolved(shot, selection)->Ok_0).wf(),
{
}

} // verus!
