//! The clipboard exporter: copying a region of a screenshot into a new
//! bitmap and publishing that bitmap on the system clipboard.
//!
//! The platform calls are made outside this crate. An [`ExportSession`] says
//! which call comes next and takes the call's answer, which is the handle or
//! flag that the call returned, zero where it failed. What the session does
//! with an answer, and what holds of every export, is laid down in
//! [`crate::protocol`].

use vstd::prelude::*;
use crate::capture::Screenshot;
use crate::geometry::Rectangle;
use crate::guard::{Disposal, Release};
use crate::protocol::{lemma_next_keeps_invariant, ExportModel, Stage};

verus! {

/// Why an export did not publish an image.
#[derive(Clone, Copy, Debug, PartialEq, Eq)]
pub enum ClipboardError {
    /// Another process holds the clipboard open.
    Busy,
    /// The region does not lie inside the screenshot.
    RegionOutOfBounds,
    /// The new bitmap or its context could not be created or selected, or the
    /// copy into it failed.
    SurfaceUnavailable,
    /// The clipboard could not be cleared or did not take the bitmap.
    PublishFailed,
}

/// One platform call of an export, or its end.
#[derive(Clone, Copy, Debug, PartialEq, Eq)]
pub enum ExportStep {
    /// Create a bitmap of this size that is compatible with the context
    /// `screen`. The answer is the bitmap's handle.
    CreateSurface { screen: usize, width: i32, height: i32 },
    /// Create a memory context that is compatible with the context `screen`.
    /// The answer is the context's handle.
    CreateContext { screen: usize },
    /// Select `object` into `context`. The answer is the handle of the object
    /// that was selected before.
    Select { context: usize, object: usize },
    /// Copy a block of this size from `source` at `(x, y)` to `target` at
    /// `(0, 0)`.
    Copy { target: usize, width: i32, height: i32, source: usize, x: i32, y: i32 },
    /// Open the clipboard.
    OpenClipboard,
    /// Clear the clipboard.
    EmptyClipboard,
    /// Hand the bitmap `surface` to the clipboard.
    Publish { surface: usize },
    /// Close the clipboard.
    CloseClipboard,
    /// Give a handle back.
    Release(Release),
    /// Nothing is left to do: the export ended like this.
    Finished(Result<(), ClipboardError>),
}

/// An export under way. It borrows the screenshot, whose handles it uses:
/// the screenshot cannot be released before the export is dropped.
#[derive(Debug)]
pub struct ExportSession<'a> {
    shot: &'a Screenshot,
    region: Rectangle<u32>,
    stage: Stage,
    surface: usize,
    context: usize,
    pending: Vec<ExportStep>,
    outcome: Result<(), ClipboardError>,
}

impl<'a> View for ExportSession<'a> {
    type V = ExportModel;

    closed spec fn view(&self) -> ExportModel {
        ExportModel {
            region: self.region,
            h_screen: self.shot@.h_screen,
            h_dc: self.shot@.h_dc,
            h_bitmap: self.shot@.h_bitmap,
            stage: self.stage,
            surface: self.surface,
            context: self.context,
            pending: self.pending@,
            outcome: self.outcome,
        }
    }
}

impl<'a> ExportSession<'a> {
    #[verifier::type_invariant]
    spec fn inv(self) -> bool {
        self@.wf()
    }

    /// The region that is exported.
    pub fn region(&self) -> (region: Rectangle<u32>)
        ensures
            region == self@.region,
    {
        self.region
    }

    /// Whether nothing is left to do.
    pub fn is_finished(&self) -> (finished: bool)
        ensures
            finished == self@.finished(),
            self@.wf(),
    {
        proof {
            use_type_invariant(self);
        }
        match self.stage {
            Stage::Unwind => self.pending.len() == 0,
            _ => false,
        }
    }

    /// How the export ended, once it has.
    pub fn outcome(&self) -> (outcome: Option<Result<(), ClipboardError>>)
        ensures
            outcome == (if self@.finished() {
                Some(self@.outcome)
            } else {
                None
            }),
    {
        if self.is_finished() {
            Some(self.outcome)
        } else {
            None
        }
    }

    /// The call that comes next.
    pub fn step(&self) -> (step: ExportStep)
        ensures
            step == self@.step(),
            self@.wf(),
    {
        proof {
            use_type_invariant(self);
        }
        let (h_screen, h_dc, h_bitmap) = self.shot.handles();
        match self.stage {
            Stage::CreateSurface => ExportStep::CreateSurface {
                screen: h_screen,
                width: self.region.w as i32,
                height: self.region.h as i32,
            },
            Stage::CreateContext => ExportStep::CreateContext { screen: h_screen },
            Stage::SelectSurface => ExportStep::Select {
                context: self.context,
                object: self.surface,
            },
            Stage::SelectSource => ExportStep::Select { context: h_dc, object: h_bitmap },
            Stage::Copy => ExportStep::Copy {
                target: self.context,
                width: self.region.w as i32,
                height: self.region.h as i32,
                source: h_dc,
                x: self.region.x as i32,
                y: self.region.y as i32,
            },
            Stage::Settle => self.pending[self.pending.len() - 1],
            Stage::OpenClipboard => ExportStep::OpenClipboard,
            Stage::EmptyClipboard => ExportStep::EmptyClipboard,
            Stage::Publish => ExportStep::Publish { surface: self.surface },
            Stage::Unwind => if self.pending.len() > 0 {
                self.pending[self.pending.len() - 1]
            } else {
                ExportStep::Finished(self.outcome)
            },
        }
    }

    /// Takes the answer of the call that [`ExportSession::step`] named and
    /// moves on. The answer is the handle or the flag that the call returned,
    /// zero where it failed.
    pub fn advance(self, answer: usize) -> (next: ExportSession<'a>)
        ensures
            next@ == self@.next(answer),
            next@.wf(),
    {
        proof {
            use_type_invariant(&self);
            lemma_next_keeps_invariant(self@, answer);
        }
        let ghost before = self@;
        let ExportSession { shot, region, stage, surface, context, pending, outcome } = self;
        let (_, h_dc, _) = shot.handles();
        let mut stage = stage;
        let mut surface = surface;
        let mut context = context;
        let mut pending = pending;
        let mut outcome = outcome;
        match stage {
            Stage::CreateSurface => {
                if answer == 0 {
                    stage = Stage::Unwind;
                    outcome = Err(ClipboardError::SurfaceUnavailable);
                } else {
                    surface = answer;
                    pending.push(
                        ExportStep::Release(
                            Release { handle: answer, disposal: Disposal::DeleteObject },
                        ),
                    );
                    stage = Stage::CreateContext;
                }
            },
            Stage::CreateContext => {
                if answer == 0 {
                    stage = Stage::Unwind;
                    outcome = Err(ClipboardError::SurfaceUnavailable);
                } else {
                    context = answer;
                    pending.push(
                        ExportStep::Release(
                            Release { handle: answer, disposal: Disposal::DeleteContext },
                        ),
                    );
                    stage = Stage::SelectSurface;
                }
            },
            Stage::SelectSurface => {
                if answer == 0 {
                    stage = Stage::Unwind;
                    outcome = Err(ClipboardError::SurfaceUnavailable);
                } else {
                    pending.push(ExportStep::Select { context, object: answer });
                    stage = Stage::SelectSource;
                }
            },
            Stage::SelectSource => {
                if answer == 0 {
                    stage = Stage::Unwind;
                    outcome = Err(ClipboardError::SurfaceUnavailable);
                } else {
                    pending.push(ExportStep::Select { context: h_dc, object: answer });
                    stage = Stage::Copy;
                }
            },
            Stage::Copy => {
                if answer == 0 {
                    stage = Stage::Unwind;
                    outcome = Err(ClipboardError::SurfaceUnavailable);
                } else {
                    stage = Stage::Settle;
                }
            },
            Stage::Settle => {
                if pending.len() == 2 {
                    stage = Stage::OpenClipboard;
                }
                pending.pop();
            },
            Stage::OpenClipboard => {
                if answer == 0 {
                    stage = Stage::Unwind;
                    outcome = Err(ClipboardError::Busy);
                } else {
                    pending.push(ExportStep::CloseClipboard);
                    stage = Stage::EmptyClipboard;
                }
            },
            Stage::EmptyClipboard => {
                if answer == 0 {
                    stage = Stage::Unwind;
                    outcome = Err(ClipboardError::PublishFailed);
                } else {
                    stage = Stage::Publish;
                }
            },
            Stage::Publish => {
                if answer == 0 {
                    stage = Stage::Unwind;
                    outcome = Err(ClipboardError::PublishFailed);
                } else {
                    pending.remove(0);
                    stage = Stage::Unwind;
                }
            },
            Stage::Unwind => {
                if pending.len() > 0 {
                    pending.pop();
                }
            },
        }
        proof {
            let after = ExportModel {
                region,
                h_screen: before.h_screen,
                h_dc: before.h_dc,
                h_bitmap: before.h_bitmap,
                stage,
                surface,
                context,
                pending: pending@,
                outcome,
            };
            assert(after.pending =~= before.next(answer).pending);
            assert(after == before.next(answer));
        }
        ExportSession { shot, region, stage, surface, context, pending, outcome }
    }
}

impl Screenshot {
    /// Begins the export of a region to the clipboard.
    ///
    /// The region must lie inside the screenshot; a region that does not is
    /// refused here, whoever checked it before. The export begins with
    /// nothing done.
    pub fn copy_to_clipboard(&self, region: Rectangle<u32>) -> (result: Result<
        ExportSession<'_>,
        ClipboardError,
    >)
        ensures
            result is Ok <==> region.fits_within(self@.dimensions),
            result matches Ok(session) ==> session@ == ExportModel::start(self@, region)
                && session@.wf(),
            result matches Err(error) ==> error == ClipboardError::RegionOutOfBounds,
    {
        let dimensions = self.dimensions();
        if region.lies_within(dimensions) {
            Ok(
                ExportSession {
                    shot: self,
                    region,
                    stage: Stage::CreateSurface,
                    surface: 0,
                    context: 0,
                    pending: Vec::new(),
                    outcome: Ok(()),
                },
            )
        } else {
            Err(ClipboardError::RegionOutOfBounds)
        }
    }
}

} // verus!
