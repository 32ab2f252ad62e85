//! The protocol of an export to the clipboard.
//!
//! Every call that has to be undone puts its undoing on a stack: a bitmap or
//! a context that was created is deleted, a selection is restored, an open
//! clipboard is closed. The stack is taken down from the top, so that
//! whatever fails, everything is undone in the reverse of the order in which
//! it was done. The one thing that leaves the stack without being undone is
//! the new bitmap once the clipboard has taken it.
//!
//! [`ExportModel`] is the state of an export and [`ExportModel::next`] what
//! one answer makes of it. The proof functions of this module say what holds
//! of every export, whatever the platform answers.

use vstd::prelude::*;
use vstd::multiset::Multiset;
use crate::capture::ScreenshotView;
use crate::clipboard::{ClipboardError, ExportStep};
use crate::geometry::Rectangle;
use crate::guard::{Disposal, Release};

verus! {

/// Where an export stands.
#[derive(Clone, Copy, Debug, PartialEq, Eq)]
pub enum Stage {
    CreateSurface,
    CreateContext,
    SelectSurface,
    SelectSource,
    Copy,
    /// The copy is made: selections are restored and the context is deleted,
    /// until only the new bitmap is left.
    Settle,
    OpenClipboard,
    EmptyClipboard,
    Publish,
    /// Everything that is still on the stack is undone.
    Unwind,
}

/// The state of an export.
pub struct ExportModel {
    /// The region of the screenshot that is exported.
    pub region: Rectangle<u32>,
    /// The screenshot's screen context.
    pub h_screen: usize,
    /// The screenshot's memory context.
    pub h_dc: usize,
    /// The screenshot's bitmap.
    pub h_bitmap: usize,
    pub stage: Stage,
    /// The new bitmap, once created.
    pub surface: usize,
    /// The new context, once created.
    pub context: usize,
    /// The calls that undo what has been done, the latest last.
    pub pending: Seq<ExportStep>,
    /// How the export ends, as far as it is decided.
    pub outcome: Result<(), ClipboardError>,
}

impl ExportModel {
    /// The state in which an export of `region` from a screenshot begins.
    pub open spec fn start(shot: ScreenshotView, region: Rectangle<u32>) -> ExportModel {
        ExportModel {
            region,
            h_screen: shot.h_screen,
            h_dc: shot.h_dc,
            h_bitmap: shot.h_bitmap,
            stage: Stage::CreateSurface,
            surface: 0,
            context: 0,
            pending: Seq::empty(),
            outcome: Ok(()),
        }
    }

    /// The deletion of the new bitmap.
    pub open spec fn surface_release(self) -> ExportStep {
        ExportStep::Release(Release { handle: self.surface, disposal: Disposal::DeleteObject })
    }

    /// The deletion of the new context.
    pub open spec fn context_release(self) -> ExportStep {
        ExportStep::Release(Release { handle: self.context, disposal: Disposal::DeleteContext })
    }

    /// The call that comes next.
    pub open spec fn step(self) -> ExportStep {
        match self.stage {
            Stage::CreateSurface => ExportStep::CreateSurface {
                screen: self.h_screen,
                width: self.region.w as i32,
                height: self.region.h as i32,
            },
            Stage::CreateContext => ExportStep::CreateContext { screen: self.h_screen },
            Stage::SelectSurface => ExportStep::Select {
                context: self.context,
                object: self.surface,
            },
            Stage::SelectSource => ExportStep::Select {
                context: self.h_dc,
                object: self.h_bitmap,
            },
            Stage::Copy => ExportStep::Copy {
                target: self.context,
                width: self.region.w as i32,
                height: self.region.h as i32,
                source: self.h_dc,
                x: self.region.x as i32,
                y: self.region.y as i32,
            },
            Stage::Settle => self.pending.last(),
            Stage::OpenClipboard => ExportStep::OpenClipboard,
            Stage::EmptyClipboard => ExportStep::EmptyClipboard,
            Stage::Publish => ExportStep::Publish { surface: self.surface },
            Stage::Unwind => if self.pending.len() > 0 {
                self.pending.last()
            } else {
                ExportStep::Finished(self.outcome)
            },
        }
    }

    /// Nothing is left to do.
    pub open spec fn finished(self) -> bool {
        self.stage == Stage::Unwind && self.pending.len() == 0
    }

    /// The next call is one from the stack: it undoes an earlier one.
    pub open spec fn undoing(self) -> bool {
        (self.stage == Stage::Settle || self.stage == Stage::Unwind) && self.pending.len() > 0
    }

    /// The state in which the export has failed and what is on the stack is
    /// undone.
    pub open spec fn failed(self, error: ClipboardError) -> ExportModel {
        ExportModel { stage: Stage::Unwind, outcome: Err(error), ..self }
    }

    /// The state after a call that has to be undone by `undo` has succeeded.
    pub open spec fn proceed(self, stage: Stage, undo: ExportStep) -> ExportModel {
        ExportModel { stage, pending: self.pending.push(undo), ..self }
    }

    /// The state after the next call was made and gave `answer`. The answer
    /// to a call that undoes another is not looked at: a release that fails
    /// is not tried again and fails nothing else.
    pub open spec fn next(self, answer: usize) -> ExportModel {
        match self.stage {
            Stage::CreateSurface => if answer == 0 {
                self.failed(ClipboardError::SurfaceUnavailable)
            } else {
                let made = ExportModel { surface: answer, ..self };
                made.proceed(Stage::CreateContext, made.surface_release())
            },
            Stage::CreateContext => if answer == 0 {
                self.failed(ClipboardError::SurfaceUnavailable)
            } else {
                let made = ExportModel { context: answer, ..self };
                made.proceed(Stage::SelectSurface, made.context_release())
            },
            Stage::SelectSurface => if answer == 0 {
                self.failed(ClipboardError::SurfaceUnavailable)
            } else {
                self.proceed(
                    Stage::SelectSource,
                    ExportStep::Select { context: self.context, object: answer },
                )
            },
            Stage::SelectSource => if answer == 0 {
                self.failed(ClipboardError::SurfaceUnavailable)
            } else {
                self.proceed(Stage::Copy, ExportStep::Select { context: self.h_dc, object: answer })
            },
            Stage::Copy => if answer == 0 {
                self.failed(ClipboardError::SurfaceUnavailable)
            } else {
                ExportModel { stage: Stage::Settle, ..self }
            },
            Stage::Settle => ExportModel {
                stage: if self.pending.len() == 2 {
                    Stage::OpenClipboard
                } else {
                    Stage::Settle
                },
                pending: self.pending.drop_last(),
                ..self
            },
            Stage::OpenClipboard => if answer == 0 {
                self.failed(ClipboardError::Busy)
            } else {
                self.proceed(Stage::EmptyClipboard, ExportStep::CloseClipboard)
            },
            Stage::EmptyClipboard => if answer == 0 {
                self.failed(ClipboardError::PublishFailed)
            } else {
                ExportModel { stage: Stage::Publish, ..self }
            },
            Stage::Publish => if answer == 0 {
                self.failed(ClipboardError::PublishFailed)
            } else {
                ExportModel { stage: Stage::Unwind, pending: self.pending.remove(0), ..self }
            },
            Stage::Unwind => if self.pending.len() > 0 {
                ExportModel { pending: self.pending.drop_last(), ..self }
            } else {
                self
            },
        }
    }

    /// The stack holds the first `n` of the four undoings of the drawing
    /// calls, in the order in which those calls are made: delete the new
    /// bitmap, delete the new context, restore the selection of the new
    /// context, restore the selection of the screenshot's context.
    pub open spec fn drawing_stack(self, n: int) -> bool {
        &&& self.pending.len() == n
        &&& n >= 1 ==> self.pending[0] == self.surface_release() && self.surface != 0
        &&& n >= 2 ==> self.pending[1] == self.context_release() && self.context != 0
        &&& n >= 3 ==> (self.pending[2] matches ExportStep::Select { context, object }
            && context == self.context && object != 0)
        &&& n >= 4 ==> (self.pending[3] matches ExportStep::Select { context, object }
            && context == self.h_dc && object != 0)
    }

    /// The stack holds the deletion of the new bitmap and above it the
    /// closing of the clipboard.
    pub open spec fn clipboard_stack(self) -> bool {
        &&& self.pending.len() == 2
        &&& self.pending[0] == self.surface_release()
        &&& self.surface != 0
        &&& self.pending[1] == ExportStep::CloseClipboard
    }

    /// The invariant of an export: the region can be expressed in the
    /// platform's signed coordinates, the handles of the screenshot are not
    /// null, and the stack holds exactly what the calls made so far call for.
    pub open spec fn wf(self) -> bool {
        &&& self.region.right() <= i32::MAX
        &&& self.region.bottom() <= i32::MAX
        &&& self.h_screen != 0
        &&& self.h_dc != 0
        &&& self.h_bitmap != 0
        &&& match self.stage {
            Stage::CreateSurface => self.drawing_stack(0) && self.outcome is Ok,
            Stage::CreateContext => self.drawing_stack(1) && self.outcome is Ok,
            Stage::SelectSurface => self.drawing_stack(2) && self.outcome is Ok,
            Stage::SelectSource => self.drawing_stack(3) && self.outcome is Ok,
            Stage::Copy => self.drawing_stack(4) && self.outcome is Ok,
            Stage::Settle => (self.drawing_stack(2) || self.drawing_stack(3) || self.drawing_stack(
                4,
            )) && self.outcome is Ok,
            Stage::OpenClipboard => self.drawing_stack(1) && self.outcome is Ok,
            Stage::EmptyClipboard => self.clipboard_stack() && self.outcome is Ok,
            Stage::Publish => self.clipboard_stack() && self.outcome is Ok,
            Stage::Unwind => if self.outcome is Ok {
                self.pending.len() == 0 || self.pending == seq![ExportStep::CloseClipboard]
            } else {
                self.clipboard_stack() || exists|n: int| 0 <= n <= 4 && self.drawing_stack(n)
            },
        }
    }

    /// A bound on the number of calls that are left.
    pub open spec fn calls_left(self) -> nat {
        match self.stage {
            Stage::CreateSurface => 16,
            Stage::CreateContext => 15,
            Stage::SelectSurface => 14,
            Stage::SelectSource => 13,
            Stage::Copy => 12,
            Stage::Settle => 6 + self.pending.len(),
            Stage::OpenClipboard => 7,
            Stage::EmptyClipboard => 6,
            Stage::Publish => 5,
            Stage::Unwind => self.pending.len(),
        }
    }

    /// The state after the calls were made one after the other and gave
    /// these answers.
    pub open spec fn run(self, answers: Seq<usize>) -> ExportModel
        decreases answers.len(),
    {
        if answers.len() == 0 {
            self
        } else {
            self.next(answers[0]).run(answers.drop_first())
        }
    }

    /// The calls that are made in a run, one for each answer, in their order.
    pub open spec fn calls(self, answers: Seq<usize>) -> Seq<ExportStep>
        decreases answers.len(),
    {
        if answers.len() == 0 {
            Seq::empty()
        } else {
            seq![self.step()] + self.next(answers[0]).calls(answers.drop_first())
        }
    }

    /// What the next call, if it gives `answer`, leaves to be undone.
    pub open spec fn incurred(self, answer: usize) -> Multiset<ExportStep> {
        if self.next(answer).pending.len() > self.pending.len() {
            Multiset::singleton(self.next(answer).pending.last())
        } else {
            Multiset::empty()
        }
    }

    /// What the next call undoes.
    pub open spec fn discharged(self) -> Multiset<ExportStep> {
        if self.undoing() {
            Multiset::singleton(self.step())
        } else {
            Multiset::empty()
        }
    }

    /// What the next call, if it gives `answer`, hands over to the
    /// clipboard for good.
    pub open spec fn transferred(self, answer: usize) -> Multiset<ExportStep> {
        if self.stage == Stage::Publish && answer != 0 {
            Multiset::singleton(self.surface_release())
        } else {
            Multiset::empty()
        }
    }

    /// All that the calls of a run leave to be undone.
    pub open spec fn incurred_over(self, answers: Seq<usize>) -> Multiset<ExportStep>
        decreases answers.len(),
    {
        if answers.len() == 0 {
            Multiset::empty()
        } else {
            self.incurred(answers[0]).add(
                self.next(answers[0]).incurred_over(answers.drop_first()),
            )
        }
    }

    /// All that the calls of a run undo.
    pub open spec fn discharged_over(self, answers: Seq<usize>) -> Multiset<ExportStep>
        decreases answers.len(),
    {
        if answers.len() == 0 {
            Multiset::empty()
        } else {
            self.discharged().add(self.next(answers[0]).discharged_over(answers.drop_first()))
        }
    }

    /// All that the calls of a run hand over to the clipboard.
    pub open spec fn transferred_over(self, answers: Seq<usize>) -> Multiset<ExportStep>
        decreases answers.len(),
    {
        if answers.len() == 0 {
            Multiset::empty()
        } else {
            self.transferred(answers[0]).add(
                self.next(answers[0]).transferred_over(answers.drop_first()),
            )
        }
    }
}

/// A call keeps the invariant of the export.
pub proof fn lemma_next_keeps_invariant(m: ExportModel, answer: usize)
    requires
        m.wf(),
    ensures
        m.next(answer).wf(),
{
    let n = m.next(answer);
    match m.stage {
        Stage::CreateSurface => {
            if answer == 0 {
                assert(n.drawing_stack(0));
            }
        },
        Stage::CreateContext => {
            if answer == 0 {
                assert(n.drawing_stack(1));
            }
        },
        Stage::SelectSurface => {
            if answer == 0 {
                assert(n.drawing_stack(2));
            }
        },
        Stage::SelectSource => {
            if answer == 0 {
                assert(n.drawing_stack(3));
            }
        },
        Stage::Copy => {
            if answer == 0 {
                assert(n.drawing_stack(4));
            }
        },
        Stage::Settle => {},
        Stage::OpenClipboard => {
            if answer == 0 {
                assert(n.drawing_stack(1));
            }
        },
        Stage::EmptyClipboard => {},
        Stage::Publish => {
            if answer != 0 {
                assert(n.pending =~= seq![ExportStep::CloseClipboard]);
            }
        },
        Stage::Unwind => {
            if m.pending.len() > 0 {
                if m.outcome is Ok {
                    assert(n.pending.len() == 0);
                } else if m.clipboard_stack() {
                    assert(n.drawing_stack(1));
                } else {
                    let k = choose|k: int| 0 <= k <= 4 && m.drawing_stack(k);
                    assert(n.drawing_stack(k - 1));
                }
            }
        },
    }
}

/// Every call brings the export nearer to its end, and at its end the export
/// stays as it is.
pub proof fn lemma_next_uses_a_call(m: ExportModel, answer: usize)
    requires
        m.wf(),
    ensures
        !m.finished() ==> m.next(answer).calls_left() < m.calls_left(),
        m.finished() ==> m.next(answer) == m,
        m.finished() <==> m.step() is Finished,
        m.finished() <==> m.calls_left() == 0,
{
    if m.stage == Stage::Unwind && m.pending.len() > 0 && !(m.outcome is Ok) && !m.clipboard_stack() {
        let k = choose|k: int| 0 <= k <= 4 && m.drawing_stack(k);
    }
}

/// An export ends, whatever the platform answers: after as many calls as
/// [`ExportModel::calls_left`] allows, sixteen from the start, nothing is
/// left to do.
pub proof fn lemma_run_finishes(m: ExportModel, answers: Seq<usize>)
    requires
        m.wf(),
        answers.len() >= m.calls_left(),
    ensures
        m.run(answers).wf(),
        m.run(answers).finished(),
    decreases answers.len(),
{
    lemma_next_uses_a_call(m, 0);
    if answers.len() > 0 {
        lemma_next_keeps_invariant(m, answers[0]);
        lemma_next_uses_a_call(m, answers[0]);
        lemma_run_finishes(m.next(answers[0]), answers.drop_first());
    }
}

/// What one call does to the stack: what was on it and what the call leaves
/// to be undone is what the call undid, what it handed to the clipboard and
/// what is on the stack now.
pub proof fn lemma_next_balances(m: ExportModel, answer: usize)
    requires
        m.wf(),
    ensures
        m.pending.to_multiset().add(m.incurred(answer)) == m.discharged().add(
            m.transferred(answer),
        ).add(m.next(answer).pending.to_multiset()),
{
    broadcast use vstd::seq_lib::group_to_multiset_ensures;

    let n = m.next(answer);
    let before = m.pending.to_multiset();
    let after = n.pending.to_multiset();
    if n.pending.len() > m.pending.len() {
        assert(n.pending =~= m.pending.push(n.pending.last()));
        assert(after =~= before.insert(n.pending.last()));
    } else if m.undoing() {
        assert(m.pending.drop_last() =~= m.pending.remove(m.pending.len() - 1));
        vstd::seq_lib::to_multiset_remove(m.pending, m.pending.len() - 1);
        assert(n.pending == m.pending.drop_last());
        assert(before.count(m.pending.last()) > 0) by {
            assert(m.pending.contains(m.pending.last()));
        }
        assert(after.add(Multiset::singleton(m.pending.last())) =~= before);
    } else if m.stage == Stage::Publish && answer != 0 {
        vstd::seq_lib::to_multiset_remove(m.pending, 0);
        assert(before.count(m.pending[0]) > 0) by {
            assert(m.pending.contains(m.pending[0]));
        }
        assert(after.add(Multiset::singleton(m.pending[0])) =~= before);
    } else {
        assert(n.pending == m.pending);
    }
    assert(before.add(m.incurred(answer)) =~= m.discharged().add(m.transferred(answer)).add(after));
}

/// What a run does to the stack: the balance of [`lemma_next_balances`],
/// summed over the calls of the run.
pub proof fn lemma_run_balances(m: ExportModel, answers: Seq<usize>)
    requires
        m.wf(),
    ensures
        m.pending.to_multiset().add(m.incurred_over(answers)) == m.discharged_over(answers).add(
            m.transferred_over(answers),
        ).add(m.run(answers).pending.to_multiset()),
    decreases answers.len(),
{
    if answers.len() == 0 {
        assert(m.pending.to_multiset().add(m.incurred_over(answers)) =~= m.discharged_over(
            answers,
        ).add(m.transferred_over(answers)).add(m.run(answers).pending.to_multiset()));
    } else {
        let n = m.next(answers[0]);
        let rest = answers.drop_first();
        lemma_next_balances(m, answers[0]);
        lemma_next_keeps_invariant(m, answers[0]);
        lemma_run_balances(n, rest);
        assert(m.pending.to_multiset().add(m.incurred_over(answers)) =~= m.pending.to_multiset().add(
            m.incurred(answers[0]),
        ).add(n.incurred_over(rest)));
        assert(m.discharged().add(m.transferred(answers[0])).add(n.pending.to_multiset()).add(
            n.incurred_over(rest),
        ) =~= m.discharged().add(m.transferred(answers[0])).add(
            n.pending.to_multiset().add(n.incurred_over(rest)),
        ));
        assert(m.pending.to_multiset().add(m.incurred_over(answers)) =~= m.discharged_over(
            answers,
        ).add(m.transferred_over(answers)).add(m.run(answers).pending.to_multiset()));
    }
}

proof fn lemma_empty_stack(pending: Seq<ExportStep>)
    requires
        pending.len() == 0,
    ensures
        pending.to_multiset() == Multiset::<ExportStep>::empty(),
{
    pending.to_multiset_ensures();
    assert(pending.to_multiset() =~= Multiset::<ExportStep>::empty());
}

/// Over a whole export, from its start to its end and whatever the platform
/// answered on the way, every call that had to be undone was undone exactly
/// once, but for the new bitmap where the clipboard took it: each deletion,
/// restoring and closing occurs among the calls made to undo and the
/// handing over as often as it was incurred, neither less nor more.
pub proof fn lemma_export_undoes_each_call_once(
    shot: ScreenshotView,
    region: Rectangle<u32>,
    answers: Seq<usize>,
)
    requires
        shot.wf(),
        region.fits_within(shot.dimensions),
        ExportModel::start(shot, region).run(answers).finished(),
    ensures
        ({
            let m = ExportModel::start(shot, region);
            m.incurred_over(answers) == m.discharged_over(answers).add(m.transferred_over(answers))
        }),
{
    let m = ExportModel::start(shot, region);
    lemma_run_balances(m, answers);
    lemma_empty_stack(m.pending);
    lemma_empty_stack(m.run(answers).pending);
    let none = Multiset::<ExportStep>::empty();
    let undone = m.discharged_over(answers).add(m.transferred_over(answers));
    assert(none.add(m.incurred_over(answers)) =~= m.incurred_over(answers));
    assert(undone.add(none) =~= undone);
    assert(m.incurred_over(answers) =~= m.discharged_over(answers).add(
        m.transferred_over(answers),
    ));
}

/// A handle is given back only when nothing is selected that would have to
/// be restored first: while the restoring of a selection is on the stack, no
/// deletion is the next call.
pub proof fn lemma_restore_before_release(m: ExportModel, i: int)
    requires
        m.wf(),
        0 <= i < m.pending.len(),
        m.pending[i] is Select,
    ensures
        !(m.step() is Release),
{
    if m.stage == Stage::Unwind && !(m.outcome is Ok) && !m.clipboard_stack() {
        let k = choose|k: int| 0 <= k <= 4 && m.drawing_stack(k);
    }
}

/// Once the clipboard has taken the new bitmap, the export does not delete
/// it: its deletion leaves the stack with the handing over, and only the
/// closing of the clipboard is left. Where the clipboard did not take it,
/// its deletion stays on the stack and is made before the export ends.
pub proof fn lemma_published_surface_is_kept(m: ExportModel, answer: usize)
    requires
        m.wf(),
        m.stage == Stage::Publish,
    ensures
        m.step() == (ExportStep::Publish { surface: m.surface }),
        answer != 0 ==> m.next(answer).pending == seq![ExportStep::CloseClipboard] && m.next(
            answer,
        ).outcome is Ok,
        answer == 0 ==> m.next(answer).pending == seq![
            m.surface_release(),
            ExportStep::CloseClipboard,
        ] && m.next(answer).outcome == Err::<(), ClipboardError>(ClipboardError::PublishFailed),
{
    if answer != 0 {
        assert(m.next(answer).pending =~= seq![ExportStep::CloseClipboard]);
    } else {
        assert(m.next(answer).pending =~= seq![m.surface_release(), ExportStep::CloseClipboard]);
    }
}

/// The first failure decides how the export ends. A call fails the export
/// exactly if it is one of the calls that draw or publish and its answer is
/// zero: creating, selecting and copying fail it as `SurfaceUnavailable`,
/// opening the clipboard as `Busy`, clearing it and handing the bitmap over
/// as `PublishFailed`. After a failure only what is on the stack is undone:
/// no call is tried again, and no answer changes the end any more.
pub proof fn lemma_failures_and_their_causes(m: ExportModel, answer: usize)
    requires
        m.wf(),
    ensures
        m.outcome is Err ==> m.stage == Stage::Unwind,
        m.stage == Stage::Unwind ==> m.next(answer).stage == Stage::Unwind && m.next(
            answer,
        ).outcome == m.outcome,
        m.stage != Stage::Unwind ==> (m.next(answer).outcome is Err <==> answer == 0 && !m.undoing()),
        m.next(answer).outcome == Err::<(), ClipboardError>(ClipboardError::Busy) && m.stage
            != Stage::Unwind <==> m.stage == Stage::OpenClipboard && answer == 0,
        m.next(answer).outcome == Err::<(), ClipboardError>(ClipboardError::PublishFailed)
            && m.stage != Stage::Unwind <==> (m.stage == Stage::EmptyClipboard || m.stage
            == Stage::Publish) && answer == 0,
        m.next(answer).outcome == Err::<(), ClipboardError>(ClipboardError::SurfaceUnavailable)
            && m.stage != Stage::Unwind <==> (m.stage == Stage::CreateSurface || m.stage
            == Stage::CreateContext || m.stage == Stage::SelectSurface || m.stage
            == Stage::SelectSource || m.stage == Stage::Copy) && answer == 0,
        m.next(answer).outcome != Err::<(), ClipboardError>(ClipboardError::RegionOutOfBounds)
            || m.stage == Stage::Unwind,
{
}

/// While what is on the stack is undone, nothing is handed to the clipboard
/// and the end of the export stays what it is.
pub proof fn lemma_unwinding_keeps_outcome(m: ExportModel, answers: Seq<usize>)
    requires
        m.wf(),
        m.stage == Stage::Unwind,
    ensures
        m.run(answers).stage == Stage::Unwind,
        m.run(answers).outcome == m.outcome,
        m.transferred_over(answers).len() == 0,
    decreases answers.len(),
{
    if answers.len() > 0 {
        lemma_next_keeps_invariant(m, answers[0]);
        lemma_unwinding_keeps_outcome(m.next(answers[0]), answers.drop_first());
    }
}

/// An export that has not failed ends well exactly if the clipboard took
/// the new bitmap, and the clipboard takes it at most once.
pub proof fn lemma_run_succeeds_iff_published(m: ExportModel, answers: Seq<usize>)
    requires
        m.wf(),
        m.stage != Stage::Unwind,
        m.run(answers).finished(),
    ensures
        m.run(answers).outcome is Ok <==> m.transferred_over(answers).len() == 1,
        m.run(answers).outcome is Err <==> m.transferred_over(answers).len() == 0,
    decreases answers.len(),
{
    if answers.len() > 0 {
        let n = m.next(answers[0]);
        let rest = answers.drop_first();
        lemma_next_keeps_invariant(m, answers[0]);
        if n.stage == Stage::Unwind {
            lemma_unwinding_keeps_outcome(n, rest);
        } else {
            lemma_run_succeeds_iff_published(n, rest);
        }
    }
}

/// An export ends well exactly if the clipboard took the new bitmap.
pub proof fn lemma_export_succeeds_iff_published(
    shot: ScreenshotView,
    region: Rectangle<u32>,
    answers: Seq<usize>,
)
    requires
        shot.wf(),
        region.fits_within(shot.dimensions),
        ExportModel::start(shot, region).run(answers).finished(),
    ensures
        ({
            let m = ExportModel::start(shot, region);
            &&& m.run(answers).outcome is Ok <==> m.transferred_over(answers).len() == 1
            &&& m.run(answers).outcome is Err <==> m.transferred_over(answers).len() == 0
        }),
{
    lemma_run_succeeds_iff_published(ExportModel::start(shot, region), answers);
}

/// The calls of an export in which nothing fails, in their order: the new
/// bitmap and a context for it are created, the bitmap is selected into that
/// context and the screenshot's bitmap into the screenshot's context, the
/// region is copied, both selections are restored and the new context is
/// deleted; then the clipboard is opened, cleared, given the bitmap and
/// closed. The bitmap is not deleted: it is the clipboard's now. The sizes
/// and offsets of the calls are those of the region, which fit the
/// platform's signed coordinates.
pub proof fn lemma_calls_of_a_successful_export(
    shot: ScreenshotView,
    region: Rectangle<u32>,
    answers: Seq<usize>,
)
    requires
        shot.wf(),
        region.fits_within(shot.dimensions),
        answers.len() == 12,
        forall|i: int| 0 <= i < 12 ==> answers[i] != 0,
    ensures
        region.x as i32 == region.x,
        region.y as i32 == region.y,
        region.w as i32 == region.w,
        region.h as i32 == region.h,
        ({
            let m = ExportModel::start(shot, region);
            &&& m.run(answers).finished()
            &&& m.run(answers).outcome is Ok
            &&& m.calls(answers) == seq![
                ExportStep::CreateSurface {
                    screen: shot.h_screen,
                    width: region.w as i32,
                    height: region.h as i32,
                },
                ExportStep::CreateContext { screen: shot.h_screen },
                ExportStep::Select { context: answers[1], object: answers[0] },
                ExportStep::Select { context: shot.h_dc, object: shot.h_bitmap },
                ExportStep::Copy {
                    target: answers[1],
                    width: region.w as i32,
                    height: region.h as i32,
                    source: shot.h_dc,
                    x: region.x as i32,
                    y: region.y as i32,
                },
                ExportStep::Select { context: shot.h_dc, object: answers[3] },
                ExportStep::Select { context: answers[1], object: answers[2] },
                ExportStep::Release(
                    Release { handle: answers[1], disposal: Disposal::DeleteContext },
                ),
                ExportStep::OpenClipboard,
                ExportStep::EmptyClipboard,
                ExportStep::Publish { surface: answers[0] },
                ExportStep::CloseClipboard,
            ]
        }),
{
    let m0 = ExportModel::start(shot, region);
    let a0 = answers;
    let m1 = m0.next(a0[0]);
    let a1 = a0.drop_first();
    let m2 = m1.next(a1[0]);
    let a2 = a1.drop_first();
    let m3 = m2.next(a2[0]);
    let a3 = a2.drop_first();
    let m4 = m3.next(a3[0]);
    let a4 = a3.drop_first();
    let m5 = m4.next(a4[0]);
    let a5 = a4.drop_first();
    let m6 = m5.next(a5[0]);
    let a6 = a5.drop_first();
    let m7 = m6.next(a6[0]);
    let a7 = a6.drop_first();
    let m8 = m7.next(a7[0]);
    let a8 = a7.drop_first();
    let m9 = m8.next(a8[0]);
    let a9 = a8.drop_first();
    let m10 = m9.next(a9[0]);
    let a10 = a9.drop_first();
    let m11 = m10.next(a10[0]);
    let a11 = a10.drop_first();
    let m12 = m11.next(a11[0]);
    let a12 = a11.drop_first();
    assert(a12.len() == 0);
    assert(m12.run(a12) == m12 && m12.calls(a12) =~= Seq::<ExportStep>::empty());
    assert(m11.run(a11) == m12 && m11.calls(a11) =~= seq![m11.step()]);
    assert(m10.run(a10) == m12 && m10.calls(a10) =~= seq![m10.step(), m11.step()]);
    assert(m9.run(a9) == m12 && m9.calls(a9) =~= seq![m9.step(), m10.step(), m11.step()]);
    assert(m8.run(a8) == m12 && m8.calls(a8) =~= seq![
        m8.step(),
        m9.step(),
        m10.step(),
        m11.step(),
    ]);
    assert(m7.run(a7) == m12 && m7.calls(a7) =~= seq![m7.step()] + m8.calls(a8));
    assert(m6.run(a6) == m12 && m6.calls(a6) =~= seq![m6.step()] + m7.calls(a7));
    assert(m5.run(a5) == m12 && m5.calls(a5) =~= seq![m5.step()] + m6.calls(a6));
    assert(m4.run(a4) == m12 && m4.calls(a4) =~= seq![m4.step()] + m5.calls(a5));
    assert(m3.run(a3) == m12 && m3.calls(a3) =~= seq![m3.step()] + m4.calls(a4));
    assert(m2.run(a2) == m12 && m2.calls(a2) =~= seq![m2.step()] + m3.calls(a3));
    assert(m1.run(a1) == m12 && m1.calls(a1) =~= seq![m1.step()] + m2.calls(a2));
    assert(m0.run(a0) == m12 && m0.calls(a0) =~= seq![m0.step()] + m1.calls(a1));
    assert(a0[1] == a1[0] && a0[2] == a2[0] && a0[3] == a3[0]);
    assert(m4.pending.len() == 4);
    assert(m5.stage == Stage::Settle);
    assert(m6.stage == Stage::Settle && m6.pending.len() == 3);
    assert(m7.stage == Stage::Settle && m7.pending.len() == 2);
    assert(m8.stage == Stage::OpenClipboard);
    assert(m11.stage == Stage::Unwind && m11.pending =~= seq![ExportStep::CloseClipboard]);
    assert(m12.finished());
    assert(m0.calls(a0) =~= seq![
        m0.step(),
        m1.step(),
        m2.step(),
        m3.step(),
        m4.step(),
        m5.step(),
        m6.step(),
        m7.step(),
        m8.step(),
        m9.step(),
        m10.step(),
        m11.step(),
    ]);
}

} // verus!
