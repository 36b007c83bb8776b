//! The frame scheduler: decides, quantum by quantum, whether layout has to
//! be solved and the tree drawn, and what to wait for in between.
//!
//! The caller runs the loop. At the top of each quantum it asks
//! [`FrameScheduler::begin_frame`] what is due and does it; then it waits,
//! as [`FrameScheduler::wait`] says, for the timer or for the event trigger,
//! reports what woke it to [`FrameScheduler::wake`], applies the pending
//! tree mutations and reports to [`FrameScheduler::mutations_applied`]
//! whether any node changed. Requests to draw that arrive during the wait
//! collapse into one frame.

use vstd::prelude::*;
use crate::render::image_data_set::{release_unused, ImageDataSet};

verus! {

/// How long the scheduler waits, in microseconds, before it draws a
/// requested frame, so that requests in quick succession share one frame.
pub const DEBOUNCE_MICROS: u64 = 100;

/// The slider value the scheduler starts from, in thousandths. No slider
/// reads this, so the first frame always sets the stereo mode.
pub const INITIAL_3D: u16 = 2000;

/// What is due at the top of a quantum.
#[derive(Clone, Copy, PartialEq, Eq, Structural, Debug)]
pub struct FramePlan {
    /// Whether layout has to be solved.
    pub solve: bool,
    /// Whether the tree has to be drawn.
    pub draw: bool,
    /// Whether stereo output has to be switched before drawing, and to
    /// what: on (`true`) or off.
    pub set_3d: Option<bool>,
}

/// What is left to do when a frame has been drawn.
#[derive(Clone, Copy, PartialEq, Eq, Structural, Debug)]
pub struct FrameEnd {
    /// Whether a background loader has to be started for queued icons.
    pub start_loader: bool,
    /// Whether QR codes were released, so that handles to QR codes handed
    /// out before name other codes or none from now on.
    pub qrcodes_released: bool,
}

/// What the caller waits for besides the event trigger.
#[derive(Clone, Copy, PartialEq, Eq, Structural, Debug)]
pub enum Wait {
    /// A timer of this many microseconds.
    Debounce(u64),
    /// Nothing: only the event trigger ends the wait.
    Indefinitely,
}

/// What ended a wait.
#[derive(Clone, Copy, PartialEq, Eq, Structural, Debug)]
pub enum Wake {
    /// The timer ran out.
    Timer,
    /// The event trigger returned: input was dispatched, the slider moved
    /// (to the given value), the image cache has news, or background work
    /// finished.
    Work { new_3d: Option<u16> },
}

/// Where the scheduler stands between two quanta.
#[derive(Clone, Copy, PartialEq, Eq, Structural, Debug)]
pub enum Phase {
    /// A node changed: the next quantum solves layout first.
    LayoutDirty,
    /// A frame is requested and layout is up to date: the next quantum
    /// draws.
    RenderDue,
    /// Nothing is due: the scheduler waits for work.
    WaitingForWork,
}

/// The scheduler's state.
#[derive(Clone, Copy, PartialEq, Eq, Structural, Debug)]
pub struct FrameScheduler {
    /// Whether a node changed since layout was last solved.
    pub is_layout_dirty: bool,
    /// Whether a frame has been requested since the tree was last drawn.
    pub is_need_rerender: bool,
    /// The slider value the last frame was drawn with, in thousandths.
    pub current_3d: u16,
    /// The slider value last read.
    pub current_new_3d: u16,
}

/// The scheduler before the first frame: layout and drawing are due if the
/// first state update changed any node.
pub open spec fn launch_spec(changed: bool, slider: u16) -> FrameScheduler {
    FrameScheduler {
        is_layout_dirty: changed,
        is_need_rerender: changed,
        current_3d: INITIAL_3D,
        current_new_3d: slider,
    }
}

/// The scheduler after the top of a quantum, and what is due in it.
/// Layout is solved if dirty; the tree is drawn if a frame was requested,
/// with the slider value last read, switching stereo output if that value
/// differs from the one last drawn with.
pub open spec fn begin_frame_spec(s: FrameScheduler) -> (FrameScheduler, FramePlan) {
    (
        FrameScheduler {
            is_layout_dirty: false,
            is_need_rerender: false,
            current_3d: if s.is_need_rerender {
                s.current_new_3d
            } else {
                s.current_3d
            },
            current_new_3d: s.current_new_3d,
        },
        FramePlan {
            solve: s.is_layout_dirty,
            draw: s.is_need_rerender,
            set_3d: if s.is_need_rerender && s.current_3d != s.current_new_3d {
                Some(s.current_new_3d != 0)
            } else {
                None
            },
        },
    )
}

/// Where a scheduler stands: layout comes before drawing, drawing before
/// waiting.
pub open spec fn phase_of(s: FrameScheduler) -> Phase {
    if s.is_layout_dirty {
        Phase::LayoutDirty
    } else if s.is_need_rerender {
        Phase::RenderDue
    } else {
        Phase::WaitingForWork
    }
}

/// What the scheduler waits for: a short timer while a frame is requested,
/// nothing while none is.
pub open spec fn wait_spec(s: FrameScheduler) -> Wait {
    if s.is_need_rerender {
        Wait::Debounce(DEBOUNCE_MICROS)
    } else {
        Wait::Indefinitely
    }
}

/// The scheduler after a wait has ended, and whether the quantum is over.
/// The timer ends the quantum. The event trigger requests a frame and
/// leaves the quantum running, so that further requests can join it.
pub open spec fn wake_spec(s: FrameScheduler, cause: Wake) -> (FrameScheduler, bool) {
    match cause {
        Wake::Timer => (s, true),
        Wake::Work { new_3d } => (
            FrameScheduler {
                is_need_rerender: true,
                current_new_3d: match new_3d {
                    Some(value) => value,
                    None => s.current_new_3d,
                },
                ..s
            },
            false,
        ),
    }
}

/// The scheduler after tree mutations have been applied and node state
/// updated: layout is dirty if any node changed.
pub open spec fn mutations_spec(s: FrameScheduler, changed: bool) -> FrameScheduler {
    FrameScheduler { is_layout_dirty: s.is_layout_dirty || changed, ..s }
}

/// Starts the scheduler. `changed` says whether the first state update
/// changed any node; `slider` is the first reading of the stereo slider.
pub fn launch(changed: bool, slider: u16) -> (scheduler: FrameScheduler)
    ensures
        scheduler == launch_spec(changed, slider),
{
    FrameScheduler {
        is_layout_dirty: changed,
        is_need_rerender: changed,
        current_3d: INITIAL_3D,
        current_new_3d: slider,
    }
}

impl FrameScheduler {
    /// Says what is due at the top of a quantum and marks it done.
    pub fn begin_frame(&mut self) -> (plan: FramePlan)
        ensures
            (*final(self), plan) == begin_frame_spec(*old(self)),
    {
        let solve = self.is_layout_dirty;
        self.is_layout_dirty = false;
        let draw = self.is_need_rerender;
        let mut set_3d = None;
        if draw {
            self.is_need_rerender = false;
            if self.current_3d != self.current_new_3d {
                self.current_3d = self.current_new_3d;
                set_3d = Some(self.current_3d != 0);
            }
        }
        FramePlan { solve, draw, set_3d }
    }

    /// Ends a drawn frame: tells whether a background loader has to be
    /// started for queued icons, and releases the QR codes no node asked
    /// for during the frame.
    pub fn end_frame(&self, images: &mut ImageDataSet, loader_running: bool) -> (end: FrameEnd)
        ensures
            end.start_loader == (!loader_running && old(images)@.pending.len() > 0),
            end.qrcodes_released == (final(images)@.qrcodes.len() < old(images)@.qrcodes.len()),
            final(images)@ == release_unused(old(images)@),
    {
        let start_loader = images.loading_missing_image(loader_running);
        let before = images.qrcode_count();
        images.release_qrcode();
        FrameEnd { start_loader, qrcodes_released: images.qrcode_count() < before }
    }

    /// Says where the scheduler stands.
    pub fn phase(&self) -> (phase: Phase)
        ensures
            phase == phase_of(*self),
    {
        if self.is_layout_dirty {
            Phase::LayoutDirty
        } else if self.is_need_rerender {
            Phase::RenderDue
        } else {
            Phase::WaitingForWork
        }
    }

    /// Says what to wait for besides the event trigger.
    pub fn wait(&self) -> (wait: Wait)
        ensures
            wait == wait_spec(*self),
    {
        if self.is_need_rerender {
            Wait::Debounce(DEBOUNCE_MICROS)
        } else {
            Wait::Indefinitely
        }
    }

    /// Takes note of what ended a wait and says whether the quantum is
    /// over. While it is not, the caller applies the pending mutations and
    /// waits again.
    pub fn wake(&mut self, cause: Wake) -> (quantum_over: bool)
        ensures
            (*final(self), quantum_over) == wake_spec(*old(self), cause),
    {
        match cause {
            Wake::Timer => true,
            Wake::Work { new_3d } => {
                self.is_need_rerender = true;
                match new_3d {
                    Some(value) => {
                        self.current_new_3d = value;
                    },
                    None => {},
                }
                false
            },
        }
    }

    /// Takes note of whether applying the pending mutations changed any
    /// node's style or layout.
    pub fn mutations_applied(&mut self, changed: bool)
        ensures
            *final(self) == mutations_spec(*old(self), changed),
    {
        if changed {
            self.is_layout_dirty = true;
        }
    }
}

/// Frame coalescing. However often the event trigger returns during a
/// wait, with or without changes to the tree, the next quantum draws once,
/// and solves layout once if any node changed; the quantum after that,
/// with nothing new, neither solves nor draws, and waits indefinitely.
pub proof fn lemma_frames_coalesce(
    s: FrameScheduler,
    first: Option<u16>,
    first_changed: bool,
    second: Option<u16>,
    second_changed: bool,
)
    ensures
        ({
            let a = mutations_spec(wake_spec(s, Wake::Work { new_3d: first }).0, first_changed);
            let b = mutations_spec(wake_spec(a, Wake::Work { new_3d: second }).0, second_changed);
            let frame = begin_frame_spec(wake_spec(b, Wake::Timer).0);
            let next = begin_frame_spec(frame.0);
            &&& wait_spec(a) == Wait::Debounce(DEBOUNCE_MICROS)
            &&& wait_spec(b) == Wait::Debounce(DEBOUNCE_MICROS)
            &&& wake_spec(b, Wake::Timer).1
            &&& frame.1.draw
            &&& frame.1.solve == (s.is_layout_dirty || first_changed || second_changed)
            &&& !next.1.draw && !next.1.solve && next.1.set_3d.is_none()
            &&& wait_spec(frame.0) == Wait::Indefinitely
        }),
{
}

/// The scheduler's round: the top of a quantum solves exactly when layout
/// was dirty and draws exactly when a frame was due, and leaves the
/// scheduler waiting for work; from there, work requests a frame, and a
/// change to a node makes layout dirty.
pub proof fn lemma_phases(s: FrameScheduler, new_3d: Option<u16>, changed: bool)
    ensures
        begin_frame_spec(s).1.solve == (phase_of(s) == Phase::LayoutDirty),
        begin_frame_spec(s).1.draw == s.is_need_rerender,
        phase_of(begin_frame_spec(s).0) == Phase::WaitingForWork,
        phase_of(s) == Phase::WaitingForWork ==> phase_of(
            wake_spec(s, Wake::Work { new_3d }).0,
        ) == Phase::RenderDue,
        changed ==> phase_of(mutations_spec(s, changed)) == Phase::LayoutDirty,
        !changed ==> mutations_spec(s, changed) == s,
        wake_spec(s, Wake::Timer).0 == s,
{
}

/// Stereo output is switched exactly when a frame is drawn with a slider
/// value other than the last one drawn with, and the frame after it, drawn
/// with the same value, switches nothing.
pub proof fn lemma_stereo_switch(s: FrameScheduler)
    requires
        s.is_need_rerender,
    ensures
        ({
            let frame = begin_frame_spec(s);
            let again = begin_frame_spec(wake_spec(frame.0, Wake::Work { new_3d: None }).0);
            &&& frame.0.current_3d == s.current_new_3d
            &&& frame.1.set_3d.is_some() == (s.current_3d != s.current_new_3d)
            &&& again.1.draw && again.1.set_3d.is_none()
        }),
{
}

} // verus!
