//! The capture bookkeeping behind the window: the size of the off-screen
//! bitmap, whether the last capture worked, and when the window must be
//! excluded from capture. The capture itself (device contexts, bitmaps,
//! the display-affinity calls and the blit) is performed by the caller,
//! step by step, as `CaptureState::capture_frame` directs.

use vstd::prelude::*;

verus! {

/// Timer id of the per-frame capture timer.
pub const TIMER_ID: usize = 1;
/// Interval between timer-driven captures (~30 FPS).
pub const FRAME_INTERVAL_MS: u32 = 33;

/// The abstract state of a `CaptureState`.
pub struct CaptureModel {
    /// Width of the off-screen capture bitmap, in physical pixels.
    pub width: int,
    /// Height of the off-screen capture bitmap, in physical pixels.
    pub height: int,
    /// Whether the most recent capture succeeded.
    pub capture_ok: bool,
    /// Whether excluding the window from capture has never failed.
    pub affinity_supported: bool,
    /// Whether timer-driven capture is suspended.
    pub paused: bool,
    /// Whether an interactive move/size loop holds the window excluded
    /// from capture.
    pub interactive: bool,
}

impl CaptureModel {
    /// What every capture state satisfies: the bitmap is at least one pixel
    /// in each direction, and interactive mode is only entered while
    /// display affinity works.
    pub open spec fn inv(self) -> bool {
        &&& 1 <= self.width <= i32::MAX
        &&& 1 <= self.height <= i32::MAX
        &&& self.interactive ==> self.affinity_supported
    }

    /// Whether a capture must set display affinity itself (and restore it
    /// afterwards).
    pub open spec fn manages_affinity(self) -> bool {
        self.affinity_supported && !self.interactive
    }
}

/// Bookkeeping for the capture buffer and the per-frame capture.
pub struct CaptureState {
    width: i32,
    height: i32,
    capture_ok: bool,
    /// Set to `false` once excluding the window from capture has failed;
    /// from then on the exclusion is not attempted again.
    affinity_supported: bool,
    /// When `true`, timer-driven captures are skipped (e.g. during
    /// interactive resize/move).
    paused: bool,
    /// When `true`, a capture does not toggle display affinity itself: it
    /// was set once when the move/size loop began and is restored when it
    /// ends.
    interactive: bool,
}

impl View for CaptureState {
    type V = CaptureModel;

    closed spec fn view(&self) -> CaptureModel {
        CaptureModel {
            width: self.width as int,
            height: self.height as int,
            capture_ok: self.capture_ok,
            affinity_supported: self.affinity_supported,
            paused: self.paused,
            interactive: self.interactive,
        }
    }
}

/// What happened in the step of a capture that the caller just performed.
#[derive(Copy, Clone, Debug, PartialEq, Eq, Structural)]
pub enum FrameEvent {
    /// A capture is requested (timer tick, move, size, end of a move/size
    /// loop).
    Requested,
    /// Whether the window is observable: visible and not minimized.
    Observed(bool),
    /// Whether excluding the window from capture succeeded.
    Excluded(bool),
    /// Whether the desktop device context could be acquired; carries the
    /// `manage_affinity` of the `AcquireDesktop` action that asked for it.
    DesktopAcquired { manage_affinity: bool, acquired: bool },
    /// Whether the blit succeeded; carries the `manage_affinity` of the
    /// `Blit` action that asked for it.
    Blitted { manage_affinity: bool, ok: bool },
}

/// What the caller must do next for the capture in progress.
#[derive(Copy, Clone, Debug, PartialEq, Eq, Structural)]
pub enum FrameAction {
    /// Report whether the window is observable (`FrameEvent::Observed`).
    CheckObservable,
    /// Exclude the window from capture and report it (`FrameEvent::Excluded`).
    ExcludeFromCapture,
    /// If `flush`, wait for the compositor; then acquire the desktop device
    /// context and report it (`FrameEvent::DesktopAcquired`).
    AcquireDesktop { flush: bool, manage_affinity: bool },
    /// Copy the desktop region behind the content area into the bitmap,
    /// release the desktop device context, and report it (`FrameEvent::Blitted`).
    Blit { manage_affinity: bool },
    /// The capture is over: if `restore_affinity`, let screen capture see
    /// the window again; if `repaint`, invalidate the content area; the
    /// capture's result is `result`.
    Finish { result: bool, restore_affinity: bool, repaint: bool },
}

/// The action that follows `event` in a capture from state `m`.
pub open spec fn frame_action(m: CaptureModel, event: FrameEvent) -> FrameAction {
    match event {
        FrameEvent::Requested => if m.paused {
            FrameAction::Finish { result: m.capture_ok, restore_affinity: false, repaint: false }
        } else {
            FrameAction::CheckObservable
        },
        FrameEvent::Observed(observable) => if !observable {
            FrameAction::Finish { result: m.capture_ok, restore_affinity: false, repaint: false }
        } else if m.manages_affinity() {
            FrameAction::ExcludeFromCapture
        } else {
            FrameAction::AcquireDesktop { flush: false, manage_affinity: false }
        },
        FrameEvent::Excluded(ok) => FrameAction::AcquireDesktop { flush: ok, manage_affinity: true },
        FrameEvent::DesktopAcquired { manage_affinity, acquired } => if !acquired {
            FrameAction::Finish { result: false, restore_affinity: manage_affinity, repaint: false }
        } else {
            FrameAction::Blit { manage_affinity }
        },
        FrameEvent::Blitted { manage_affinity, ok } => FrameAction::Finish {
            result: ok,
            restore_affinity: manage_affinity,
            repaint: ok || m.capture_ok != ok,
        },
    }
}

/// The state after `event` in a capture from state `m`.
pub open spec fn frame_state(m: CaptureModel, event: FrameEvent) -> CaptureModel {
    match event {
        FrameEvent::Excluded(ok) => if ok {
            m
        } else {
            CaptureModel { affinity_supported: false, ..m }
        },
        FrameEvent::DesktopAcquired { manage_affinity, acquired } => if acquired {
            m
        } else {
            CaptureModel { capture_ok: false, ..m }
        },
        FrameEvent::Blitted { manage_affinity, ok } => CaptureModel { capture_ok: ok, ..m },
        _ => m,
    }
}

impl CaptureState {
    #[verifier::type_invariant]
    spec fn well_formed(self) -> bool {
        self@.inv()
    }

    /// Starts the bookkeeping for a capture buffer of `width` x `height`
    /// physical pixels (each at least 1), capture reported as working.
    pub fn new(width: i32, height: i32) -> (state: Self)
        ensures
            state@.inv(),
            state@.width == if width >= 1 { width as int } else { 1 },
            state@.height == if height >= 1 { height as int } else { 1 },
            state@.capture_ok,
            state@.affinity_supported,
            !state@.paused,
            !state@.interactive,
    {
        let phys_w = if width >= 1 {
            width
        } else {
            1
        };
        let phys_h = if height >= 1 {
            height
        } else {
            1
        };
        CaptureState {
            width: phys_w,
            height: phys_h,
            capture_ok: true,
            affinity_supported: true,
            paused: false,
            interactive: false,
        }
    }

    /// Width of the off-screen capture bitmap, in physical pixels.
    pub fn width(&self) -> (width: i32)
        ensures
            width == self@.width,
            width >= 1,
    {
        proof {
            use_type_invariant(self);
        }
        self.width
    }

    /// Height of the off-screen capture bitmap, in physical pixels.
    pub fn height(&self) -> (height: i32)
        ensures
            height == self@.height,
            height >= 1,
    {
        proof {
            use_type_invariant(self);
        }
        self.height
    }

    /// `true` if the most recent capture call succeeded.
    pub fn capture_ok(&self) -> (ok: bool)
        ensures
            ok == self@.capture_ok,
    {
        self.capture_ok
    }

    /// `true` while excluding the window from capture has never failed.
    pub fn affinity_supported(&self) -> (supported: bool)
        ensures
            supported == self@.affinity_supported,
    {
        self.affinity_supported
    }

    /// `true` when timer-driven capture is currently suspended.
    pub fn paused(&self) -> (paused: bool)
        ensures
            paused == self@.paused,
    {
        self.paused
    }

    /// `true` inside an interactive move/size loop.
    pub fn interactive(&self) -> (interactive: bool)
        ensures
            interactive == self@.interactive,
    {
        self.interactive
    }

    /// Suspends timer-driven capture (call on `WM_ENTERSIZEMOVE`).
    pub fn pause(&mut self)
        ensures
            final(self)@ == (CaptureModel { paused: true, ..old(self)@ }),
            final(self)@.inv(),
    {
        proof {
            use_type_invariant(&*self);
        }
        self.paused = true;
    }

    /// Resumes timer-driven capture (call on `WM_EXITSIZEMOVE`).
    pub fn resume(&mut self)
        ensures
            final(self)@ == (CaptureModel { paused: false, ..old(self)@ }),
            final(self)@.inv(),
    {
        proof {
            use_type_invariant(&*self);
        }
        self.paused = false;
    }

    /// Enters interactive mode for a modal move/size loop, given whether
    /// the caller excluded the window from capture (which it attempts only
    /// while `affinity_supported`). Interactive mode begins when the
    /// exclusion worked and affinity is supported.
    pub fn begin_interactive(&mut self, excluded: bool)
        ensures
            final(self)@ == (CaptureModel {
                interactive: if old(self)@.affinity_supported && excluded { true } else { old(self)@.interactive },
                ..old(self)@
            }),
            final(self)@.inv(),
    {
        proof {
            use_type_invariant(&*self);
        }
        if self.affinity_supported && excluded {
            self.interactive = true;
        }
    }

    /// Leaves interactive mode. Returns whether the caller must restore the
    /// display affinity (that is, whether interactive mode was on).
    pub fn end_interactive(&mut self) -> (restore: bool)
        ensures
            restore == old(self)@.interactive,
            final(self)@ == (CaptureModel { interactive: false, ..old(self)@ }),
            final(self)@.inv(),
    {
        proof {
            use_type_invariant(&*self);
        }
        let restore = self.interactive;
        self.interactive = false;
        restore
    }

    /// Advances a capture by one step: given what the caller's last step
    /// found out, updates the bookkeeping and says what to do next. A
    /// capture starts with `FrameEvent::Requested` and ends with
    /// `FrameAction::Finish`.
    ///
    /// A paused or unobservable window is not captured. Outside an
    /// interactive loop, the window is excluded from capture (while that is
    /// supported) before the blit and let back in afterwards; a failed
    /// exclusion marks affinity unsupported. A capture with no desktop
    /// device context fails. The content is repainted after a successful
    /// blit, or when the success of capture changed. An exclusion is only
    /// reported when `ExcludeFromCapture` asked for it, which is never
    /// inside an interactive loop.
    pub fn capture_frame(&mut self, event: FrameEvent) -> (action: FrameAction)
        requires
            event is Excluded ==> !old(self)@.interactive,
        ensures
            action == frame_action(old(self)@, event),
            final(self)@ == frame_state(old(self)@, event),
            final(self)@.inv(),
    {
        proof {
            use_type_invariant(&*self);
        }
        match event {
            FrameEvent::Requested => {
                if self.paused {
                    FrameAction::Finish { result: self.capture_ok, restore_affinity: false, repaint: false }
                } else {
                    FrameAction::CheckObservable
                }
            },
            FrameEvent::Observed(observable) => {
                if !observable {
                    FrameAction::Finish { result: self.capture_ok, restore_affinity: false, repaint: false }
                } else if self.affinity_supported && !self.interactive {
                    FrameAction::ExcludeFromCapture
                } else {
                    FrameAction::AcquireDesktop { flush: false, manage_affinity: false }
                }
            },
            FrameEvent::Excluded(ok) => {
                if !ok {
                    self.affinity_supported = false;
                }
                FrameAction::AcquireDesktop { flush: ok, manage_affinity: true }
            },
            FrameEvent::DesktopAcquired { manage_affinity, acquired } => {
                if !acquired {
                    self.capture_ok = false;
                    FrameAction::Finish { result: false, restore_affinity: manage_affinity, repaint: false }
                } else {
                    FrameAction::Blit { manage_affinity }
                }
            },
            FrameEvent::Blitted { manage_affinity, ok } => {
                let was_ok = self.capture_ok;
                self.capture_ok = ok;
                FrameAction::Finish {
                    result: ok,
                    restore_affinity: manage_affinity,
                    repaint: ok || was_ok != ok,
                }
            },
        }
    }

    /// Records new content dimensions (physical pixels, each raised to at
    /// least 1). Returns whether they differ from the current bitmap's, in
    /// which case the caller recreates the bitmap at `width()` x `height()`.
    pub fn resize(&mut self, width: i32, height: i32) -> (changed: bool)
        ensures
            ({
                let w = if width >= 1 { width as int } else { 1 };
                let h = if height >= 1 { height as int } else { 1 };
                &&& changed == (w != old(self)@.width || h != old(self)@.height)
                &&& final(self)@ == (CaptureModel { width: w, height: h, ..old(self)@ })
            }),
            final(self)@.inv(),
    {
        proof {
            use_type_invariant(&*self);
        }
        let phys_w = if width >= 1 {
            width
        } else {
            1
        };
        let phys_h = if height >= 1 {
            height
        } else {
            1
        };
        if phys_w == self.width && phys_h == self.height {
            return false;
        }
        self.width = phys_w;
        self.height = phys_h;
        true
    }
}

// --- Laws ---

/// The state and final action of a capture from `m` that acquires the
/// desktop device context, given the caller's answers.
pub open spec fn run_from_acquire(m: CaptureModel, manage_affinity: bool, acquired: bool, blit_ok: bool) -> (CaptureModel, FrameAction) {
    let event = FrameEvent::DesktopAcquired { manage_affinity, acquired };
    let m1 = frame_state(m, event);
    match frame_action(m, event) {
        FrameAction::Blit { manage_affinity } => {
            let blitted = FrameEvent::Blitted { manage_affinity, ok: blit_ok };
            (frame_state(m1, blitted), frame_action(m1, blitted))
        },
        other => (m1, other),
    }
}

/// The state and final action of a whole capture from `m`, driven by the
/// actions that `capture_frame` returns and the caller's answers to them:
/// whether the window is observable, whether excluding it from capture
/// worked, whether the desktop device context was acquired, and whether
/// the blit worked.
pub open spec fn run_frame(m: CaptureModel, observable: bool, excluded: bool, acquired: bool, blit_ok: bool) -> (CaptureModel, FrameAction) {
    match frame_action(m, FrameEvent::Requested) {
        FrameAction::CheckObservable => {
            let observed = FrameEvent::Observed(observable);
            match frame_action(m, observed) {
                FrameAction::ExcludeFromCapture => {
                    let exclusion = FrameEvent::Excluded(excluded);
                    let m1 = frame_state(m, exclusion);
                    match frame_action(m, exclusion) {
                        FrameAction::AcquireDesktop { flush, manage_affinity } =>
                            run_from_acquire(m1, manage_affinity, acquired, blit_ok),
                        other => (m1, other),
                    }
                },
                FrameAction::AcquireDesktop { flush, manage_affinity } =>
                    run_from_acquire(m, manage_affinity, acquired, blit_ok),
                other => (m, other),
            }
        },
        other => (m, other),
    }
}

/// Whether `m` captures at all: it is not paused and the window is
/// observable.
pub open spec fn captures(m: CaptureModel, observable: bool) -> bool {
    !m.paused && observable
}

/// Every capture ends with `Finish`, keeps the invariant, the bitmap size,
/// the pause and the interactive mode, and returns the success of capture
/// as it stands afterwards. A capture that does not take place (paused, or
/// window not observable) changes nothing and repaints nothing.
pub proof fn lemma_capture_finishes_with_capture_ok(m: CaptureModel, observable: bool, excluded: bool, acquired: bool, blit_ok: bool)
    requires
        m.inv(),
    ensures
        ({
            let (m2, action) = run_frame(m, observable, excluded, acquired, blit_ok);
            &&& action is Finish
            &&& action->result == m2.capture_ok
            &&& m2.inv()
            &&& m2.width == m.width && m2.height == m.height
            &&& m2.paused == m.paused && m2.interactive == m.interactive
            &&& !captures(m, observable) ==> m2 == m && !action->repaint && !action->restore_affinity
        }),
{
}

/// A capture lets the window back into screen capture exactly when it
/// took it out: when it captured outside an interactive loop while
/// display affinity was supported.
pub proof fn lemma_capture_restores_affinity_it_set(m: CaptureModel, observable: bool, excluded: bool, acquired: bool, blit_ok: bool)
    requires
        m.inv(),
    ensures
        run_frame(m, observable, excluded, acquired, blit_ok).1->restore_affinity
            == (captures(m, observable) && m.manages_affinity()),
{
}

/// Display affinity, once found unsupported, stays unsupported; it is
/// found unsupported only when an exclusion fails.
pub proof fn lemma_affinity_support_is_lost_only_by_failure(m: CaptureModel, observable: bool, excluded: bool, acquired: bool, blit_ok: bool)
    requires
        m.inv(),
    ensures
        ({
            let m2 = run_frame(m, observable, excluded, acquired, blit_ok).0;
            &&& !m.affinity_supported ==> !m2.affinity_supported
            &&& m2.affinity_supported == (m.affinity_supported && !(captures(m, observable) && m.manages_affinity() && !excluded))
        }),
{
}

/// A capture succeeds exactly when it took place, acquired the desktop
/// device context and blitted successfully; it repaints after a success
/// and whenever the success of capture changed.
pub proof fn lemma_capture_outcome(m: CaptureModel, observable: bool, excluded: bool, acquired: bool, blit_ok: bool)
    requires
        m.inv(),
        captures(m, observable),
    ensures
        ({
            let (m2, action) = run_frame(m, observable, excluded, acquired, blit_ok);
            &&& m2.capture_ok == (acquired && blit_ok)
            &&& action->repaint == (acquired && (blit_ok || m.capture_ok != blit_ok))
        }),
{
}

/// Resuming undoes pausing.
pub proof fn lemma_resume_undoes_pause(m: CaptureModel)
    requires
        !m.paused,
    ensures
        (CaptureModel { paused: false, ..(CaptureModel { paused: true, ..m }) }) == m,
{
}

/// Leaving interactive mode undoes entering it, whether or not the
/// exclusion worked.
pub proof fn lemma_end_interactive_undoes_begin(m: CaptureModel, excluded: bool)
    requires
        !m.interactive,
    ensures
        ({
            let begun = CaptureModel {
                interactive: if m.affinity_supported && excluded { true } else { m.interactive },
                ..m
            };
            &&& (CaptureModel { interactive: false, ..begun }) == m
            &&& begun.interactive == (m.affinity_supported && excluded)
        }),
{
}

} // verus!
