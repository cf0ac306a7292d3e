//! The guided capture session: prompts the user through a fixed series of
//! poses and captures each after the face has stayed centred for a countdown.

use vstd::prelude::*;

verus! {

/// The instruction shown during a guided capture.
#[derive(Debug, Clone, Copy, PartialEq, Eq, Structural)]
pub enum CapturePrompt {
    LookStraight,
    TurnLeft,
    TurnRight,
    TiltUp,
    ReadyToStart,
    CenterFaceToBegin,
}

impl CapturePrompt {
    pub fn message(self) -> (r: &'static str)
        ensures
            r@ == match self {
                CapturePrompt::LookStraight => "Look straight at the camera"@,
                CapturePrompt::TurnLeft => "Turn your head slightly LEFT"@,
                CapturePrompt::TurnRight => "Turn your head slightly RIGHT"@,
                CapturePrompt::TiltUp => "Tilt your head slightly UP"@,
                CapturePrompt::ReadyToStart => "Ready to start"@,
                CapturePrompt::CenterFaceToBegin => "Center face to begin"@,
            },
    {
        match self {
            CapturePrompt::LookStraight => "Look straight at the camera",
            CapturePrompt::TurnLeft => "Turn your head slightly LEFT",
            CapturePrompt::TurnRight => "Turn your head slightly RIGHT",
            CapturePrompt::TiltUp => "Tilt your head slightly UP",
            CapturePrompt::ReadyToStart => "Ready to start",
            CapturePrompt::CenterFaceToBegin => "Center face to begin",
        }
    }
}

/// The number of poses a guided capture takes.
pub const CAPTURE_STEPS: usize = 4;

pub open spec fn capture_prompt(step: int) -> CapturePrompt {
    if step == 0 {
        CapturePrompt::LookStraight
    } else if step == 1 {
        CapturePrompt::TurnLeft
    } else if step == 2 {
        CapturePrompt::TurnRight
    } else {
        CapturePrompt::TiltUp
    }
}

/// The pose asked for at each step of a guided capture.
pub fn capture_prompt_at(step: usize) -> (r: CapturePrompt)
    requires
        step < CAPTURE_STEPS,
    ensures
        r == capture_prompt(step as int),
{
    match step {
        0 => CapturePrompt::LookStraight,
        1 => CapturePrompt::TurnLeft,
        2 => CapturePrompt::TurnRight,
        _ => CapturePrompt::TiltUp,
    }
}

/// A hint about the face's position.
#[derive(Debug, Clone, Copy, PartialEq, Eq, Structural)]
pub enum CaptureHint {
    NotCentered,
    FaceClipped,
    NoFace,
    CenteredReady,
}

impl CaptureHint {
    pub fn message(self) -> (r: &'static str)
        ensures
            r@ == match self {
                CaptureHint::NotCentered => "Center your face..."@,
                CaptureHint::FaceClipped => "Face is clipped..."@,
                CaptureHint::NoFace => "No face detected..."@,
                CaptureHint::CenteredReady => "Centered! Ready to begin."@,
            },
    {
        match self {
            CaptureHint::NotCentered => "Center your face...",
            CaptureHint::FaceClipped => "Face is clipped...",
            CaptureHint::NoFace => "No face detected...",
            CaptureHint::CenteredReady => "Centered! Ready to begin.",
        }
    }
}

/// What the face check found in a frame; `Ready` carries the capture.
pub enum FrameCheck<T> {
    NotCentered,
    Clipped,
    NoFace,
    Ready(T),
}

/// What the session shows after a frame.
#[derive(Debug, Clone, Copy, PartialEq, Eq, Structural)]
pub enum CaptureState {
    Prompting { prompt: CapturePrompt, hint: CaptureHint, step: usize, total_steps: usize },
    /// The face is centred; it is captured once `remaining_ns` have passed.
    Countdown { prompt: CapturePrompt, remaining_ns: u64, step: usize, total_steps: usize },
    Captured { prompt: CapturePrompt },
    Complete,
}

/// Whether a session runs guided poses or refines an existing face.
#[derive(Debug, Clone, Copy, PartialEq, Eq, Structural)]
pub enum CaptureMode {
    Guided,
    Refine,
}

/// A guided capture of `T` values.
pub struct CaptureSession<T> {
    current_step: usize,
    centered_start_ns: Option<u64>,
    require_centering: bool,
    countdown_ns: u64,
    mode: CaptureMode,
    is_active: bool,
    captures: Vec<T>,
}

pub open spec fn hint_of<T>(c: FrameCheck<T>) -> CaptureHint {
    match c {
        FrameCheck::NotCentered => CaptureHint::NotCentered,
        FrameCheck::Clipped => CaptureHint::FaceClipped,
        FrameCheck::NoFace => CaptureHint::NoFace,
        FrameCheck::Ready(_) => CaptureHint::CenteredReady,
    }
}

impl<T> CaptureSession<T> {
    pub closed spec fn step(&self) -> nat {
        self.current_step as nat
    }

    pub closed spec fn centered_since(&self) -> Option<u64> {
        self.centered_start_ns
    }

    pub closed spec fn countdown(&self) -> u64 {
        self.countdown_ns
    }

    pub closed spec fn mode_view(&self) -> CaptureMode {
        self.mode
    }

    pub closed spec fn active(&self) -> bool {
        self.is_active
    }

    pub closed spec fn captured(&self) -> Seq<T> {
        self.captures@
    }

    pub closed spec fn centering(&self) -> bool {
        self.require_centering
    }

    /// A new, inactive session with a three-second countdown.
    pub fn new() -> (r: Self)
        ensures
            r.step() == 0,
            r.centered_since() is None,
            r.countdown() == 3_000_000_000,
            r.mode_view() == CaptureMode::Guided,
            !r.active(),
            r.captured().len() == 0,
            r.centering(),
    {
        CaptureSession {
            current_step: 0,
            centered_start_ns: None,
            require_centering: true,
            countdown_ns: 3_000_000_000,
            mode: CaptureMode::Guided,
            is_active: false,
            captures: Vec::new(),
        }
    }

    pub fn with_mode(self, mode: CaptureMode) -> (r: Self)
        ensures
            r.mode_view() == mode,
            r.step() == self.step() && r.centered_since() == self.centered_since()
                && r.countdown() == self.countdown() && r.active() == self.active()
                && r.captured() == self.captured() && r.centering() == self.centering(),
    {
        CaptureSession { mode, ..self }
    }

    pub fn with_countdown(self, countdown_ns: u64) -> (r: Self)
        ensures
            r.countdown() == countdown_ns,
            r.step() == self.step() && r.centered_since() == self.centered_since()
                && r.mode_view() == self.mode_view() && r.active() == self.active()
                && r.captured() == self.captured() && r.centering() == self.centering(),
    {
        CaptureSession { countdown_ns, ..self }
    }

    /// Whether frames are checked for centring.
    pub fn require_centering(&self) -> (r: bool)
        ensures
            r == self.centering(),
    {
        self.require_centering
    }

    pub fn start(&mut self)
        ensures
            final(self).active(),
            final(self).centered_since() is None,
            final(self).step() == old(self).step(),
            final(self).captured() == old(self).captured(),
            final(self).countdown() == old(self).countdown(),
            final(self).mode_view() == old(self).mode_view(),
            final(self).centering() == old(self).centering(),
    {
        self.is_active = true;
        self.centered_start_ns = None;
    }

    pub fn stop(&mut self)
        ensures
            !final(self).active(),
            final(self).centered_since() is None,
            final(self).step() == old(self).step(),
            final(self).captured() == old(self).captured(),
            final(self).countdown() == old(self).countdown(),
            final(self).mode_view() == old(self).mode_view(),
            final(self).centering() == old(self).centering(),
    {
        self.is_active = false;
        self.centered_start_ns = None;
    }

    pub fn is_active(&self) -> (r: bool)
        ensures
            r == self.active(),
    {
        self.is_active
    }

    pub fn is_complete(&self) -> (r: bool)
        ensures
            r == (self.step() >= CAPTURE_STEPS),
    {
        self.current_step >= CAPTURE_STEPS
    }

    pub fn advance_step(&mut self)
        requires
            old(self).step() < usize::MAX,
        ensures
            final(self).step() == old(self).step() + 1,
            final(self).centered_since() is None,
            final(self).active() == old(self).active(),
            final(self).captured() == old(self).captured(),
            final(self).countdown() == old(self).countdown(),
            final(self).mode_view() == old(self).mode_view(),
            final(self).centering() == old(self).centering(),
    {
        self.current_step = self.current_step + 1;
        self.centered_start_ns = None;
    }

    /// The captures taken so far; the session keeps none.
    pub fn take_captures(&mut self) -> (r: Vec<T>)
        ensures
            r@ == old(self).captured(),
            final(self).captured().len() == 0,
            final(self).step() == old(self).step(),
            final(self).active() == old(self).active(),
            final(self).centered_since() == old(self).centered_since(),
            final(self).countdown() == old(self).countdown(),
            final(self).mode_view() == old(self).mode_view(),
            final(self).centering() == old(self).centering(),
    {
        let mut out: Vec<T> = Vec::new();
        std::mem::swap(&mut out, &mut self.captures);
        out
    }

    /// Advances the session with the face check of a frame seen at `now_ns`.
    pub fn process_frame(&mut self, check: FrameCheck<T>, now_ns: u64) -> (r: CaptureState)
        ensures
            final(self).countdown() == old(self).countdown(),
            final(self).mode_view() == old(self).mode_view(),
            final(self).active() == old(self).active(),
            final(self).centering() == old(self).centering(),
            old(self).active() && old(self).step() >= CAPTURE_STEPS ==> r == CaptureState::Complete
                && final(self).step() == old(self).step() && final(self).captured() == old(self).captured()
                && final(self).centered_since() == old(self).centered_since(),
            !(old(self).active() && old(self).step() >= CAPTURE_STEPS) ==> {
                let prompt = if old(self).active() {
                    capture_prompt(old(self).step() as int)
                } else if check is Ready {
                    CapturePrompt::ReadyToStart
                } else {
                    CapturePrompt::CenterFaceToBegin
                };
                let (step, total) = if old(self).active() {
                    (old(self).step() + 1, CAPTURE_STEPS as nat)
                } else {
                    (0nat, 0nat)
                };
                if !old(self).active() || !(check is Ready) {
                    &&& r == CaptureState::Prompting { prompt, hint: hint_of(check), step: step as usize, total_steps: total as usize }
                    &&& final(self).centered_since() is None
                    &&& final(self).step() == old(self).step()
                    &&& final(self).captured() == old(self).captured()
                } else {
                    let start = match old(self).centered_since() {
                        Some(t) => t,
                        None => now_ns,
                    };
                    let elapsed: int = if now_ns >= start {
                        now_ns - start
                    } else {
                        0
                    };
                    if elapsed >= old(self).countdown() {
                        &&& r == CaptureState::Captured { prompt }
                        &&& final(self).step() == old(self).step() + 1
                        &&& final(self).centered_since() is None
                        &&& (check matches FrameCheck::Ready(v) && final(self).captured() == old(self).captured().push(v))
                    } else {
                        &&& r == CaptureState::Countdown { prompt, remaining_ns: (old(self).countdown() - elapsed) as u64, step: step as usize, total_steps: total as usize }
                        &&& final(self).centered_since() == Some(start)
                        &&& final(self).step() == old(self).step()
                        &&& final(self).captured() == old(self).captured()
                    }
                }
            },
    {
        if self.is_active && self.current_step >= CAPTURE_STEPS {
            return CaptureState::Complete;
        }
        let ready = match &check {
            FrameCheck::Ready(_) => true,
            _ => false,
        };
        let (prompt, step, total_steps) = if self.is_active {
            (capture_prompt_at(self.current_step), self.current_step + 1, CAPTURE_STEPS)
        } else if ready {
            (CapturePrompt::ReadyToStart, 0, 0)
        } else {
            (CapturePrompt::CenterFaceToBegin, 0, 0)
        };
        let hint = match &check {
            FrameCheck::NotCentered => CaptureHint::NotCentered,
            FrameCheck::Clipped => CaptureHint::FaceClipped,
            FrameCheck::NoFace => CaptureHint::NoFace,
            FrameCheck::Ready(_) => CaptureHint::CenteredReady,
        };
        if !self.is_active || !ready {
            self.centered_start_ns = None;
            return CaptureState::Prompting { prompt, hint, step, total_steps };
        }
        let result = match check {
            FrameCheck::Ready(v) => v,
            _ => {
                return CaptureState::Complete;
            },
        };
        let start = match self.centered_start_ns {
            Some(t) => t,
            None => now_ns,
        };
        self.centered_start_ns = Some(start);
        let elapsed = if now_ns >= start {
            now_ns - start
        } else {
            0
        };
        if elapsed >= self.countdown_ns {
            self.centered_start_ns = None;
            self.captures.push(result);
            self.current_step = self.current_step + 1;
            CaptureState::Captured { prompt }
        } else {
            CaptureState::Countdown {
                prompt,
                remaining_ns: self.countdown_ns - elapsed,
                step,
                total_steps,
            }
        }
    }
}

} // verus!
