//! Status values exchanged with clients over the bus, and helpers that read
//! bus error texts.

use vstd::prelude::*;
use crate::text::{str_eq, chars_of, contains, contains_chars, find_char, has_char, string_of, trim, trim_vec};

verus! {

/// What the camera currently sees, as reported to clients.
#[derive(Clone, Copy, Debug, PartialEq, Eq, Structural)]
pub enum CaptureStatus {
    Unused,
    NoFace,
    TooDark,
    Clipped,
    NotCentered,
    TooFar,
    TooClose,
    Ready,
    Usable,
}

/// The instruction shown during enrollment.
#[derive(Clone, Copy, Debug, PartialEq, Eq, Structural)]
pub enum EnrollPrompt {
    LookStraight,
    LookUp,
    LookDown,
    LookLeft,
    LookRight,
    DbFailed,
    Cancelled,
    Captured,
    Completed,
}

/// The outcome of a verification.
#[derive(Clone, Copy, Debug, PartialEq, Eq, Structural)]
pub enum VerifyResult {
    VerifyMatch,
    VerifyNoMatch,
}

pub open spec fn status_priority(s: CaptureStatus) -> u8 {
    match s {
        CaptureStatus::Usable => 5,
        CaptureStatus::Ready => 4,
        CaptureStatus::NotCentered | CaptureStatus::TooFar | CaptureStatus::TooClose
        | CaptureStatus::Clipped => 3,
        CaptureStatus::TooDark => 2,
        CaptureStatus::NoFace => 1,
        CaptureStatus::Unused => 0,
    }
}

/// Of two statuses, the one shown to the user: the first unless the second
/// has a strictly higher priority.
pub open spec fn effective_status(first: CaptureStatus, second: CaptureStatus) -> CaptureStatus {
    if status_priority(first) >= status_priority(second) {
        first
    } else {
        second
    }
}

pub open spec fn capture_status_message(s: CaptureStatus) -> Seq<char> {
    match s {
            CaptureStatus::Unused => "Camera is not in use..."@,
            CaptureStatus::NoFace => "Please look at the camera..."@,
            CaptureStatus::TooDark => "Need more light..."@,
            CaptureStatus::Clipped => "Face is clipped. Please move back..."@,
            CaptureStatus::NotCentered => "Please center your face..."@,
            CaptureStatus::TooFar => "Please come closer..."@,
            CaptureStatus::TooClose => "Please back up..."@,
            CaptureStatus::Ready => "Hold still..."@,
            CaptureStatus::Usable => "Hold still..."@,
        }
}

pub open spec fn capture_status_wire(s: CaptureStatus) -> Seq<char> {
    match s {
            CaptureStatus::Unused => "unused"@,
            CaptureStatus::NoFace => "no-face"@,
            CaptureStatus::TooDark => "too-dark"@,
            CaptureStatus::Clipped => "clipped"@,
            CaptureStatus::NotCentered => "not-centered"@,
            CaptureStatus::TooFar => "too-far"@,
            CaptureStatus::TooClose => "too-close"@,
            CaptureStatus::Ready => "ready"@,
            CaptureStatus::Usable => "usable"@,
        }
}

pub open spec fn enroll_prompt_message(s: EnrollPrompt) -> Seq<char> {
    match s {
            EnrollPrompt::LookStraight => "Face the camera"@,
            EnrollPrompt::LookUp => "Tilt your face slightly up"@,
            EnrollPrompt::LookDown => "Tilt your face slightly down"@,
            EnrollPrompt::LookLeft => "Turn your face slightly left"@,
            EnrollPrompt::LookRight => "Turn your face slightly right"@,
            EnrollPrompt::DbFailed => "Database error during enrollment"@,
            EnrollPrompt::Cancelled => "Enrollment cancelled"@,
            EnrollPrompt::Captured => "Captured"@,
            EnrollPrompt::Completed => "Completed"@,
        }
}

pub open spec fn enroll_prompt_wire(s: EnrollPrompt) -> Seq<char> {
    match s {
            EnrollPrompt::LookStraight => "look-straight"@,
            EnrollPrompt::LookUp => "look-up"@,
            EnrollPrompt::LookDown => "look-down"@,
            EnrollPrompt::LookLeft => "look-left"@,
            EnrollPrompt::LookRight => "look-right"@,
            EnrollPrompt::DbFailed => "db-failed"@,
            EnrollPrompt::Cancelled => "cancelled"@,
            EnrollPrompt::Captured => "captured"@,
            EnrollPrompt::Completed => "completed"@,
        }
}

pub open spec fn verify_result_name(s: VerifyResult) -> Seq<char> {
    match s {
            VerifyResult::VerifyMatch => "VerifyMatch"@,
            VerifyResult::VerifyNoMatch => "VerifyNoMatch"@,
        }
}

pub open spec fn verify_result_wire(s: VerifyResult) -> Seq<char> {
    match s {
            VerifyResult::VerifyMatch => "verify-match"@,
            VerifyResult::VerifyNoMatch => "verify-no-match"@,
        }
}

impl CaptureStatus {
    /// How far along the capture is: `Usable` highest, `Unused` lowest.
    pub fn priority(self) -> (r: u8)
        ensures
            r == status_priority(self),
    {
        match self {
            CaptureStatus::Usable => 5,
            CaptureStatus::Ready => 4,
            CaptureStatus::NotCentered | CaptureStatus::TooFar | CaptureStatus::TooClose
            | CaptureStatus::Clipped => 3,
            CaptureStatus::TooDark => 2,
            CaptureStatus::NoFace => 1,
            CaptureStatus::Unused => 0,
        }
    }

    /// The user-facing message for the status.
    pub fn message(self) -> (r: &'static str)
        ensures
            r@ == capture_status_message(self),
    {
        match self {
            CaptureStatus::Unused => "Camera is not in use...",
            CaptureStatus::NoFace => "Please look at the camera...",
            CaptureStatus::TooDark => "Need more light...",
            CaptureStatus::Clipped => "Face is clipped. Please move back...",
            CaptureStatus::NotCentered => "Please center your face...",
            CaptureStatus::TooFar => "Please come closer...",
            CaptureStatus::TooClose => "Please back up...",
            CaptureStatus::Ready => "Hold still...",
            CaptureStatus::Usable => "Hold still...",
        }
    }

    /// The kebab-case value used on the wire.
    pub fn wire_name(self) -> (r: &'static str)
        ensures
            r@ == capture_status_wire(self),
    {
        match self {
            CaptureStatus::Unused => "unused",
            CaptureStatus::NoFace => "no-face",
            CaptureStatus::TooDark => "too-dark",
            CaptureStatus::Clipped => "clipped",
            CaptureStatus::NotCentered => "not-centered",
            CaptureStatus::TooFar => "too-far",
            CaptureStatus::TooClose => "too-close",
            CaptureStatus::Ready => "ready",
            CaptureStatus::Usable => "usable",
        }
    }
}

/// Of the statuses of two streams, the one to show: `first` unless `second`
/// ranks strictly higher.
pub fn effective(first: CaptureStatus, second: CaptureStatus) -> (r: CaptureStatus)
    ensures
        r == effective_status(first, second),
        status_priority(r) >= status_priority(first),
        status_priority(r) >= status_priority(second),
        r == first || r == second,
{
    if first.priority() >= second.priority() {
        first
    } else {
        second
    }
}

impl EnrollPrompt {
    /// The user-facing message for the prompt.
    pub fn message(self) -> (r: &'static str)
        ensures
            r@ == enroll_prompt_message(self),
    {
        match self {
            EnrollPrompt::LookStraight => "Face the camera",
            EnrollPrompt::LookUp => "Tilt your face slightly up",
            EnrollPrompt::LookDown => "Tilt your face slightly down",
            EnrollPrompt::LookLeft => "Turn your face slightly left",
            EnrollPrompt::LookRight => "Turn your face slightly right",
            EnrollPrompt::DbFailed => "Database error during enrollment",
            EnrollPrompt::Cancelled => "Enrollment cancelled",
            EnrollPrompt::Captured => "Captured",
            EnrollPrompt::Completed => "Completed",
        }
    }

    /// The kebab-case value used on the wire.
    pub fn wire_name(self) -> (r: &'static str)
        ensures
            r@ == enroll_prompt_wire(self),
    {
        match self {
            EnrollPrompt::LookStraight => "look-straight",
            EnrollPrompt::LookUp => "look-up",
            EnrollPrompt::LookDown => "look-down",
            EnrollPrompt::LookLeft => "look-left",
            EnrollPrompt::LookRight => "look-right",
            EnrollPrompt::DbFailed => "db-failed",
            EnrollPrompt::Cancelled => "cancelled",
            EnrollPrompt::Captured => "captured",
            EnrollPrompt::Completed => "completed",
        }
    }
}

impl VerifyResult {
    /// The variant's name, as `AsRef<str>` gives it.
    pub fn as_str(self) -> (r: &'static str)
        ensures
            r@ == verify_result_name(self),
    {
        match self {
            VerifyResult::VerifyMatch => "VerifyMatch",
            VerifyResult::VerifyNoMatch => "VerifyNoMatch",
        }
    }

    /// The kebab-case value used on the wire.
    pub fn wire_name(self) -> (r: &'static str)
        ensures
            r@ == verify_result_wire(self),
    {
        match self {
            VerifyResult::VerifyMatch => "verify-match",
            VerifyResult::VerifyNoMatch => "verify-no-match",
        }
    }
}

// ---------------------------------------------------------------------------
// Error texts
// ---------------------------------------------------------------------------
// Wire values
// ---------------------------------------------------------------------------

/// The CaptureStatus whose wire value is `w`, if any.
pub open spec fn capture_status_of_wire(w: Seq<char>) -> Option<CaptureStatus> {
    if w == "unused"@ {
        Some(CaptureStatus::Unused)
    } else if w == "no-face"@ {
        Some(CaptureStatus::NoFace)
    } else if w == "too-dark"@ {
        Some(CaptureStatus::TooDark)
    } else if w == "clipped"@ {
        Some(CaptureStatus::Clipped)
    } else if w == "not-centered"@ {
        Some(CaptureStatus::NotCentered)
    } else if w == "too-far"@ {
        Some(CaptureStatus::TooFar)
    } else if w == "too-close"@ {
        Some(CaptureStatus::TooClose)
    } else if w == "ready"@ {
        Some(CaptureStatus::Ready)
    } else if w == "usable"@ {
        Some(CaptureStatus::Usable)
    } else {
        None
    }
}

/// Reading a written wire value gives the value back, so distinct values
/// have distinct wire values.
pub proof fn capture_status_wire_law(s: CaptureStatus)
    ensures
        capture_status_of_wire(capture_status_wire(s)) == Some(s),
{
    reveal_strlit("unused");
    reveal_strlit("no-face");
    reveal_strlit("too-dark");
    reveal_strlit("clipped");
    reveal_strlit("not-centered");
    reveal_strlit("too-far");
    reveal_strlit("too-close");
    reveal_strlit("ready");
    reveal_strlit("usable");
    match s {
        CaptureStatus::Unused => {
        },
        CaptureStatus::NoFace => {
            assert("no-face"@.len() != "unused"@.len());
        },
        CaptureStatus::TooDark => {
            assert("too-dark"@.len() != "unused"@.len());
            assert("too-dark"@.len() != "no-face"@.len());
        },
        CaptureStatus::Clipped => {
            assert("clipped"@.len() != "unused"@.len());
            assert("clipped"@[0] != "no-face"@[0]);
            assert("clipped"@.len() != "too-dark"@.len());
        },
        CaptureStatus::NotCentered => {
            assert("not-centered"@.len() != "unused"@.len());
            assert("not-centered"@.len() != "no-face"@.len());
            assert("not-centered"@.len() != "too-dark"@.len());
            assert("not-centered"@.len() != "clipped"@.len());
        },
        CaptureStatus::TooFar => {
            assert("too-far"@.len() != "unused"@.len());
            assert("too-far"@[0] != "no-face"@[0]);
            assert("too-far"@.len() != "too-dark"@.len());
            assert("too-far"@[0] != "clipped"@[0]);
            assert("too-far"@.len() != "not-centered"@.len());
        },
        CaptureStatus::TooClose => {
            assert("too-close"@.len() != "unused"@.len());
            assert("too-close"@.len() != "no-face"@.len());
            assert("too-close"@.len() != "too-dark"@.len());
            assert("too-close"@.len() != "clipped"@.len());
            assert("too-close"@.len() != "not-centered"@.len());
            assert("too-close"@.len() != "too-far"@.len());
        },
        CaptureStatus::Ready => {
            assert("ready"@.len() != "unused"@.len());
            assert("ready"@.len() != "no-face"@.len());
            assert("ready"@.len() != "too-dark"@.len());
            assert("ready"@.len() != "clipped"@.len());
            assert("ready"@.len() != "not-centered"@.len());
            assert("ready"@.len() != "too-far"@.len());
            assert("ready"@.len() != "too-close"@.len());
        },
        CaptureStatus::Usable => {
            assert("usable"@[1] != "unused"@[1]);
            assert("usable"@.len() != "no-face"@.len());
            assert("usable"@.len() != "too-dark"@.len());
            assert("usable"@.len() != "clipped"@.len());
            assert("usable"@.len() != "not-centered"@.len());
            assert("usable"@.len() != "too-far"@.len());
            assert("usable"@.len() != "too-close"@.len());
            assert("usable"@.len() != "ready"@.len());
        },
    }
}

/// Reads a wire value.
pub fn capture_status_from_wire(w: &str) -> (r: Option<CaptureStatus>)
    ensures
        r == capture_status_of_wire(w@),
{
    if str_eq(w, "unused") {
        Some(CaptureStatus::Unused)
    } else if str_eq(w, "no-face") {
        Some(CaptureStatus::NoFace)
    } else if str_eq(w, "too-dark") {
        Some(CaptureStatus::TooDark)
    } else if str_eq(w, "clipped") {
        Some(CaptureStatus::Clipped)
    } else if str_eq(w, "not-centered") {
        Some(CaptureStatus::NotCentered)
    } else if str_eq(w, "too-far") {
        Some(CaptureStatus::TooFar)
    } else if str_eq(w, "too-close") {
        Some(CaptureStatus::TooClose)
    } else if str_eq(w, "ready") {
        Some(CaptureStatus::Ready)
    } else if str_eq(w, "usable") {
        Some(CaptureStatus::Usable)
    } else {
        None
    }
}

/// The EnrollPrompt whose wire value is `w`, if any.
pub open spec fn enroll_prompt_of_wire(w: Seq<char>) -> Option<EnrollPrompt> {
    if w == "look-straight"@ {
        Some(EnrollPrompt::LookStraight)
    } else if w == "look-up"@ {
        Some(EnrollPrompt::LookUp)
    } else if w == "look-down"@ {
        Some(EnrollPrompt::LookDown)
    } else if w == "look-left"@ {
        Some(EnrollPrompt::LookLeft)
    } else if w == "look-right"@ {
        Some(EnrollPrompt::LookRight)
    } else if w == "db-failed"@ {
        Some(EnrollPrompt::DbFailed)
    } else if w == "cancelled"@ {
        Some(EnrollPrompt::Cancelled)
    } else if w == "captured"@ {
        Some(EnrollPrompt::Captured)
    } else if w == "completed"@ {
        Some(EnrollPrompt::Completed)
    } else {
        None
    }
}

/// Reading a written wire value gives the value back, so distinct values
/// have distinct wire values.
pub proof fn enroll_prompt_wire_law(s: EnrollPrompt)
    ensures
        enroll_prompt_of_wire(enroll_prompt_wire(s)) == Some(s),
{
    reveal_strlit("look-straight");
    reveal_strlit("look-up");
    reveal_strlit("look-down");
    reveal_strlit("look-left");
    reveal_strlit("look-right");
    reveal_strlit("db-failed");
    reveal_strlit("cancelled");
    reveal_strlit("captured");
    reveal_strlit("completed");
    match s {
        EnrollPrompt::LookStraight => {
        },
        EnrollPrompt::LookUp => {
            assert("look-up"@.len() != "look-straight"@.len());
        },
        EnrollPrompt::LookDown => {
            assert("look-down"@.len() != "look-straight"@.len());
            assert("look-down"@.len() != "look-up"@.len());
        },
        EnrollPrompt::LookLeft => {
            assert("look-left"@.len() != "look-straight"@.len());
            assert("look-left"@.len() != "look-up"@.len());
            assert("look-left"@[5] != "look-down"@[5]);
        },
        EnrollPrompt::LookRight => {
            assert("look-right"@.len() != "look-straight"@.len());
            assert("look-right"@.len() != "look-up"@.len());
            assert("look-right"@.len() != "look-down"@.len());
            assert("look-right"@.len() != "look-left"@.len());
        },
        EnrollPrompt::DbFailed => {
            assert("db-failed"@.len() != "look-straight"@.len());
            assert("db-failed"@.len() != "look-up"@.len());
            assert("db-failed"@[0] != "look-down"@[0]);
            assert("db-failed"@[0] != "look-left"@[0]);
            assert("db-failed"@.len() != "look-right"@.len());
        },
        EnrollPrompt::Cancelled => {
            assert("cancelled"@.len() != "look-straight"@.len());
            assert("cancelled"@.len() != "look-up"@.len());
            assert("cancelled"@[0] != "look-down"@[0]);
            assert("cancelled"@[0] != "look-left"@[0]);
            assert("cancelled"@.len() != "look-right"@.len());
            assert("cancelled"@[0] != "db-failed"@[0]);
        },
        EnrollPrompt::Captured => {
            assert("captured"@.len() != "look-straight"@.len());
            assert("captured"@.len() != "look-up"@.len());
            assert("captured"@.len() != "look-down"@.len());
            assert("captured"@.len() != "look-left"@.len());
            assert("captured"@.len() != "look-right"@.len());
            assert("captured"@.len() != "db-failed"@.len());
            assert("captured"@.len() != "cancelled"@.len());
        },
        EnrollPrompt::Completed => {
            assert("completed"@.len() != "look-straight"@.len());
            assert("completed"@.len() != "look-up"@.len());
            assert("completed"@[0] != "look-down"@[0]);
            assert("completed"@[0] != "look-left"@[0]);
            assert("completed"@.len() != "look-right"@.len());
            assert("completed"@[0] != "db-failed"@[0]);
            assert("completed"@[1] != "cancelled"@[1]);
            assert("completed"@.len() != "captured"@.len());
        },
    }
}

/// Reads a wire value.
pub fn enroll_prompt_from_wire(w: &str) -> (r: Option<EnrollPrompt>)
    ensures
        r == enroll_prompt_of_wire(w@),
{
    if str_eq(w, "look-straight") {
        Some(EnrollPrompt::LookStraight)
    } else if str_eq(w, "look-up") {
        Some(EnrollPrompt::LookUp)
    } else if str_eq(w, "look-down") {
        Some(EnrollPrompt::LookDown)
    } else if str_eq(w, "look-left") {
        Some(EnrollPrompt::LookLeft)
    } else if str_eq(w, "look-right") {
        Some(EnrollPrompt::LookRight)
    } else if str_eq(w, "db-failed") {
        Some(EnrollPrompt::DbFailed)
    } else if str_eq(w, "cancelled") {
        Some(EnrollPrompt::Cancelled)
    } else if str_eq(w, "captured") {
        Some(EnrollPrompt::Captured)
    } else if str_eq(w, "completed") {
        Some(EnrollPrompt::Completed)
    } else {
        None
    }
}

/// The VerifyResult whose wire value is `w`, if any.
pub open spec fn verify_result_of_wire(w: Seq<char>) -> Option<VerifyResult> {
    if w == "verify-match"@ {
        Some(VerifyResult::VerifyMatch)
    } else if w == "verify-no-match"@ {
        Some(VerifyResult::VerifyNoMatch)
    } else {
        None
    }
}

/// Reading a written wire value gives the value back, so distinct values
/// have distinct wire values.
pub proof fn verify_result_wire_law(s: VerifyResult)
    ensures
        verify_result_of_wire(verify_result_wire(s)) == Some(s),
{
    reveal_strlit("verify-match");
    reveal_strlit("verify-no-match");
    match s {
        VerifyResult::VerifyMatch => {
        },
        VerifyResult::VerifyNoMatch => {
            assert("verify-no-match"@.len() != "verify-match"@.len());
        },
    }
}

/// Reads a wire value.
pub fn verify_result_from_wire(w: &str) -> (r: Option<VerifyResult>)
    ensures
        r == verify_result_of_wire(w@),
{
    if str_eq(w, "verify-match") {
        Some(VerifyResult::VerifyMatch)
    } else if str_eq(w, "verify-no-match") {
        Some(VerifyResult::VerifyNoMatch)
    } else {
        None
    }
}

// ---------------------------------------------------------------------------

/// The detail of a bus error text: what follows its first `:`, trimmed, or
/// the whole text when it has no `:`.
pub open spec fn error_detail(text: Seq<char>) -> Seq<char> {
    if has_char(text, ':') {
        let i = choose|i: int| 0 <= i < text.len() && text[i] == ':' && forall|k: int|
            0 <= k < i ==> text[k] != ':';
        trim(text.subrange(i + 1, text.len() as int))
    } else {
        text
    }
}

/// The human-readable part of a bus error, given the error's display text.
pub fn dbus_error_message(text: &str) -> (r: String)
    ensures
        r@ == error_detail(text@),
{
    let t = chars_of(text);
    match find_char(&t, ':') {
        Some(i) => {
            let ghost j = choose|j: int| 0 <= j < t@.len() && t@[j] == ':' && forall|k: int|
                0 <= k < j ==> t@[k] != ':';
            assert(j == i as int) by {
                if j < i {
                } else if j > i {
                    assert(t@[i as int] == ':');
                }
            }
            let rest = crate::text::slice_vec(&t, i + 1, t.len());
            string_of(&trim_vec(&rest))
        },
        None => String::from_str(text),
    }
}

/// Whether a bus error text reports a missing file or face.
pub fn dbus_is_file_not_found(text: &str) -> (r: bool)
    ensures
        r == contains(text@, "FileNotFound"@),
{
    contains_chars(&chars_of(text), &chars_of("FileNotFound"))
}

/// Whether a bus error text says the daemon cannot be activated (yet).
pub fn dbus_is_not_activatable(text: &str) -> (r: bool)
    ensures
        r == (contains(text@, "not activatable"@) || contains(text@, "ServiceUnknown"@)),
{
    let t = chars_of(text);
    contains_chars(&t, &chars_of("not activatable")) || contains_chars(&t, &chars_of("ServiceUnknown"))
}

/// Whether a bus error text marks a failure worth retrying.
pub fn is_retryable(text: &str) -> (r: bool)
    ensures
        r == contains(text@, "RETRYABLE:"@),
{
    contains_chars(&chars_of(text), &chars_of("RETRYABLE:"))
}

} // verus!
