//! Decisions of the PAM modules.

use vstd::prelude::*;
use crate::text::{all_digits, all_digits_exec, chars_eq, chars_of, str_eq, string_of, string_seq_view, trim, trim_vec};

verus! {

pub const PAM_SUCCESS: i32 = 0;
pub const PAM_SERVICE_ERR: i32 = 3;
pub const PAM_AUTH_ERR: i32 = 7;
pub const PAM_AUTHINFO_UNAVAIL: i32 = 9;
pub const PAM_IGNORE: i32 = 25;

/// Seconds a PAM authentication waits for the camera.
pub const CAMERA_AUTH_TIMEOUT_SECS: u64 = 12;

/// The desktop a running process belongs to, by its trimmed name.
#[derive(Clone, Copy, Debug, PartialEq, Eq, Structural)]
pub enum DesktopKind {
    Kde,
    Hyprland,
    Gnome,
    Other,
}

pub open spec fn desktop_of_comm(comm: Seq<char>) -> DesktopKind {
    let c = trim(comm);
    if c == "plasmashell"@ || c == "kwin_wayland"@ || c == "kwin_x11"@ || c
        == "lxqt-policykit-agent"@ || c == "lxqt-policykit"@ {
        DesktopKind::Kde
    } else if c == "hyprland"@ || c == "Hyprland"@ {
        DesktopKind::Hyprland
    } else if c == "gnome-shell"@ {
        DesktopKind::Gnome
    } else {
        DesktopKind::Other
    }
}

/// Classifies one process name (the contents of `/proc/<pid>/comm`).
pub fn classify_comm(comm: &str) -> (r: DesktopKind)
    ensures
        r == desktop_of_comm(comm@),
{
    let c = trim_vec(&chars_of(comm));
    if chars_eq(&c, &chars_of("plasmashell")) || chars_eq(&c, &chars_of("kwin_wayland")) || chars_eq(
        &c,
        &chars_of("kwin_x11"),
    ) || chars_eq(&c, &chars_of("lxqt-policykit-agent")) || chars_eq(
        &c,
        &chars_of("lxqt-policykit"),
    ) {
        DesktopKind::Kde
    } else if chars_eq(&c, &chars_of("hyprland")) || chars_eq(&c, &chars_of("Hyprland")) {
        DesktopKind::Hyprland
    } else if chars_eq(&c, &chars_of("gnome-shell")) {
        DesktopKind::Gnome
    } else {
        DesktopKind::Other
    }
}

pub open spec fn any_of_kind(comms: Seq<Seq<char>>, k: DesktopKind) -> bool {
    exists|i: int| 0 <= i < comms.len() && desktop_of_comm(comms[i]) == k
}

pub open spec fn desktop_name_of(comms: Seq<Seq<char>>) -> Seq<char> {
    if any_of_kind(comms, DesktopKind::Kde) {
        "KDE"@
    } else if any_of_kind(comms, DesktopKind::Hyprland) {
        "Hyprland"@
    } else if any_of_kind(comms, DesktopKind::Gnome) {
        "GNOME"@
    } else {
        "Other"@
    }
}

/// The desktop environment from the names of a user's processes: KDE over
/// Hyprland over GNOME, else `Other`.
pub fn desktop_of_comms(comms: &[String]) -> (r: String)
    ensures
        r@ == desktop_name_of(string_seq_view(comms@)),
{
    let mut kde = false;
    let mut hypr = false;
    let mut gnome = false;
    let mut i: usize = 0;
    while i < comms.len()
        invariant
            i <= comms.len(),
            kde == exists|k: int| 0 <= k < i && desktop_of_comm(string_seq_view(comms@)[k]) == DesktopKind::Kde,
            hypr == exists|k: int| 0 <= k < i && desktop_of_comm(string_seq_view(comms@)[k]) == DesktopKind::Hyprland,
            gnome == exists|k: int| 0 <= k < i && desktop_of_comm(string_seq_view(comms@)[k]) == DesktopKind::Gnome,
        decreases comms.len() - i,
    {
        assert(string_seq_view(comms@)[i as int] == comms@[i as int]@);
        match classify_comm(comms[i].as_str()) {
            DesktopKind::Kde => {
                kde = true;
            },
            DesktopKind::Hyprland => {
                hypr = true;
            },
            DesktopKind::Gnome => {
                gnome = true;
            },
            DesktopKind::Other => {},
        }
        i = i + 1;
    }
    if kde {
        String::from_str("KDE")
    } else if hypr {
        String::from_str("Hyprland")
    } else if gnome {
        String::from_str("GNOME")
    } else {
        String::from_str("Other")
    }
}

pub open spec fn is_kde_name(c: Seq<char>) -> bool {
    c == "plasmashell"@ || c == "kwin_wayland"@ || c == "kwin_x11"@ || c == "lxqt-policykit-agent"@
        || c == "lxqt-policykit"@
}

pub open spec fn is_hyprland_name(c: Seq<char>) -> bool {
    c == "hyprland"@ || c == "Hyprland"@
}

/// The desktop named by a user's process names: KDE when one of them
/// (trimmed) is a KDE or LXQt shell process, else Hyprland when one is the
/// Hyprland compositor, else GNOME when one is `gnome-shell`, else Other.
pub proof fn desktop_name_law(comms: Seq<Seq<char>>)
    ensures
        desktop_name_of(comms) == (if exists|i: int| 0 <= i < comms.len() && is_kde_name(trim(#[trigger] comms[i])) {
            "KDE"@
        } else if exists|i: int| 0 <= i < comms.len() && is_hyprland_name(trim(#[trigger] comms[i])) {
            "Hyprland"@
        } else if exists|i: int| 0 <= i < comms.len() && trim(#[trigger] comms[i]) == "gnome-shell"@ {
            "GNOME"@
        } else {
            "Other"@
        }),
{
    reveal_strlit("plasmashell");
    reveal_strlit("kwin_wayland");
    reveal_strlit("kwin_x11");
    reveal_strlit("lxqt-policykit-agent");
    reveal_strlit("lxqt-policykit");
    reveal_strlit("hyprland");
    reveal_strlit("Hyprland");
    reveal_strlit("gnome-shell");
    assert("hyprland"@[0] != "kwin_x11"@[0]);
    assert("Hyprland"@[0] != "kwin_x11"@[0]);
    assert("gnome-shell"@[0] != "plasmashell"@[0]);
    assert forall|x: Seq<char>| #[trigger] is_hyprland_name(x) ==> !is_kde_name(x) by {}
    assert forall|x: Seq<char>| x == "gnome-shell"@ ==> !is_kde_name(x) && !is_hyprland_name(x) by {}
    assert forall|i: int| 0 <= i < comms.len() implies (desktop_of_comm(#[trigger] comms[i]) == DesktopKind::Kde
        <==> is_kde_name(trim(comms[i]))) && (desktop_of_comm(comms[i]) == DesktopKind::Hyprland
        <==> is_hyprland_name(trim(comms[i]))) && (desktop_of_comm(comms[i]) == DesktopKind::Gnome
        <==> trim(comms[i]) == "gnome-shell"@) by {
        let c = trim(comms[i]);
        if is_hyprland_name(c) {
            assert(!is_kde_name(c));
        }
        if c == "gnome-shell"@ {
            assert(!is_kde_name(c) && !is_hyprland_name(c));
        }
    }
}

/// An entry of `/proc`: its name, whether it is a directory, its owner, and
/// the contents of its `comm` file when they could be read.
pub struct ProcEntry {
    pub name: String,
    pub is_dir: bool,
    pub owner: u32,
    pub comm: Option<String>,
}

/// Whether an entry is a process of `uid` whose name could be read.
pub open spec fn process_of(e: ProcEntry, uid: u32) -> bool {
    e.is_dir && all_digits(e.name@) && e.owner == uid && e.comm is Some
}

/// The names of the processes of `uid`, in order.
pub open spec fn process_names(procs: Seq<ProcEntry>, uid: u32) -> Seq<Seq<char>>
    decreases procs.len(),
{
    if procs.len() == 0 {
        Seq::empty()
    } else {
        process_names(procs.drop_last(), uid) + if process_of(procs.last(), uid) {
            seq![procs.last().comm->0@]
        } else {
            Seq::empty()
        }
    }
}

/// The desktop environment of the user `uid`, from the entries of `/proc`.
pub fn detect_desktop_environment(uid: u32, procs: &[ProcEntry]) -> (r: String)
    ensures
        r@ == desktop_name_of(process_names(procs@, uid)),
{
    let mut comms: Vec<String> = Vec::new();
    let mut i: usize = 0;
    while i < procs.len()
        invariant
            i <= procs.len(),
            string_seq_view(comms@) == process_names(procs@.take(i as int), uid),
        decreases procs.len() - i,
    {
        assert(procs@.take(i + 1).drop_last() == procs@.take(i as int));
        let e = &procs[i];
        let ghost before = string_seq_view(comms@);
        if e.is_dir && e.owner == uid && all_digits_exec(&chars_of(e.name.as_str())) {
            match &e.comm {
                Some(c) => {
                    let name = string_of(&chars_of(c.as_str()));
                    comms.push(name);
                    assert(string_seq_view(comms@) =~= before.push(c@));
                },
                None => {},
            }
        }
        assert(string_seq_view(comms@) =~= process_names(procs@.take(i + 1), uid)) by {
            let next = procs@.take(i + 1);
            assert(next.last() == procs@[i as int]);
        }
        i = i + 1;
    }
    assert(procs@.take(procs.len() as int) == procs@);
    desktop_of_comms(comms.as_slice())
}

// ---------------------------------------------------------------------------
// Confirmation and password input
// ---------------------------------------------------------------------------

/// Whether a key pressed at the confirmation prompt confirms: Enter only.
pub fn key_confirms(key: u8) -> (r: bool)
    ensures
        r == (key == 10 || key == 13),
{
    key == 10 || key == 13
}

/// Whether the answer to the confirmation question over the PAM conversation
/// confirms: an empty answer does; no answer does not.
pub fn conversation_confirms(response: Option<&str>) -> (r: bool)
    ensures
        r == match response {
            Some(s) => s@.len() == 0,
            None => false,
        },
{
    match response {
        Some(s) => s.unicode_len() == 0,
        None => false,
    }
}

/// `s` without its trailing line-ending characters (`\n` and `\r`).
pub open spec fn strip_line_endings(s: Seq<char>) -> Seq<char>
    decreases s.len(),
{
    if s.len() > 0 && (s.last() == '\n' || s.last() == '\r') {
        strip_line_endings(s.drop_last())
    } else {
        s
    }
}

/// The password typed on the terminal, without the line ending of the read.
pub fn typed_password(line: &str) -> (r: String)
    ensures
        r@ == strip_line_endings(line@),
{
    let cs = chars_of(line);
    let mut n: usize = cs.len();
    assert(cs@.take(n as int) == line@);
    while n > 0 && (cs[n - 1] == '\n' || cs[n - 1] == '\r')
        invariant
            n <= cs.len(),
            strip_line_endings(line@) == strip_line_endings(cs@.take(n as int)),
        decreases n,
    {
        assert(cs@.take(n as int).drop_last() == cs@.take(n - 1));
        n = n - 1;
    }
    assert(cs@.take(cs.len() as int) == cs@);
    string_of(crate::text::slice_vec(&cs, 0, n).as_slice())
}

// ---------------------------------------------------------------------------
// Face-and-password authentication
// ---------------------------------------------------------------------------

/// What a PAM module answers: a return code, and a password to hand on to
/// the next module as the authentication token.
pub struct Verdict {
    pub code: i32,
    pub stash: Option<String>,
}

/// How the face verification ended.
#[derive(Clone, Copy, Debug, PartialEq, Eq, Structural)]
pub enum BiometricOutcome {
    Matched,
    NotMatched,
    /// The daemon declined to verify (no opinion).
    Skipped,
    /// It failed or timed out.
    Failed,
}

pub open spec fn biometric_code_of(o: BiometricOutcome) -> Option<i32> {
    match o {
        BiometricOutcome::Matched => Some(PAM_SUCCESS),
        BiometricOutcome::NotMatched => Some(PAM_AUTH_ERR),
        BiometricOutcome::Skipped => Some(PAM_IGNORE),
        BiometricOutcome::Failed => None,
    }
}

/// The PAM code of a face verification; none when it failed or timed out.
pub fn biometric_code(o: BiometricOutcome) -> (r: Option<i32>)
    ensures
        r == biometric_code_of(o),
{
    match o {
        BiometricOutcome::Matched => Some(PAM_SUCCESS),
        BiometricOutcome::NotMatched => Some(PAM_AUTH_ERR),
        BiometricOutcome::Skipped => Some(PAM_IGNORE),
        BiometricOutcome::Failed => None,
    }
}

/// Whether the PAM service is the polkit agent's.
pub fn is_polkit_service(service: Option<&str>) -> (r: bool)
    ensures
        r == match service {
            Some(s) => s@ == "polkit-1"@,
            None => false,
        },
{
    match service {
        Some(s) => str_eq(s, "polkit-1"),
        None => false,
    }
}

pub open spec fn fallback_verdict(response: Option<Seq<char>>) -> (i32, Option<Seq<char>>) {
    match response {
        Some(pw) => (PAM_AUTHINFO_UNAVAIL, Some(pw)),
        None => (PAM_AUTH_ERR, None),
    }
}

impl Verdict {
    pub open spec fn view(&self) -> (i32, Option<Seq<char>>) {
        (
            self.code,
            match self.stash {
                Some(s) => Some(s@),
                None => None,
            },
        )
    }
}

/// Falls back to the password prompt: a typed password is handed on to the
/// next module (which then need not prompt again); no password fails.
pub fn password_fallback(response: Option<String>) -> (r: Verdict)
    ensures
        r@ == fallback_verdict(
            match response {
                Some(s) => Some(s@),
                None => None,
            },
        ),
{
    match response {
        Some(pw) => Verdict { code: PAM_AUTHINFO_UNAVAIL, stash: Some(pw) },
        None => Verdict { code: PAM_AUTH_ERR, stash: None },
    }
}

/// Which of the two racing inputs came first.
pub enum RaceWinner {
    /// The password prompt finished first.
    Password,
    /// The face verification finished first, with this code (none on failure).
    Biometric(Option<i32>),
}

/// What to do once the race between face and password is decided.
#[derive(Clone, Copy, Debug, PartialEq, Eq, Structural)]
pub enum AfterRace {
    /// Wait for the password prompt and fall back with its answer.
    FallBack,
    /// Retire the password prompt and succeed.
    RetireAndSucceed,
    /// Retire the password prompt and ask for confirmation on the terminal.
    RetireAndConfirm,
    /// Succeed without confirmation: no channel can ask for it without hanging.
    Succeed,
    /// Ask for confirmation the way the active desktop allows.
    ConfirmOnDesktop,
}

pub open spec fn after_race_of(
    winner: RaceWinner,
    require_confirmation: bool,
    is_polkit: bool,
    tty_prompt: bool,
) -> AfterRace {
    match winner {
        RaceWinner::Password => AfterRace::FallBack,
        RaceWinner::Biometric(code) => if code != Some(PAM_SUCCESS) {
            AfterRace::FallBack
        } else if !require_confirmation {
            AfterRace::RetireAndSucceed
        } else if !is_polkit {
            if tty_prompt {
                AfterRace::RetireAndConfirm
            } else {
                AfterRace::Succeed
            }
        } else {
            AfterRace::ConfirmOnDesktop
        },
    }
}

/// Decides what follows the race between the face and the password prompt.
pub fn after_race(winner: &RaceWinner, require_confirmation: bool, is_polkit: bool, tty_prompt: bool) -> (r:
    AfterRace)
    ensures
        r == after_race_of(*winner, require_confirmation, is_polkit, tty_prompt),
{
    match winner {
        RaceWinner::Password => AfterRace::FallBack,
        RaceWinner::Biometric(code) => {
            let matched = match code {
                Some(c) => *c == PAM_SUCCESS,
                None => false,
            };
            if !matched {
                AfterRace::FallBack
            } else if !require_confirmation {
                AfterRace::RetireAndSucceed
            } else if !is_polkit {
                if tty_prompt {
                    AfterRace::RetireAndConfirm
                } else {
                    AfterRace::Succeed
                }
            } else {
                AfterRace::ConfirmOnDesktop
            }
        },
    }
}

/// The module succeeds without a password only after a face match.
pub proof fn success_needs_face_match(
    winner: RaceWinner,
    require_confirmation: bool,
    is_polkit: bool,
    tty_prompt: bool,
)
    ensures
        after_race_of(winner, require_confirmation, is_polkit, tty_prompt) != AfterRace::FallBack
            ==> winner == RaceWinner::Biometric(Some(PAM_SUCCESS)),
{
}

/// How a polkit authentication confirms a face match on the active desktop.
pub enum DesktopConfirmation {
    /// No confirmation channel: succeed.
    Succeed,
    /// Ask the GNOME extension, which answers `CONFIRM` or a password.
    ExtensionRequest,
    /// Show this prompt; an empty answer confirms.
    Prompt(&'static str),
}

pub open spec fn confirmation_of(desktop: Seq<char>, extension_active: bool) -> DesktopConfirmation {
    if desktop == "GNOME"@ {
        if extension_active {
            DesktopConfirmation::ExtensionRequest
        } else {
            DesktopConfirmation::Succeed
        }
    } else if desktop == "KDE"@ || desktop == "LXQt"@ {
        DesktopConfirmation::Prompt("Face Verified. Press OK to confirm.")
    } else if desktop == "Hyprland"@ {
        DesktopConfirmation::Prompt("Face Verified. Press Authenticate to confirm.")
    } else {
        DesktopConfirmation::Prompt("Face Verified. Press Enter to confirm.")
    }
}

/// The confirmation to use on a desktop; whether the GNOME extension is
/// active matters on GNOME only.
pub fn desktop_confirmation(desktop: &str, extension_active: bool) -> (r: DesktopConfirmation)
    ensures
        r == confirmation_of(desktop@, extension_active),
{
    if str_eq(desktop, "GNOME") {
        if extension_active {
            DesktopConfirmation::ExtensionRequest
        } else {
            DesktopConfirmation::Succeed
        }
    } else if str_eq(desktop, "KDE") || str_eq(desktop, "LXQt") {
        DesktopConfirmation::Prompt("Face Verified. Press OK to confirm.")
    } else if str_eq(desktop, "Hyprland") {
        DesktopConfirmation::Prompt("Face Verified. Press Authenticate to confirm.")
    } else {
        DesktopConfirmation::Prompt("Face Verified. Press Enter to confirm.")
    }
}

/// The text the GNOME extension recognises as a confirmation request.
pub const CONFIRMATION_REQUEST: &'static str = "GAZE_CONFIRMATION_REQUEST";

pub open spec fn confirmation_verdict_of(c: DesktopConfirmation, response: Option<Seq<char>>) -> (i32, Option<Seq<char>>) {
    match c {
        DesktopConfirmation::Succeed => (PAM_SUCCESS, None),
        DesktopConfirmation::ExtensionRequest => match response {
            Some(r) => if r == "CONFIRM"@ {
                (PAM_SUCCESS, None)
            } else {
                (PAM_AUTHINFO_UNAVAIL, Some(r))
            },
            None => (PAM_AUTH_ERR, None),
        },
        DesktopConfirmation::Prompt(_) => match response {
            Some(r) => if r.len() == 0 {
                (PAM_SUCCESS, None)
            } else {
                (PAM_AUTHINFO_UNAVAIL, Some(r))
            },
            None => (PAM_AUTH_ERR, None),
        },
    }
}

/// The verdict from the answer to a desktop confirmation: the expected
/// answer confirms; anything else typed is taken for a password and handed
/// on; no answer fails.
pub fn confirmation_verdict(c: &DesktopConfirmation, response: Option<String>) -> (r: Verdict)
    ensures
        r@ == confirmation_verdict_of(
            *c,
            match response {
                Some(s) => Some(s@),
                None => None,
            },
        ),
{
    match c {
        DesktopConfirmation::Succeed => Verdict { code: PAM_SUCCESS, stash: None },
        DesktopConfirmation::ExtensionRequest => match response {
            Some(r) => if str_eq(r.as_str(), "CONFIRM") {
                Verdict { code: PAM_SUCCESS, stash: None }
            } else {
                Verdict { code: PAM_AUTHINFO_UNAVAIL, stash: Some(r) }
            },
            None => Verdict { code: PAM_AUTH_ERR, stash: None },
        },
        DesktopConfirmation::Prompt(_) => match response {
            Some(r) => if r.unicode_len() == 0 {
                Verdict { code: PAM_SUCCESS, stash: None }
            } else {
                Verdict { code: PAM_AUTHINFO_UNAVAIL, stash: Some(r) }
            },
            None => Verdict { code: PAM_AUTH_ERR, stash: None },
        },
    }
}

// ---------------------------------------------------------------------------
// Camera-only authentication
// ---------------------------------------------------------------------------

/// How many frames the camera-only module tries.
pub const MAX_ATTEMPTS: usize = 10;

/// The result of one verification attempt on a frame.
#[derive(Clone, Copy, Debug, PartialEq, Eq, Structural)]
pub enum Attempt {
    /// No frame could be captured or encoded.
    NoFrame,
    /// The daemon compared the frame: whether it matched.
    Verified(bool),
    /// The daemon failed in a way worth retrying.
    Retryable,
    /// The daemon failed otherwise.
    Failed,
}

pub open spec fn attempt_code(a: Attempt) -> Option<i32> {
    match a {
        Attempt::Verified(true) => Some(PAM_SUCCESS),
        Attempt::Failed => Some(PAM_SERVICE_ERR),
        _ => None,
    }
}

/// The verdict of a run of attempts: that of the first decisive one (a match
/// succeeds, a hard failure is a service error), else an authentication error.
pub open spec fn attempts_code(attempts: Seq<Attempt>) -> i32
    decreases attempts.len(),
{
    if attempts.len() == 0 {
        PAM_AUTH_ERR
    } else {
        match attempt_code(attempts[0]) {
            Some(c) => c,
            None => attempts_code(attempts.drop_first()),
        }
    }
}

/// The attempts of the camera-only module: up to `MAX_ATTEMPTS` frames.
pub struct AttemptRun {
    made: usize,
    history: Ghost<Seq<Attempt>>,
}

impl AttemptRun {
    pub closed spec fn attempts(&self) -> Seq<Attempt> {
        self.history@
    }

    pub closed spec fn made(&self) -> nat {
        self.made as nat
    }

    #[verifier::type_invariant]
    closed spec fn inv(&self) -> bool {
        &&& self.made <= MAX_ATTEMPTS
        &&& self.history@.len() == self.made
    }

    pub fn new() -> (r: Self)
        ensures
            r.attempts() == Seq::<Attempt>::empty(),
            r.made() == 0,
    {
        AttemptRun { made: 0, history: Ghost(Seq::empty()) }
    }

    /// Records one attempt; returns the module's answer once it is decided:
    /// at the first decisive attempt, or after the last attempt.
    pub fn record(&mut self, a: Attempt) -> (r: Option<i32>)
        requires
            old(self).made() < MAX_ATTEMPTS,
            forall|i: int| 0 <= i < old(self).attempts().len() ==> attempt_code(#[trigger] old(self).attempts()[i]) is None,
        ensures
            final(self).attempts() == old(self).attempts().push(a),
            final(self).made() == old(self).made() + 1,
            match attempt_code(a) {
                Some(c) => r == Some(c),
                None => if final(self).made() == MAX_ATTEMPTS {
                    r == Some(PAM_AUTH_ERR)
                } else {
                    r is None
                },
            },
            r matches Some(c) ==> c == attempts_code(final(self).attempts()),
    {
        proof {
            use_type_invariant(&*self);
        }
        let ghost prev = self.history@;
        assert(prev == old(self).attempts());
        *self = AttemptRun { made: self.made + 1, history: Ghost(prev.push(a)) };
        proof {
            lemma_attempts_code_prefix(prev, a);
        }
        match a {
            Attempt::Verified(true) => Some(PAM_SUCCESS),
            Attempt::Failed => Some(PAM_SERVICE_ERR),
            _ => if self.made == MAX_ATTEMPTS {
                Some(PAM_AUTH_ERR)
            } else {
                None
            },
        }
    }
}

/// After indecisive attempts, the verdict is that of the next attempt, or an
/// authentication error when it is indecisive too.
pub proof fn lemma_attempts_code_prefix(prev: Seq<Attempt>, a: Attempt)
    requires
        forall|i: int| 0 <= i < prev.len() ==> attempt_code(#[trigger] prev[i]) is None,
    ensures
        attempts_code(prev.push(a)) == match attempt_code(a) {
            Some(c) => c,
            None => PAM_AUTH_ERR,
        },
    decreases prev.len(),
{
    if prev.len() == 0 {
        assert(prev.push(a).drop_first() =~= Seq::<Attempt>::empty());
        assert(prev.push(a)[0] == a);
        assert(attempts_code(Seq::<Attempt>::empty()) == PAM_AUTH_ERR);
    } else {
        assert(attempt_code(prev[0]) is None);
        assert(prev.push(a)[0] == prev[0]);
        assert(prev.push(a).drop_first() =~= prev.drop_first().push(a));
        assert forall|i: int| 0 <= i < prev.drop_first().len() implies attempt_code(
            #[trigger] prev.drop_first()[i],
        ) is None by {
            assert(prev.drop_first()[i] == prev[i + 1]);
        }
        lemma_attempts_code_prefix(prev.drop_first(), a);
    }
}

/// Whether authentication stops before the camera is used, and with which
/// code: no user name is an authentication error, a runtime that could not
/// be started leaves the module unavailable, and a user known to have no
/// enrolled face is ignored. When the enrollment query fails, the module goes
/// on and lets the daemon decide.
pub open spec fn precheck_code(has_username: bool, runtime_ready: bool, enrolled: Result<bool, String>) -> Option<i32> {
    if !has_username {
        Some(PAM_AUTH_ERR)
    } else if !runtime_ready {
        Some(PAM_AUTHINFO_UNAVAIL)
    } else if enrolled == Ok::<bool, String>(false) {
        Some(PAM_IGNORE)
    } else {
        None
    }
}

/// The code the module returns before trying the camera, if it stops there;
/// `enrolled` is whether the user has enrolled faces (or the query's error).
pub fn authentication_precheck(username: Option<&str>, runtime_ready: bool, enrolled: &Result<bool, String>) -> (r: Option<i32>)
    ensures
        r == precheck_code(username is Some, runtime_ready, *enrolled),
{
    if username.is_none() {
        Some(PAM_AUTH_ERR)
    } else if !runtime_ready {
        Some(PAM_AUTHINFO_UNAVAIL)
    } else {
        match enrolled {
            Ok(false) => Some(PAM_IGNORE),
            _ => None,
        }
    }
}

} // verus!
