//! Decisions of the command-line client: how capture statuses are shown,
//! what the enrollment and verification streams mean, how command outcomes
//! are reported, and the uninstall plan.

use vstd::prelude::*;
use crate::camera::pairs_view;
use crate::config::SecurityLevel;
use crate::doctor::strs_view;
use crate::status::{CaptureStatus, EnrollPrompt, capture_status_message, error_detail, dbus_error_message, dbus_is_file_not_found};
use crate::text::{concat2, concat3, contains, join, owned, str_eq};

verus! {

/// How a status line is coloured.
#[derive(Clone, Copy, Debug, PartialEq, Eq, Structural)]
pub enum Tone {
    Info,
    Good,
    Warn,
    Error,
}

pub open spec fn tone_of(status: CaptureStatus) -> Tone {
    match status {
        CaptureStatus::Ready | CaptureStatus::Usable => Tone::Good,
        CaptureStatus::Unused | CaptureStatus::NoFace => Tone::Error,
        _ => Tone::Warn,
    }
}

/// The tone of a capture status: good when the face is usable, an error
/// when there is no face, a warning for everything the user can fix.
pub fn capture_tone(status: CaptureStatus) -> (r: Tone)
    ensures
        r == tone_of(status),
{
    match status {
        CaptureStatus::Ready | CaptureStatus::Usable => Tone::Good,
        CaptureStatus::Unused | CaptureStatus::NoFace => Tone::Error,
        CaptureStatus::TooDark
        | CaptureStatus::Clipped
        | CaptureStatus::NotCentered
        | CaptureStatus::TooFar
        | CaptureStatus::TooClose => Tone::Warn,
    }
}

/// The status line while verifying `user`.
pub open spec fn auth_status_text(user: Seq<char>, status: CaptureStatus) -> Seq<char> {
    match status {
        CaptureStatus::Ready | CaptureStatus::Usable => "Scanning face for "@ + user + "..."@,
        _ => capture_status_message(status),
    }
}

pub fn auth_status_message(user: &str, status: CaptureStatus) -> (r: String)
    ensures
        r@ == auth_status_text(user@, status),
{
    match status {
        CaptureStatus::Ready | CaptureStatus::Usable => concat3("Scanning face for ", user, "..."),
        _ => owned(status.message()),
    }
}

/// What an enrollment progress signal means for the client.
#[derive(Clone, Copy, Debug, PartialEq, Eq, Structural)]
pub enum EnrollProgress {
    /// Keep waiting for further signals.
    Continue,
    /// Enrollment finished and the captures were saved.
    Completed,
    /// Enrollment ended without saving.
    Failed,
}

pub open spec fn progress_of(prompt: EnrollPrompt, is_done: bool) -> EnrollProgress {
    if prompt == EnrollPrompt::DbFailed || prompt == EnrollPrompt::Cancelled {
        EnrollProgress::Failed
    } else if is_done && prompt == EnrollPrompt::Completed {
        EnrollProgress::Completed
    } else if is_done {
        EnrollProgress::Failed
    } else {
        EnrollProgress::Continue
    }
}

/// Reads an enrollment signal: a database failure or a cancellation ends it
/// as failed whatever else it says; a final signal completes it only with
/// the `Completed` prompt.
pub fn enroll_progress(prompt: EnrollPrompt, is_done: bool) -> (r: EnrollProgress)
    ensures
        r == progress_of(prompt, is_done),
{
    match prompt {
        EnrollPrompt::DbFailed | EnrollPrompt::Cancelled => EnrollProgress::Failed,
        EnrollPrompt::Completed => if is_done {
            EnrollProgress::Completed
        } else {
            EnrollProgress::Continue
        },
        _ => if is_done {
            EnrollProgress::Failed
        } else {
            EnrollProgress::Continue
        },
    }
}

/// Which similarity percentage describes a matched face.
#[derive(Clone, Copy, Debug, PartialEq, Eq, Structural)]
pub enum MatchPercent {
    /// Both streams passed: the larger of the two.
    Larger,
    Rgb,
    Ir,
}

pub open spec fn first_passing(passes: Seq<(bool, bool)>) -> Option<int> {
    if exists|i: int| 0 <= i < passes.len() && (passes[i].0 || passes[i].1) {
        Some(choose|i: int| 0 <= i < passes.len() && (passes[i].0 || passes[i].1) && forall|k: int|
            0 <= k < i ==> !(#[trigger] passes[k].0 || passes[k].1))
    } else {
        None
    }
}

pub open spec fn percent_of(rgb: bool, ir: bool) -> MatchPercent {
    if rgb && ir {
        MatchPercent::Larger
    } else if rgb {
        MatchPercent::Rgb
    } else {
        MatchPercent::Ir
    }
}

/// The face reported for a successful verification: the first whose RGB or
/// IR comparison passed, given each face's `(rgb_passed, ir_passed)`, and
/// which of its percentages to show.
pub fn matched_face(passes: &[(bool, bool)]) -> (r: Option<(usize, MatchPercent)>)
    ensures
        match r {
            Some((i, p)) => first_passing(passes@) == Some(i as int) && p == percent_of(
                passes@[i as int].0,
                passes@[i as int].1,
            ),
            None => first_passing(passes@) is None,
        },
{
    let mut i: usize = 0;
    while i < passes.len()
        invariant
            i <= passes.len(),
            forall|k: int| 0 <= k < i ==> !(#[trigger] passes@[k].0 || passes@[k].1),
        decreases passes.len() - i,
    {
        let (rgb, ir) = passes[i];
        assert(passes@[i as int] == (rgb, ir));
        if rgb || ir {
            proof {
                let ii = i as int;
                assert(0 <= ii < passes@.len() && (passes@[ii].0 || passes@[ii].1) && forall|k: int|
                    0 <= k < ii ==> !(#[trigger] passes@[k].0 || passes@[k].1));
                let c = choose|j: int| 0 <= j < passes@.len() && (passes@[j].0 || passes@[j].1) && forall|k: int|
                    0 <= k < j ==> !(#[trigger] passes@[k].0 || passes@[k].1);
                assert(c == ii) by {
                    if c < ii {
                        assert(!(passes@[c].0 || passes@[c].1));
                    } else if c > ii {
                        assert(!(passes@[ii].0 || passes@[ii].1));
                    }
                }
            }
            let p = if rgb && ir {
                MatchPercent::Larger
            } else if rgb {
                MatchPercent::Rgb
            } else {
                MatchPercent::Ir
            };
            return Some((i, p));
        }
        assert(!(passes@[i as int].0 || passes@[i as int].1));
        i = i + 1;
    }
    None
}

// ---------------------------------------------------------------------------
// Outcomes of face management commands
// ---------------------------------------------------------------------------

/// A line to print: how it is marked, and its text.
pub struct Notice {
    pub tone: Tone,
    pub text: String,
}

pub open spec fn notice(tone: Tone, text: Seq<char>) -> (Tone, Seq<char>) {
    (tone, text)
}

impl Notice {
    pub open spec fn view(&self) -> (Tone, Seq<char>) {
        (self.tone, self.text@)
    }
}

/// What removing a face reported.
pub open spec fn removal_notice(user: Seq<char>, face: Seq<char>, outcome: Result<bool, String>) -> (Tone, Seq<char>) {
    match outcome {
        Ok(true) => notice(Tone::Good, "Face '"@ + face + "' removed for '"@ + user + "'"@),
        Ok(false) => notice(Tone::Warn, "Face '"@ + face + "' not found for '"@ + user + "'"@),
        Err(e) => notice(Tone::Error, "Failed to remove face: "@ + error_detail(e@)),
    }
}

/// `a + x + b + y` as a new `String`.
fn cat4(a: &str, x: &str, b: &str, y: &str) -> (r: String)
    ensures
        r@ == a@ + x@ + b@ + y@,
{
    let s = concat3(a, x, b);
    concat2(s.as_str(), y)
}

pub fn remove_face_notice(user: &str, face: &str, outcome: &Result<bool, String>) -> (r: Notice)
    ensures
        r@ == removal_notice(user@, face@, *outcome),
{
    match outcome {
        Ok(true) => {
            let t = cat4("Face '", face, "' removed for '", user);
            Notice { tone: Tone::Good, text: concat2(t.as_str(), "'") }
        },
        Ok(false) => {
            let t = cat4("Face '", face, "' not found for '", user);
            Notice { tone: Tone::Warn, text: concat2(t.as_str(), "'") }
        },
        Err(e) => {
            let d = dbus_error_message(e.as_str());
            Notice { tone: Tone::Error, text: concat2("Failed to remove face: ", d.as_str()) }
        },
    }
}

/// What renaming a face reported.
pub open spec fn rename_notice(user: Seq<char>, from: Seq<char>, to: Seq<char>, outcome: Result<bool, String>) -> (Tone, Seq<char>) {
    match outcome {
        Ok(true) => notice(
            Tone::Good,
            "Face '"@ + from + "' renamed to '"@ + to + "' for '"@ + user + "'"@,
        ),
        Ok(false) => notice(Tone::Warn, "Face '"@ + from + "' not found for '"@ + user + "'"@),
        Err(e) => notice(Tone::Error, "Failed to rename face: "@ + error_detail(e@)),
    }
}

pub fn rename_face_notice(user: &str, from: &str, to: &str, outcome: &Result<bool, String>) -> (r:
    Notice)
    ensures
        r@ == rename_notice(user@, from@, to@, *outcome),
{
    match outcome {
        Ok(true) => {
            let a = cat4("Face '", from, "' renamed to '", to);
            let t = cat4(a.as_str(), "' for '", user, "'");
            Notice { tone: Tone::Good, text: t }
        },
        Ok(false) => {
            let t = cat4("Face '", from, "' not found for '", user);
            Notice { tone: Tone::Warn, text: concat2(t.as_str(), "'") }
        },
        Err(e) => {
            let d = dbus_error_message(e.as_str());
            Notice { tone: Tone::Error, text: concat2("Failed to rename face: ", d.as_str()) }
        },
    }
}

/// What clearing a user's data reported.
pub open spec fn clear_notice(user: Seq<char>, outcome: Result<bool, String>) -> (Tone, Seq<char>) {
    match outcome {
        Ok(true) => notice(Tone::Good, "All data cleared for '"@ + user + "'"@),
        Ok(false) => notice(Tone::Warn, "No data found for '"@ + user + "'"@),
        Err(e) => notice(Tone::Error, "Failed to clear user: "@ + error_detail(e@)),
    }
}

pub fn clear_user_notice(user: &str, outcome: &Result<bool, String>) -> (r: Notice)
    ensures
        r@ == clear_notice(user@, *outcome),
{
    match outcome {
        Ok(true) => Notice { tone: Tone::Good, text: concat3("All data cleared for '", user, "'") },
        Ok(false) => Notice { tone: Tone::Warn, text: concat3("No data found for '", user, "'") },
        Err(e) => {
            let d = dbus_error_message(e.as_str());
            Notice { tone: Tone::Error, text: concat2("Failed to clear user: ", d.as_str()) }
        },
    }
}

/// What listing faces reported when no list came back: no faces when the
/// daemon knows none, else the failure.
pub open spec fn list_failure_notice(user: Seq<char>, e: Seq<char>) -> (Tone, Seq<char>) {
    if contains(e, "FileNotFound"@) {
        notice(Tone::Info, "No faces found for "@ + user)
    } else {
        notice(Tone::Error, "Failed to fetch faces: "@ + error_detail(e))
    }
}

pub fn list_faces_failure_notice(user: &str, error: &str) -> (r: Notice)
    ensures
        r@ == list_failure_notice(user@, error@),
{
    if dbus_is_file_not_found(error) {
        Notice { tone: Tone::Info, text: concat2("No faces found for ", user) }
    } else {
        let d = dbus_error_message(error);
        Notice { tone: Tone::Error, text: concat2("Failed to fetch faces: ", d.as_str()) }
    }
}

// ---------------------------------------------------------------------------
// The uninstall plan
// ---------------------------------------------------------------------------

/// The words of a shell command joined by single spaces.
fn join_words(parts: &[&'static str]) -> (r: String)
    ensures
        r@ == join(strs_view(parts@), " "@),
{
    let mut out = String::new();
    let mut i: usize = 0;
    while i < parts.len()
        invariant
            i <= parts.len(),
            out@ == join(strs_view(parts@).take(i as int), " "@),
        decreases parts.len() - i,
    {
        let ghost prev = strs_view(parts@).take(i as int);
        let ghost next = strs_view(parts@).take(i + 1);
        assert(next.drop_last() == prev);
        assert(next.last() == parts@[i as int]@);
        if i > 0 {
            out.append(" ");
        }
        out.append(parts[i]);
        i = i + 1;
    }
    assert(strs_view(parts@).take(parts.len() as int) == strs_view(parts@));
    out
}

pub open spec fn reset_gnome_parts() -> Seq<Seq<char>> {
    seq![
        "if command -v getent >/dev/null 2>&1 && command -v dbus-run-session >/dev/null 2>&1; then"@,
        "getent passwd | while IFS=: read -r user _ uid _ _ home _; do"@,
        r#"{ [ "$uid" -ge 1000 ] 2>/dev/null || [ "$user" = gdm ] || [ "$user" = gdm3 ] || [ "$user" = Debian-gdm ]; } || continue;"#@,
        r#"[ -d "$home" ] || continue;"#@,
        r#"dconf_profile="";"#@,
        r#"case "$user" in gdm|gdm3|Debian-gdm) dconf_profile="DCONF_PROFILE=gdm" ;; esac;"#@,
        r#"sudo -u "$user" env HOME="$home" $dconf_profile dbus-run-session sh -c 'EXT_ID="gaze@gundulabs.com";"#@,
        "if command -v gsettings >/dev/null 2>&1; then"@,
        "current=$(gsettings get org.gnome.shell enabled-extensions 2>/dev/null || true);"@,
        r#"case "$current" in *"$EXT_ID"*)"#@,
        r#"next=$(printf "%s" "$current" | sed "s/\047$EXT_ID\047, //; s/, \047$EXT_ID\047//; s/\047$EXT_ID\047//");"#@,
        r#"gsettings set org.gnome.shell enabled-extensions "$next" 2>/dev/null || true;;"#@,
        "esac;"@,
        "gsettings reset-recursively org.gnome.shell.extensions.gaze 2>/dev/null || true;"@,
        "fi;"@,
        "if command -v dconf >/dev/null 2>&1; then"@,
        "dconf reset -f /org/gnome/shell/extensions/gaze/ 2>/dev/null || true;"@,
        "fi' || true;"@,
        "done; fi"@
    ]
}

/// Disables the GNOME extension and resets its settings for every login user
/// and the GDM greeter.
pub fn reset_gnome_user_settings_cmd() -> (r: String)
    ensures
        r@ == join(reset_gnome_parts(), " "@),
{
    let parts: [&'static str; 19] = [
        "if command -v getent >/dev/null 2>&1 && command -v dbus-run-session >/dev/null 2>&1; then",
        "getent passwd | while IFS=: read -r user _ uid _ _ home _; do",
        r#"{ [ "$uid" -ge 1000 ] 2>/dev/null || [ "$user" = gdm ] || [ "$user" = gdm3 ] || [ "$user" = Debian-gdm ]; } || continue;"#,
        r#"[ -d "$home" ] || continue;"#,
        r#"dconf_profile="";"#,
        r#"case "$user" in gdm|gdm3|Debian-gdm) dconf_profile="DCONF_PROFILE=gdm" ;; esac;"#,
        r#"sudo -u "$user" env HOME="$home" $dconf_profile dbus-run-session sh -c 'EXT_ID="gaze@gundulabs.com";"#,
        "if command -v gsettings >/dev/null 2>&1; then",
        "current=$(gsettings get org.gnome.shell enabled-extensions 2>/dev/null || true);",
        r#"case "$current" in *"$EXT_ID"*)"#,
        r#"next=$(printf "%s" "$current" | sed "s/\047$EXT_ID\047, //; s/, \047$EXT_ID\047//; s/\047$EXT_ID\047//");"#,
        r#"gsettings set org.gnome.shell enabled-extensions "$next" 2>/dev/null || true;;"#,
        "esac;",
        "gsettings reset-recursively org.gnome.shell.extensions.gaze 2>/dev/null || true;",
        "fi;",
        "if command -v dconf >/dev/null 2>&1; then",
        "dconf reset -f /org/gnome/shell/extensions/gaze/ 2>/dev/null || true;",
        "fi' || true;",
        "done; fi"
    ];
    let r = join_words(&parts);
    assert(strs_view(parts@) =~= reset_gnome_parts());
    r
}

pub open spec fn remove_gdm_parts() -> Seq<Seq<char>> {
    seq![
        "sudo rm -f /etc/dconf/db/gdm.d/00-gaze-defaults* /etc/dconf/db/gdm.d/99-gaze* &&"@,
        "if command -v dconf >/dev/null 2>&1; then"@,
        "sudo dconf update >/dev/null 2>&1 || true;"@,
        "fi"@
    ]
}

/// Removes the GDM dconf overrides and rebuilds the dconf database.
pub fn remove_gdm_dconf_overrides_cmd() -> (r: String)
    ensures
        r@ == join(remove_gdm_parts(), " "@),
{
    let parts: [&'static str; 4] = [
        "sudo rm -f /etc/dconf/db/gdm.d/00-gaze-defaults* /etc/dconf/db/gdm.d/99-gaze* &&",
        "if command -v dconf >/dev/null 2>&1; then",
        "sudo dconf update >/dev/null 2>&1 || true;",
        "fi"
    ];
    let r = join_words(&parts);
    assert(strs_view(parts@) =~= remove_gdm_parts());
    r
}

pub open spec fn restore_authselect_parts() -> Seq<Seq<char>> {
    seq![
        "if [ -f /etc/gaze/authselect.previous ]; then"@,
        r#"profile=$(sudo sed -n 's/^Profile ID:[[:space:]]*//p' /etc/gaze/authselect.previous);"#@,
        r#"features=$(sudo sed -n 's/^- //p' /etc/gaze/authselect.previous | tr '\n' ' ');"#@,
        r#"if [ -n "$profile" ]; then"#@,
        r#"sudo authselect select "$profile" $features --force 2>/dev/null || true;"#@,
        "else"@,
        "sudo authselect select sssd --force 2>/dev/null || true;"@,
        "fi;"@,
        "else"@,
        "sudo authselect select sssd --force 2>/dev/null || true;"@,
        "fi"@
    ]
}

/// Restores the authselect profile saved at install time, or `sssd`.
pub fn restore_authselect_cmd() -> (r: String)
    ensures
        r@ == join(restore_authselect_parts(), " "@),
{
    let parts: [&'static str; 11] = [
        "if [ -f /etc/gaze/authselect.previous ]; then",
        r#"profile=$(sudo sed -n 's/^Profile ID:[[:space:]]*//p' /etc/gaze/authselect.previous);"#,
        r#"features=$(sudo sed -n 's/^- //p' /etc/gaze/authselect.previous | tr '\n' ' ');"#,
        r#"if [ -n "$profile" ]; then"#,
        r#"sudo authselect select "$profile" $features --force 2>/dev/null || true;"#,
        "else",
        "sudo authselect select sssd --force 2>/dev/null || true;",
        "fi;",
        "else",
        "sudo authselect select sssd --force 2>/dev/null || true;",
        "fi"
    ];
    let r = join_words(&parts);
    assert(strs_view(parts@) =~= restore_authselect_parts());
    r
}

pub open spec fn refresh_gnome_parts() -> Seq<Seq<char>> {
    seq![
        "if command -v dconf >/dev/null 2>&1; then"@,
        "sudo dconf update >/dev/null 2>&1 || true;"@,
        "fi;"@,
        "if command -v glib-compile-schemas >/dev/null 2>&1; then"@,
        "sudo glib-compile-schemas /usr/share/glib-2.0/schemas >/dev/null 2>&1 || true;"@,
        "fi"@
    ]
}

/// Rebuilds the dconf database and the GSettings schemas.
pub fn refresh_gnome_system_settings_cmd() -> (r: String)
    ensures
        r@ == join(refresh_gnome_parts(), " "@),
{
    let parts: [&'static str; 6] = [
        "if command -v dconf >/dev/null 2>&1; then",
        "sudo dconf update >/dev/null 2>&1 || true;",
        "fi;",
        "if command -v glib-compile-schemas >/dev/null 2>&1; then",
        "sudo glib-compile-schemas /usr/share/glib-2.0/schemas >/dev/null 2>&1 || true;",
        "fi"
    ];
    let r = join_words(&parts);
    assert(strs_view(parts@) =~= refresh_gnome_parts());
    r
}

pub const DISABLE_EXTENSION_CMD: &'static str = "gnome-extensions disable gaze@gundulabs.com 2>/dev/null || true";
pub const REMOVE_PAM_PROFILE_CMD: &'static str = "sudo pam-auth-update --package --remove gaze 2>/dev/null || true";
pub const HYPRLOCK_CLEANUP_CMD: &'static str = "for d in /home/*/.config/hypr /root/.config/hypr; do \
          f=\"$d/hyprlock.conf\"; \
          [ -f \"$f\" ] || continue; \
          sudo sed -i.gaze-uninstall-bak \
            '/^\\s*pam_module\\s*=\\s*hyprlock-gaze\\(-simultaneous\\)\\?\\s*$/d' \"$f\" || true; \
          done";
pub const STOP_DAEMON_CMD: &'static str = "sudo systemctl disable --now gazed 2>/dev/null || true";
pub const APT_REMOVE_CMD: &'static str = "sudo apt-get remove --purge -y gaze gaze-gui gaze-gnome-extension gaze-hyprlock 2>/dev/null || true";
pub const APT_REPO_CMD: &'static str = "sudo rm -f /etc/apt/sources.list.d/gundulabs.list \
              /usr/share/keyrings/gundulabs-archive-keyring.gpg && \
              sudo apt-get update 2>/dev/null || true";
pub const DNF_REMOVE_CMD: &'static str = "sudo dnf remove -y gaze gaze-gui gaze-gnome-extension gaze-hyprlock 2>/dev/null || true";
pub const DNF_REPO_CMD: &'static str = "sudo rm -f /etc/yum.repos.d/gundulabs.repo";
pub const PACMAN_REMOVE_CMD: &'static str = "for pkg in gaze gaze-gui gaze-gnome-extension gaze-hyprlock gaze-bin gaze-gui-bin \
              gaze-gnome-extension-bin gaze-hyprlock-bin; do \
              if pacman -Q \"$pkg\" >/dev/null 2>&1; then \
              sudo pacman -Rns --noconfirm \"$pkg\" || true; \
              fi; \
              done";
pub const PACMAN_REPO_CMD: &'static str = "sudo sed -i '/^\\[gaze\\]/,/^$/d' /etc/pacman.conf && \
              sudo rm -f /etc/pacman.d/gaze-mirrorlist";
pub const SELINUX_CMD: &'static str = "sudo semodule -r gaze-gdm-camera 2>/dev/null || true";
pub const MODEL_CACHE_CMD: &'static str = "sudo rm -rf /var/cache/gaze";
pub const CONFIG_DIR_CMD: &'static str = "sudo rm -rf /etc/gaze";
pub const FACE_DATA_CMD: &'static str = "sudo rm -rf /var/lib/gaze";
pub const RELOAD_SYSTEMD_CMD: &'static str = "sudo systemctl daemon-reload";

/// Which tools the uninstall plan finds on the system.
pub struct UninstallTools {
    pub gnome_extensions: bool,
    pub pam_auth_update: bool,
    pub authselect: bool,
    pub apt_get: bool,
    pub dnf: bool,
    pub pacman: bool,
    pub semodule: bool,
}

pub open spec fn plan_view(v: Seq<(&'static str, String)>) -> Seq<(Seq<char>, Seq<char>)> {
    v.map_values(|p: (&'static str, String)| (p.0@, p.1@))
}

pub open spec fn step_if(cond: bool, steps: Seq<(Seq<char>, Seq<char>)>) -> Seq<(Seq<char>, Seq<char>)> {
    if cond {
        steps
    } else {
        Seq::empty()
    }
}

/// The uninstall steps, each a description and a shell command: the GNOME
/// extension, desktop settings and PAM integration first, then the daemon,
/// the packages of the one package manager found (apt, else dnf, else
/// pacman), the SELinux policy, the cache and configuration, the enrolled
/// faces unless they are kept, and a final refresh.
pub open spec fn uninstall_plan(keep_data: bool, t: UninstallTools) -> Seq<(Seq<char>, Seq<char>)> {
    integration_steps(t) + package_steps(t) + cleanup_steps(keep_data, t)
}

/// The steps undoing the desktop and PAM integration, and stopping the daemon.
pub open spec fn integration_steps(t: UninstallTools) -> Seq<(Seq<char>, Seq<char>)> {
    step_if(t.gnome_extensions, seq![("Disable GNOME extension (best-effort)"@, DISABLE_EXTENSION_CMD@)])
        + seq![("Reset GNOME lock/login settings"@, join(reset_gnome_parts(), " "@))]
        + seq![("Remove GDM dconf overrides"@, join(remove_gdm_parts(), " "@))]
        + step_if(t.pam_auth_update, seq![("Remove Debian/Ubuntu PAM profile"@, REMOVE_PAM_PROFILE_CMD@)])
        + step_if(t.authselect, seq![("Restore authselect profile"@, join(restore_authselect_parts(), " "@))])
        + seq![("Remove hyprlock pam_module references"@, HYPRLOCK_CLEANUP_CMD@)]
        + seq![("Stop and disable daemon"@, STOP_DAEMON_CMD@)]
}

/// The steps removing the packages of the package manager found.
pub open spec fn package_steps(t: UninstallTools) -> Seq<(Seq<char>, Seq<char>)> {
    (if t.apt_get {
            seq![("Remove apt packages"@, APT_REMOVE_CMD@)] + seq![("Remove apt repo + keyring"@, APT_REPO_CMD@)]
        } else if t.dnf {
            seq![("Remove dnf packages"@, DNF_REMOVE_CMD@)] + seq![("Remove dnf repo"@, DNF_REPO_CMD@)]
        } else if t.pacman {
            seq![("Remove pacman packages"@, PACMAN_REMOVE_CMD@)] + seq![("Remove old pacman repo entry"@, PACMAN_REPO_CMD@)]
        } else {
            Seq::empty()
        })
}

/// The steps removing the policy, cache, configuration and (unless kept)
/// the enrolled faces, then refreshing the system.
pub open spec fn cleanup_steps(keep_data: bool, t: UninstallTools) -> Seq<(Seq<char>, Seq<char>)> {
    step_if(t.semodule, seq![("Remove SELinux policy"@, SELINUX_CMD@)])
        + seq![("Remove model cache"@, MODEL_CACHE_CMD@)]
        + seq![("Remove config"@, CONFIG_DIR_CMD@)]
        + step_if(!keep_data, seq![("Remove enrolled face data"@, FACE_DATA_CMD@)])
        + seq![("Refresh GNOME system settings"@, join(refresh_gnome_parts(), " "@))]
        + seq![("Reload systemd"@, RELOAD_SYSTEMD_CMD@)]
}

fn push_step(plan: &mut Vec<(&'static str, String)>, desc: &'static str, cmd: String)
    ensures
        plan_view(final(plan)@) == plan_view(old(plan)@).push((desc@, cmd@)),
{
    let ghost before = plan@;
    plan.push((desc, cmd));
    assert(plan_view(plan@) =~= plan_view(before).push((desc@, cmd@)));
}

fn push_integration_steps(plan: &mut Vec<(&'static str, String)>, tools: &UninstallTools)
    ensures
        plan_view(final(plan)@) == plan_view(old(plan)@) + integration_steps(*tools),
{
    let ghost start = plan_view(plan@);
    if tools.gnome_extensions {
        push_step(plan, "Disable GNOME extension (best-effort)", owned(DISABLE_EXTENSION_CMD));
    }
    push_step(plan, "Reset GNOME lock/login settings", reset_gnome_user_settings_cmd());
    push_step(plan, "Remove GDM dconf overrides", remove_gdm_dconf_overrides_cmd());
    if tools.pam_auth_update {
        push_step(plan, "Remove Debian/Ubuntu PAM profile", owned(REMOVE_PAM_PROFILE_CMD));
    }
    if tools.authselect {
        push_step(plan, "Restore authselect profile", restore_authselect_cmd());
    }
    push_step(plan, "Remove hyprlock pam_module references", owned(HYPRLOCK_CLEANUP_CMD));
    push_step(plan, "Stop and disable daemon", owned(STOP_DAEMON_CMD));
    assert(plan_view(plan@) =~= start + integration_steps(*tools));
}

fn push_package_steps(plan: &mut Vec<(&'static str, String)>, tools: &UninstallTools)
    ensures
        plan_view(final(plan)@) == plan_view(old(plan)@) + package_steps(*tools),
{
    let ghost start = plan_view(plan@);
    if tools.apt_get {
        push_step(plan, "Remove apt packages", owned(APT_REMOVE_CMD));
        push_step(plan, "Remove apt repo + keyring", owned(APT_REPO_CMD));
    } else if tools.dnf {
        push_step(plan, "Remove dnf packages", owned(DNF_REMOVE_CMD));
        push_step(plan, "Remove dnf repo", owned(DNF_REPO_CMD));
    } else if tools.pacman {
        push_step(plan, "Remove pacman packages", owned(PACMAN_REMOVE_CMD));
        push_step(plan, "Remove old pacman repo entry", owned(PACMAN_REPO_CMD));
    }
    assert(plan_view(plan@) =~= start + package_steps(*tools));
}

fn push_cleanup_steps(plan: &mut Vec<(&'static str, String)>, keep_data: bool, tools: &UninstallTools)
    ensures
        plan_view(final(plan)@) == plan_view(old(plan)@) + cleanup_steps(keep_data, *tools),
{
    let ghost start = plan_view(plan@);
    if tools.semodule {
        push_step(plan, "Remove SELinux policy", owned(SELINUX_CMD));
    }
    push_step(plan, "Remove model cache", owned(MODEL_CACHE_CMD));
    push_step(plan, "Remove config", owned(CONFIG_DIR_CMD));
    if !keep_data {
        push_step(plan, "Remove enrolled face data", owned(FACE_DATA_CMD));
    }
    push_step(plan, "Refresh GNOME system settings", refresh_gnome_system_settings_cmd());
    push_step(plan, "Reload systemd", owned(RELOAD_SYSTEMD_CMD));
    assert(plan_view(plan@) =~= start + cleanup_steps(keep_data, *tools));
}

/// The steps that uninstall Gaze, in order.
pub fn build_uninstall_plan(keep_data: bool, tools: &UninstallTools) -> (r: Vec<(&'static str, String)>)
    ensures
        plan_view(r@) == uninstall_plan(keep_data, *tools),
{
    let mut plan: Vec<(&'static str, String)> = Vec::new();
    push_integration_steps(&mut plan, tools);
    push_package_steps(&mut plan, tools);
    push_cleanup_steps(&mut plan, keep_data, tools);
    assert(plan_view(plan@) =~= uninstall_plan(keep_data, *tools));
    plan
}

/// Some step of a plan has this description.
pub open spec fn has_step(p: Seq<(Seq<char>, Seq<char>)>, d: Seq<char>) -> bool {
    exists|i: int| 0 <= i < p.len() && (#[trigger] p[i]).0 == d
}

proof fn lemma_has_step_add(a: Seq<(Seq<char>, Seq<char>)>, b: Seq<(Seq<char>, Seq<char>)>, d: Seq<char>)
    ensures
        has_step(a + b, d) <==> has_step(a, d) || has_step(b, d),
{
    if has_step(a + b, d) {
        let i = choose|i: int| 0 <= i < (a + b).len() && (#[trigger] (a + b)[i]).0 == d;
        if i < a.len() {
            assert(a[i] == (a + b)[i]);
        } else {
            assert(b[i - a.len()] == (a + b)[i]);
        }
    }
    if has_step(a, d) {
        let i = choose|i: int| 0 <= i < a.len() && (#[trigger] a[i]).0 == d;
        assert((a + b)[i] == a[i]);
    }
    if has_step(b, d) {
        let i = choose|i: int| 0 <= i < b.len() && (#[trigger] b[i]).0 == d;
        assert((a + b)[i + a.len()] == b[i]);
    }
}

proof fn lemma_has_step_one(x: (Seq<char>, Seq<char>), d: Seq<char>)
    ensures
        has_step(seq![x], d) <==> x.0 == d,
        !has_step(Seq::<(Seq<char>, Seq<char>)>::empty(), d),
{
    assert(seq![x][0] == x);
}

/// Of every uninstall plan: it ends by reloading systemd; it always removes
/// the model cache and the configuration; it removes the enrolled faces
/// exactly when they are not kept; and it removes the packages of one
/// package manager only, the first found of apt, dnf and pacman.
pub proof fn uninstall_plan_law(keep_data: bool, t: UninstallTools)
    ensures
        uninstall_plan(keep_data, t).last() == ("Reload systemd"@, RELOAD_SYSTEMD_CMD@),
        has_step(uninstall_plan(keep_data, t), "Remove model cache"@),
        has_step(uninstall_plan(keep_data, t), "Remove config"@),
        has_step(uninstall_plan(keep_data, t), "Remove enrolled face data"@) <==> !keep_data,
        has_step(uninstall_plan(keep_data, t), "Remove apt packages"@) <==> t.apt_get,
        has_step(uninstall_plan(keep_data, t), "Remove dnf packages"@) <==> !t.apt_get && t.dnf,
        has_step(uninstall_plan(keep_data, t), "Remove pacman packages"@) <==> !t.apt_get && !t.dnf
            && t.pacman,
{
    reveal_strlit("Disable GNOME extension (best-effort)");
    reveal_strlit("Reset GNOME lock/login settings");
    reveal_strlit("Remove GDM dconf overrides");
    reveal_strlit("Remove Debian/Ubuntu PAM profile");
    reveal_strlit("Restore authselect profile");
    reveal_strlit("Remove hyprlock pam_module references");
    reveal_strlit("Stop and disable daemon");
    reveal_strlit("Remove apt packages");
    reveal_strlit("Remove apt repo + keyring");
    reveal_strlit("Remove dnf packages");
    reveal_strlit("Remove dnf repo");
    reveal_strlit("Remove pacman packages");
    reveal_strlit("Remove old pacman repo entry");
    reveal_strlit("Remove SELinux policy");
    reveal_strlit("Remove model cache");
    reveal_strlit("Remove config");
    reveal_strlit("Remove enrolled face data");
    reveal_strlit("Refresh GNOME system settings");
    reveal_strlit("Reload systemd");
    let i = integration_steps(t);
    let p = package_steps(t);
    let c = cleanup_steps(keep_data, t);
    let plan = uninstall_plan(keep_data, t);
    assert(plan == i + p + c);
    assert(plan.last() == c.last());
    assert forall|d: Seq<char>| #[trigger] has_step(plan, d) <==> (has_step(i, d) || has_step(p, d) || has_step(c, d)) by {
        lemma_has_step_add(i + p, c, d);
        lemma_has_step_add(i, p, d);
    }
    // each part, one step at a time
    assert forall|d: Seq<char>| #[trigger] has_step(i, d) ==> d.len() != 18 && d.len() != 13 && (d.len() == 25 ==> false)
        && d.len() != 19 && d.len() != 22 by {
        let e = Seq::<(Seq<char>, Seq<char>)>::empty();
        let s1 = step_if(t.gnome_extensions, seq![("Disable GNOME extension (best-effort)"@, DISABLE_EXTENSION_CMD@)]);
        let s2 = seq![("Reset GNOME lock/login settings"@, join(reset_gnome_parts(), " "@))];
        let s3 = seq![("Remove GDM dconf overrides"@, join(remove_gdm_parts(), " "@))];
        let s4 = step_if(t.pam_auth_update, seq![("Remove Debian/Ubuntu PAM profile"@, REMOVE_PAM_PROFILE_CMD@)]);
        let s5 = step_if(t.authselect, seq![("Restore authselect profile"@, join(restore_authselect_parts(), " "@))]);
        let s6 = seq![("Remove hyprlock pam_module references"@, HYPRLOCK_CLEANUP_CMD@)];
        let s7 = seq![("Stop and disable daemon"@, STOP_DAEMON_CMD@)];
        assert(i == s1 + s2 + s3 + s4 + s5 + s6 + s7);
        lemma_has_step_add(s1 + s2 + s3 + s4 + s5 + s6, s7, d);
        lemma_has_step_add(s1 + s2 + s3 + s4 + s5, s6, d);
        lemma_has_step_add(s1 + s2 + s3 + s4, s5, d);
        lemma_has_step_add(s1 + s2 + s3, s4, d);
        lemma_has_step_add(s1 + s2, s3, d);
        lemma_has_step_add(s1, s2, d);
        lemma_has_step_one(("Disable GNOME extension (best-effort)"@, DISABLE_EXTENSION_CMD@), d);
        lemma_has_step_one(("Reset GNOME lock/login settings"@, join(reset_gnome_parts(), " "@)), d);
        lemma_has_step_one(("Remove GDM dconf overrides"@, join(remove_gdm_parts(), " "@)), d);
        lemma_has_step_one(("Remove Debian/Ubuntu PAM profile"@, REMOVE_PAM_PROFILE_CMD@), d);
        lemma_has_step_one(("Restore authselect profile"@, join(restore_authselect_parts(), " "@)), d);
        lemma_has_step_one(("Remove hyprlock pam_module references"@, HYPRLOCK_CLEANUP_CMD@), d);
        lemma_has_step_one(("Stop and disable daemon"@, STOP_DAEMON_CMD@), d);
    }
    assert forall|d: Seq<char>| #[trigger] has_step(p, d) <==> (
        (t.apt_get && (d == "Remove apt packages"@ || d == "Remove apt repo + keyring"@))
        || (!t.apt_get && t.dnf && (d == "Remove dnf packages"@ || d == "Remove dnf repo"@))
        || (!t.apt_get && !t.dnf && t.pacman && (d == "Remove pacman packages"@ || d == "Remove old pacman repo entry"@))) by {
        let a1 = ("Remove apt packages"@, APT_REMOVE_CMD@);
        let a2 = ("Remove apt repo + keyring"@, APT_REPO_CMD@);
        let d1 = ("Remove dnf packages"@, DNF_REMOVE_CMD@);
        let d2 = ("Remove dnf repo"@, DNF_REPO_CMD@);
        let p1 = ("Remove pacman packages"@, PACMAN_REMOVE_CMD@);
        let p2 = ("Remove old pacman repo entry"@, PACMAN_REPO_CMD@);
        lemma_has_step_add(seq![a1], seq![a2], d);
        lemma_has_step_add(seq![d1], seq![d2], d);
        lemma_has_step_add(seq![p1], seq![p2], d);
        lemma_has_step_one(a1, d);
        lemma_has_step_one(a2, d);
        lemma_has_step_one(d1, d);
        lemma_has_step_one(d2, d);
        lemma_has_step_one(p1, d);
        lemma_has_step_one(p2, d);
    }
    assert forall|d: Seq<char>| #[trigger] has_step(c, d) <==> (
        (t.semodule && d == "Remove SELinux policy"@) || d == "Remove model cache"@ || d == "Remove config"@
        || (!keep_data && d == "Remove enrolled face data"@) || d == "Refresh GNOME system settings"@
        || d == "Reload systemd"@) by {
        let c1 = step_if(t.semodule, seq![("Remove SELinux policy"@, SELINUX_CMD@)]);
        let c2 = seq![("Remove model cache"@, MODEL_CACHE_CMD@)];
        let c3 = seq![("Remove config"@, CONFIG_DIR_CMD@)];
        let c4 = step_if(!keep_data, seq![("Remove enrolled face data"@, FACE_DATA_CMD@)]);
        let c5 = seq![("Refresh GNOME system settings"@, join(refresh_gnome_parts(), " "@))];
        let c6 = seq![("Reload systemd"@, RELOAD_SYSTEMD_CMD@)];
        assert(c == c1 + c2 + c3 + c4 + c5 + c6);
        lemma_has_step_add(c1 + c2 + c3 + c4 + c5, c6, d);
        lemma_has_step_add(c1 + c2 + c3 + c4, c5, d);
        lemma_has_step_add(c1 + c2 + c3, c4, d);
        lemma_has_step_add(c1 + c2, c3, d);
        lemma_has_step_add(c1, c2, d);
        lemma_has_step_one(("Remove SELinux policy"@, SELINUX_CMD@), d);
        lemma_has_step_one(("Remove model cache"@, MODEL_CACHE_CMD@), d);
        lemma_has_step_one(("Remove config"@, CONFIG_DIR_CMD@), d);
        lemma_has_step_one(("Remove enrolled face data"@, FACE_DATA_CMD@), d);
        lemma_has_step_one(("Refresh GNOME system settings"@, join(refresh_gnome_parts(), " "@)), d);
        lemma_has_step_one(("Reload systemd"@, RELOAD_SYSTEMD_CMD@), d);
    }
    assert("Remove enrolled face data"@[7] != "Remove apt repo + keyring"@[7]);
    assert("Remove apt packages"@[7] != "Remove dnf packages"@[7]);
    assert(has_step(plan, "Remove model cache"@));
    assert(has_step(plan, "Remove config"@));
    let pac = "Remove pacman packages"@;
    assert(pac.len() == 22);
    assert(has_step(i, pac) ==> pac.len() != 22);
    assert(!has_step(i, pac));
    assert(!has_step(c, pac));
    assert(has_step(p, pac) <==> (!t.apt_get && !t.dnf && t.pacman));
}

// ---------------------------------------------------------------------------
// The configuration wizard
// ---------------------------------------------------------------------------

/// Bit pattern of `0.6_f64`, the custom threshold offered by default.
pub const DEFAULT_CUSTOM_THRESHOLD_BITS: u64 = 0x3FE3_3333_3333_3333;

/// The values the custom-level questions start from: the current custom
/// settings, or accurate models, a 0.6 threshold and the default policy.
pub open spec fn custom_defaults_of(s: SecurityLevel) -> (Seq<char>, Seq<char>, u64, Seq<char>) {
    if s.level@ == "custom"@ {
        (s.detector@, s.recognizer@, s.threshold_bits, s.hybrid_policy@)
    } else {
        ("accurate"@, "accurate"@, DEFAULT_CUSTOM_THRESHOLD_BITS, Seq::empty())
    }
}

pub fn custom_defaults(s: &SecurityLevel) -> (r: (String, String, u64, String))
    ensures
        (r.0@, r.1@, r.2, r.3@) == custom_defaults_of(*s),
{
    if str_eq(s.level.as_str(), "custom") {
        (owned(s.detector.as_str()), owned(s.recognizer.as_str()), s.threshold_bits, owned(s.hybrid_policy.as_str()))
    } else {
        proof {
            reveal_strlit("");
        }
        (owned("accurate"), owned("accurate"), DEFAULT_CUSTOM_THRESHOLD_BITS, owned(""))
    }
}

pub open spec fn first_target_index(cams: Seq<(Seq<char>, Seq<char>)>, target: Seq<char>) -> int {
    if exists|i: int| 0 <= i < cams.len() && cams[i].1 == target {
        choose|i: int| 0 <= i < cams.len() && cams[i].1 == target && forall|k: int| 0 <= k < i ==> #[trigger] cams[k].1 != target
    } else {
        0
    }
}

/// The camera preselected in a list of `(label, target)` choices: the first
/// whose target is the configured one, else the first.
pub fn camera_default_index(cameras: &[(String, String)], current: &str) -> (r: usize)
    ensures
        r == first_target_index(pairs_view(cameras@), current@),
{
    let ghost cams = pairs_view(cameras@);
    let mut i: usize = 0;
    while i < cameras.len()
        invariant
            i <= cameras.len(),
            cams == pairs_view(cameras@),
            forall|k: int| 0 <= k < i ==> #[trigger] cams[k].1 != current@,
        decreases cameras.len() - i,
    {
        assert(cams[i as int].1 == cameras@[i as int].1@);
        if str_eq(cameras[i].1.as_str(), current) {
            proof {
                let ii = i as int;
                assert(0 <= ii < cams.len() && cams[ii].1 == current@ && forall|k: int|
                    0 <= k < ii ==> #[trigger] cams[k].1 != current@);
                let c = choose|j: int| 0 <= j < cams.len() && cams[j].1 == current@ && forall|k: int|
                    0 <= k < j ==> #[trigger] cams[k].1 != current@;
                assert(c == ii) by {
                    if c < ii {
                        assert(cams[c].1 != current@);
                    } else if c > ii {
                        assert(cams[ii].1 != current@);
                    }
                }
            }
            return i;
        }
        i = i + 1;
    }
    0
}

/// The IR camera choices: "None" (no IR camera) first, then the detected ones.
pub fn ir_camera_options(detected: Vec<(String, String)>) -> (r: Vec<(String, String)>)
    ensures
        pairs_view(r@) == seq![("None"@, Seq::<char>::empty())] + pairs_view(detected@),
{
    proof {
        reveal_strlit("");
    }
    let mut out: Vec<(String, String)> = Vec::new();
    let none = owned("None");
    let empty = owned("");
    let ghost first = (none@, empty@);
    out.push((none, empty));
    assert(pairs_view(out@)[0] == first);
    assert(first == ("None"@, Seq::<char>::empty()));
    let mut rest = detected;
    let ghost a = out@;
    let ghost b = rest@;
    out.append(&mut rest);
    assert(pairs_view(out@) =~= pairs_view(a) + pairs_view(b));
    assert(pairs_view(a) =~= seq![("None"@, Seq::<char>::empty())]);
    out
}

/// While a user is verified, a usable or ready frame shows
/// "Scanning face for <user>..."; every other status shows the stream's own
/// message, whoever the user is.
pub proof fn auth_status_law(user: Seq<char>, other: Seq<char>, status: CaptureStatus)
    ensures
        status == CaptureStatus::Ready || status == CaptureStatus::Usable ==> auth_status_text(user, status)
            == "Scanning face for "@ + user + "..."@,
        !(status == CaptureStatus::Ready || status == CaptureStatus::Usable) ==> auth_status_text(user, status)
            == auth_status_text(other, status),
{
}

} // verus!
