//! The individual checks of the health report, each drawn from facts that
//! the caller gathered from the system: command outputs, file metadata,
//! file contents and the daemon's replies.

use vstd::prelude::*;
use crate::camera::{has_target, pairs_view};
use crate::config::{Config, CONFIG_PATH, DEFAULT_RGB_CAMERA};
use crate::status::{dbus_error_message, dbus_is_file_not_found, dbus_is_not_activatable, error_detail};
use crate::devices::{file_name, path_file_name};
use crate::doctor::{
    Check, CheckView, Level, Report, checks_view, config_findings, config_findings_spec, cv,
    file_references_gaze, find_pam_ordering_conflicts, ordering_conflicts,
    pam_file_references_gaze, strs_view,
};
use crate::text::{
    before_char, before_char_str, chars_of, concat2, concat3, contains, contains_chars, decimal,
    decimal_string, has_prefix, join, join_strings, lines, lines_of, lower_all, map_lower, octal,
    octal_string, owned, seqs_view, starts_with, str_eq, string_of, string_seq_view, trim, trim_vec,
};

verus! {

/// One finding, as a sequence.
pub open spec fn finding(level: Level, name: Seq<char>, message: Seq<char>, fix: Option<Seq<char>>) -> Seq<CheckView> {
    seq![cv(level, name, message, fix)]
}

// ---------------------------------------------------------------------------
// Helper commands
// ---------------------------------------------------------------------------

/// The text a helper command reported: its standard output, or its standard
/// error when the output is empty, trimmed.
pub open spec fn command_text_of(stdout: Seq<char>, stderr: Seq<char>) -> Seq<char> {
    if stdout.len() == 0 {
        trim(stderr)
    } else {
        trim(stdout)
    }
}

pub fn command_text(stdout: &str, stderr: &str) -> (r: String)
    ensures
        r@ == command_text_of(stdout@, stderr@),
{
    let out = chars_of(stdout);
    if out.len() == 0 {
        string_of(&trim_vec(&chars_of(stderr)))
    } else {
        string_of(&trim_vec(&out))
    }
}

/// Whether a command ran successfully and printed exactly `expected`.
pub open spec fn answered(q: Result<(bool, String), String>, expected: Seq<char>) -> bool {
    match q {
        Ok((ok, text)) => ok && text@ == expected,
        Err(_) => false,
    }
}

fn answered_exec(q: &Result<(bool, String), String>, expected: &str) -> (r: bool)
    ensures
        r == answered(*q, expected@),
{
    match q {
        Ok((ok, text)) => *ok && crate::text::str_eq(text.as_str(), expected),
        Err(_) => false,
    }
}

// ---------------------------------------------------------------------------
// Platform
// ---------------------------------------------------------------------------

/// The findings about the platform: the operating system, the architecture,
/// and on x86 whether the CPU has AVX2 (`None` elsewhere).
pub open spec fn platform_findings(os: Seq<char>, arch: Seq<char>, avx2: Option<bool>) -> Seq<CheckView> {
    if os != "linux"@ {
        finding(Level::Error, "Platform"@, os + " is not supported"@, Some("Run Gaze on Linux."@))
    } else {
        match avx2 {
            Some(true) => finding(Level::Pass, "CPU"@, "AVX2 is available"@, None),
            Some(false) => finding(
                Level::Error,
                "CPU"@,
                "AVX2 is unavailable; gazed cannot run on this CPU"@,
                Some("Use a machine with AVX2 support. The CLI can run here, but the daemon cannot."@),
            ),
            None => finding(
                Level::Pass,
                "CPU"@,
                arch + " does not require the x86 AVX2 check"@,
                None,
            ),
        }
    }
}

pub fn check_platform(report: &mut Report, os: &str, arch: &str, avx2: Option<bool>)
    ensures
        checks_view(final(report).checks@) == checks_view(old(report).checks@) + platform_findings(
            os@,
            arch@,
            avx2,
        ),
{
    if !str_eq(os, "linux") {
        report.error("Platform", concat2(os, " is not supported"), owned("Run Gaze on Linux."));
        return;
    }
    match avx2 {
        Some(true) => report.pass("CPU", owned("AVX2 is available")),
        Some(false) => report.error(
            "CPU",
            owned("AVX2 is unavailable; gazed cannot run on this CPU"),
            owned("Use a machine with AVX2 support. The CLI can run here, but the daemon cannot."),
        ),
        None => report.pass("CPU", concat2(arch, " does not require the x86 AVX2 check")),
    }
}

// ---------------------------------------------------------------------------
// systemd
// ---------------------------------------------------------------------------

pub open spec fn service_finding(active: Result<(bool, String), String>) -> Seq<CheckView> {
    if answered(active, "active"@) {
        finding(Level::Pass, "Service"@, "gazed is active"@, None)
    } else {
        match active {
            Ok((_, state)) => finding(
                Level::Error,
                "Service"@,
                "gazed is "@ + state@,
                Some(
                    "Run `sudo systemctl enable --now gazed`, then inspect `journalctl -u gazed -n 100 --no-pager` if it fails."@,
                ),
            ),
            Err(e) => finding(
                Level::Error,
                "Service"@,
                "could not query gazed: "@ + e@,
                Some("Run `systemctl status gazed`."@),
            ),
        }
    }
}

pub open spec fn autostart_finding(enabled: Result<(bool, String), String>) -> Seq<CheckView> {
    if answered(enabled, "enabled"@) {
        finding(Level::Pass, "Autostart"@, "gazed is enabled at boot"@, None)
    } else {
        match enabled {
            Ok((_, state)) => finding(
                Level::Warning,
                "Autostart"@,
                "gazed is "@ + state@,
                Some("Run `sudo systemctl enable gazed` so authentication still works after reboot."@),
            ),
            Err(e) => finding(
                Level::Warning,
                "Autostart"@,
                "could not query gazed enablement: "@ + e@,
                Some("Run `systemctl is-enabled gazed`."@),
            ),
        }
    }
}

/// The findings about the service: `None` when systemd is not running,
/// else the answers of `systemctl is-active gazed` and `systemctl is-enabled gazed`.
pub open spec fn systemd_findings(
    queries: Option<(Result<(bool, String), String>, Result<(bool, String), String>)>,
) -> Seq<CheckView> {
    match queries {
        None => finding(
            Level::Warning,
            "systemd"@,
            "systemd is not running, so the gazed service state could not be checked"@,
            Some("On a normal installation, boot with systemd and run `systemctl status gazed`."@),
        ),
        Some((active, enabled)) => service_finding(active) + autostart_finding(enabled),
    }
}

pub fn check_systemd(
    report: &mut Report,
    queries: Option<(Result<(bool, String), String>, Result<(bool, String), String>)>,
)
    ensures
        checks_view(final(report).checks@) == checks_view(old(report).checks@) + systemd_findings(
            queries,
        ),
{
    let ghost q = queries;
    let ghost start = checks_view(report.checks@);
    match queries {
        None => {
            report.warning(
                "systemd",
                owned("systemd is not running, so the gazed service state could not be checked"),
                owned("On a normal installation, boot with systemd and run `systemctl status gazed`."),
            );
        },
        Some((active, enabled)) => {
            if answered_exec(&active, "active") {
                report.pass("Service", owned("gazed is active"));
            } else {
                match &active {
                    Ok((_, state)) => report.error(
                        "Service",
                        concat2("gazed is ", state.as_str()),
                        owned(
                            "Run `sudo systemctl enable --now gazed`, then inspect `journalctl -u gazed -n 100 --no-pager` if it fails.",
                        ),
                    ),
                    Err(e) => report.error(
                        "Service",
                        concat2("could not query gazed: ", e.as_str()),
                        owned("Run `systemctl status gazed`."),
                    ),
                }
            }
            let ghost mid = checks_view(report.checks@);
            assert(mid == start + service_finding(active));
            if answered_exec(&enabled, "enabled") {
                report.pass("Autostart", owned("gazed is enabled at boot"));
            } else {
                match &enabled {
                    Ok((_, state)) => report.warning(
                        "Autostart",
                        concat2("gazed is ", state.as_str()),
                        owned("Run `sudo systemctl enable gazed` so authentication still works after reboot."),
                    ),
                    Err(e) => report.warning(
                        "Autostart",
                        concat2("could not query gazed enablement: ", e.as_str()),
                        owned("Run `systemctl is-enabled gazed`."),
                    ),
                }
            }
            assert(checks_view(report.checks@) == mid + autostart_finding(enabled));
            assert(checks_view(report.checks@) =~= start + systemd_findings(q));
        },
    }
}

// ---------------------------------------------------------------------------
// The configuration file
// ---------------------------------------------------------------------------

/// The permission bits of a file mode.
pub open spec fn permission_bits(mode: u32) -> u32 {
    mode & 0o777u32
}

/// Whether group or others may write a file of this mode.
pub open spec fn writable_by_others(mode: u32) -> bool {
    mode & 0o022u32 != 0
}

/// The finding about the configuration file's owner and mode, from its
/// `(uid, mode)` or the error that stopped reading them.
pub open spec fn config_permissions_finding(meta: Result<(u32, u32), String>) -> Seq<CheckView> {
    match meta {
        Ok((uid, mode)) => {
            let m = permission_bits(mode);
            if uid != 0 {
                finding(
                    Level::Error,
                    "Config ownership"@,
                    CONFIG_PATH@ + " is owned by UID "@ + decimal(uid as nat),
                    Some("Run `sudo chown root:root "@ + CONFIG_PATH@ + "`."@),
                )
            } else if writable_by_others(m) {
                finding(
                    Level::Error,
                    "Config permissions"@,
                    CONFIG_PATH@ + " has writable mode "@ + octal(m as nat),
                    Some("Run `sudo chmod 0644 "@ + CONFIG_PATH@ + "`."@),
                )
            } else {
                finding(
                    Level::Pass,
                    "Config permissions"@,
                    "root-owned and not writable by group or others ("@ + octal(m as nat) + ")"@,
                    None,
                )
            }
        },
        Err(e) => finding(
            Level::Error,
            "Config permissions"@,
            "could not inspect "@ + CONFIG_PATH@ + ": "@ + e@,
            Some("Run `sudo stat "@ + CONFIG_PATH@ + "`."@),
        ),
    }
}

pub fn check_config_permissions(report: &mut Report, meta: &Result<(u32, u32), String>)
    ensures
        checks_view(final(report).checks@) == checks_view(old(report).checks@)
            + config_permissions_finding(*meta),
{
    match meta {
        Ok((uid, mode)) => {
            let m = *mode & 0o777u32;
            if *uid != 0 {
                let s = decimal_string(*uid as u64);
                let msg = concat3(CONFIG_PATH, " is owned by UID ", s.as_str());
                report.error(
                    "Config ownership",
                    msg,
                    concat3("Run `sudo chown root:root ", CONFIG_PATH, "`."),
                );
            } else if m & 0o022u32 != 0 {
                let s = octal_string(m);
                report.error(
                    "Config permissions",
                    concat3(CONFIG_PATH, " has writable mode ", s.as_str()),
                    concat3("Run `sudo chmod 0644 ", CONFIG_PATH, "`."),
                );
            } else {
                let s = octal_string(m);
                report.pass(
                    "Config permissions",
                    concat3("root-owned and not writable by group or others (", s.as_str(), ")"),
                );
            }
        },
        Err(e) => {
            let msg = concat3("could not inspect ", CONFIG_PATH, ": ");
            let msg2 = concat2(msg.as_str(), e.as_str());
            report.error("Config permissions", msg2, concat3("Run `sudo stat ", CONFIG_PATH, "`."));
        },
    }
}

/// What became of loading the configuration file.
pub enum ConfigLoad {
    /// It parsed into this configuration.
    Loaded(Config),
    /// Reading it was refused: it is private to the daemon.
    Private,
    /// It could not be loaded, for this reason.
    Failed(String),
}

/// The findings about the configuration file. `file` is `None` when the file
/// does not exist, else its `(uid, mode)` (or the error reading them) and
/// the outcome of loading it; the thresholds are the loaded configuration's
/// thresholds as text.
pub open spec fn config_file_findings(
    file: Option<(Result<(u32, u32), String>, ConfigLoad)>,
    security_threshold: Seq<char>,
    liveness_threshold: Seq<char>,
) -> Seq<CheckView> {
    match file {
        None => finding(
            Level::Error,
            "Configuration"@,
            CONFIG_PATH@ + " does not exist"@,
            Some("Reinstall Gaze or restore the packaged config file."@),
        ),
        Some((meta, load)) => config_permissions_finding(meta) + match load {
            ConfigLoad::Loaded(c) => finding(
                Level::Pass,
                "Configuration"@,
                CONFIG_PATH@ + " parses successfully"@,
                None,
            ) + config_findings_spec(c, security_threshold, liveness_threshold),
            ConfigLoad::Private => finding(
                Level::Pass,
                "Configuration"@,
                CONFIG_PATH@ + " is private; values will be checked through gazed"@,
                None,
            ),
            ConfigLoad::Failed(e) => finding(
                Level::Error,
                "Configuration"@,
                "could not load "@ + CONFIG_PATH@ + ": "@ + e@,
                Some(
                    "Check the file and fix its TOML syntax, then run `sudo systemctl restart gazed`."@,
                ),
            ),
        },
    }
}

/// Checks the configuration file and returns the configuration when it
/// loaded.
pub fn check_config(
    report: &mut Report,
    file: Option<(Result<(u32, u32), String>, ConfigLoad)>,
    security_threshold: &str,
    liveness_threshold: &str,
) -> (r: Option<Config>)
    ensures
        checks_view(final(report).checks@) == checks_view(old(report).checks@)
            + config_file_findings(file, security_threshold@, liveness_threshold@),
        r == match file {
            Some((_, ConfigLoad::Loaded(c))) => Some(c),
            _ => None::<Config>,
        },
{
    let ghost f = file;
    let ghost start = checks_view(report.checks@);
    match file {
        None => {
            report.error(
                "Configuration",
                concat2(CONFIG_PATH, " does not exist"),
                owned("Reinstall Gaze or restore the packaged config file."),
            );
            None
        },
        Some((meta, load)) => {
            check_config_permissions(report, &meta);
            let ghost mid = checks_view(report.checks@);
            match load {
                ConfigLoad::Loaded(c) => {
                    report.pass("Configuration", concat2(CONFIG_PATH, " parses successfully"));
                    let findings = config_findings(&c, security_threshold, liveness_threshold);
                    report.extend(findings);
                    assert(checks_view(report.checks@) =~= start + config_file_findings(
                        f,
                        security_threshold@,
                        liveness_threshold@,
                    ));
                    Some(c)
                },
                ConfigLoad::Private => {
                    report.pass(
                        "Configuration",
                        concat2(CONFIG_PATH, " is private; values will be checked through gazed"),
                    );
                    assert(checks_view(report.checks@) =~= start + config_file_findings(
                        f,
                        security_threshold@,
                        liveness_threshold@,
                    ));
                    None
                },
                ConfigLoad::Failed(e) => {
                    let msg = concat3("could not load ", CONFIG_PATH, ": ");
                    report.error(
                        "Configuration",
                        concat2(msg.as_str(), e.as_str()),
                        owned(
                            "Check the file and fix its TOML syntax, then run `sudo systemctl restart gazed`.",
                        ),
                    );
                    assert(checks_view(report.checks@) =~= start + config_file_findings(
                        f,
                        security_threshold@,
                        liveness_threshold@,
                    ));
                    None
                },
            }
        },
    }
}

// ---------------------------------------------------------------------------
// TPM
// ---------------------------------------------------------------------------

/// The finding about the TPM that encrypted templates need; none without a
/// configuration.
pub open spec fn tpm_findings(config: Option<Config>, tpm_present: bool) -> Seq<CheckView> {
    match config {
        None => Seq::empty(),
        Some(c) => if !c.storage.encrypt_templates {
            finding(Level::Pass, "TPM"@, "template encryption is disabled, so no TPM is required"@, None)
        } else if tpm_present {
            finding(Level::Pass, "TPM"@, "a TPM device is present for encrypted templates"@, None)
        } else {
            finding(
                Level::Error,
                "TPM"@,
                "template encryption is enabled but no TPM device is present"@,
                Some(
                    "Enable TPM 2.0 in firmware or set storage.encrypt_templates = false, then restart gazed."@,
                ),
            )
        },
    }
}

/// Checks the TPM; `tpm_present` says whether `/dev/tpmrm0` or `/dev/tpm0` exists.
pub fn check_tpm(report: &mut Report, config: Option<&Config>, tpm_present: bool)
    ensures
        checks_view(final(report).checks@) == checks_view(old(report).checks@) + tpm_findings(
            match config {
                Some(c) => Some(*c),
                None => None,
            },
            tpm_present,
        ),
{
    match config {
        None => {
            assert(checks_view(report.checks@) =~= checks_view(report.checks@) + Seq::<CheckView>::empty());
        },
        Some(c) => {
            if !c.storage.encrypt_templates {
                report.pass("TPM", owned("template encryption is disabled, so no TPM is required"));
            } else if tpm_present {
                report.pass("TPM", owned("a TPM device is present for encrypted templates"));
            } else {
                report.error(
                    "TPM",
                    owned("template encryption is enabled but no TPM device is present"),
                    owned(
                        "Enable TPM 2.0 in firmware or set storage.encrypt_templates = false, then restart gazed.",
                    ),
                );
            }
        },
    }
}

// ---------------------------------------------------------------------------
// The PAM modules and stack
// ---------------------------------------------------------------------------

/// An installed PAM module file: its path, and its owner and mode when they
/// could be read.
pub struct PamModuleFile {
    pub path: String,
    pub owner_mode: Option<(u32, u32)>,
}

/// A file of `/etc/pam.d`: its path, and its contents when they could be read.
pub struct PamStackFile {
    pub path: String,
    pub contents: Option<String>,
}

pub open spec fn has_module_named(mods: Seq<PamModuleFile>, name: Seq<char>) -> bool {
    exists|i: int| 0 <= i < mods.len() && file_name(#[trigger] mods[i].path@) == Some(name)
}

/// Whether a module file is owned by someone other than root or writable by
/// group or others.
pub open spec fn is_insecure(m: PamModuleFile) -> bool {
    match m.owner_mode {
        Some((uid, mode)) => uid != 0 || writable_by_others(mode),
        None => false,
    }
}

/// The paths of the insecure module files, in order.
pub open spec fn insecure_paths(mods: Seq<PamModuleFile>) -> Seq<Seq<char>>
    decreases mods.len(),
{
    if mods.len() == 0 {
        Seq::empty()
    } else {
        insecure_paths(mods.drop_last()) + if is_insecure(mods.last()) {
            seq![mods.last().path@]
        } else {
            Seq::empty()
        }
    }
}

pub open spec fn module_findings(mods: Seq<PamModuleFile>) -> Seq<CheckView> {
    let sequential = has_module_named(mods, "pam_gaze.so"@);
    let simultaneous = has_module_named(mods, "pam_gaze_grosshack.so"@);
    if sequential && simultaneous {
        finding(Level::Pass, "PAM modules"@, "both modules are installed"@, None)
    } else if !sequential {
        finding(
            Level::Error,
            "PAM modules"@,
            "pam_gaze.so is not installed in a standard PAM module directory"@,
            Some("Reinstall the base Gaze package before enabling PAM authentication."@),
        )
    } else {
        finding(
            Level::Warning,
            "PAM modules"@,
            "pam_gaze_grosshack.so is missing"@,
            Some("Reinstall the base Gaze package if you use simultaneous face/password prompts."@),
        )
    }
}

pub open spec fn module_permission_findings(mods: Seq<PamModuleFile>) -> Seq<CheckView> {
    let insecure = insecure_paths(mods);
    if mods.len() == 0 {
        Seq::empty()
    } else if insecure.len() == 0 {
        finding(
            Level::Pass,
            "PAM permissions"@,
            "installed modules are root-owned and not writable by group or others"@,
            None,
        )
    } else {
        finding(
            Level::Error,
            "PAM permissions"@,
            "unsafe ownership or write permissions: "@ + join(insecure, ", "@),
            Some("Restore these files from the package manager; do not use writable PAM modules."@),
        )
    }
}

/// Whether a PAM file was read and loads a Gaze module.
pub open spec fn is_reference(f: PamStackFile) -> bool {
    match f.contents {
        Some(c) => file_references_gaze(c@),
        None => false,
    }
}

pub open spec fn has_reference(files: Seq<PamStackFile>) -> bool {
    exists|i: int| 0 <= i < files.len() && is_reference(#[trigger] files[i])
}

/// The file names of the PAM files loading Gaze, in order.
pub open spec fn reference_names(files: Seq<PamStackFile>) -> Seq<Seq<char>>
    decreases files.len(),
{
    if files.len() == 0 {
        Seq::empty()
    } else {
        reference_names(files.drop_last()) + if is_reference(files.last()) {
            match file_name(files.last().path@) {
                Some(n) => seq![n],
                None => Seq::empty(),
            }
        } else {
            Seq::empty()
        }
    }
}

pub open spec fn contents_of(f: PamStackFile) -> Seq<char> {
    match f.contents {
        Some(c) => c@,
        None => Seq::empty(),
    }
}

/// The warning about a PAM file that stacks competing modules above Gaze.
pub open spec fn ordering_warning(f: PamStackFile) -> Seq<CheckView> {
    let conflicts = ordering_conflicts(contents_of(f));
    if is_reference(f) && conflicts.len() > 0 {
        finding(
            Level::Warning,
            "PAM ordering"@,
            "pam_gaze.so/pam_gaze_grosshack.so runs after "@ + join(conflicts, ", "@) + " in "@
                + f.path@ + ", so face auth won't be tried until those prompts resolve"@,
            Some(
                "Re-run `sudo pam-auth-update --package` (Debian/Ubuntu) or move the Gaze line above pam_unix.so/pam_fprintd.so."@,
            ),
        )
    } else {
        Seq::empty()
    }
}

pub open spec fn ordering_warnings(files: Seq<PamStackFile>) -> Seq<CheckView>
    decreases files.len(),
{
    if files.len() == 0 {
        Seq::empty()
    } else {
        ordering_warnings(files.drop_last()) + ordering_warning(files.last())
    }
}

pub open spec fn stack_findings(files: Seq<PamStackFile>) -> Seq<CheckView> {
    if !has_reference(files) {
        finding(
            Level::Warning,
            "PAM stack"@,
            "no active /etc/pam.d file references a Gaze module"@,
            Some(
                "Follow the PAM guide for your distribution if you want login, sudo, or lock-screen authentication."@,
            ),
        )
    } else {
        finding(
            Level::Pass,
            "PAM stack"@,
            "Gaze is referenced by: "@ + join(reference_names(files), ", "@),
            None,
        ) + ordering_warnings(files)
    }
}

/// All findings about PAM: the installed module files and the files of
/// `/etc/pam.d`.
pub open spec fn pam_findings(mods: Seq<PamModuleFile>, files: Seq<PamStackFile>) -> Seq<CheckView> {
    module_findings(mods) + module_permission_findings(mods) + stack_findings(files)
}

fn has_module_named_exec(mods: &Vec<PamModuleFile>, name: &str) -> (r: bool)
    ensures
        r == has_module_named(mods@, name@),
{
    let mut i: usize = 0;
    while i < mods.len()
        invariant
            i <= mods.len(),
            forall|k: int| 0 <= k < i ==> file_name(#[trigger] mods@[k].path@) != Some(name@),
        decreases mods.len() - i,
    {
        match path_file_name(mods[i].path.as_str()) {
            Some(n) => {
                if str_eq(n.as_str(), name) {
                    return true;
                }
            },
            None => {},
        }
        i = i + 1;
    }
    false
}

fn insecure_paths_exec(mods: &Vec<PamModuleFile>) -> (r: Vec<String>)
    ensures
        string_seq_view(r@) == insecure_paths(mods@),
{
    let mut out: Vec<String> = Vec::new();
    let mut i: usize = 0;
    while i < mods.len()
        invariant
            i <= mods.len(),
            string_seq_view(out@) == insecure_paths(mods@.take(i as int)),
        decreases mods.len() - i,
    {
        assert(mods@.take(i + 1).drop_last() == mods@.take(i as int));
        let insecure = match mods[i].owner_mode {
            Some((uid, mode)) => uid != 0 || mode & 0o022u32 != 0,
            None => false,
        };
        if insecure {
            let ghost before = out@;
            out.push(owned(mods[i].path.as_str()));
            assert(string_seq_view(out@) =~= string_seq_view(before).push(mods@[i as int].path@));
        }
        assert(string_seq_view(out@) =~= insecure_paths(mods@.take(i + 1)));
        i = i + 1;
    }
    assert(mods@.take(mods.len() as int) == mods@);
    out
}

fn is_reference_exec(f: &PamStackFile) -> (r: bool)
    ensures
        r == is_reference(*f),
{
    match &f.contents {
        Some(c) => pam_file_references_gaze(c.as_str()),
        None => false,
    }
}

fn strs_to_strings(v: &Vec<&'static str>) -> (r: Vec<String>)
    ensures
        string_seq_view(r@) == strs_view(v@),
{
    let mut out: Vec<String> = Vec::new();
    let mut i: usize = 0;
    while i < v.len()
        invariant
            i <= v.len(),
            string_seq_view(out@) == strs_view(v@).take(i as int),
        decreases v.len() - i,
    {
        let ghost before = out@;
        let o = owned(v[i]);
        out.push(o);
        assert(string_seq_view(out@) =~= string_seq_view(before).push(v@[i as int]@));
        assert(strs_view(v@).take(i + 1) =~= strs_view(v@).take(i as int).push(v@[i as int]@));
        i = i + 1;
    }
    assert(strs_view(v@).take(v.len() as int) == strs_view(v@));
    out
}

/// Checks the PAM module files and the PAM stack.
pub fn check_pam(report: &mut Report, modules: &Vec<PamModuleFile>, stack: &Vec<PamStackFile>)
    ensures
        checks_view(final(report).checks@) == checks_view(old(report).checks@) + pam_findings(
            modules@,
            stack@,
        ),
{
    let ghost start = checks_view(report.checks@);
    let sequential = has_module_named_exec(modules, "pam_gaze.so");
    let simultaneous = has_module_named_exec(modules, "pam_gaze_grosshack.so");
    if sequential && simultaneous {
        report.pass("PAM modules", owned("both modules are installed"));
    } else if !sequential {
        report.error(
            "PAM modules",
            owned("pam_gaze.so is not installed in a standard PAM module directory"),
            owned("Reinstall the base Gaze package before enabling PAM authentication."),
        );
    } else {
        report.warning(
            "PAM modules",
            owned("pam_gaze_grosshack.so is missing"),
            owned("Reinstall the base Gaze package if you use simultaneous face/password prompts."),
        );
    }
    let ghost s1 = checks_view(report.checks@);
    assert(s1 == start + module_findings(modules@));

    let insecure = insecure_paths_exec(modules);
    if modules.len() > 0 {
        if insecure.len() == 0 {
            report.pass(
                "PAM permissions",
                owned("installed modules are root-owned and not writable by group or others"),
            );
        } else {
            let joined = join_strings(insecure.as_slice(), ", ");
            report.error(
                "PAM permissions",
                concat2("unsafe ownership or write permissions: ", joined.as_str()),
                owned("Restore these files from the package manager; do not use writable PAM modules."),
            );
        }
    }
    let ghost s2 = checks_view(report.checks@);
    assert(s2 =~= s1 + module_permission_findings(modules@));

    // The names of the files that load Gaze.
    let mut names: Vec<String> = Vec::new();
    let mut any = false;
    let mut i: usize = 0;
    while i < stack.len()
        invariant
            i <= stack.len(),
            string_seq_view(names@) == reference_names(stack@.take(i as int)),
            any == has_reference(stack@.take(i as int)),
        decreases stack.len() - i,
    {
        let ghost pre = stack@.take(i as int);
        let ghost next = stack@.take(i + 1);
        assert(next.drop_last() == pre);
        if is_reference_exec(&stack[i]) {
            any = true;
            assert(next[i as int] == stack@[i as int]);
            match path_file_name(stack[i].path.as_str()) {
                Some(n) => {
                    let ghost before = names@;
                    names.push(n);
                    assert(string_seq_view(names@) =~= string_seq_view(before).push(names@.last()@));
                },
                None => {},
            }
        } else {
            assert(has_reference(next) == has_reference(pre)) by {
                if has_reference(next) {
                    let k = choose|k: int| 0 <= k < next.len() && is_reference(#[trigger] next[k]);
                    assert(k < i);
                    assert(pre[k] == next[k]);
                }
            }
        }
        assert(string_seq_view(names@) =~= reference_names(next));
        i = i + 1;
    }
    assert(stack@.take(stack.len() as int) == stack@);

    if !any {
        report.warning(
            "PAM stack",
            owned("no active /etc/pam.d file references a Gaze module"),
            owned(
                "Follow the PAM guide for your distribution if you want login, sudo, or lock-screen authentication.",
            ),
        );
        assert(checks_view(report.checks@) =~= start + pam_findings(modules@, stack@));
        return;
    }
    let joined = join_strings(names.as_slice(), ", ");
    report.pass("PAM stack", concat2("Gaze is referenced by: ", joined.as_str()));
    let ghost s3 = checks_view(report.checks@);

    let mut j: usize = 0;
    while j < stack.len()
        invariant
            j <= stack.len(),
            checks_view(report.checks@) == s3 + ordering_warnings(stack@.take(j as int)),
        decreases stack.len() - j,
    {
        let ghost next = stack@.take(j + 1);
        assert(next.drop_last() == stack@.take(j as int));
        assert(next.last() == stack@[j as int]);
        if is_reference_exec(&stack[j]) {
            match &stack[j].contents {
                Some(c) => {
                    let conflicts = find_pam_ordering_conflicts(c.as_str());
                    if conflicts.len() > 0 {
                        let names = strs_to_strings(&conflicts);
                        let listed = join_strings(names.as_slice(), ", ");
                        let m1 = concat3(
                            "pam_gaze.so/pam_gaze_grosshack.so runs after ",
                            listed.as_str(),
                            " in ",
                        );
                        let m2 = concat3(
                            m1.as_str(),
                            stack[j].path.as_str(),
                            ", so face auth won't be tried until those prompts resolve",
                        );
                        report.warning(
                            "PAM ordering",
                            m2,
                            owned(
                                "Re-run `sudo pam-auth-update --package` (Debian/Ubuntu) or move the Gaze line above pam_unix.so/pam_fprintd.so.",
                            ),
                        );
                    }
                },
                None => {},
            }
        }
        assert(checks_view(report.checks@) =~= s3 + ordering_warnings(next));
        j = j + 1;
    }
    assert(stack@.take(stack.len() as int) == stack@);
    assert(checks_view(report.checks@) =~= start + pam_findings(modules@, stack@));
}

// ---------------------------------------------------------------------------
// Desktop integration
// ---------------------------------------------------------------------------

/// The GNOME Shell extension that offers face authentication.
pub const GNOME_EXTENSION_ID: &'static str = "gaze@gundulabs.com";

/// The desktop label: the three desktop variables joined by `:`, lower-cased.
pub open spec fn desktop_label(current: Seq<char>, session: Seq<char>, desktop_session: Seq<char>) -> Seq<char> {
    map_lower(current + ":"@ + session + ":"@ + desktop_session)
}

/// The desktop label of `XDG_CURRENT_DESKTOP`, `XDG_SESSION_DESKTOP` and
/// `DESKTOP_SESSION` (each empty when unset).
pub fn desktop_name(current: &str, session: &str, desktop_session: &str) -> (r: String)
    ensures
        r@ == desktop_label(current@, session@, desktop_session@),
{
    let a = concat3(current, ":", session);
    let b = concat3(a.as_str(), ":", desktop_session);
    string_of(&lower_all(&chars_of(b.as_str())))
}

/// Whether the desktop is GNOME, whose extension and setting are checked.
pub fn desktop_is_gnome(desktop: &str) -> (r: bool)
    ensures
        r == contains(desktop@, "gnome"@),
{
    contains_chars(&chars_of(desktop), &chars_of("gnome"))
}

/// Whether the desktop is Hyprland, whose lock screen configuration is checked.
pub fn desktop_is_hyprland(desktop: &str) -> (r: bool)
    ensures
        r == contains(desktop@, "hyprland"@),
{
    contains_chars(&chars_of(desktop), &chars_of("hyprland"))
}

/// Whether `gnome-extensions list --enabled` printed the Gaze extension.
pub open spec fn extension_listed(output: Seq<char>) -> bool {
    exists|i: int| 0 <= i < lines(output).len() && trim(#[trigger] lines(output)[i]) == GNOME_EXTENSION_ID@
}

pub open spec fn extension_findings(q: Result<(bool, String), String>) -> Seq<CheckView> {
    match q {
        Ok((true, out)) => if extension_listed(out@) {
            finding(Level::Pass, "GNOME extension"@, "enabled for the current user"@, None)
        } else {
            finding(
                Level::Warning,
                "GNOME extension"@,
                "not enabled for the current user"@,
                Some(
                    "Run `gnome-extensions enable "@ + GNOME_EXTENSION_ID@
                        + "` after logging into GNOME again."@,
                ),
            )
        },
        Ok((false, m)) => finding(
            Level::Warning,
            "GNOME extension"@,
            "could not query extensions: "@ + m@,
            Some("Verify GNOME Shell is running and reinstall the Gaze GNOME extension package."@),
        ),
        Err(e) => finding(
            Level::Warning,
            "GNOME extension"@,
            "could not query extensions: "@ + e@,
            Some("Install the Gaze GNOME extension package for lock-screen authentication."@),
        ),
    }
}

pub open spec fn face_auth_setting_findings(q: Result<(bool, String), String>) -> Seq<CheckView> {
    match q {
        Ok((true, v)) => if v@ == "true"@ {
            finding(Level::Pass, "GNOME face auth"@, "enabled for the current user"@, None)
        } else {
            finding(
                Level::Warning,
                "GNOME face auth"@,
                "disabled for the current user"@,
                Some(
                    "Run `gsettings set org.gnome.shell.extensions.gaze enable-face-authentication true`."@,
                ),
            )
        },
        Ok((false, m)) => finding(
            Level::Warning,
            "GNOME face auth"@,
            "could not read the extension setting: "@ + m@,
            Some("Reinstall the Gaze GNOME extension package."@),
        ),
        Err(e) => finding(
            Level::Warning,
            "GNOME face auth"@,
            "could not read the extension setting: "@ + e@,
            Some("Reinstall the Gaze GNOME extension package."@),
        ),
    }
}

fn extension_listed_exec(output: &str) -> (r: bool)
    ensures
        r == extension_listed(output@),
{
    let ls = lines_of(&chars_of(output));
    let id = chars_of(GNOME_EXTENSION_ID);
    let mut i: usize = 0;
    while i < ls.len()
        invariant
            i <= ls.len(),
            seqs_view(ls@) == lines(output@),
            id@ == GNOME_EXTENSION_ID@,
            forall|k: int| 0 <= k < i ==> trim(#[trigger] lines(output@)[k]) != GNOME_EXTENSION_ID@,
        decreases ls.len() - i,
    {
        assert(seqs_view(ls@)[i as int] == ls@[i as int]@);
        let t = trim_vec(&ls[i]);
        if crate::text::chars_eq(&t, &id) {
            assert(trim(lines(output@)[i as int]) == GNOME_EXTENSION_ID@);
            return true;
        }
        i = i + 1;
    }
    false
}

/// Checks the GNOME extension from the answers of
/// `gnome-extensions list --enabled` and of
/// `gsettings get org.gnome.shell.extensions.gaze enable-face-authentication`.
pub fn check_gnome_integration(
    report: &mut Report,
    extensions: &Result<(bool, String), String>,
    setting: &Result<(bool, String), String>,
)
    ensures
        checks_view(final(report).checks@) == checks_view(old(report).checks@) + extension_findings(
            *extensions,
        ) + face_auth_setting_findings(*setting),
{
    let ghost start = checks_view(report.checks@);
    match extensions {
        Ok((ok, out)) => {
            if *ok {
                if extension_listed_exec(out.as_str()) {
                    report.pass("GNOME extension", owned("enabled for the current user"));
                } else {
                    report.warning(
                        "GNOME extension",
                        owned("not enabled for the current user"),
                        concat3(
                            "Run `gnome-extensions enable ",
                            GNOME_EXTENSION_ID,
                            "` after logging into GNOME again.",
                        ),
                    );
                }
            } else {
                report.warning(
                    "GNOME extension",
                    concat2("could not query extensions: ", out.as_str()),
                    owned("Verify GNOME Shell is running and reinstall the Gaze GNOME extension package."),
                );
            }
        },
        Err(e) => {
            report.warning(
                "GNOME extension",
                concat2("could not query extensions: ", e.as_str()),
                owned("Install the Gaze GNOME extension package for lock-screen authentication."),
            );
        },
    }
    let ghost mid = checks_view(report.checks@);
    assert(mid == start + extension_findings(*extensions));
    match setting {
        Ok((ok, v)) => {
            if *ok {
                if str_eq(v.as_str(), "true") {
                    report.pass("GNOME face auth", owned("enabled for the current user"));
                } else {
                    report.warning(
                        "GNOME face auth",
                        owned("disabled for the current user"),
                        owned(
                            "Run `gsettings set org.gnome.shell.extensions.gaze enable-face-authentication true`.",
                        ),
                    );
                }
            } else {
                report.warning(
                    "GNOME face auth",
                    concat2("could not read the extension setting: ", v.as_str()),
                    owned("Reinstall the Gaze GNOME extension package."),
                );
            }
        },
        Err(e) => {
            report.warning(
                "GNOME face auth",
                concat2("could not read the extension setting: ", e.as_str()),
                owned("Reinstall the Gaze GNOME extension package."),
            );
        },
    }
    assert(checks_view(report.checks@) =~= start + extension_findings(*extensions)
        + face_auth_setting_findings(*setting));
}

/// `base` joined with the relative path `rel`, as `Path::join` does.
pub open spec fn path_join(base: Seq<char>, rel: Seq<char>) -> Seq<char> {
    if base.len() == 0 || base.last() == '/' {
        base + rel
    } else {
        base + "/"@ + rel
    }
}

fn path_join_exec(base: &str, rel: &str) -> (r: String)
    requires
        rel@.len() > 0,
        rel@[0] != '/',
    ensures
        r@ == path_join(base@, rel@),
{
    let b = chars_of(base);
    if b.len() == 0 || b[b.len() - 1] == '/' {
        concat2(base, rel)
    } else {
        concat3(base, "/", rel)
    }
}

/// Where the current user's hyprlock configuration lives, from
/// `XDG_CONFIG_HOME` and `HOME`.
pub open spec fn hyprlock_path(xdg_config_home: Option<Seq<char>>, home: Option<Seq<char>>) -> Option<Seq<char>> {
    match xdg_config_home {
        Some(x) => Some(path_join(x, "hypr/hyprlock.conf"@)),
        None => match home {
            Some(h) => Some(path_join(path_join(h, ".config"@), "hypr/hyprlock.conf"@)),
            None => None,
        },
    }
}

pub fn hyprlock_config_path(xdg_config_home: Option<&str>, home: Option<&str>) -> (r: Option<String>)
    ensures
        match r {
            Some(p) => hyprlock_path(
                match xdg_config_home {
                    Some(x) => Some(x@),
                    None => None,
                },
                match home {
                    Some(h) => Some(h@),
                    None => None,
                },
            ) == Some(p@),
            None => xdg_config_home is None && home is None,
        },
{
    proof {
        reveal_strlit("hypr/hyprlock.conf");
        reveal_strlit(".config");
    }
    match xdg_config_home {
        Some(x) => Some(path_join_exec(x, "hypr/hyprlock.conf")),
        None => match home {
            Some(h) => {
                let c = path_join_exec(h, ".config");
                Some(path_join_exec(c.as_str(), "hypr/hyprlock.conf"))
            },
            None => None,
        },
    }
}

/// Whether a hyprlock configuration line selects a Gaze PAM service.
pub open spec fn selects_gaze_service(line: Seq<char>) -> bool {
    let l = before_char(line, '#');
    contains(l, "pam_module"@) && (contains(l, "hyprlock-gaze"@) || contains(
        l,
        "hyprlock-gaze-simultaneous"@,
    ))
}

/// Whether some line of a hyprlock configuration selects a Gaze PAM service.
pub open spec fn conf_selects_gaze(c: Seq<char>) -> bool {
    exists|i: int| 0 <= i < lines(c).len() && selects_gaze_service(#[trigger] lines(c)[i])
}

pub open spec fn hyprlock_configured(contents: Option<Seq<char>>) -> bool {
    match contents {
        Some(c) => conf_selects_gaze(c),
        None => false,
    }
}

pub open spec fn hyprlock_findings(contents: Option<Seq<char>>) -> Seq<CheckView> {
    if hyprlock_configured(contents) {
        finding(Level::Pass, "hyprlock"@, "configured to use a Gaze PAM service"@, None)
    } else {
        finding(
            Level::Warning,
            "hyprlock"@,
            "the current user's hyprlock.conf does not select a Gaze PAM service"@,
            Some("Set `pam_module = hyprlock-gaze` in the hyprlock general block."@),
        )
    }
}

/// Checks the hyprlock configuration, given its contents when they could be read.
pub fn check_hyprlock(report: &mut Report, contents: Option<&str>)
    ensures
        checks_view(final(report).checks@) == checks_view(old(report).checks@) + hyprlock_findings(
            match contents {
                Some(c) => Some(c@),
                None => None,
            },
        ),
{
    let ghost cv_ = match contents {
        Some(c) => Some(c@),
        None => None::<Seq<char>>,
    };
    let mut configured = false;
    match contents {
        Some(c) => {
            let ls = lines_of(&chars_of(c));
            let mut i: usize = 0;
            while i < ls.len() && !configured
                invariant
                    i <= ls.len(),
                    seqs_view(ls@) == lines(c@),
                    configured ==> exists|k: int| 0 <= k < i && selects_gaze_service(
                        #[trigger] lines(c@)[k],
                    ),
                    !configured ==> forall|k: int| 0 <= k < i ==> !selects_gaze_service(
                        #[trigger] lines(c@)[k],
                    ),
                decreases ls.len() - i,
            {
                assert(seqs_view(ls@)[i as int] == ls@[i as int]@);
                let l = crate::text::before_char_vec(&ls[i], '#');
                let hit = contains_chars(&l, &chars_of("pam_module")) && (contains_chars(
                    &l,
                    &chars_of("hyprlock-gaze"),
                ) || contains_chars(&l, &chars_of("hyprlock-gaze-simultaneous")));
                if hit {
                    assert(selects_gaze_service(lines(c@)[i as int]));
                    configured = true;
                }
                i = i + 1;
            }
            assert(cv_ == Some(c@));
            if configured {
                proof {
                    let k = choose|k: int| 0 <= k < i && selects_gaze_service(
                        #[trigger] lines(c@)[k],
                    );
                    assert(0 <= k < lines(c@).len());
                    assert(selects_gaze_service(lines(c@)[k]));
                    assert(conf_selects_gaze(c@));
                }
                assert(hyprlock_configured(cv_));
            } else {
                assert(!hyprlock_configured(cv_));
            }
        },
        None => {},
    }
    assert(configured == hyprlock_configured(cv_));
    if configured {
        report.pass("hyprlock", owned("configured to use a Gaze PAM service"));
    } else {
        report.warning(
            "hyprlock",
            owned("the current user's hyprlock.conf does not select a Gaze PAM service"),
            owned("Set `pam_module = hyprlock-gaze` in the hyprlock general block."),
        );
    }
}

// ---------------------------------------------------------------------------
// The daemon
// ---------------------------------------------------------------------------

/// How long to wait for each daemon call, in seconds.
pub const DAEMON_TIMEOUT_SECS: u64 = 5;

/// How long to wait for a daemon that is still starting, in seconds.
pub const DAEMON_READY_TIMEOUT_SECS: u64 = 25;

/// How long to wait for the inference benchmark, in seconds.
pub const BENCHMARK_TIMEOUT_SECS: u64 = 30;

/// What a call to the daemon came back with.
pub enum DaemonReply<T> {
    /// The daemon answered.
    Answered(T),
    /// The call failed; the text is the bus error as displayed.
    Failed(String),
    /// No answer came in time.
    TimedOut,
}

/// How long to wait for the daemon to become ready, in seconds: only when
/// `systemctl is-active gazed` says it is active (and so may still be starting).
pub fn daemon_ready_wait_secs(active: &Result<(bool, String), String>) -> (r: u64)
    ensures
        r == if answered(*active, "active"@) {
            DAEMON_READY_TIMEOUT_SECS
        } else {
            0
        },
{
    if answered_exec(active, "active") {
        DAEMON_READY_TIMEOUT_SECS
    } else {
        0
    }
}

pub open spec fn connection_findings(reply: DaemonReply<()>) -> Seq<CheckView> {
    match reply {
        DaemonReply::Answered(_) => finding(
            Level::Pass,
            "DBus"@,
            "com.gundulabs.Gaze is reachable on the system bus"@,
            None,
        ),
        DaemonReply::Failed(e) => finding(
            Level::Error,
            "DBus"@,
            "could not reach com.gundulabs.Gaze: "@ + e@,
            Some("Run `systemctl status gazed` and `journalctl -u gazed -n 100 --no-pager`."@),
        ),
        DaemonReply::TimedOut => finding(
            Level::Error,
            "DBus"@,
            "timed out waiting for com.gundulabs.Gaze"@,
            Some("Run `systemctl status gazed` and inspect the daemon journal."@),
        ),
    }
}

/// Checks the connection to the daemon; returns whether it was made.
pub fn check_daemon_connection(report: &mut Report, reply: &DaemonReply<()>) -> (r: bool)
    ensures
        checks_view(final(report).checks@) == checks_view(old(report).checks@) + connection_findings(
            *reply,
        ),
        r == reply is Answered,
{
    match reply {
        DaemonReply::Answered(_) => {
            report.pass("DBus", owned("com.gundulabs.Gaze is reachable on the system bus"));
            true
        },
        DaemonReply::Failed(e) => {
            report.error(
                "DBus",
                concat2("could not reach com.gundulabs.Gaze: ", e.as_str()),
                owned("Run `systemctl status gazed` and `journalctl -u gazed -n 100 --no-pager`."),
            );
            false
        },
        DaemonReply::TimedOut => {
            report.error(
                "DBus",
                owned("timed out waiting for com.gundulabs.Gaze"),
                owned("Run `systemctl status gazed` and inspect the daemon journal."),
            );
            false
        },
    }
}

/// Whether a bus error says the daemon is not ready to be activated yet.
pub open spec fn not_activatable(e: Seq<char>) -> bool {
    contains(e, "not activatable"@) || contains(e, "ServiceUnknown"@)
}

/// The findings about the daemon's configuration reply. When no local
/// configuration could be read, the daemon's one is checked instead.
pub open spec fn daemon_config_findings(
    reply: DaemonReply<Config>,
    have_local_config: bool,
    tpm_present: bool,
    security_threshold: Seq<char>,
    liveness_threshold: Seq<char>,
) -> Seq<CheckView> {
    match reply {
        DaemonReply::Answered(c) => finding(
            Level::Pass,
            "Daemon"@,
            "gazed responded to a configuration request"@,
            None,
        ) + if have_local_config {
            Seq::empty()
        } else {
            config_findings_spec(c, security_threshold, liveness_threshold) + tpm_findings(
                Some(c),
                tpm_present,
            )
        },
        DaemonReply::Failed(e) => if not_activatable(e@) {
            finding(
                Level::Error,
                "Daemon"@,
                "gazed is still starting up (models may be downloading)"@,
                Some("Wait for the first-run model download to finish, then re-run `gaze doctor`."@),
            )
        } else {
            finding(
                Level::Error,
                "Daemon"@,
                "gazed did not return its configuration: "@ + error_detail(e@),
                Some("Restart gazed and inspect its journal."@),
            )
        },
        DaemonReply::TimedOut => finding(
            Level::Error,
            "Daemon"@,
            "gazed timed out while reading its configuration"@,
            Some("Restart gazed and inspect its journal."@),
        ),
    }
}

/// Checks the daemon's answer to a configuration request and returns the
/// daemon's configuration when it answered. The thresholds are the daemon
/// configuration's thresholds as text.
pub fn check_daemon_config(
    report: &mut Report,
    reply: DaemonReply<Config>,
    have_local_config: bool,
    tpm_present: bool,
    security_threshold: &str,
    liveness_threshold: &str,
) -> (r: Option<Config>)
    ensures
        checks_view(final(report).checks@) == checks_view(old(report).checks@)
            + daemon_config_findings(
            reply,
            have_local_config,
            tpm_present,
            security_threshold@,
            liveness_threshold@,
        ),
        r == match reply {
            DaemonReply::Answered(c) => Some(c),
            _ => None::<Config>,
        },
{
    let ghost rp = reply;
    let ghost start = checks_view(report.checks@);
    match reply {
        DaemonReply::Answered(c) => {
            report.pass("Daemon", owned("gazed responded to a configuration request"));
            if !have_local_config {
                let findings = config_findings(&c, security_threshold, liveness_threshold);
                report.extend(findings);
                check_tpm(report, Some(&c), tpm_present);
            }
            assert(checks_view(report.checks@) =~= start + daemon_config_findings(
                rp,
                have_local_config,
                tpm_present,
                security_threshold@,
                liveness_threshold@,
            ));
            Some(c)
        },
        DaemonReply::Failed(e) => {
            if dbus_is_not_activatable(e.as_str()) {
                report.error(
                    "Daemon",
                    owned("gazed is still starting up (models may be downloading)"),
                    owned("Wait for the first-run model download to finish, then re-run `gaze doctor`."),
                );
            } else {
                let detail = dbus_error_message(e.as_str());
                report.error(
                    "Daemon",
                    concat2("gazed did not return its configuration: ", detail.as_str()),
                    owned("Restart gazed and inspect its journal."),
                );
            }
            None
        },
        DaemonReply::TimedOut => {
            report.error(
                "Daemon",
                owned("gazed timed out while reading its configuration"),
                owned("Restart gazed and inspect its journal."),
            );
            None
        },
    }
}

pub open spec fn camera_session_findings(reply: DaemonReply<bool>) -> Seq<CheckView> {
    match reply {
        DaemonReply::Answered(true) => finding(
            Level::Pass,
            "Camera session"@,
            "the daemon can access the current PipeWire session"@,
            None,
        ),
        DaemonReply::Answered(false) => finding(
            Level::Error,
            "Camera session"@,
            "the daemon cannot find a usable PipeWire runtime for this session"@,
            Some(
                "Run this command from a local graphical session and verify /run/user/$UID/pipewire-0 exists."@,
            ),
        ),
        DaemonReply::Failed(e) => finding(
            Level::Error,
            "Camera session"@,
            "availability check failed: "@ + error_detail(e@),
            Some("Inspect the gazed journal for PipeWire or login-session errors."@),
        ),
        DaemonReply::TimedOut => finding(
            Level::Error,
            "Camera session"@,
            "availability check timed out"@,
            Some("Restart gazed and inspect its journal."@),
        ),
    }
}

/// Checks the daemon's answer on whether it can reach this session's cameras.
pub fn check_camera_session(report: &mut Report, reply: &DaemonReply<bool>)
    ensures
        checks_view(final(report).checks@) == checks_view(old(report).checks@)
            + camera_session_findings(*reply),
{
    match reply {
        DaemonReply::Answered(available) => {
            if *available {
                report.pass("Camera session", owned("the daemon can access the current PipeWire session"));
            } else {
                report.error(
                    "Camera session",
                    owned("the daemon cannot find a usable PipeWire runtime for this session"),
                    owned(
                        "Run this command from a local graphical session and verify /run/user/$UID/pipewire-0 exists.",
                    ),
                );
            }
        },
        DaemonReply::Failed(e) => {
            let detail = dbus_error_message(e.as_str());
            report.error(
                "Camera session",
                concat2("availability check failed: ", detail.as_str()),
                owned("Inspect the gazed journal for PipeWire or login-session errors."),
            );
        },
        DaemonReply::TimedOut => {
            report.error(
                "Camera session",
                owned("availability check timed out"),
                owned("Restart gazed and inspect its journal."),
            );
        },
    }
}

/// A face profile as the daemon lists it: name, template count, and whether
/// it has RGB and IR captures.
pub open spec fn lacks_rgb(faces: Seq<(String, u32, bool, bool)>) -> bool {
    exists|i: int| 0 <= i < faces.len() && !(#[trigger] faces[i]).2
}

pub open spec fn lacks_ir(faces: Seq<(String, u32, bool, bool)>) -> bool {
    exists|i: int| 0 <= i < faces.len() && !(#[trigger] faces[i]).3
}

/// The coverage finding: whether the profiles have captures for each
/// configured camera.
pub open spec fn coverage_findings(faces: Seq<(String, u32, bool, bool)>, c: Config) -> Seq<CheckView> {
    let missing_rgb = trim(c.cameras.rgb@).len() > 0 && lacks_rgb(faces);
    let missing_ir = trim(c.cameras.ir@).len() > 0 && lacks_ir(faces);
    if missing_rgb || missing_ir {
        let spectra = if missing_rgb && missing_ir {
            "RGB and IR"@
        } else if missing_rgb {
            "RGB"@
        } else {
            "IR"@
        };
        finding(
            Level::Warning,
            "Enrollment coverage"@,
            "one or more profiles have no "@ + spectra + " captures"@,
            Some("Run `gaze refine-face <name>` for profiles missing configured camera spectra."@),
        )
    } else {
        finding(
            Level::Pass,
            "Enrollment coverage"@,
            "all profiles cover the configured camera spectra"@,
            None,
        )
    }
}

pub open spec fn no_faces_finding(username: Seq<char>) -> Seq<CheckView> {
    finding(
        Level::Warning,
        "Enrollment"@,
        "no faces are enrolled for "@ + username,
        Some("Run `gaze add-face default`."@),
    )
}

pub open spec fn enrollment_findings(
    username: Seq<char>,
    reply: DaemonReply<Vec<(String, u32, bool, bool)>>,
    config: Option<Config>,
) -> Seq<CheckView> {
    match reply {
        DaemonReply::Answered(faces) => if faces@.len() == 0 {
            no_faces_finding(username)
        } else {
            finding(
                Level::Pass,
                "Enrollment"@,
                decimal(faces@.len()) + " face profile(s) enrolled for "@ + username,
                None,
            ) + match config {
                Some(c) => coverage_findings(faces@, c),
                None => Seq::empty(),
            }
        },
        DaemonReply::Failed(e) => if contains(e@, "FileNotFound"@) {
            no_faces_finding(username)
        } else {
            finding(
                Level::Error,
                "Enrollment"@,
                "could not list faces for "@ + username + ": "@ + error_detail(e@),
                Some("Run `gaze list-faces` and inspect the daemon journal."@),
            )
        },
        DaemonReply::TimedOut => finding(
            Level::Error,
            "Enrollment"@,
            "timed out while checking faces for "@ + username,
            Some("Restart gazed and inspect its journal."@),
        ),
    }
}

fn push_coverage(report: &mut Report, faces: &Vec<(String, u32, bool, bool)>, c: &Config)
    ensures
        checks_view(final(report).checks@) == checks_view(old(report).checks@) + coverage_findings(
            faces@,
            *c,
        ),
{
    let mut no_rgb = false;
    let mut no_ir = false;
    let mut i: usize = 0;
    while i < faces.len()
        invariant
            i <= faces.len(),
            no_rgb == exists|k: int| 0 <= k < i && !(#[trigger] faces@[k]).2,
            no_ir == exists|k: int| 0 <= k < i && !(#[trigger] faces@[k]).3,
        decreases faces.len() - i,
    {
        if !faces[i].2 {
            no_rgb = true;
        }
        if !faces[i].3 {
            no_ir = true;
        }
        i = i + 1;
    }
    let rgb = trim_vec(&chars_of(c.cameras.rgb.as_str()));
    let ir = trim_vec(&chars_of(c.cameras.ir.as_str()));
    let missing_rgb = rgb.len() > 0 && no_rgb;
    let missing_ir = ir.len() > 0 && no_ir;
    if missing_rgb || missing_ir {
        let spectra = if missing_rgb && missing_ir {
            "RGB and IR"
        } else if missing_rgb {
            "RGB"
        } else {
            "IR"
        };
        report.warning(
            "Enrollment coverage",
            concat3("one or more profiles have no ", spectra, " captures"),
            owned("Run `gaze refine-face <name>` for profiles missing configured camera spectra."),
        );
    } else {
        report.pass("Enrollment coverage", owned("all profiles cover the configured camera spectra"));
    }
}

/// Checks the daemon's list of the user's face profiles, and, with a
/// configuration, whether they cover its cameras.
pub fn check_enrollment(
    report: &mut Report,
    username: &str,
    reply: &DaemonReply<Vec<(String, u32, bool, bool)>>,
    config: Option<&Config>,
)
    ensures
        checks_view(final(report).checks@) == checks_view(old(report).checks@) + enrollment_findings(
            username@,
            *reply,
            match config {
                Some(c) => Some(*c),
                None => None,
            },
        ),
{
    let ghost start = checks_view(report.checks@);
    match reply {
        DaemonReply::Answered(faces) => {
            if faces.len() == 0 {
                report.warning(
                    "Enrollment",
                    concat2("no faces are enrolled for ", username),
                    owned("Run `gaze add-face default`."),
                );
            } else {
                let n = decimal_string(faces.len() as u64);
                report.pass(
                    "Enrollment",
                    concat3(n.as_str(), " face profile(s) enrolled for ", username),
                );
                let ghost mid = checks_view(report.checks@);
                match config {
                    Some(c) => push_coverage(report, faces, c),
                    None => {},
                }
                assert(checks_view(report.checks@) =~= start + enrollment_findings(
                    username@,
                    *reply,
                    match config {
                        Some(c) => Some(*c),
                        None => None,
                    },
                ));
            }
        },
        DaemonReply::Failed(e) => {
            if dbus_is_file_not_found(e.as_str()) {
                report.warning(
                    "Enrollment",
                    concat2("no faces are enrolled for ", username),
                    owned("Run `gaze add-face default`."),
                );
            } else {
                let detail = dbus_error_message(e.as_str());
                let m = concat3("could not list faces for ", username, ": ");
                report.error(
                    "Enrollment",
                    concat2(m.as_str(), detail.as_str()),
                    owned("Run `gaze list-faces` and inspect the daemon journal."),
                );
            }
        },
        DaemonReply::TimedOut => {
            report.error(
                "Enrollment",
                concat2("timed out while checking faces for ", username),
                owned("Restart gazed and inspect its journal."),
            );
        },
    }
}

/// The benchmark findings; each answered line is one model's timings as text.
pub open spec fn benchmark_findings(reply: DaemonReply<Vec<String>>) -> Seq<CheckView> {
    match reply {
        DaemonReply::Answered(lines) => Seq::new(
            lines@.len(),
            |i: int| cv(Level::Pass, "Benchmark"@, lines@[i]@, None),
        ),
        DaemonReply::Failed(e) => finding(
            Level::Warning,
            "Benchmark"@,
            "gazed could not run the benchmark: "@ + error_detail(e@),
            Some("Restart gazed and inspect its journal."@),
        ),
        DaemonReply::TimedOut => finding(
            Level::Warning,
            "Benchmark"@,
            "benchmark timed out"@,
            Some("Restart gazed and inspect its journal."@),
        ),
    }
}

/// Checks the daemon's benchmark answer.
pub fn check_benchmark(report: &mut Report, reply: &DaemonReply<Vec<String>>)
    ensures
        checks_view(final(report).checks@) == checks_view(old(report).checks@) + benchmark_findings(
            *reply,
        ),
{
    let ghost start = checks_view(report.checks@);
    match reply {
        DaemonReply::Answered(lines) => {
            let mut i: usize = 0;
            while i < lines.len()
                invariant
                    i <= lines.len(),
                    checks_view(report.checks@) == start + Seq::new(
                        i as nat,
                        |k: int| cv(Level::Pass, "Benchmark"@, lines@[k]@, None),
                    ),
                decreases lines.len() - i,
            {
                report.pass("Benchmark", owned(lines[i].as_str()));
                i = i + 1;
                assert(Seq::new(i as nat, |k: int| cv(Level::Pass, "Benchmark"@, lines@[k]@, None))
                    =~= Seq::new((i - 1) as nat, |k: int| cv(Level::Pass, "Benchmark"@, lines@[k]@, None)).push(
                    cv(Level::Pass, "Benchmark"@, lines@[i - 1]@, None),
                ));
            }
        },
        DaemonReply::Failed(e) => {
            let detail = dbus_error_message(e.as_str());
            report.warning(
                "Benchmark",
                concat2("gazed could not run the benchmark: ", detail.as_str()),
                owned("Restart gazed and inspect its journal."),
            );
        },
        DaemonReply::TimedOut => {
            report.warning(
                "Benchmark",
                owned("benchmark timed out"),
                owned("Restart gazed and inspect its journal."),
            );
        },
    }
}

// ---------------------------------------------------------------------------
// Cameras
// ---------------------------------------------------------------------------

/// How the configured IR source is checked.
pub enum IrCheck {
    /// A `/dev/video*` node: check that it is a character device.
    Device(String),
    /// A PipeWire source: check that it is advertised.
    PipeWire(String),
    /// Another GStreamer source, which this read-only check does not open.
    Custom,
}

/// What the camera checks look at: the trimmed RGB source, when set, and
/// how to check the IR source, when set.
pub struct CameraPlan {
    pub rgb: Option<String>,
    pub ir: Option<IrCheck>,
}

/// How an IR source is checked, with its text as a sequence.
pub enum IrCheckView {
    Device(Seq<char>),
    PipeWire(Seq<char>),
    Custom,
}

impl IrCheck {
    pub open spec fn view(&self) -> IrCheckView {
        match self {
            IrCheck::Device(s) => IrCheckView::Device(s@),
            IrCheck::PipeWire(s) => IrCheckView::PipeWire(s@),
            IrCheck::Custom => IrCheckView::Custom,
        }
    }
}

/// How a configured IR source (trimmed) is checked; none when it is empty.
pub open spec fn ir_check_of(ir: Seq<char>) -> Option<IrCheckView> {
    if ir.len() == 0 {
        None
    } else if starts_with(ir, "/dev/video"@) {
        Some(IrCheckView::Device(ir))
    } else if starts_with(ir, "pipewiresrc target-object="@) {
        Some(IrCheckView::PipeWire(ir))
    } else {
        Some(IrCheckView::Custom)
    }
}

/// The trimmed RGB source, when set.
pub open spec fn rgb_check_of(rgb: Seq<char>) -> Option<Seq<char>> {
    if rgb.len() == 0 {
        None
    } else {
        Some(rgb)
    }
}

impl CameraPlan {
    pub open spec fn view(&self) -> (Option<Seq<char>>, Option<IrCheckView>) {
        (
            match self.rgb {
                Some(s) => Some(s@),
                None => None,
            },
            match self.ir {
                Some(c) => Some(c@),
                None => None,
            },
        )
    }
}

/// The camera checks for a configuration; none without one.
pub fn camera_plan(config: Option<&Config>) -> (r: CameraPlan)
    ensures
        r@ == match config {
            None => (None, None),
            Some(c) => (rgb_check_of(trim(c.cameras.rgb@)), ir_check_of(trim(c.cameras.ir@))),
        },
{
    match config {
        None => CameraPlan { rgb: None, ir: None },
        Some(c) => {
            let rgb = trim_vec(&chars_of(c.cameras.rgb.as_str()));
            let ir = trim_vec(&chars_of(c.cameras.ir.as_str()));
            let rgb_plan = if rgb.len() == 0 {
                None
            } else {
                Some(string_of(&rgb))
            };
            let ir_plan = if ir.len() == 0 {
                None
            } else if has_prefix(&ir, &chars_of("/dev/video")) {
                Some(IrCheck::Device(string_of(&ir)))
            } else if has_prefix(&ir, &chars_of("pipewiresrc target-object=")) {
                Some(IrCheck::PipeWire(string_of(&ir)))
            } else {
                Some(IrCheck::Custom)
            };
            CameraPlan { rgb: rgb_plan, ir: ir_plan }
        },
    }
}

/// The number of advertised cameras other than the default entry.
pub open spec fn physical_count(cams: Seq<(Seq<char>, Seq<char>)>) -> nat
    decreases cams.len(),
{
    if cams.len() == 0 {
        0
    } else {
        physical_count(cams.drop_last()) + if cams.last().1 != DEFAULT_RGB_CAMERA@ {
            1nat
        } else {
            0nat
        }
    }
}

pub open spec fn rgb_camera_findings(rgb: Seq<char>, cameras: Result<Vec<(String, String)>, String>) -> Seq<CheckView> {
    match cameras {
        Ok(list) => {
            let cams = pairs_view(list@);
            let detected = physical_count(cams);
            if rgb == DEFAULT_RGB_CAMERA@ {
                if detected > 0 {
                    finding(
                        Level::Pass,
                        "RGB camera"@,
                        decimal(detected) + " color camera(s) visible through PipeWire"@,
                        None,
                    )
                } else {
                    finding(
                        Level::Warning,
                        "RGB camera"@,
                        "no physical color camera was advertised by PipeWire"@,
                        Some(
                            "Check camera privacy controls and run `gaze config` from the local desktop session."@,
                        ),
                    )
                }
            } else if starts_with(rgb, "pipewiresrc target-object="@) {
                if has_target(cams, rgb) {
                    finding(Level::Pass, "RGB camera"@, "the configured PipeWire source is visible"@, None)
                } else {
                    finding(
                        Level::Error,
                        "RGB camera"@,
                        "configured source is not visible: "@ + rgb,
                        Some("Run `gaze config` and select a currently detected camera."@),
                    )
                }
            } else if !starts_with(rgb, "/dev/video"@) {
                finding(
                    Level::Warning,
                    "RGB camera"@,
                    "a custom GStreamer source is configured and was not opened by this read-only check"@,
                    Some("Run `gaze auth` to verify that the custom source produces frames."@),
                )
            } else {
                Seq::empty()
            }
        },
        Err(e) => finding(
            Level::Error,
            "RGB camera"@,
            "GStreamer camera enumeration failed: "@ + e@,
            Some("Verify the GStreamer PipeWire plugin is installed and PipeWire is running."@),
        ),
    }
}

fn has_target_exec(list: &Vec<(String, String)>, target: &str) -> (r: bool)
    ensures
        r == has_target(pairs_view(list@), target@),
{
    let mut i: usize = 0;
    while i < list.len()
        invariant
            i <= list.len(),
            forall|k: int| 0 <= k < i ==> #[trigger] pairs_view(list@)[k].1 != target@,
        decreases list.len() - i,
    {
        assert(pairs_view(list@)[i as int].1 == list@[i as int].1@);
        if str_eq(list[i].1.as_str(), target) {
            assert(pairs_view(list@)[i as int].1 == target@);
            return true;
        }
        i = i + 1;
    }
    false
}

/// Checks the configured RGB source (trimmed) against the cameras that
/// PipeWire advertises, as `(label, target)` pairs, or the enumeration error.
pub fn check_rgb_camera(report: &mut Report, rgb: &str, cameras: &Result<Vec<(String, String)>, String>)
    ensures
        checks_view(final(report).checks@) == checks_view(old(report).checks@) + rgb_camera_findings(
            rgb@,
            *cameras,
        ),
{
    let ghost start = checks_view(report.checks@);
    match cameras {
        Ok(list) => {
            let mut detected: u64 = 0;
            let mut i: usize = 0;
            while i < list.len()
                invariant
                    i <= list.len(),
                    detected == physical_count(pairs_view(list@).take(i as int)),
                    detected <= i,
                decreases list.len() - i,
            {
                let ghost next = pairs_view(list@).take(i + 1);
                assert(next.drop_last() == pairs_view(list@).take(i as int));
                assert(next.last().1 == list@[i as int].1@);
                if !str_eq(list[i].1.as_str(), DEFAULT_RGB_CAMERA) {
                    detected = detected + 1;
                }
                i = i + 1;
            }
            assert(pairs_view(list@).take(list.len() as int) == pairs_view(list@));
            if str_eq(rgb, DEFAULT_RGB_CAMERA) {
                if detected > 0 {
                    let n = decimal_string(detected);
                    report.pass("RGB camera", concat2(n.as_str(), " color camera(s) visible through PipeWire"));
                } else {
                    report.warning(
                        "RGB camera",
                        owned("no physical color camera was advertised by PipeWire"),
                        owned("Check camera privacy controls and run `gaze config` from the local desktop session."),
                    );
                }
            } else if has_prefix(&chars_of(rgb), &chars_of("pipewiresrc target-object=")) {
                if has_target_exec(list, rgb) {
                    report.pass("RGB camera", owned("the configured PipeWire source is visible"));
                } else {
                    report.error(
                        "RGB camera",
                        concat2("configured source is not visible: ", rgb),
                        owned("Run `gaze config` and select a currently detected camera."),
                    );
                }
            } else if !has_prefix(&chars_of(rgb), &chars_of("/dev/video")) {
                report.warning(
                    "RGB camera",
                    owned("a custom GStreamer source is configured and was not opened by this read-only check"),
                    owned("Run `gaze auth` to verify that the custom source produces frames."),
                );
            } else {
                assert(checks_view(report.checks@) =~= start + Seq::<CheckView>::empty());
            }
        },
        Err(e) => {
            report.error(
                "RGB camera",
                concat2("GStreamer camera enumeration failed: ", e.as_str()),
                owned("Verify the GStreamer PipeWire plugin is installed and PipeWire is running."),
            );
        },
    }
}

pub open spec fn ir_device_findings(ir: Seq<char>, meta: Result<bool, String>) -> Seq<CheckView> {
    match meta {
        Ok(true) => finding(Level::Pass, "IR camera"@, ir + " is a character device"@, None),
        Ok(false) => finding(
            Level::Error,
            "IR camera"@,
            ir + " is not a device node"@,
            Some("Choose the IR camera's /dev/video* node."@),
        ),
        Err(e) => finding(
            Level::Error,
            "IR camera"@,
            "cannot access "@ + ir + ": "@ + e@,
            Some("Correct cameras.ir or reconnect the IR camera."@),
        ),
    }
}

/// Checks an IR device node, given whether it is a character device or the
/// error reading its metadata.
pub fn check_ir_device(report: &mut Report, ir: &str, meta: &Result<bool, String>)
    ensures
        checks_view(final(report).checks@) == checks_view(old(report).checks@) + ir_device_findings(
            ir@,
            *meta,
        ),
{
    match meta {
        Ok(is_char_device) => {
            if *is_char_device {
                report.pass("IR camera", concat2(ir, " is a character device"));
            } else {
                report.error(
                    "IR camera",
                    concat2(ir, " is not a device node"),
                    owned("Choose the IR camera's /dev/video* node."),
                );
            }
        },
        Err(e) => {
            let m = concat3("cannot access ", ir, ": ");
            report.error(
                "IR camera",
                concat2(m.as_str(), e.as_str()),
                owned("Correct cameras.ir or reconnect the IR camera."),
            );
        },
    }
}

pub open spec fn ir_pipewire_findings(ir: Seq<char>, cameras: Result<Vec<(String, String)>, String>) -> Seq<CheckView> {
    match cameras {
        Ok(list) => if has_target(pairs_view(list@), ir) {
            finding(Level::Pass, "IR camera"@, "the configured PipeWire source is visible"@, None)
        } else {
            finding(
                Level::Error,
                "IR camera"@,
                "configured source is not visible: "@ + ir,
                Some("Run `gaze config` and select a currently detected IR camera."@),
            )
        },
        Err(e) => finding(
            Level::Error,
            "IR camera"@,
            "GStreamer IR camera enumeration failed: "@ + e@,
            Some("Verify PipeWire is running and the IR device is connected."@),
        ),
    }
}

/// Checks a PipeWire IR source against the advertised IR cameras.
pub fn check_ir_pipewire(report: &mut Report, ir: &str, cameras: &Result<Vec<(String, String)>, String>)
    ensures
        checks_view(final(report).checks@) == checks_view(old(report).checks@) + ir_pipewire_findings(
            ir@,
            *cameras,
        ),
{
    match cameras {
        Ok(list) => {
            if has_target_exec(list, ir) {
                report.pass("IR camera", owned("the configured PipeWire source is visible"));
            } else {
                report.error(
                    "IR camera",
                    concat2("configured source is not visible: ", ir),
                    owned("Run `gaze config` and select a currently detected IR camera."),
                );
            }
        },
        Err(e) => {
            report.error(
                "IR camera",
                concat2("GStreamer IR camera enumeration failed: ", e.as_str()),
                owned("Verify PipeWire is running and the IR device is connected."),
            );
        },
    }
}

/// Notes that a custom IR source is not opened by the read-only check.
pub fn check_ir_custom(report: &mut Report)
    ensures
        checks_view(final(report).checks@) == checks_view(old(report).checks@).push(
            cv(
                Level::Warning,
                "IR camera"@,
                "a custom GStreamer source is configured and was not opened by this read-only check"@,
                Some("Run `gaze auth` to verify that the IR source produces frames."@),
            ),
        ),
{
    report.warning(
        "IR camera",
        owned("a custom GStreamer source is configured and was not opened by this read-only check"),
        owned("Run `gaze auth` to verify that the IR source produces frames."),
    );
}

/// The platform check reports one finding. On Linux it is the CPU finding,
/// and it is an error exactly when the CPU is known to lack AVX2: a CPU with
/// AVX2, or an architecture without the check, is reported healthy. Any
/// other operating system is an error.
pub proof fn platform_law(os: Seq<char>, arch: Seq<char>, avx2: Option<bool>)
    ensures
        platform_findings(os, arch, avx2).len() == 1,
        os == "linux"@ ==> platform_findings(os, arch, avx2)[0].name == "CPU"@,
        os == "linux"@ ==> (platform_findings(os, arch, avx2)[0].level == Level::Error
            <==> avx2 == Some(false)),
        os == "linux"@ && avx2 != Some(false) ==> platform_findings(os, arch, avx2)[0].level
            == Level::Pass && platform_findings(os, arch, avx2)[0].fix is None,
        os != "linux"@ ==> platform_findings(os, arch, avx2)[0].level == Level::Error,
{
}

} // verus!
