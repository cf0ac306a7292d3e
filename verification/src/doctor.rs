//! The installation health report: its checks, the PAM stack analysis and the
//! verdicts drawn from configuration, service and device facts.

use vstd::prelude::*;
use crate::config::{Config, CONFIG_PATH, is_model_quality, security_level_options, validation_error};
use crate::text::{
    before_char, before_char_vec, chars_eq, chars_of, concat2, concat3, contains, contains_chars,
    debug_quote, debug_text, decimal, decimal_string, ends_with, has_prefix, has_suffix, join,
    join_strings, lines, lines_of, octal, octal_string, owned, seqs_view, split_tokens,
    starts_with, string_seq_view, tokens, trim, trim_vec,
};

verus! {

/// How serious a check's finding is.
#[derive(Clone, Copy, Debug, PartialEq, Eq, Structural)]
pub enum Level {
    Pass,
    Warning,
    Error,
}

/// One finding of the report.
#[derive(Debug, Clone)]
pub struct Check {
    pub level: Level,
    pub name: &'static str,
    pub message: String,
    pub fix: Option<String>,
}

/// A check with its texts taken as character sequences.
pub struct CheckView {
    pub level: Level,
    pub name: Seq<char>,
    pub message: Seq<char>,
    pub fix: Option<Seq<char>>,
}

impl Check {
    pub open spec fn view(&self) -> CheckView {
        CheckView {
            level: self.level,
            name: self.name@,
            message: self.message@,
            fix: match self.fix {
                Some(f) => Some(f@),
                None => None,
            },
        }
    }
}

pub open spec fn checks_view(v: Seq<Check>) -> Seq<CheckView> {
    v.map_values(|c: Check| c@)
}

pub open spec fn cv(level: Level, name: Seq<char>, message: Seq<char>, fix: Option<Seq<char>>) -> CheckView {
    CheckView { level, name, message, fix }
}

/// The findings of a health check run.
pub struct Report {
    pub checks: Vec<Check>,
}

/// The number of checks of a level.
pub open spec fn count_level(s: Seq<Check>, level: Level) -> nat
    decreases s.len(),
{
    if s.len() == 0 {
        0
    } else {
        count_level(s.drop_last(), level) + if s.last().level == level {
            1nat
        } else {
            0nat
        }
    }
}

impl Default for Report {
    fn default() -> (r: Self)
        ensures
            r.checks@.len() == 0,
    {
        Report { checks: Vec::new() }
    }
}

impl Report {
    pub fn push(&mut self, level: Level, name: &'static str, message: String, fix: Option<String>)
        ensures
            checks_view(final(self).checks@) == checks_view(old(self).checks@).push(
                cv(
                    level,
                    name@,
                    message@,
                    match fix {
                        Some(f) => Some(f@),
                        None => None,
                    },
                ),
            ),
    {
        let c = Check { level, name, message, fix };
        let ghost before = self.checks@;
        self.checks.push(c);
        assert(checks_view(self.checks@) =~= checks_view(before).push(c@));
    }

    pub fn pass(&mut self, name: &'static str, message: String)
        ensures
            checks_view(final(self).checks@) == checks_view(old(self).checks@).push(
                cv(Level::Pass, name@, message@, None),
            ),
    {
        self.push(Level::Pass, name, message, None);
    }

    pub fn warning(&mut self, name: &'static str, message: String, fix: String)
        ensures
            checks_view(final(self).checks@) == checks_view(old(self).checks@).push(
                cv(Level::Warning, name@, message@, Some(fix@)),
            ),
    {
        self.push(Level::Warning, name, message, Some(fix));
    }

    pub fn error(&mut self, name: &'static str, message: String, fix: String)
        ensures
            checks_view(final(self).checks@) == checks_view(old(self).checks@).push(
                cv(Level::Error, name@, message@, Some(fix@)),
            ),
    {
        self.push(Level::Error, name, message, Some(fix));
    }

    /// Appends findings computed elsewhere.
    pub fn extend(&mut self, findings: Vec<Check>)
        ensures
            checks_view(final(self).checks@) == checks_view(old(self).checks@) + checks_view(
                findings@,
            ),
    {
        let mut i: usize = 0;
        let ghost start = self.checks@;
        while i < findings.len()
            invariant
                i <= findings.len(),
                checks_view(self.checks@) == checks_view(start) + checks_view(findings@).take(
                    i as int,
                ),
            decreases findings.len() - i,
        {
            let c = findings[i].clone_check();
            let ghost before = self.checks@;
            self.checks.push(c);
            assert(checks_view(self.checks@) =~= checks_view(before).push(c@));
            i = i + 1;
            assert(checks_view(findings@).take(i as int) =~= checks_view(findings@).take(i - 1).push(
                findings@[i - 1]@,
            ));
        }
        assert(checks_view(findings@).take(findings.len() as int) == checks_view(findings@));
    }

    /// The number of checks at `level`.
    pub fn count(&self, level: Level) -> (r: usize)
        ensures
            r == count_level(self.checks@, level),
    {
        let mut n: usize = 0;
        let mut i: usize = 0;
        while i < self.checks.len()
            invariant
                i <= self.checks.len(),
                n == count_level(self.checks@.take(i as int), level),
                n <= i,
            decreases self.checks.len() - i,
        {
            assert(self.checks@.take(i + 1).drop_last() == self.checks@.take(i as int));
            if self.checks[i].level == level {
                n = n + 1;
            }
            i = i + 1;
        }
        assert(self.checks@.take(self.checks.len() as int) == self.checks@);
        n
    }

    /// A report is healthy when no check is an error; warnings do not count.
    pub fn is_healthy(&self) -> (r: bool)
        ensures
            r == (count_level(self.checks@, Level::Error) == 0),
    {
        self.count(Level::Error) == 0
    }
}

impl Check {
    /// A copy of the check.
    pub fn clone_check(&self) -> (r: Check)
        ensures
            r@ == self@,
    {
        Check {
            level: self.level,
            name: self.name,
            message: self.message.clone(),
            fix: match &self.fix {
                Some(f) => Some(f.clone()),
                None => None,
            },
        }
    }
}

/// Adding an error makes a report unhealthy, and adding passes or warnings
/// leaves its health unchanged.
pub proof fn report_health_law(checks: Seq<Check>, c: Check)
    ensures
        c.level == Level::Error ==> count_level(checks.push(c), Level::Error) > 0,
        c.level != Level::Error ==> count_level(checks.push(c), Level::Error) == count_level(
            checks,
            Level::Error,
        ),
{
    assert(checks.push(c).drop_last() == checks);
}

// ---------------------------------------------------------------------------
// The PAM stack
// ---------------------------------------------------------------------------

/// The PAM modules Gaze installs.
pub open spec fn pam_modules() -> Seq<Seq<char>> {
    seq!["pam_gaze.so"@, "pam_gaze_grosshack.so"@]
}

/// A token that loads a Gaze module, by bare name or by absolute path.
pub open spec fn is_module_token(t: Seq<char>) -> bool {
    t == "pam_gaze.so"@ || t == "pam_gaze_grosshack.so"@ || ends_with(t, "/pam_gaze.so"@)
        || ends_with(t, "/pam_gaze_grosshack.so"@)
}

/// A PAM line without its comment and surrounding whitespace.
pub open spec fn clean_line(line: Seq<char>) -> Seq<char> {
    trim(before_char(line, '#'))
}

/// Whether a PAM configuration line loads a Gaze module.
#[verifier::opaque]
pub open spec fn pam_reference(line: Seq<char>) -> bool {
    let l = clean_line(line);
    l.len() > 0 && exists|i: int|
        0 <= i < tokens(l, true).len() && is_module_token(#[trigger] tokens(l, true)[i])
}

fn is_module_token_exec(t: &[char]) -> (r: bool)
    ensures
        r == is_module_token(t@),
{
    chars_eq(t, &chars_of("pam_gaze.so")) || chars_eq(t, &chars_of("pam_gaze_grosshack.so"))
        || has_suffix(t, &chars_of("/pam_gaze.so")) || has_suffix(t, &chars_of("/pam_gaze_grosshack.so"))
}

fn clean_line_exec(line: &[char]) -> (r: Vec<char>)
    ensures
        r@ == clean_line(line@),
{
    crate::text::trim_vec(&before_char_vec(line, '#'))
}

fn has_reference_chars(line: &[char]) -> (r: bool)
    ensures
        r == pam_reference(line@),
{
    reveal(pam_reference);
    let l = clean_line_exec(line);
    if l.len() == 0 {
        return false;
    }
    let toks = split_tokens(&l, true);
    let mut i: usize = 0;
    while i < toks.len()
        invariant
            i <= toks.len(),
            seqs_view(toks@) == tokens(l@, true),
            l@ == clean_line(line@),
            l@.len() > 0,
            forall|k: int| 0 <= k < i ==> !is_module_token(#[trigger] tokens(l@, true)[k]),
        decreases toks.len() - i,
    {
        assert(seqs_view(toks@)[i as int] == toks@[i as int]@);
        if is_module_token_exec(&toks[i]) {
            assert(pam_reference(line@)) by {
                reveal(pam_reference);
                let cl = clean_line(line@);
                assert(cl == l@);
                assert(0 <= i < tokens(cl, true).len());
                assert(is_module_token(tokens(cl, true)[i as int]));
            }
            return true;
        }
        i = i + 1;
    }
    false
}

/// Whether a PAM configuration line loads a Gaze module; comments do not count.
pub fn pam_line_has_reference(line: &str) -> (r: bool)
    ensures
        r == pam_reference(line@),
{
    has_reference_chars(&chars_of(line))
}

/// Whether a PAM configuration file has a line loading a Gaze module.
pub open spec fn file_references_gaze(contents: Seq<char>) -> bool {
    exists|i: int| 0 <= i < lines(contents).len() && pam_reference(#[trigger] lines(contents)[i])
}

pub fn pam_file_references_gaze(contents: &str) -> (r: bool)
    ensures
        r == file_references_gaze(contents@),
{
    let ls = lines_of(&chars_of(contents));
    let mut i: usize = 0;
    while i < ls.len()
        invariant
            i <= ls.len(),
            seqs_view(ls@) == lines(contents@),
            forall|k: int| 0 <= k < i ==> !pam_reference(#[trigger] lines(contents@)[k]),
        decreases ls.len() - i,
    {
        assert(seqs_view(ls@)[i as int] == ls@[i as int]@);
        if has_reference_chars(&ls[i]) {
            assert(pam_reference(lines(contents@)[i as int]));
            return true;
        }
        i = i + 1;
    }
    false
}

/// A cleaned line of the `auth` stack.
pub open spec fn is_auth_line(l: Seq<char>) -> bool {
    tokens(l, true).len() > 0 && tokens(l, true)[0] == "auth"@
}

/// The cleaned `auth` lines of a PAM file, in order.
pub open spec fn auth_lines(ls: Seq<Seq<char>>) -> Seq<Seq<char>>
    decreases ls.len(),
{
    if ls.len() == 0 {
        Seq::empty()
    } else {
        let prev = auth_lines(ls.drop_last());
        let l = clean_line(ls.last());
        if is_auth_line(l) {
            prev.push(l)
        } else {
            prev
        }
    }
}

/// The auth modules that compete with Gaze for the user's attention.
pub open spec fn competitors() -> Seq<Seq<char>> {
    seq!["pam_unix.so"@, "pam_fprintd.so"@]
}

/// The index of the first `auth` line loading Gaze.
pub open spec fn first_gaze_line(a: Seq<Seq<char>>) -> Option<int> {
    if exists|i: int| 0 <= i < a.len() && pam_reference(a[i]) {
        Some(choose|i: int| 0 <= i < a.len() && pam_reference(a[i]) && forall|k: int| 0 <= k < i ==> !pam_reference(#[trigger] a[k]))
    } else {
        None
    }
}

pub open spec fn stacked_before(a: Seq<Seq<char>>, idx: int, m: Seq<char>) -> bool {
    exists|j: int| 0 <= j < idx && contains(#[trigger] a[j], m)
}

/// The competing modules named on `auth` lines above the first Gaze line,
/// in the order `pam_unix.so`, `pam_fprintd.so`; none when Gaze is absent.
pub open spec fn ordering_conflicts(contents: Seq<char>) -> Seq<Seq<char>> {
    let a = auth_lines(lines(contents));
    match first_gaze_line(a) {
        None => Seq::empty(),
        Some(idx) => {
            let u = if stacked_before(a, idx, competitors()[0]) {
                seq![competitors()[0]]
            } else {
                Seq::empty()
            };
            let f = if stacked_before(a, idx, competitors()[1]) {
                seq![competitors()[1]]
            } else {
                Seq::empty()
            };
            u + f
        },
    }
}

pub open spec fn strs_view(v: Seq<&'static str>) -> Seq<Seq<char>> {
    v.map_values(|s: &'static str| s@)
}

fn is_auth_line_exec(l: &[char]) -> (r: bool)
    ensures
        r == is_auth_line(l@),
{
    let toks = split_tokens(l, true);
    if toks.len() == 0 {
        return false;
    }
    assert(seqs_view(toks@)[0] == toks@[0]@);
    chars_eq(&toks[0], &chars_of("auth"))
}

fn stacked_before_exec(a: &Vec<Vec<char>>, idx: usize, m: &str) -> (r: bool)
    requires
        idx <= a@.len(),
    ensures
        r == stacked_before(seqs_view(a@), idx as int, m@),
{
    let mc = chars_of(m);
    let mut j: usize = 0;
    while j < idx
        invariant
            j <= idx <= a@.len(),
            mc@ == m@,
            forall|k: int| 0 <= k < j ==> !contains(#[trigger] seqs_view(a@)[k], m@),
        decreases idx - j,
    {
        assert(seqs_view(a@)[j as int] == a@[j as int]@);
        if contains_chars(&a[j], &mc) {
            return true;
        }
        j = j + 1;
    }
    false
}

/// The competing auth modules (password, fingerprint) stacked above Gaze in
/// a PAM file, which stall face authentication behind their prompts.
pub fn find_pam_ordering_conflicts(contents: &str) -> (r: Vec<&'static str>)
    ensures
        strs_view(r@) == ordering_conflicts(contents@),
{
    let ls = lines_of(&chars_of(contents));
    let mut a: Vec<Vec<char>> = Vec::new();
    let mut i: usize = 0;
    assert(seqs_view(ls@).take(0) == Seq::<Seq<char>>::empty());
    while i < ls.len()
        invariant
            i <= ls.len(),
            seqs_view(ls@) == lines(contents@),
            seqs_view(a@) == auth_lines(seqs_view(ls@).take(i as int)),
        decreases ls.len() - i,
    {
        let ghost pre = seqs_view(ls@).take(i + 1);
        assert(pre.drop_last() == seqs_view(ls@).take(i as int));
        assert(pre.last() == ls@[i as int]@);
        let l = clean_line_exec(&ls[i]);
        if is_auth_line_exec(&l) {
            let ghost before = a@;
            a.push(l);
            assert(seqs_view(a@) =~= seqs_view(before).push(l@));
        }
        i = i + 1;
    }
    assert(seqs_view(ls@).take(ls.len() as int) == seqs_view(ls@));
    conflicts_in_auth_lines(&a)
}

/// The first line of `a` loading Gaze.
fn first_reference(a: &Vec<Vec<char>>) -> (r: Option<usize>)
    ensures
        r matches Some(i) ==> i < a@.len() && first_gaze_line(seqs_view(a@)) == Some(i as int),
        r is None ==> first_gaze_line(seqs_view(a@)) is None,
{
    let ghost av = seqs_view(a@);
    let mut idx: usize = 0;
    while idx < a.len()
        invariant
            idx <= a.len(),
            av == seqs_view(a@),
            forall|k: int| 0 <= k < idx ==> !pam_reference(#[trigger] av[k]),
        decreases a.len() - idx,
    {
        assert(av[idx as int] == a@[idx as int]@);
        if has_reference_chars(&a[idx]) {
            proof {
                assert(pam_reference(av[idx as int]));
                let c = choose|i: int| 0 <= i < av.len() && pam_reference(av[i]) && forall|k: int|
                    0 <= k < i ==> !pam_reference(#[trigger] av[k]);
                assert(c == idx) by {
                    if c < idx {
                    } else if c > idx {
                    }
                }
            }
            return Some(idx);
        }
        idx = idx + 1;
    }
    None
}

/// The conflicts among already extracted `auth` lines.
fn conflicts_in_auth_lines(a: &Vec<Vec<char>>) -> (r: Vec<&'static str>)
    ensures
        strs_view(r@) == ({
            let av = seqs_view(a@);
            match first_gaze_line(av) {
                None => Seq::empty(),
                Some(idx) => {
                    let u = if stacked_before(av, idx, competitors()[0]) {
                        seq![competitors()[0]]
                    } else {
                        Seq::empty()
                    };
                    let f = if stacked_before(av, idx, competitors()[1]) {
                        seq![competitors()[1]]
                    } else {
                        Seq::empty()
                    };
                    u + f
                },
            }
        }),
{
    let mut out: Vec<&'static str> = Vec::new();
    let idx = match first_reference(a) {
        None => {
            assert(strs_view(out@) =~= Seq::<Seq<char>>::empty());
            return out;
        },
        Some(i) => i,
    };
    if stacked_before_exec(&a, idx, "pam_unix.so") {
        out.push("pam_unix.so");
    }
    if stacked_before_exec(&a, idx, "pam_fprintd.so") {
        out.push("pam_fprintd.so");
    }
    let ghost av = seqs_view(a@);
    assert(strs_view(out@) =~= (if stacked_before(av, idx as int, competitors()[0]) {
        seq![competitors()[0]]
    } else {
        Seq::empty()
    }) + (if stacked_before(av, idx as int, competitors()[1]) {
        seq![competitors()[1]]
    } else {
        Seq::empty()
    }));
    out
}

// ---------------------------------------------------------------------------
// Configuration values
// ---------------------------------------------------------------------------

/// An `f64` bit pattern whose value is finite and within `0.0..=1.0`
/// (`-0.0` included).
pub open spec fn unit_interval_bits(b: u64) -> bool {
    b <= 0x3FF0_0000_0000_0000 || b == 0x8000_0000_0000_0000
}

pub open spec fn opt_check(cond: bool, c: CheckView) -> Seq<CheckView> {
    if cond {
        seq![c]
    } else {
        Seq::empty()
    }
}

pub open spec fn config_error(message: Seq<char>, fix: Seq<char>) -> CheckView {
    cv(Level::Error, "Config values"@, message, Some(fix))
}

pub open spec fn is_known_hybrid_policy(p: Seq<char>) -> bool {
    p.len() == 0 || p == "default"@ || p == "or"@ || p == "fallback_on_dark"@ || p == "and"@
}

/// The errors about the security level.
pub open spec fn security_errors(c: Config, security_threshold: Seq<char>) -> Seq<CheckView> {
    let custom = c.security.level@ == "custom"@;
    opt_check(
        validation_error(c.security) is Some,
        config_error(
            match validation_error(c.security) {
                Some(m) => m,
                None => Seq::empty(),
            },
            "Choose a supported security level with `gaze config`."@,
        ),
    ) + opt_check(
        custom && !unit_interval_bits(c.security.threshold_bits),
        config_error(
            "security.threshold must be between 0.0 and 1.0, got "@ + security_threshold,
            "Set a valid custom threshold in /etc/gaze/config.toml."@,
        ),
    ) + opt_check(
        custom && !is_known_hybrid_policy(c.security.hybrid_policy@),
        config_error(
            "unsupported security.hybrid_policy "@ + debug_text(c.security.hybrid_policy@),
            "Use default, or, fallback_on_dark, or and."@,
        ),
    )
}

/// The errors about camera sources.
pub open spec fn camera_errors(c: Config) -> Seq<CheckView> {
    let rgb = trim(c.cameras.rgb@);
    let ir = trim(c.cameras.ir@);
    opt_check(
        rgb.len() == 0 && ir.len() == 0,
        config_error(
            "both cameras.rgb and cameras.ir are empty"@,
            "Set cameras.rgb to \"primary\" or configure an IR camera."@,
        ),
    ) + opt_check(
        starts_with(rgb, "/dev/video"@),
        config_error(
            "direct RGB camera path "@ + debug_text(rgb) + " is unsupported"@,
            "Use `gaze config` to select a PipeWire camera; direct /dev/video* is supported only for cameras.ir."@,
        ),
    )
}

/// The errors about anti-spoofing.
pub open spec fn liveness_errors(c: Config, liveness_threshold: Seq<char>) -> Seq<CheckView> {
    opt_check(
        c.liveness.enabled && !unit_interval_bits(c.liveness.threshold_bits),
        config_error(
            "liveness.threshold must be between 0.0 and 1.0, got "@ + liveness_threshold,
            "Set liveness.threshold to a value between 0.0 and 1.0."@,
        ),
    ) + opt_check(
        c.liveness.enabled && c.liveness.max_frames == 0,
        config_error(
            "liveness.max_frames is zero"@,
            "Set liveness.max_frames to a positive value (the default is 40)."@,
        ),
    )
}

/// The advisory warnings about configuration values.
pub open spec fn config_warnings(c: Config) -> Seq<CheckView> {
    let ir = trim(c.cameras.ir@);
    opt_check(
        c.cameras.emitter_enabled && ir.len() == 0,
        cv(
            Level::Warning,
            "IR emitter"@,
            "cameras.emitter_enabled is true but cameras.ir is empty"@,
            Some("Configure cameras.ir or disable emitter_enabled."@),
        ),
    ) + opt_check(
        !c.liveness.enabled,
        cv(
            Level::Warning,
            "Liveness"@,
            "anti-spoofing is disabled"@,
            Some("Enable [liveness] unless you intentionally accept photo/screen spoofing risk."@),
        ),
    ) + opt_check(
        c.enrollment.max_templates == 0,
        cv(
            Level::Warning,
            "Enrollment limit"@,
            "max_templates is zero, which disables template eviction"@,
            Some("Set enrollment.max_templates to a positive value (the default is 2)."@),
        ),
    )
}

/// All findings about configuration values: the errors, or a pass when there
/// are none, then the advisory warnings. `security_threshold` and
/// `liveness_threshold` are the thresholds as text, for the messages.
pub open spec fn config_findings_spec(c: Config, security_threshold: Seq<char>, liveness_threshold: Seq<char>) -> Seq<CheckView> {
    let errors = security_errors(c, security_threshold) + camera_errors(c) + liveness_errors(
        c,
        liveness_threshold,
    );
    errors + opt_check(
        errors.len() == 0,
        cv(Level::Pass, "Config values"@, "camera, security, enrollment, and liveness values are valid"@, None),
    ) + config_warnings(c)
}

fn push_check(out: &mut Vec<Check>, level: Level, name: &'static str, message: String, fix: Option<String>)
    ensures
        checks_view(final(out)@) == checks_view(old(out)@).push(
            cv(
                level,
                name@,
                message@,
                match fix {
                    Some(f) => Some(f@),
                    None => None,
                },
            ),
        ),
{
    let c = Check { level, name, message, fix };
    let ghost before = out@;
    out.push(c);
    assert(checks_view(out@) =~= checks_view(before).push(c@));
}

fn append_checks(out: &mut Vec<Check>, more: Vec<Check>)
    ensures
        checks_view(final(out)@) == checks_view(old(out)@) + checks_view(more@),
{
    let mut m = more;
    let ghost a = out@;
    let ghost b = m@;
    out.append(&mut m);
    assert(checks_view(out@) =~= checks_view(a) + checks_view(b));
}

fn unit_interval(b: u64) -> (r: bool)
    ensures
        r == unit_interval_bits(b),
{
    b <= 0x3FF0_0000_0000_0000 || b == 0x8000_0000_0000_0000
}

fn security_value_errors(config: &Config, security_threshold: &str) -> (r: Vec<Check>)
    ensures
        checks_view(r@) == security_errors(*config, security_threshold@),
{
    let mut out: Vec<Check> = Vec::new();
    let custom = crate::text::str_eq(config.security.level.as_str(), "custom");
    let ghost e0 = checks_view(out@);
    match config.security.validate() {
        Ok(()) => {},
        Err(m) => {
            push_check(&mut out, Level::Error, "Config values", m, Some(owned("Choose a supported security level with `gaze config`.")));
        },
    }
    let ghost e1 = checks_view(out@);
    if custom && !unit_interval(config.security.threshold_bits) {
        push_check(&mut out, Level::Error, "Config values", concat2("security.threshold must be between 0.0 and 1.0, got ", security_threshold), Some(owned("Set a valid custom threshold in /etc/gaze/config.toml.")));
    }
    let ghost e2 = checks_view(out@);
    let hp = config.security.hybrid_policy.as_str();
    let known = hp.is_empty() || crate::text::str_eq(hp, "default") || crate::text::str_eq(hp, "or") || crate::text::str_eq(hp, "fallback_on_dark") || crate::text::str_eq(hp, "and");
    if custom && !known {
        let q = debug_quote(hp);
        push_check(&mut out, Level::Error, "Config values", concat2("unsupported security.hybrid_policy ", q.as_str()), Some(owned("Use default, or, fallback_on_dark, or and.")));
    }
    assert(checks_view(out@) =~= security_errors(*config, security_threshold@));
    out
}

fn camera_value_errors(config: &Config) -> (r: Vec<Check>)
    ensures
        checks_view(r@) == camera_errors(*config),
{
    let mut out: Vec<Check> = Vec::new();
    let rgb = trim_vec(&chars_of(config.cameras.rgb.as_str()));
    let ir = trim_vec(&chars_of(config.cameras.ir.as_str()));
    if rgb.len() == 0 && ir.len() == 0 {
        push_check(&mut out, Level::Error, "Config values", owned("both cameras.rgb and cameras.ir are empty"), Some(owned("Set cameras.rgb to \"primary\" or configure an IR camera.")));
    }
    let ghost e1 = checks_view(out@);
    if has_prefix(&rgb, &chars_of("/dev/video")) {
        let rs = crate::text::string_of(&rgb);
        let q = debug_quote(rs.as_str());
        push_check(&mut out, Level::Error, "Config values", concat3("direct RGB camera path ", q.as_str(), " is unsupported"), Some(owned("Use `gaze config` to select a PipeWire camera; direct /dev/video* is supported only for cameras.ir.")));
    }
    assert(checks_view(out@) =~= camera_errors(*config));
    out
}

fn liveness_value_errors(config: &Config, liveness_threshold: &str) -> (r: Vec<Check>)
    ensures
        checks_view(r@) == liveness_errors(*config, liveness_threshold@),
{
    let mut out: Vec<Check> = Vec::new();
    if config.liveness.enabled && !unit_interval(config.liveness.threshold_bits) {
        push_check(&mut out, Level::Error, "Config values", concat2("liveness.threshold must be between 0.0 and 1.0, got ", liveness_threshold), Some(owned("Set liveness.threshold to a value between 0.0 and 1.0.")));
    }
    let ghost e1 = checks_view(out@);
    if config.liveness.enabled && config.liveness.max_frames == 0 {
        push_check(&mut out, Level::Error, "Config values", owned("liveness.max_frames is zero"), Some(owned("Set liveness.max_frames to a positive value (the default is 40).")));
    }
    assert(checks_view(out@) =~= liveness_errors(*config, liveness_threshold@));
    out
}

fn config_value_warnings(config: &Config) -> (r: Vec<Check>)
    ensures
        checks_view(r@) == config_warnings(*config),
{
    let mut out: Vec<Check> = Vec::new();
    let ir = trim_vec(&chars_of(config.cameras.ir.as_str()));
    if config.cameras.emitter_enabled && ir.len() == 0 {
        push_check(&mut out, Level::Warning, "IR emitter", owned("cameras.emitter_enabled is true but cameras.ir is empty"), Some(owned("Configure cameras.ir or disable emitter_enabled.")));
    }
    let ghost e1 = checks_view(out@);
    if !config.liveness.enabled {
        push_check(&mut out, Level::Warning, "Liveness", owned("anti-spoofing is disabled"), Some(owned("Enable [liveness] unless you intentionally accept photo/screen spoofing risk.")));
    }
    let ghost e2 = checks_view(out@);
    if config.enrollment.max_templates == 0 {
        push_check(&mut out, Level::Warning, "Enrollment limit", owned("max_templates is zero, which disables template eviction"), Some(owned("Set enrollment.max_templates to a positive value (the default is 2).")));
    }
    assert(checks_view(out@) =~= config_warnings(*config));
    out
}

/// The findings about configuration values. `security_threshold` and
/// `liveness_threshold` are the two thresholds formatted as text.
pub fn config_findings(config: &Config, security_threshold: &str, liveness_threshold: &str) -> (r:
    Vec<Check>)
    ensures
        checks_view(r@) == config_findings_spec(*config, security_threshold@, liveness_threshold@),
{
    let mut out = security_value_errors(config, security_threshold);
    append_checks(&mut out, camera_value_errors(config));
    append_checks(&mut out, liveness_value_errors(config, liveness_threshold));
    let ghost errors = checks_view(out@);
    if out.len() == 0 {
        push_check(&mut out, Level::Pass, "Config values", owned("camera, security, enrollment, and liveness values are valid"), None);
    }
    let ghost with_pass = checks_view(out@);
    assert(with_pass =~= errors + opt_check(
        errors.len() == 0,
        cv(Level::Pass, "Config values"@, "camera, security, enrollment, and liveness values are valid"@, None),
    ));
    append_checks(&mut out, config_value_warnings(config));
    out
}

/// Every finding is a configuration error with a fix.
pub open spec fn config_errors_only(s: Seq<CheckView>) -> bool {
    forall|i: int|
        0 <= i < s.len() ==> (#[trigger] s[i]).level == Level::Error && s[i].name == "Config values"@
            && s[i].fix is Some
}

/// Every finding is a warning with a fix.
pub open spec fn warnings_only(s: Seq<CheckView>) -> bool {
    forall|i: int| 0 <= i < s.len() ==> (#[trigger] s[i]).level == Level::Warning && s[i].fix is Some
}

proof fn lemma_opt_error(cond: bool, m: Seq<char>, f: Seq<char>)
    ensures
        config_errors_only(opt_check(cond, config_error(m, f))),
{
    if cond {
        assert(opt_check(cond, config_error(m, f))[0] == config_error(m, f));
    }
}

proof fn lemma_opt_warning(cond: bool, n: Seq<char>, m: Seq<char>, f: Seq<char>)
    ensures
        warnings_only(opt_check(cond, cv(Level::Warning, n, m, Some(f)))),
{
    if cond {
        assert(opt_check(cond, cv(Level::Warning, n, m, Some(f)))[0] == cv(Level::Warning, n, m, Some(f)));
    }
}

proof fn lemma_errors_concat(a: Seq<CheckView>, b: Seq<CheckView>)
    requires
        config_errors_only(a),
        config_errors_only(b),
    ensures
        config_errors_only(a + b),
{
    assert forall|i: int| 0 <= i < (a + b).len() implies (#[trigger] (a + b)[i]).level == Level::Error
        && (a + b)[i].name == "Config values"@ && (a + b)[i].fix is Some by {
        if i < a.len() {
            assert((a + b)[i] == a[i]);
        } else {
            assert((a + b)[i] == b[i - a.len()]);
        }
    }
}

proof fn lemma_warnings_concat(a: Seq<CheckView>, b: Seq<CheckView>)
    requires
        warnings_only(a),
        warnings_only(b),
    ensures
        warnings_only(a + b),
{
    assert forall|i: int| 0 <= i < (a + b).len() implies (#[trigger] (a + b)[i]).level == Level::Warning
        && (a + b)[i].fix is Some by {
        if i < a.len() {
            assert((a + b)[i] == a[i]);
        } else {
            assert((a + b)[i] == b[i - a.len()]);
        }
    }
}

/// The shape of the findings about configuration values: the pass
/// ("Config values") appears exactly when there is no error, and at most
/// once; every error is a "Config values" finding with a fix; every warning
/// has a fix.
pub open spec fn config_findings_shape(f: Seq<CheckView>) -> bool {
    &&& (exists|i: int| 0 <= i < f.len() && (#[trigger] f[i]).level == Level::Pass && f[i].name
        == "Config values"@) <==> !(exists|i: int| 0 <= i < f.len() && (#[trigger] f[i]).level
        == Level::Error)
    &&& forall|i: int, j: int|
        #![trigger f[i], f[j]]
        0 <= i < f.len() && 0 <= j < f.len() && f[i].level == Level::Pass && f[j].level
            == Level::Pass ==> i == j
    &&& forall|i: int|
        0 <= i < f.len() && (#[trigger] f[i]).level == Level::Error ==> f[i].name
            == "Config values"@ && f[i].fix is Some
    &&& forall|i: int| 0 <= i < f.len() && (#[trigger] f[i]).level == Level::Warning ==> f[i].fix is Some
}

proof fn lemma_security_errors(c: Config, st: Seq<char>)
    ensures
        config_errors_only(security_errors(c, st)),
{
    let custom = c.security.level@ == "custom"@;
    let m = match validation_error(c.security) {
        Some(m) => m,
        None => Seq::empty(),
    };
    let f1 = "Choose a supported security level with `gaze config`."@;
    let m2 = "security.threshold must be between 0.0 and 1.0, got "@ + st;
    let f2 = "Set a valid custom threshold in /etc/gaze/config.toml."@;
    let m3 = "unsupported security.hybrid_policy "@ + debug_text(c.security.hybrid_policy@);
    let f3 = "Use default, or, fallback_on_dark, or and."@;
    let b1 = validation_error(c.security) is Some;
    let b2 = custom && !unit_interval_bits(c.security.threshold_bits);
    let b3 = custom && !is_known_hybrid_policy(c.security.hybrid_policy@);
    lemma_opt_error(b1, m, f1);
    lemma_opt_error(b2, m2, f2);
    lemma_opt_error(b3, m3, f3);
    lemma_errors_concat(opt_check(b1, config_error(m, f1)), opt_check(b2, config_error(m2, f2)));
    lemma_errors_concat(
        opt_check(b1, config_error(m, f1)) + opt_check(b2, config_error(m2, f2)),
        opt_check(b3, config_error(m3, f3)),
    );
}

proof fn lemma_camera_errors(c: Config)
    ensures
        config_errors_only(camera_errors(c)),
{
    let rgb = trim(c.cameras.rgb@);
    let ir = trim(c.cameras.ir@);
    let b1 = rgb.len() == 0 && ir.len() == 0;
    let m1 = "both cameras.rgb and cameras.ir are empty"@;
    let f1 = "Set cameras.rgb to \"primary\" or configure an IR camera."@;
    let b2 = starts_with(rgb, "/dev/video"@);
    let m2 = "direct RGB camera path "@ + debug_text(rgb) + " is unsupported"@;
    let f2 = "Use `gaze config` to select a PipeWire camera; direct /dev/video* is supported only for cameras.ir."@;
    lemma_opt_error(b1, m1, f1);
    lemma_opt_error(b2, m2, f2);
    lemma_errors_concat(opt_check(b1, config_error(m1, f1)), opt_check(b2, config_error(m2, f2)));
}

proof fn lemma_liveness_errors(c: Config, lt: Seq<char>)
    ensures
        config_errors_only(liveness_errors(c, lt)),
{
    let b1 = c.liveness.enabled && !unit_interval_bits(c.liveness.threshold_bits);
    let m1 = "liveness.threshold must be between 0.0 and 1.0, got "@ + lt;
    let f1 = "Set liveness.threshold to a value between 0.0 and 1.0."@;
    let b2 = c.liveness.enabled && c.liveness.max_frames == 0;
    let m2 = "liveness.max_frames is zero"@;
    let f2 = "Set liveness.max_frames to a positive value (the default is 40)."@;
    lemma_opt_error(b1, m1, f1);
    lemma_opt_error(b2, m2, f2);
    lemma_errors_concat(opt_check(b1, config_error(m1, f1)), opt_check(b2, config_error(m2, f2)));
}

proof fn lemma_config_warnings(c: Config)
    ensures
        warnings_only(config_warnings(c)),
{
    let ir = trim(c.cameras.ir@);
    let b1 = c.cameras.emitter_enabled && ir.len() == 0;
    let n1 = "IR emitter"@;
    let m1 = "cameras.emitter_enabled is true but cameras.ir is empty"@;
    let f1 = "Configure cameras.ir or disable emitter_enabled."@;
    let b2 = !c.liveness.enabled;
    let n2 = "Liveness"@;
    let m2 = "anti-spoofing is disabled"@;
    let f2 = "Enable [liveness] unless you intentionally accept photo/screen spoofing risk."@;
    let b3 = c.enrollment.max_templates == 0;
    let n3 = "Enrollment limit"@;
    let m3 = "max_templates is zero, which disables template eviction"@;
    let f3 = "Set enrollment.max_templates to a positive value (the default is 2)."@;
    lemma_opt_warning(b1, n1, m1, f1);
    lemma_opt_warning(b2, n2, m2, f2);
    lemma_opt_warning(b3, n3, m3, f3);
    let w1 = opt_check(b1, cv(Level::Warning, n1, m1, Some(f1)));
    let w2 = opt_check(b2, cv(Level::Warning, n2, m2, Some(f2)));
    let w3 = opt_check(b3, cv(Level::Warning, n3, m3, Some(f3)));
    lemma_warnings_concat(w1, w2);
    lemma_warnings_concat(w1 + w2, w3);
}

proof fn lemma_findings_shape(errors: Seq<CheckView>, pass: CheckView, warnings: Seq<CheckView>)
    requires
        config_errors_only(errors),
        warnings_only(warnings),
        pass.level == Level::Pass,
        pass.name == "Config values"@,
    ensures
        config_findings_shape(errors + opt_check(errors.len() == 0, pass) + warnings),
{
    let ps = opt_check(errors.len() == 0, pass);
    let ep = errors + ps;
    let f = ep + warnings;
    assert forall|i: int| 0 <= i < f.len() implies (#[trigger] f[i]) == (if i < errors.len() {
        errors[i]
    } else if i < ep.len() {
        ps[i - errors.len()]
    } else {
        warnings[i - ep.len()]
    }) by {
        if i < ep.len() {
            assert(f[i] == ep[i]);
        } else {
            assert(f[i] == warnings[i - ep.len()]);
        }
    }
    if errors.len() == 0 {
        assert(ps[0] == pass);
        assert(f[0] == pass);
        assert(!(exists|i: int| 0 <= i < f.len() && (#[trigger] f[i]).level == Level::Error)) by {
            if exists|i: int| 0 <= i < f.len() && (#[trigger] f[i]).level == Level::Error {
                let i = choose|i: int| 0 <= i < f.len() && (#[trigger] f[i]).level == Level::Error;
                if i >= ep.len() {
                    assert(warnings[i - ep.len()].level == Level::Warning);
                }
            }
        }
    } else {
        assert(errors[0].level == Level::Error);
        assert(f[0] == errors[0]);
        assert(!(exists|i: int| 0 <= i < f.len() && (#[trigger] f[i]).level == Level::Pass && f[i].name
            == "Config values"@)) by {
            if exists|i: int| 0 <= i < f.len() && (#[trigger] f[i]).level == Level::Pass && f[i].name
                == "Config values"@ {
                let i = choose|i: int| 0 <= i < f.len() && (#[trigger] f[i]).level == Level::Pass
                    && f[i].name == "Config values"@;
                if i < errors.len() {
                    assert(errors[i].level == Level::Error);
                } else {
                    assert(warnings[i - ep.len()].level == Level::Warning);
                }
            }
        }
    }
    assert forall|i: int, j: int|
        #![trigger f[i], f[j]]
        0 <= i < f.len() && 0 <= j < f.len() && f[i].level == Level::Pass && f[j].level
            == Level::Pass implies i == j by {
        if i < errors.len() {
            assert(errors[i].level == Level::Error);
        } else if i >= ep.len() {
            assert(warnings[i - ep.len()].level == Level::Warning);
        }
        if j < errors.len() {
            assert(errors[j].level == Level::Error);
        } else if j >= ep.len() {
            assert(warnings[j - ep.len()].level == Level::Warning);
        }
    }
    assert forall|i: int| 0 <= i < f.len() && (#[trigger] f[i]).level == Level::Error implies f[i].name
        == "Config values"@ && f[i].fix is Some by {
        if i >= errors.len() && i < ep.len() {
            assert(ps[i - errors.len()] == pass);
        } else if i >= ep.len() {
            assert(warnings[i - ep.len()].level == Level::Warning);
        }
    }
    assert forall|i: int| 0 <= i < f.len() && (#[trigger] f[i]).level == Level::Warning implies f[i].fix is Some by {
        if i < errors.len() {
            assert(errors[i].level == Level::Error);
        } else if i < ep.len() {
            assert(ps[i - errors.len()] == pass);
        }
    }
}

/// Of the findings about configuration values: the pass ("Config values")
/// appears exactly when there is no error, and at most once; every error is
/// a "Config values" finding with a fix; every warning has a fix.
pub proof fn config_findings_law(c: Config, security_threshold: Seq<char>, liveness_threshold: Seq<char>)
    ensures
        config_findings_shape(config_findings_spec(c, security_threshold, liveness_threshold)),
{
    lemma_security_errors(c, security_threshold);
    lemma_camera_errors(c);
    lemma_liveness_errors(c, liveness_threshold);
    lemma_config_warnings(c);
    let a = security_errors(c, security_threshold);
    let b = camera_errors(c);
    let l = liveness_errors(c, liveness_threshold);
    lemma_errors_concat(a, b);
    lemma_errors_concat(a + b, l);
    lemma_findings_shape(
        a + b + l,
        cv(Level::Pass, "Config values"@, "camera, security, enrollment, and liveness values are valid"@, None),
        config_warnings(c),
    );
}

/// Some error of the findings has a message starting with `p`.
pub open spec fn has_error_starting(f: Seq<CheckView>, p: Seq<char>) -> bool {
    exists|i: int| 0 <= i < f.len() && (#[trigger] f[i]).level == Level::Error && starts_with(f[i].message, p)
}

proof fn lemma_error_starting_add(a: Seq<CheckView>, b: Seq<CheckView>, p: Seq<char>)
    ensures
        has_error_starting(a + b, p) <==> has_error_starting(a, p) || has_error_starting(b, p),
{
    if has_error_starting(a + b, p) {
        let i = choose|i: int| 0 <= i < (a + b).len() && (#[trigger] (a + b)[i]).level == Level::Error
            && starts_with((a + b)[i].message, p);
        if i < a.len() {
            assert(a[i] == (a + b)[i]);
        } else {
            assert(b[i - a.len()] == (a + b)[i]);
        }
    }
    if has_error_starting(a, p) {
        let i = choose|i: int| 0 <= i < a.len() && (#[trigger] a[i]).level == Level::Error && starts_with(a[i].message, p);
        assert((a + b)[i] == a[i]);
    }
    if has_error_starting(b, p) {
        let i = choose|i: int| 0 <= i < b.len() && (#[trigger] b[i]).level == Level::Error && starts_with(b[i].message, p);
        assert((a + b)[i + a.len()] == b[i]);
    }
}

proof fn lemma_error_starting_opt(cond: bool, m: Seq<char>, fx: Seq<char>, p: Seq<char>)
    ensures
        has_error_starting(opt_check(cond, config_error(m, fx)), p) <==> cond && starts_with(m, p),
{
    if cond {
        assert(opt_check(cond, config_error(m, fx))[0] == config_error(m, fx));
    }
}

proof fn lemma_no_error_in_warnings(w: Seq<CheckView>, p: Seq<char>)
    requires
        warnings_only(w),
    ensures
        !has_error_starting(w, p),
{
    if has_error_starting(w, p) {
        let i = choose|i: int| 0 <= i < w.len() && (#[trigger] w[i]).level == Level::Error && starts_with(w[i].message, p);
        assert(w[i].level == Level::Warning);
    }
}

/// A message starting with `a` starts with every prefix of `a`.
proof fn lemma_starts_with_concat(a: Seq<char>, b: Seq<char>)
    ensures
        starts_with(a + b, a),
{
    assert((a + b).subrange(0, a.len() as int) =~= a);
}

/// Messages whose first characters differ do not start alike.
proof fn lemma_first_char(m: Seq<char>, p: Seq<char>)
    requires
        p.len() > 0,
        m.len() > 0,
        m[0] != p[0],
    ensures
        !starts_with(m, p),
{
    if starts_with(m, p) {
        assert(m.subrange(0, p.len() as int)[0] == m[0]);
    }
}

proof fn lemma_security_starting(c: Config, st: Seq<char>, p: Seq<char>)
    ensures
        has_error_starting(security_errors(c, st), p) <==> (validation_error(c.security) is Some
            && starts_with(validation_error(c.security)->0, p)) || (c.security.level@ == "custom"@
            && !unit_interval_bits(c.security.threshold_bits) && starts_with(
            "security.threshold must be between 0.0 and 1.0, got "@ + st,
            p,
        )) || (c.security.level@ == "custom"@ && !is_known_hybrid_policy(c.security.hybrid_policy@)
            && starts_with("unsupported security.hybrid_policy "@ + debug_text(c.security.hybrid_policy@), p)),
{
    let custom = c.security.level@ == "custom"@;
    let m1 = match validation_error(c.security) {
        Some(m) => m,
        None => Seq::empty(),
    };
    let e1 = opt_check(validation_error(c.security) is Some, config_error(m1, "Choose a supported security level with `gaze config`."@));
    let e2 = opt_check(custom && !unit_interval_bits(c.security.threshold_bits), config_error(
        "security.threshold must be between 0.0 and 1.0, got "@ + st,
        "Set a valid custom threshold in /etc/gaze/config.toml."@,
    ));
    let e3 = opt_check(custom && !is_known_hybrid_policy(c.security.hybrid_policy@), config_error(
        "unsupported security.hybrid_policy "@ + debug_text(c.security.hybrid_policy@),
        "Use default, or, fallback_on_dark, or and."@,
    ));
    assert(security_errors(c, st) == e1 + e2 + e3);
    lemma_error_starting_add(e1 + e2, e3, p);
    lemma_error_starting_add(e1, e2, p);
    lemma_error_starting_opt(validation_error(c.security) is Some, m1, "Choose a supported security level with `gaze config`."@, p);
    lemma_error_starting_opt(custom && !unit_interval_bits(c.security.threshold_bits),
        "security.threshold must be between 0.0 and 1.0, got "@ + st,
        "Set a valid custom threshold in /etc/gaze/config.toml."@, p);
    lemma_error_starting_opt(custom && !is_known_hybrid_policy(c.security.hybrid_policy@),
        "unsupported security.hybrid_policy "@ + debug_text(c.security.hybrid_policy@),
        "Use default, or, fallback_on_dark, or and."@, p);
}

proof fn lemma_camera_starting(c: Config, p: Seq<char>)
    ensures
        has_error_starting(camera_errors(c), p) <==> (trim(c.cameras.rgb@).len() == 0 && trim(
            c.cameras.ir@,
        ).len() == 0 && starts_with("both cameras.rgb and cameras.ir are empty"@, p)) || (starts_with(
            trim(c.cameras.rgb@),
            "/dev/video"@,
        ) && starts_with("direct RGB camera path "@ + debug_text(trim(c.cameras.rgb@)) + " is unsupported"@, p)),
{
    let rgb = trim(c.cameras.rgb@);
    let ir = trim(c.cameras.ir@);
    let f4 = "Set cameras.rgb to \"primary\" or configure an IR camera."@;
    let f5 = "Use `gaze config` to select a PipeWire camera; direct /dev/video* is supported only for cameras.ir."@;
    let e4 = opt_check(rgb.len() == 0 && ir.len() == 0, config_error("both cameras.rgb and cameras.ir are empty"@, f4));
    let e5 = opt_check(starts_with(rgb, "/dev/video"@), config_error(
        "direct RGB camera path "@ + debug_text(rgb) + " is unsupported"@, f5));
    assert(camera_errors(c) == e4 + e5);
    lemma_error_starting_add(e4, e5, p);
    lemma_error_starting_opt(rgb.len() == 0 && ir.len() == 0, "both cameras.rgb and cameras.ir are empty"@, f4, p);
    lemma_error_starting_opt(starts_with(rgb, "/dev/video"@), "direct RGB camera path "@ + debug_text(rgb) + " is unsupported"@, f5, p);
}

proof fn lemma_liveness_starting(c: Config, lt: Seq<char>, p: Seq<char>)
    ensures
        has_error_starting(liveness_errors(c, lt), p) <==> (c.liveness.enabled && !unit_interval_bits(
            c.liveness.threshold_bits,
        ) && starts_with("liveness.threshold must be between 0.0 and 1.0, got "@ + lt, p)) || (
        c.liveness.enabled && c.liveness.max_frames == 0 && starts_with("liveness.max_frames is zero"@, p)),
{
    let f6 = "Set liveness.threshold to a value between 0.0 and 1.0."@;
    let f7 = "Set liveness.max_frames to a positive value (the default is 40)."@;
    let b6 = c.liveness.enabled && !unit_interval_bits(c.liveness.threshold_bits);
    let b7 = c.liveness.enabled && c.liveness.max_frames == 0;
    let e6 = opt_check(b6, config_error("liveness.threshold must be between 0.0 and 1.0, got "@ + lt, f6));
    let e7 = opt_check(b7, config_error("liveness.max_frames is zero"@, f7));
    assert(liveness_errors(c, lt) == e6 + e7);
    lemma_error_starting_add(e6, e7, p);
    lemma_error_starting_opt(b6, "liveness.threshold must be between 0.0 and 1.0, got "@ + lt, f6, p);
    lemma_error_starting_opt(b7, "liveness.max_frames is zero"@, f7, p);
}

proof fn lemma_findings_starting(c: Config, st: Seq<char>, lt: Seq<char>, p: Seq<char>)
    ensures
        has_error_starting(config_findings_spec(c, st, lt), p) <==> has_error_starting(security_errors(c, st), p)
            || has_error_starting(camera_errors(c), p) || has_error_starting(liveness_errors(c, lt), p),
{
    let a = security_errors(c, st);
    let b = camera_errors(c);
    let l = liveness_errors(c, lt);
    let errors = a + b + l;
    let pass = cv(Level::Pass, "Config values"@, "camera, security, enrollment, and liveness values are valid"@, None);
    let ps = opt_check(errors.len() == 0, pass);
    lemma_config_warnings(c);
    lemma_error_starting_add(errors + ps, config_warnings(c), p);
    lemma_no_error_in_warnings(config_warnings(c), p);
    lemma_error_starting_add(errors, ps, p);
    if has_error_starting(ps, p) {
        let i = choose|i: int| 0 <= i < ps.len() && (#[trigger] ps[i]).level == Level::Error && starts_with(ps[i].message, p);
        assert(ps[i] == pass);
    }
    lemma_error_starting_add(a + b, l, p);
    lemma_error_starting_add(a, b, p);
}

proof fn lemma_validation_first_char(c: Config)
    requires
        validation_error(c.security) is Some,
    ensures
        validation_error(c.security)->0.len() > 0,
        validation_error(c.security)->0[0] == 'i',
{
    reveal_strlit("invalid security level ");
    reveal_strlit("invalid detector level ");
    reveal_strlit("invalid recognizer level ");
    let t1 = "invalid security level "@;
    let t2 = "invalid detector level "@;
    let t3 = "invalid recognizer level "@;
    if !security_level_options().contains(c.security.level@) {
        assert((t1 + debug_text(c.security.level@))[0] == t1[0]);
    } else if c.security.level@ == "custom"@ && !is_model_quality(c.security.detector@) {
        assert((t2 + debug_text(c.security.detector@))[0] == t2[0]);
    } else {
        assert((t3 + debug_text(c.security.recognizer@))[0] == t3[0]);
    }
}

proof fn lemma_lead(a: Seq<char>, b: Seq<char>)
    requires
        a.len() > 0,
    ensures
        (a + b).len() > 0,
        (a + b)[0] == a[0],
{
}

/// Each of these errors about configuration values is reported exactly when
/// its condition holds: a direct `/dev/video` RGB path, both cameras blank,
/// and a custom security threshold outside `0.0..=1.0`.
pub proof fn config_error_conditions_law(c: Config, st: Seq<char>, lt: Seq<char>)
    ensures
        has_error_starting(config_findings_spec(c, st, lt), "direct RGB camera path "@) <==> starts_with(
            trim(c.cameras.rgb@),
            "/dev/video"@,
        ),
        has_error_starting(config_findings_spec(c, st, lt), "both cameras.rgb and cameras.ir are empty"@)
            <==> trim(c.cameras.rgb@).len() == 0 && trim(c.cameras.ir@).len() == 0,
        has_error_starting(config_findings_spec(c, st, lt), "security.threshold must be between 0.0 and 1.0, got "@)
            <==> c.security.level@ == "custom"@ && !unit_interval_bits(c.security.threshold_bits),
{
    let pd = "direct RGB camera path "@;
    let pb = "both cameras.rgb and cameras.ir are empty"@;
    let pt = "security.threshold must be between 0.0 and 1.0, got "@;
    let ph = "unsupported security.hybrid_policy "@;
    let pl = "liveness.threshold must be between 0.0 and 1.0, got "@;
    let pm = "liveness.max_frames is zero"@;
    reveal_strlit("direct RGB camera path ");
    reveal_strlit("both cameras.rgb and cameras.ir are empty");
    reveal_strlit("security.threshold must be between 0.0 and 1.0, got ");
    reveal_strlit("unsupported security.hybrid_policy ");
    reveal_strlit("liveness.threshold must be between 0.0 and 1.0, got ");
    reveal_strlit("liveness.max_frames is zero");
    let rgb = trim(c.cameras.rgb@);
    let md = pd + debug_text(rgb) + " is unsupported"@;
    let mt = pt + st;
    let mh = ph + debug_text(c.security.hybrid_policy@);
    let ml = pl + lt;
    assert(md == pd + (debug_text(rgb) + " is unsupported"@));
    lemma_lead(pd, debug_text(rgb) + " is unsupported"@);
    lemma_lead(pt, st);
    lemma_lead(ph, debug_text(c.security.hybrid_policy@));
    lemma_lead(pl, lt);
    lemma_starts_with_concat(pd, debug_text(rgb) + " is unsupported"@);
    lemma_starts_with_concat(pt, st);
    assert(starts_with(pb, pb)) by {
        assert(pb.subrange(0, pb.len() as int) =~= pb);
    }
    if validation_error(c.security) is Some {
        lemma_validation_first_char(c);
        let m1 = validation_error(c.security)->0;
        lemma_first_char(m1, pd);
        lemma_first_char(m1, pb);
        lemma_first_char(m1, pt);
    }
    lemma_first_char(mt, pd);
    lemma_first_char(mt, pb);
    lemma_first_char(mh, pd);
    lemma_first_char(mh, pb);
    lemma_first_char(mh, pt);
    lemma_first_char(pb, pd);
    lemma_first_char(pb, pt);
    lemma_first_char(md, pb);
    lemma_first_char(md, pt);
    lemma_first_char(ml, pd);
    lemma_first_char(ml, pb);
    lemma_first_char(ml, pt);
    lemma_first_char(pm, pd);
    lemma_first_char(pm, pb);
    lemma_first_char(pm, pt);
    lemma_findings_starting(c, st, lt, pd);
    lemma_findings_starting(c, st, lt, pb);
    lemma_findings_starting(c, st, lt, pt);
    lemma_security_starting(c, st, pd);
    lemma_security_starting(c, st, pb);
    lemma_security_starting(c, st, pt);
    lemma_camera_starting(c, pd);
    lemma_camera_starting(c, pb);
    lemma_camera_starting(c, pt);
    lemma_liveness_starting(c, lt, pd);
    lemma_liveness_starting(c, lt, pb);
    lemma_liveness_starting(c, lt, pt);
}

} // verus!
