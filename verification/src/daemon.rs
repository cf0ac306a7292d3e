//! Decisions of the authentication daemon: who may query or act for whom,
//! whose camera session a capture binds to, the device claim, SSH and lid
//! safeguards, and the state machines behind verification and enrollment.

use vstd::prelude::*;
use crate::camera::CameraKind;
use crate::status::{CaptureStatus, EnrollPrompt, VerifyResult, effective, effective_status};
use crate::text::{
    chars_eq, chars_of, concat3, contains, contains_chars, decimal, decimal_string, has_char,
    lower_all, map_lower, parse_u32, parse_u32_chars, seqs_view, slice_vec, split_tokens, str_eq,
    tokens, trim, trim_vec,
};

verus! {

/// The two capture spectra.
#[derive(Clone, Copy, Debug, PartialEq, Eq, Structural)]
pub enum Spectrum {
    Rgb,
    Ir,
}

// ---------------------------------------------------------------------------
// Access rules
// ---------------------------------------------------------------------------

/// Root and the user itself may read a user's extension state.
pub fn may_query_extension(caller_uid: u32, target_uid: u32) -> (r: bool)
    ensures
        r == (caller_uid == 0 || caller_uid == target_uid),
{
    caller_uid == 0 || caller_uid == target_uid
}

/// Acting for another user needs a polkit authorization unless the caller is
/// root or that user.
pub fn needs_authorization(caller_uid: u32, target_uid: u32) -> (r: bool)
    ensures
        r == (caller_uid != 0 && caller_uid != target_uid),
{
    caller_uid != 0 && caller_uid != target_uid
}

/// Whether a caller may ask about a user's enrolled faces without polkit:
/// root, the user itself, or the active greeter session. `active` is the
/// active seat session's `(uid, is_greeter)`.
pub fn user_query_allowed(caller_uid: u32, target_uid: u32, active: Option<(u32, bool)>) -> (r:
    bool)
    ensures
        r == (caller_uid == 0 || caller_uid == target_uid || active == Some((caller_uid, true))),
{
    if caller_uid == 0 || caller_uid == target_uid {
        return true;
    }
    match active {
        Some((uid, true)) => uid == caller_uid,
        _ => false,
    }
}

pub open spec fn camera_uid(
    caller_uid: u32,
    target_uid: u32,
    target_has_pipewire: bool,
    caller_has_pipewire: bool,
    active: Option<(u32, bool, bool)>,
) -> Option<u32> {
    let greeter = match active {
        Some((a, true, true)) => Some(a),
        _ => None,
    };
    if caller_uid == 0 && greeter is Some {
        greeter
    } else if target_has_pipewire {
        Some(target_uid)
    } else if caller_uid != 0 && caller_has_pipewire {
        Some(caller_uid)
    } else {
        None
    }
}

/// The user whose camera session a capture for `target_uid` binds to, or
/// none. An active greeter (root caller) owns the seat camera; otherwise the
/// target's own session; a non-root caller acting after polkit uses its own.
/// `active` is the active seat session's `(uid, is_greeter, has_pipewire)`.
pub fn resolve_camera_uid(
    caller_uid: u32,
    target_uid: u32,
    target_has_pipewire: bool,
    caller_has_pipewire: bool,
    active: Option<(u32, bool, bool)>,
) -> (r: Option<u32>)
    ensures
        r == camera_uid(caller_uid, target_uid, target_has_pipewire, caller_has_pipewire, active),
{
    if caller_uid == 0 {
        if let Some((active_uid, true, true)) = active {
            return Some(active_uid);
        }
    }
    if target_has_pipewire {
        return Some(target_uid);
    }
    if caller_uid != 0 {
        return if caller_has_pipewire {
            Some(caller_uid)
        } else {
            None
        };
    }
    None
}

/// `/run/user/<uid>`.
pub fn runtime_dir(uid: u32) -> (r: String)
    ensures
        r@ == "/run/user/"@ + decimal(uid as nat),
{
    let n = decimal_string(uid as u64);
    let mut out = String::from_str("/run/user/");
    out.append(n.as_str());
    out
}

/// `/run/user/<uid>/pipewire-0`, whose presence marks a usable camera session.
pub fn pipewire_socket_path(uid: u32) -> (r: String)
    ensures
        r@ == "/run/user/"@ + decimal(uid as nat) + "/pipewire-0"@,
{
    let n = decimal_string(uid as u64);
    concat3("/run/user/", n.as_str(), "/pipewire-0")
}

// ---------------------------------------------------------------------------
// Streams and the hybrid policy
// ---------------------------------------------------------------------------

/// Which streams an authentication runs: each spectrum whose camera is
/// configured and for which the user has templates.
pub fn auth_streams(
    rgb_device: &str,
    ir_device: &str,
    has_rgb_templates: bool,
    has_ir_templates: bool,
) -> (r: (bool, bool))
    ensures
        r.0 == (rgb_device@.len() > 0 && has_rgb_templates),
        r.1 == (ir_device@.len() > 0 && has_ir_templates),
{
    (!rgb_device.is_empty() && has_rgb_templates, !ir_device.is_empty() && has_ir_templates)
}

pub open spec fn hybrid_passed(
    policy: Seq<char>,
    run_rgb: bool,
    run_ir: bool,
    rgb_attempted: bool,
    rgb_status: CaptureStatus,
    rgb_success: bool,
    ir_success: bool,
) -> bool {
    if run_rgb && run_ir {
        if policy == "or"@ {
            rgb_success || ir_success
        } else if policy == "and"@ {
            rgb_success && ir_success
        } else if !rgb_attempted {
            rgb_success && ir_success
        } else if rgb_status == CaptureStatus::TooDark || rgb_status == CaptureStatus::NoFace {
            ir_success
        } else {
            rgb_success && ir_success
        }
    } else if run_rgb {
        rgb_success
    } else if run_ir {
        ir_success
    } else {
        false
    }
}

/// The hybrid policies: a pass always rests on a matched running stream;
/// with both streams running, `and` needs both matches and `or` either one,
/// and any other policy accepts IR alone only after the RGB stream was tried
/// and found too dark or without a face; a single running stream decides
/// alone, and with no stream nothing passes.
pub proof fn hybrid_policy_law(
    policy: Seq<char>,
    run_rgb: bool,
    run_ir: bool,
    rgb_attempted: bool,
    rgb_status: CaptureStatus,
    rgb_success: bool,
    ir_success: bool,
)
    ensures
        ({
            let passed = hybrid_passed(
                policy,
                run_rgb,
                run_ir,
                rgb_attempted,
                rgb_status,
                rgb_success,
                ir_success,
            );
            &&& passed ==> (run_rgb && rgb_success) || (run_ir && ir_success)
            &&& run_rgb && run_ir && policy == "and"@ ==> (passed <==> rgb_success && ir_success)
            &&& run_rgb && run_ir && policy == "or"@ ==> (passed <==> rgb_success || ir_success)
            &&& run_rgb && run_ir && passed && !rgb_success ==> policy == "or"@ || (rgb_attempted
                && (rgb_status == CaptureStatus::TooDark || rgb_status == CaptureStatus::NoFace))
            &&& run_rgb && !run_ir ==> (passed <==> rgb_success)
            &&& !run_rgb && run_ir ==> (passed <==> ir_success)
            &&& !run_rgb && !run_ir ==> !passed
        }),
{
    reveal_strlit("or");
    reveal_strlit("and");
    assert("or"@.len() != "and"@.len());
}

/// Whether an authentication has succeeded. With both streams running, `or`
/// needs either match, `and` both, and any other policy both unless RGB has
/// been tried and sees no face or too little light, when IR alone decides.
pub fn hybrid_auth_passed(
    policy: &str,
    run_rgb: bool,
    run_ir: bool,
    rgb_attempted: bool,
    rgb_status: CaptureStatus,
    rgb_success: bool,
    ir_success: bool,
) -> (r: bool)
    ensures
        r == hybrid_passed(
            policy@,
            run_rgb,
            run_ir,
            rgb_attempted,
            rgb_status,
            rgb_success,
            ir_success,
        ),
{
    if run_rgb && run_ir {
        if str_eq(policy, "or") {
            rgb_success || ir_success
        } else if str_eq(policy, "and") {
            rgb_success && ir_success
        } else if !rgb_attempted {
            rgb_success && ir_success
        } else if rgb_status == CaptureStatus::TooDark || rgb_status == CaptureStatus::NoFace {
            ir_success
        } else {
            rgb_success && ir_success
        }
    } else if run_rgb {
        rgb_success
    } else if run_ir {
        ir_success
    } else {
        false
    }
}

// ---------------------------------------------------------------------------
// SSH and lid safeguards
// ---------------------------------------------------------------------------

/// `SSH_CONNECTION=` in ASCII.
pub open spec fn ssh_connection_key() -> Seq<u8> {
    seq![83u8, 83, 72, 95, 67, 79, 78, 78, 69, 67, 84, 73, 79, 78, 61]
}

/// `SSH_TTY=` in ASCII.
pub open spec fn ssh_tty_key() -> Seq<u8> {
    seq![83u8, 83, 72, 95, 84, 84, 89, 61]
}

/// An environment entry with a non-empty value for `key` starts at `i` of
/// a NUL-separated environment block.
pub open spec fn marker_at(e: Seq<u8>, i: int, key: Seq<u8>) -> bool {
    &&& 0 <= i
    &&& i == 0 || e[i - 1] == 0
    &&& i + key.len() < e.len()
    &&& e.subrange(i, i + key.len()) == key
    &&& e[i + key.len()] != 0
}

pub open spec fn environ_ssh(e: Seq<u8>) -> bool {
    exists|i: int| marker_at(e, i, ssh_connection_key()) || marker_at(e, i, ssh_tty_key())
}

fn marker_at_exec(e: &[u8], i: usize, key: &[u8]) -> (r: bool)
    requires
        key@.len() > 0,
        i < e@.len(),
    ensures
        r == marker_at(e@, i as int, key@),
{
    if !(i == 0 || e[i - 1] == 0) {
        return false;
    }
    if key.len() >= e.len() || i >= e.len() - key.len() {
        return false;
    }
    let mut k: usize = 0;
    while k < key.len()
        invariant
            i + key.len() < e.len(),
            k <= key.len(),
            forall|j: int| 0 <= j < k ==> e@[i + j] == key@[j],
        decreases key.len() - k,
    {
        if e[i + k] != key[k] {
            assert(e@.subrange(i as int, i + key.len())[k as int] != key@[k as int]);
            return false;
        }
        k = k + 1;
    }
    assert(e@.subrange(i as int, i + key.len()) =~= key@);
    e[i + key.len()] != 0
}

/// Whether a process environment block (`/proc/<pid>/environ`) sets
/// `SSH_CONNECTION` or `SSH_TTY` to a non-empty value.
pub fn environ_has_ssh_marker(environ: &[u8]) -> (r: bool)
    ensures
        r == environ_ssh(environ@),
{
    let conn: [u8; 15] = [83, 83, 72, 95, 67, 79, 78, 78, 69, 67, 84, 73, 79, 78, 61];
    let tty: [u8; 8] = [83, 83, 72, 95, 84, 84, 89, 61];
    assert(conn@ =~= ssh_connection_key());
    assert(tty@ =~= ssh_tty_key());
    let mut i: usize = 0;
    while i < environ.len()
        invariant
            i <= environ.len(),
            conn@ == ssh_connection_key(),
            tty@ == ssh_tty_key(),
            forall|k: int|
                0 <= k < i ==> !marker_at(environ@, k, ssh_connection_key()) && !marker_at(
                    environ@,
                    k,
                    ssh_tty_key(),
                ),
        decreases environ.len() - i,
    {
        if marker_at_exec(environ, i, &conn) || marker_at_exec(environ, i, &tty) {
            return true;
        }
        i = i + 1;
    }
    false
}

/// Whether the environment of the daemon itself marks an SSH session: a
/// non-empty `SSH_CONNECTION` or `SSH_TTY`.
pub fn env_marks_ssh(ssh_connection: Option<&str>, ssh_tty: Option<&str>) -> (r: bool)
    ensures
        r == ((ssh_connection matches Some(c) && c@.len() > 0) || (ssh_tty matches Some(t)
            && t@.len() > 0)),
{
    let c = match ssh_connection {
        Some(c) => !c.is_empty(),
        None => false,
    };
    let t = match ssh_tty {
        Some(t) => !t.is_empty(),
        None => false,
    };
    c || t
}

/// Whether a process name (`/proc/<pid>/comm`) is the SSH daemon.
pub fn comm_is_sshd(comm: &str) -> (r: bool)
    ensures
        r == (trim(comm@) == "sshd"@ || trim(comm@) == "sshd-session"@),
{
    let t = trim_vec(&chars_of(comm));
    chars_eq(&t, &chars_of("sshd")) || chars_eq(&t, &chars_of("sshd-session"))
}

/// The index of the last `)` in `s`.
pub open spec fn last_paren(s: Seq<char>) -> int {
    choose|k: int| 0 <= k < s.len() && s[k] == ')' && forall|j: int| k < j < s.len() ==> s[j] != ')'
}

/// The parent pid field of `/proc/<pid>/stat`: the second field after the
/// parenthesised command name.
pub open spec fn stat_ppid(s: Seq<char>) -> Option<u32> {
    if !has_char(s, ')') {
        None
    } else {
        let toks = tokens(s.subrange(last_paren(s) + 1, s.len() as int), false);
        if toks.len() < 2 {
            None
        } else {
            parse_u32(toks[1])
        }
    }
}

/// The parent pid recorded in the text of `/proc/<pid>/stat`.
pub fn parse_stat_ppid(stat: &str) -> (r: Option<u32>)
    ensures
        r == stat_ppid(stat@),
{
    let s = chars_of(stat);
    let mut k = s.len();
    while k > 0 && s[k - 1] != ')'
        invariant
            k <= s.len(),
            forall|j: int| k <= j < s.len() ==> s@[j] != ')',
        decreases k,
    {
        k = k - 1;
    }
    if k == 0 {
        return None;
    }
    proof {
        let p = last_paren(s@);
        assert(s@[k - 1] == ')');
        assert(p == k - 1) by {
            if p < k - 1 {
            } else if p > k - 1 {
            }
        }
    }
    let after = slice_vec(&s, k, s.len());
    let toks = split_tokens(&after, false);
    if toks.len() < 2 {
        return None;
    }
    assert(seqs_view(toks@)[1] == toks@[1]@);
    parse_u32_chars(&toks[1])
}

/// How far a process-chain walk for SSH ancestry goes.
pub const SSH_PROC_CHAIN_MAX_DEPTH: u32 = 16;

/// The outcome of one step of a process-chain walk.
#[derive(Clone, Copy, Debug, PartialEq, Eq, Structural)]
pub enum WalkStep {
    /// The chain belongs to an SSH session.
    Ssh,
    /// The walk ended without finding SSH.
    Local,
    /// Inspect this parent process next.
    Next(u32),
}

/// Walks from a process to its ancestors looking for an SSH session: at most
/// 16 processes, stopping at pid 0, at a self-parented process or at an
/// unreadable parent.
pub struct SshChainWalk {
    pub current: u32,
    pub steps: u32,
}

/// One step of the walk from process `current` after `steps` steps: whether
/// the process marks SSH (by its environment or by being the SSH daemon),
/// else where to go next. Returns the process and step count afterwards and
/// the outcome.
pub open spec fn walk_step(current: u32, steps: u32, ssh: bool, ppid: Option<u32>) -> (u32, u32, WalkStep) {
    if ssh {
        (current, steps, WalkStep::Ssh)
    } else {
        match ppid {
            Some(p) => if p != 0 && p != current {
                let n = (steps + 1) as u32;
                (p, n, if n == SSH_PROC_CHAIN_MAX_DEPTH {
                    WalkStep::Local
                } else {
                    WalkStep::Next(p)
                })
            } else {
                (current, steps, WalkStep::Local)
            },
            None => (current, steps, WalkStep::Local),
        }
    }
}

impl SshChainWalk {
    pub fn new(pid: u32) -> (r: Self)
        ensures
            r.current == pid,
            r.steps == 0,
    {
        SshChainWalk { current: pid, steps: 0 }
    }

    /// Records what the files of the current process show: whether its
    /// environment marks SSH, whether it is the SSH daemon, and its parent.
    pub fn observe(&mut self, environ_ssh: bool, comm_sshd: bool, ppid: Option<u32>) -> (r:
        WalkStep)
        requires
            old(self).steps < SSH_PROC_CHAIN_MAX_DEPTH,
        ensures
            (final(self).current, final(self).steps, r) == walk_step(
                old(self).current,
                old(self).steps,
                environ_ssh || comm_sshd,
                ppid,
            ),
            r matches WalkStep::Next(_) ==> final(self).steps < SSH_PROC_CHAIN_MAX_DEPTH,
    {
        if environ_ssh || comm_sshd {
            return WalkStep::Ssh;
        }
        match ppid {
            Some(p) => {
                if p != 0 && p != self.current {
                    self.current = p;
                    self.steps = self.steps + 1;
                    if self.steps == SSH_PROC_CHAIN_MAX_DEPTH {
                        WalkStep::Local
                    } else {
                        WalkStep::Next(p)
                    }
                } else {
                    WalkStep::Local
                }
            },
            None => WalkStep::Local,
        }
    }

    /// `observe` on the raw contents of the current process's `environ`,
    /// `comm` and `stat` files (`None` when unreadable).
    pub fn observe_files(
        &mut self,
        environ: Option<&[u8]>,
        comm: Option<&str>,
        stat: Option<&str>,
    ) -> (r: WalkStep)
        requires
            old(self).steps < SSH_PROC_CHAIN_MAX_DEPTH,
        ensures
            (final(self).current, final(self).steps, r) == walk_step(
                old(self).current,
                old(self).steps,
                (match environ {
                    Some(b) => environ_ssh(b@),
                    None => false,
                }) || (match comm {
                    Some(t) => trim(t@) == "sshd"@ || trim(t@) == "sshd-session"@,
                    None => false,
                }),
                match stat {
                    Some(t) => stat_ppid(t@),
                    None => None,
                },
            ),
            r matches WalkStep::Next(_) ==> final(self).steps < SSH_PROC_CHAIN_MAX_DEPTH,
    {
        let e = match environ {
            Some(b) => environ_has_ssh_marker(b),
            None => false,
        };
        let c = match comm {
            Some(t) => comm_is_sshd(t),
            None => false,
        };
        let p = match stat {
            Some(t) => parse_stat_ppid(t),
            None => None,
        };
        self.observe(e, c, p)
    }
}

/// A walk visits at most `SSH_PROC_CHAIN_MAX_DEPTH` processes: every step
/// that continues raises the step count, and the count never reaches the
/// limit while the walk continues.
pub proof fn walk_is_bounded_law(current: u32, steps: u32, ssh: bool, ppid: Option<u32>)
    requires
        steps < SSH_PROC_CHAIN_MAX_DEPTH,
    ensures
        ({
            let (c, n, r) = walk_step(current, steps, ssh, ppid);
            &&& r matches WalkStep::Next(p) ==> n == steps + 1 && n < SSH_PROC_CHAIN_MAX_DEPTH
                && c == p && p != current && p != 0
            &&& !(r is Next) ==> (r == WalkStep::Ssh <==> ssh)
        }),
{
}

/// Whether the chain of processes from `p` (after `steps` already walked)
/// holds an SSH process, given for each process whether it marks SSH and its
/// parent: the process itself, then its parent while that is a real,
/// different process, at most `SSH_PROC_CHAIN_MAX_DEPTH` processes in all.
pub open spec fn chain_has_ssh(facts: spec_fn(u32) -> (bool, Option<u32>), p: u32, steps: u32) -> bool
    decreases SSH_PROC_CHAIN_MAX_DEPTH - steps,
{
    if steps >= SSH_PROC_CHAIN_MAX_DEPTH {
        false
    } else {
        facts(p).0 || match facts(p).1 {
            Some(q) => q != 0 && q != p && chain_has_ssh(facts, q, (steps + 1) as u32),
            None => false,
        }
    }
}

/// Where repeated walk steps over `facts` end, from `p` after `steps` steps.
pub open spec fn walk_outcome(facts: spec_fn(u32) -> (bool, Option<u32>), p: u32, steps: u32) -> WalkStep
    decreases SSH_PROC_CHAIN_MAX_DEPTH - steps,
{
    if steps >= SSH_PROC_CHAIN_MAX_DEPTH {
        WalkStep::Local
    } else {
        let (c, n, r) = walk_step(p, steps, facts(p).0, facts(p).1);
        match r {
            WalkStep::Next(q) => if n > steps {
                walk_outcome(facts, q, n)
            } else {
                WalkStep::Local
            },
            _ => r,
        }
    }
}

/// Walking a process chain step by step ends in SSH exactly when some
/// process of the chain (at most `SSH_PROC_CHAIN_MAX_DEPTH` of them) marks
/// SSH, and otherwise ends as local: the walk always ends.
pub proof fn ssh_chain_law(facts: spec_fn(u32) -> (bool, Option<u32>), p: u32, steps: u32)
    ensures
        walk_outcome(facts, p, steps) == WalkStep::Ssh <==> chain_has_ssh(facts, p, steps),
        walk_outcome(facts, p, steps) !is Next,
    decreases SSH_PROC_CHAIN_MAX_DEPTH - steps,
{
    if steps < SSH_PROC_CHAIN_MAX_DEPTH {
        let (c, n, r) = walk_step(p, steps, facts(p).0, facts(p).1);
        if let WalkStep::Next(q) = r {
            ssh_chain_law(facts, q, n);
        }
        if !facts(p).0 {
            if let Some(q) = facts(p).1 {
                if q != 0 && q != p && (steps + 1) as u32 == SSH_PROC_CHAIN_MAX_DEPTH {
                    assert(!chain_has_ssh(facts, q, (steps + 1) as u32));
                }
            }
        }
    }
}

/// What a process table says of process `p`: whether it marks SSH and its
/// parent, from its first entry; an absent process is unreadable.
pub open spec fn table_facts(procs: Seq<(u32, bool, Option<u32>)>) -> spec_fn(u32) -> (bool, Option<u32>) {
    |p: u32|
        if exists|i: int| 0 <= i < procs.len() && (#[trigger] procs[i]).0 == p {
            let i = choose|i: int|
                0 <= i < procs.len() && (#[trigger] procs[i]).0 == p && forall|k: int|
                    0 <= k < i ==> (#[trigger] procs[k]).0 != p;
            (procs[i].1, procs[i].2)
        } else {
            (false, None)
        }
}

fn table_lookup(procs: &[(u32, bool, Option<u32>)], p: u32) -> (r: (bool, Option<u32>))
    ensures
        r == (table_facts(procs@))(p),
{
    let mut i: usize = 0;
    while i < procs.len()
        invariant
            i <= procs@.len(),
            forall|k: int| 0 <= k < i ==> (#[trigger] procs@[k]).0 != p,
        decreases procs.len() - i,
    {
        if procs[i].0 == p {
            proof {
                let ii = i as int;
                assert(0 <= ii < procs@.len() && procs@[ii].0 == p && forall|k: int|
                    0 <= k < ii ==> (#[trigger] procs@[k]).0 != p);
                let c = choose|j: int|
                    0 <= j < procs@.len() && (#[trigger] procs@[j]).0 == p && forall|k: int|
                        0 <= k < j ==> (#[trigger] procs@[k]).0 != p;
                assert(c == ii) by {
                    if c < ii {
                        assert(procs@[c].0 != p);
                    } else if c > ii {
                        assert(procs@[ii].0 != p);
                    }
                }
            }
            return (procs[i].1, procs[i].2);
        }
        i = i + 1;
    }
    (false, None)
}

/// Whether the process `pid` belongs to an SSH session, given a table of
/// processes: `(pid, marks SSH, parent)`, where marking SSH means an SSH
/// variable in its environment or being the SSH daemon. It walks the chain
/// of ancestors as `SshChainWalk` does, at most `SSH_PROC_CHAIN_MAX_DEPTH`
/// processes.
pub fn process_chain_is_ssh(pid: u32, procs: &[(u32, bool, Option<u32>)]) -> (r: bool)
    ensures
        r == chain_has_ssh(table_facts(procs@), pid, 0),
{
    let ghost f = table_facts(procs@);
    let mut walk = SshChainWalk::new(pid);
    loop
        invariant
            walk.steps < SSH_PROC_CHAIN_MAX_DEPTH,
            f == table_facts(procs@),
            chain_has_ssh(f, pid, 0) == chain_has_ssh(f, walk.current, walk.steps),
        decreases SSH_PROC_CHAIN_MAX_DEPTH - walk.steps,
    {
        let (ssh, ppid) = table_lookup(procs, walk.current);
        let ghost cur = walk.current;
        let ghost steps = walk.steps;
        match walk.observe(ssh, false, ppid) {
            WalkStep::Ssh => {
                return true;
            },
            WalkStep::Local => {
                proof {
                    if let Some(q) = ppid {
                        if q != 0 && q != cur {
                            assert(!chain_has_ssh(f, q, (steps + 1) as u32));
                        }
                    }
                }
                return false;
            },
            WalkStep::Next(_) => {},
        }
    }
}

/// The IR device whose emitter a capture switches on: the node of an IR
/// camera when the emitter is enabled; none otherwise.
pub fn emitter_target(kind: &CameraKind, enabled: bool) -> (r: Option<&str>)
    ensures
        match kind {
            CameraKind::Ir { node, .. } => if enabled {
                r matches Some(n) && n@ == node@
            } else {
                r is None
            },
            CameraKind::Rgb { .. } => r is None,
        },
{
    match kind {
        CameraKind::Ir { node, .. } => if enabled {
            Some(node.as_str())
        } else {
            None
        },
        CameraKind::Rgb { .. } => None,
    }
}

/// Whether a lid state file (`/proc/acpi/button/lid/*/state`) says closed.
pub fn lid_state_is_closed(state: &str) -> (r: bool)
    ensures
        r == contains(map_lower(state@), "closed"@),
{
    contains_chars(&lower_all(&chars_of(state)), &chars_of("closed"))
}

/// A lid counts as closed only when UPower reports one present and closed.
pub fn upower_lid_closed(present: bool, closed: bool) -> (r: bool)
    ensures
        r == (present && closed),
{
    present && closed
}

/// Why an authentication must not run, if it must not.
#[derive(Clone, Copy, Debug, PartialEq, Eq, Structural)]
pub enum AbortReason {
    Ssh,
    LidClosed,
}

impl AbortReason {
    pub fn message(self) -> (r: &'static str)
        ensures
            r@ == match self {
                AbortReason::Ssh => "SSH session detected"@,
                AbortReason::LidClosed => "lid closed"@,
            },
    {
        match self {
            AbortReason::Ssh => "SSH session detected",
            AbortReason::LidClosed => "lid closed",
        }
    }
}

/// The safeguard that stops an authentication: SSH first, then a closed lid.
pub fn auth_abort_reason(
    abort_if_ssh: bool,
    is_ssh: bool,
    abort_if_lid_closed: bool,
    lid_closed: bool,
) -> (r: Option<AbortReason>)
    ensures
        r == (if abort_if_ssh && is_ssh {
            Some(AbortReason::Ssh)
        } else if abort_if_lid_closed && lid_closed {
            Some(AbortReason::LidClosed)
        } else {
            None
        }),
{
    if abort_if_ssh && is_ssh {
        Some(AbortReason::Ssh)
    } else if abort_if_lid_closed && lid_closed {
        Some(AbortReason::LidClosed)
    } else {
        None
    }
}

/// How the template store changes when the configuration is applied.
#[derive(Clone, Copy, Debug, PartialEq, Eq, Structural)]
pub enum EncryptionChange {
    Keep,
    Enable,
    Disable,
}

pub fn encryption_change(want_encrypt: bool, currently_encrypted: bool) -> (r: EncryptionChange)
    ensures
        r == (if want_encrypt == currently_encrypted {
            EncryptionChange::Keep
        } else if want_encrypt {
            EncryptionChange::Enable
        } else {
            EncryptionChange::Disable
        }),
{
    if want_encrypt == currently_encrypted {
        EncryptionChange::Keep
    } else if want_encrypt {
        EncryptionChange::Enable
    } else {
        EncryptionChange::Disable
    }
}

// ---------------------------------------------------------------------------
// The device claim
// ---------------------------------------------------------------------------

/// The client that holds the daemon.
#[derive(Clone, Debug)]
pub struct ClaimState {
    pub username: String,
    pub sender: String,
    pub epoch: u64,
}

/// Whether `state` is the claim made at `epoch` (a timer of an older claim
/// must not release a newer one).
pub fn claim_has_epoch(state: &Option<ClaimState>, epoch: u64) -> (r: bool)
    ensures
        r == (state matches Some(c) && c.epoch == epoch),
{
    match state {
        Some(claim) => claim.epoch == epoch,
        None => false,
    }
}

/// Why a claim request failed.
#[derive(Clone, Copy, Debug, PartialEq, Eq, Structural)]
pub enum ClaimError {
    /// Another client holds the daemon and the caller is not root.
    AlreadyClaimed,
    /// A release from a client that does not hold the daemon.
    NotOwner,
    /// Nobody holds the daemon.
    NotClaimed,
    /// The daemon is held by another client.
    ClaimedByOther,
}

impl ClaimError {
    pub fn message(self) -> (r: &'static str)
        ensures
            r@ == match self {
                ClaimError::AlreadyClaimed => "Device already claimed by another interface"@,
                ClaimError::NotOwner => "Sender does not own the claim"@,
                ClaimError::NotClaimed => "Daemon not claimed"@,
                ClaimError::ClaimedByOther => "Daemon is claimed by another process"@,
            },
    {
        match self {
            ClaimError::AlreadyClaimed => "Device already claimed by another interface",
            ClaimError::NotOwner => "Sender does not own the claim",
            ClaimError::NotClaimed => "Daemon not claimed",
            ClaimError::ClaimedByOther => "Daemon is claimed by another process",
        }
    }
}

/// What a successful claim did.
#[derive(Clone, Copy, Debug, PartialEq, Eq, Structural)]
pub enum ClaimOutcome {
    /// The sender already held the daemon; nothing changed.
    AlreadyHeld,
    /// The sender now holds the daemon under `epoch`; `preempted` when a root
    /// caller displaced another client (whose work must be cancelled).
    Claimed { epoch: u64, preempted: bool },
}

/// The single claim on the daemon and the epoch counter of claims.
pub struct ClaimRegistry {
    pub state: Option<ClaimState>,
    pub next_epoch: u64,
}

pub open spec fn held_by(state: Option<ClaimState>, sender: Seq<char>) -> bool {
    state matches Some(c) && c.sender@ == sender
}

/// The epoch after `e`, wrapping at the end of the range.
pub open spec fn next_epoch_after(e: u64) -> u64 {
    if e == u64::MAX {
        0
    } else {
        (e + 1) as u64
    }
}

/// A claim request: the claim afterwards, the next epoch afterwards and the
/// answer. The holder re-claiming changes nothing; a root caller displaces
/// another holder; anyone else is refused while the daemon is held.
pub open spec fn claim_step(
    state: Option<ClaimState>,
    next: u64,
    username: String,
    sender: String,
    caller_uid: u32,
) -> (Option<ClaimState>, u64, Result<ClaimOutcome, ClaimError>) {
    if held_by(state, sender@) {
        (state, next, Ok(ClaimOutcome::AlreadyHeld))
    } else if state is Some && caller_uid != 0 {
        (state, next, Err(ClaimError::AlreadyClaimed))
    } else {
        (
            Some(ClaimState { username, sender, epoch: next }),
            next_epoch_after(next),
            Ok(ClaimOutcome::Claimed { epoch: next, preempted: state is Some }),
        )
    }
}

/// A release request by `sender`: the claim afterwards and the answer.
pub open spec fn release_step(state: Option<ClaimState>, sender: Seq<char>) -> (Option<ClaimState>, Result<(), ClaimError>) {
    match state {
        None => (state, Err(ClaimError::NotClaimed)),
        Some(c) => if c.sender@ == sender {
            (None, Ok(()))
        } else {
            (state, Err(ClaimError::NotOwner))
        },
    }
}

/// What a request that needs the claim learns: the claim when `sender`
/// holds it.
pub open spec fn check_step(state: Option<ClaimState>, sender: Seq<char>) -> Result<ClaimState, ClaimError> {
    match state {
        None => Err(ClaimError::NotClaimed),
        Some(c) => if c.sender@ == sender {
            Ok(c)
        } else {
            Err(ClaimError::ClaimedByOther)
        },
    }
}

/// The claim after the timer of the claim made at `epoch` fires.
pub open spec fn expire_step(state: Option<ClaimState>, epoch: u64) -> Option<ClaimState> {
    match state {
        Some(c) => if c.epoch == epoch {
            None
        } else {
            state
        },
        None => None,
    }
}

impl ClaimRegistry {
    pub fn new() -> (r: Self)
        ensures
            r.state is None,
            r.next_epoch == 0,
    {
        ClaimRegistry { state: None, next_epoch: 0 }
    }

    /// Claims the daemon for `username` on behalf of `sender`.
    pub fn claim(&mut self, username: String, sender: String, caller_uid: u32) -> (r: Result<
        ClaimOutcome,
        ClaimError,
    >)
        ensures
            (final(self).state, final(self).next_epoch, r) == claim_step(
                old(self).state,
                old(self).next_epoch,
                username,
                sender,
                caller_uid,
            ),
    {
        let mut preempted = false;
        if let Some(existing) = &self.state {
            if str_eq(existing.sender.as_str(), sender.as_str()) {
                return Ok(ClaimOutcome::AlreadyHeld);
            }
            if caller_uid == 0 {
                preempted = true;
            } else {
                return Err(ClaimError::AlreadyClaimed);
            }
        }
        let epoch = self.next_epoch;
        self.next_epoch = if self.next_epoch == u64::MAX {
            0
        } else {
            self.next_epoch + 1
        };
        self.state = Some(ClaimState { username, sender, epoch });
        Ok(ClaimOutcome::Claimed { epoch, preempted })
    }

    /// Releases the daemon held by `sender`; the caller cancels its work.
    pub fn release(&mut self, sender: &str) -> (r: Result<(), ClaimError>)
        ensures
            (final(self).state, r) == release_step(old(self).state, sender@),
            final(self).next_epoch == old(self).next_epoch,
    {
        match &self.state {
            None => Err(ClaimError::NotClaimed),
            Some(claim) => {
                if !str_eq(claim.sender.as_str(), sender) {
                    return Err(ClaimError::NotOwner);
                }
                self.state = None;
                Ok(())
            },
        }
    }

    /// The claim `sender` holds, for a request that needs one.
    pub fn check(&self, sender: &str) -> (r: Result<ClaimState, ClaimError>)
        ensures
            r == check_step(self.state, sender@),
    {
        match &self.state {
            Some(claim) => {
                if str_eq(claim.sender.as_str(), sender) {
                    Ok(ClaimState {
                        username: claim.username.clone(),
                        sender: claim.sender.clone(),
                        epoch: claim.epoch,
                    })
                } else {
                    Err(ClaimError::ClaimedByOther)
                }
            },
            None => Err(ClaimError::NotClaimed),
        }
    }

    /// Ends the claim made at `epoch` when its time is up; a newer claim is
    /// left alone. Returns whether a claim ended.
    pub fn expire(&mut self, epoch: u64) -> (r: bool)
        ensures
            r == (old(self).state matches Some(c) && c.epoch == epoch),
            final(self).state == expire_step(old(self).state, epoch),
            final(self).next_epoch == old(self).next_epoch,
    {
        if claim_has_epoch(&self.state, epoch) {
            self.state = None;
            true
        } else {
            false
        }
    }

    /// Ends the claim of a client that left the bus. Returns whether a claim
    /// ended.
    pub fn sender_vanished(&mut self, sender: &str) -> (r: bool)
        ensures
            r == held_by(old(self).state, sender@),
            r ==> final(self).state is None,
            !r ==> final(self).state == old(self).state,
            final(self).next_epoch == old(self).next_epoch,
    {
        let held = match &self.state {
            Some(claim) => str_eq(claim.sender.as_str(), sender),
            None => false,
        };
        if held {
            self.state = None;
        }
        held
    }
}

/// A claim admits its holder and nobody else, and releasing it frees the
/// daemon: once `sender` claims the unheld daemon, requests from `sender`
/// pass the check and requests from any other client are refused; once
/// `sender` releases it, the daemon is unclaimed.
pub proof fn claim_check_release_law(
    next: u64,
    username: String,
    sender: String,
    other: Seq<char>,
    caller_uid: u32,
)
    requires
        other != sender@,
    ensures
        ({
            let (s1, n1, r1) = claim_step(None, next, username, sender, caller_uid);
            let (s2, r2) = release_step(s1, sender@);
            &&& r1 == Ok::<ClaimOutcome, ClaimError>(ClaimOutcome::Claimed { epoch: next, preempted: false })
            &&& check_step(s1, sender@) is Ok
            &&& check_step(s1, other) == Err::<ClaimState, ClaimError>(ClaimError::ClaimedByOther)
            &&& release_step(s1, other).1 == Err::<(), ClaimError>(ClaimError::NotOwner)
            &&& r2 == Ok::<(), ClaimError>(())
            &&& check_step(s2, sender@) == Err::<ClaimState, ClaimError>(ClaimError::NotClaimed)
        }),
{
}

/// The timer of an old claim never ends a newer one: after a claim at epoch
/// `e` is released and the daemon is claimed again, expiring `e` leaves the
/// new claim in place.
pub proof fn stale_timer_law(
    next: u64,
    first_user: String,
    first: String,
    second_user: String,
    second: String,
    uid1: u32,
    uid2: u32,
)
    ensures
        ({
            let (s1, n1, _) = claim_step(None, next, first_user, first, uid1);
            let (s2, _) = release_step(s1, first@);
            let (s3, _, r3) = claim_step(s2, n1, second_user, second, uid2);
            &&& r3 is Ok
            &&& s3 is Some
            &&& expire_step(s3, next) == s3
        }),
{
}

// ---------------------------------------------------------------------------
// Verification session
// ---------------------------------------------------------------------------

/// After this long with every running stream too dark, verification gives up.
pub const VERIFY_TOO_DARK_TIMEOUT_MS: u64 = 1000;

/// How a verification ends.
#[derive(Clone, Copy, Debug, PartialEq, Eq, Structural)]
pub enum VerifyFinish {
    /// Report `result`; `with_scores` when the per-face scores accompany it.
    Verdict { result: VerifyResult, with_scores: bool },
    /// The streams are gone; end without a report.
    Stop,
}

/// What happened in a running verification.
#[derive(Clone, Copy, Debug, PartialEq, Eq, Structural)]
pub enum VerifyEvent {
    Cancelled,
    /// A stream processed a frame; `has_face` when it yielded an embedding.
    Status { spectrum: Spectrum, status: CaptureStatus, has_face: bool, now_ms: u64 },
    /// A stream matched the user (and passed liveness).
    Success { spectrum: Spectrum },
    Error,
    /// Every stream has stopped.
    Closed,
}

/// What the daemon does in response to an event.
#[derive(Clone, Copy, Debug, PartialEq, Eq, Structural)]
pub struct VerifyAction {
    /// A face status to signal (it differs from the last one signalled).
    pub face_status: Option<CaptureStatus>,
    /// Set when the verification ends; the streams must then be stopped.
    pub finish: Option<VerifyFinish>,
}

/// The state of one verification across its RGB and IR streams.
pub struct VerifySession {
    pub run_rgb: bool,
    pub run_ir: bool,
    pub policy: String,
    pub max_frames: u32,
    pub rgb_status: CaptureStatus,
    pub ir_status: CaptureStatus,
    pub rgb_attempted: bool,
    pub dark_since_ms: Option<u64>,
    pub frames_seen: u32,
    pub rgb_success: bool,
    pub ir_success: bool,
    pub last_emitted: Option<CaptureStatus>,
    pub finished: bool,
}

pub open spec fn all_dark(run_rgb: bool, run_ir: bool, rgb: CaptureStatus, ir: CaptureStatus) -> bool {
    if run_rgb && run_ir {
        rgb == CaptureStatus::TooDark && ir == CaptureStatus::TooDark
    } else if run_rgb {
        rgb == CaptureStatus::TooDark
    } else if run_ir {
        ir == CaptureStatus::TooDark
    } else {
        false
    }
}

/// A verification can only start with at least one stream to run.
pub fn verify_can_start(run_rgb: bool, run_ir: bool) -> (r: bool)
    ensures
        r == (run_rgb || run_ir),
{
    run_rgb || run_ir
}

impl VerifySession {
    pub open spec fn wf(&self) -> bool {
        self.finished || self.frames_seen < self.max_frames || self.frames_seen == 0
    }

    pub open spec fn passed(&self) -> bool {
        hybrid_passed(
            self.policy@,
            self.run_rgb,
            self.run_ir,
            self.rgb_attempted,
            self.rgb_status,
            self.rgb_success,
            self.ir_success,
        )
    }

    /// The session after a stream reports a match, before it is judged.
    pub open spec fn after_success(self, spectrum: Spectrum) -> VerifySession {
        match spectrum {
            Spectrum::Rgb => VerifySession { rgb_success: true, rgb_attempted: true, ..self },
            Spectrum::Ir => VerifySession { ir_success: true, ..self },
        }
    }

    /// The session after a stream reports a frame's status, before the
    /// shown status, darkness and outcome are updated.
    pub open spec fn after_status(self, spectrum: Spectrum, status: CaptureStatus, has_face: bool) -> VerifySession {
        let frames = if has_face {
            (self.frames_seen + 1) as u32
        } else {
            self.frames_seen
        };
        match spectrum {
            Spectrum::Rgb => VerifySession { rgb_status: status, rgb_attempted: true, frames_seen: frames, ..self },
            Spectrum::Ir => VerifySession { ir_status: status, frames_seen: frames, ..self },
        }
    }

    /// A verification of the given streams under a hybrid policy, giving up
    /// after `max_frames` frames with a face.
    pub fn new(run_rgb: bool, run_ir: bool, policy: String, max_frames: u32) -> (r: Self)
        ensures
            r.wf(),
            !r.finished,
            r.run_rgb == run_rgb && r.run_ir == run_ir && r.policy == policy && r.max_frames
                == max_frames,
            r.rgb_status == CaptureStatus::Unused && r.ir_status == CaptureStatus::Unused,
            !r.rgb_attempted && !r.rgb_success && !r.ir_success,
            r.frames_seen == 0 && r.dark_since_ms is None && r.last_emitted is None,
    {
        VerifySession {
            run_rgb,
            run_ir,
            policy,
            max_frames,
            rgb_status: CaptureStatus::Unused,
            ir_status: CaptureStatus::Unused,
            rgb_attempted: false,
            dark_since_ms: None,
            frames_seen: 0,
            rgb_success: false,
            ir_success: false,
            last_emitted: None,
            finished: false,
        }
    }

    fn finish_if_passed(&mut self) -> (r: Option<VerifyFinish>)
        ensures
            *final(self) == (VerifySession { finished: old(self).finished || old(self).passed(), ..*old(self) }),
            r == (if old(self).passed() {
                Some(VerifyFinish::Verdict { result: VerifyResult::VerifyMatch, with_scores: true })
            } else {
                None::<VerifyFinish>
            }),
    {
        if hybrid_auth_passed(
            self.policy.as_str(),
            self.run_rgb,
            self.run_ir,
            self.rgb_attempted,
            self.rgb_status,
            self.rgb_success,
            self.ir_success,
        ) {
            self.finished = true;
            Some(VerifyFinish::Verdict { result: VerifyResult::VerifyMatch, with_scores: true })
        } else {
            None
        }
    }

    /// Advances the verification by one event.
    pub fn handle(&mut self, event: VerifyEvent) -> (r: VerifyAction)
        requires
            old(self).wf(),
            !old(self).finished,
        ensures
            final(self).wf(),
            final(self).finished == r.finish is Some,
            final(self).policy == old(self).policy,
            final(self).run_rgb == old(self).run_rgb && final(self).run_ir == old(self).run_ir,
            final(self).max_frames == old(self).max_frames,
            match event {
                VerifyEvent::Cancelled | VerifyEvent::Error => r.face_status is None && r.finish
                    == Some(VerifyFinish::Verdict { result: VerifyResult::VerifyNoMatch, with_scores: false })
                    && *final(self) == (VerifySession { finished: true, ..*old(self) }),
                VerifyEvent::Closed => r.face_status is None && r.finish == Some(VerifyFinish::Stop)
                    && *final(self) == (VerifySession { finished: true, ..*old(self) }),
                VerifyEvent::Success { spectrum } => r.face_status is None
                    && *final(self) == (VerifySession { finished: r.finish is Some, ..old(self).after_success(spectrum) })
                    && (r.finish is Some <==> old(self).after_success(spectrum).passed()) && (spectrum
                    == Spectrum::Rgb ==> final(self).rgb_success && final(self).rgb_attempted) && (
                spectrum == Spectrum::Ir ==> final(self).ir_success) && (r.finish is Some
                    <==> final(self).passed()) && (r.finish is Some ==> r.finish == Some(
                    VerifyFinish::Verdict { result: VerifyResult::VerifyMatch, with_scores: true },
                )),
                VerifyEvent::Status { spectrum, status, has_face, now_ms } => {
                    &&& has_face && final(self).frames_seen >= old(self).max_frames ==> *final(self)
                        == (VerifySession { finished: true, ..old(self).after_status(spectrum, status, has_face) })
                    &&& !(has_face && final(self).frames_seen >= old(self).max_frames) ==> *final(self)
                        == (VerifySession {
                            last_emitted: final(self).last_emitted,
                            dark_since_ms: final(self).dark_since_ms,
                            finished: r.finish is Some,
                            ..old(self).after_status(spectrum, status, has_face)
                        })
                    &&& spectrum == Spectrum::Rgb ==> final(self).rgb_status == status
                        && final(self).rgb_attempted
                    &&& spectrum == Spectrum::Ir ==> final(self).ir_status == status
                    &&& final(self).frames_seen == (if has_face {
                        old(self).frames_seen + 1
                    } else {
                        old(self).frames_seen as int
                    })
                    &&& has_face && final(self).frames_seen >= old(self).max_frames ==> r.finish
                        == Some(VerifyFinish::Verdict { result: VerifyResult::VerifyNoMatch, with_scores: true })
                        && r.face_status is None
                    &&& !(has_face && final(self).frames_seen >= old(self).max_frames) ==> {
                        let shown = effective_status(final(self).rgb_status, final(self).ir_status);
                        &&& r.face_status == (if old(self).last_emitted == Some(shown) {
                            None::<CaptureStatus>
                        } else {
                            Some(shown)
                        })
                        &&& final(self).last_emitted == Some(shown)
                        &&& if all_dark(
                            old(self).run_rgb,
                            old(self).run_ir,
                            final(self).rgb_status,
                            final(self).ir_status,
                        ) {
                            let started = match old(self).dark_since_ms {
                                Some(t) => t,
                                None => now_ms,
                            };
                            &&& final(self).dark_since_ms == Some(started)
                            &&& if now_ms >= started + VERIFY_TOO_DARK_TIMEOUT_MS {
                                r.finish == Some(VerifyFinish::Verdict { result: VerifyResult::VerifyNoMatch, with_scores: false })
                            } else {
                                (r.finish is Some <==> final(self).passed()) && (r.finish is Some
                                    ==> r.finish == Some(VerifyFinish::Verdict { result: VerifyResult::VerifyMatch, with_scores: true }))
                            }
                        } else {
                            &&& final(self).dark_since_ms is None
                            &&& r.finish is Some <==> final(self).passed()
                            &&& r.finish is Some ==> r.finish == Some(VerifyFinish::Verdict { result: VerifyResult::VerifyMatch, with_scores: true })
                        }
                    }
                },
            },
    {
        match event {
            VerifyEvent::Cancelled | VerifyEvent::Error => {
                self.finished = true;
                VerifyAction {
                    face_status: None,
                    finish: Some(VerifyFinish::Verdict { result: VerifyResult::VerifyNoMatch, with_scores: false }),
                }
            },
            VerifyEvent::Closed => {
                self.finished = true;
                VerifyAction { face_status: None, finish: Some(VerifyFinish::Stop) }
            },
            VerifyEvent::Success { spectrum } => {
                match spectrum {
                    Spectrum::Rgb => {
                        self.rgb_success = true;
                        self.rgb_attempted = true;
                    },
                    Spectrum::Ir => {
                        self.ir_success = true;
                    },
                }
                let finish = self.finish_if_passed();
                VerifyAction { face_status: None, finish }
            },
            VerifyEvent::Status { spectrum, status, has_face, now_ms } => {
                match spectrum {
                    Spectrum::Rgb => {
                        self.rgb_status = status;
                        self.rgb_attempted = true;
                    },
                    Spectrum::Ir => {
                        self.ir_status = status;
                    },
                }
                if has_face {
                    self.frames_seen = self.frames_seen + 1;
                    if self.frames_seen >= self.max_frames {
                        self.finished = true;
                        return VerifyAction {
                            face_status: None,
                            finish: Some(VerifyFinish::Verdict { result: VerifyResult::VerifyNoMatch, with_scores: true }),
                        };
                    }
                }
                let shown = effective(self.rgb_status, self.ir_status);
                let face_status = if self.last_emitted == Some(shown) {
                    None
                } else {
                    Some(shown)
                };
                self.last_emitted = Some(shown);
                let dark = if self.run_rgb && self.run_ir {
                    self.rgb_status == CaptureStatus::TooDark && self.ir_status
                        == CaptureStatus::TooDark
                } else if self.run_rgb {
                    self.rgb_status == CaptureStatus::TooDark
                } else if self.run_ir {
                    self.ir_status == CaptureStatus::TooDark
                } else {
                    false
                };
                if dark {
                    let started = match self.dark_since_ms {
                        Some(t) => t,
                        None => now_ms,
                    };
                    self.dark_since_ms = Some(started);
                    if now_ms >= started && now_ms - started >= VERIFY_TOO_DARK_TIMEOUT_MS {
                        self.finished = true;
                        return VerifyAction {
                            face_status,
                            finish: Some(VerifyFinish::Verdict { result: VerifyResult::VerifyNoMatch, with_scores: false }),
                        };
                    }
                } else {
                    self.dark_since_ms = None;
                }
                let finish = self.finish_if_passed();
                VerifyAction { face_status, finish }
            },
        }
    }
}

// ---------------------------------------------------------------------------
// Enrollment session
// ---------------------------------------------------------------------------

/// The number of poses an enrollment captures.
pub const ENROLL_STEPS: u32 = 5;

pub open spec fn prompt_for_step(step: int) -> EnrollPrompt {
    if step == 0 {
        EnrollPrompt::LookStraight
    } else if step == 1 {
        EnrollPrompt::LookUp
    } else if step == 2 {
        EnrollPrompt::LookDown
    } else if step == 3 {
        EnrollPrompt::LookLeft
    } else {
        EnrollPrompt::LookRight
    }
}

/// The pose asked for at each enrollment step.
pub fn enroll_prompt(step: u32) -> (r: EnrollPrompt)
    requires
        step < ENROLL_STEPS,
    ensures
        r == prompt_for_step(step as int),
{
    match step {
        0 => EnrollPrompt::LookStraight,
        1 => EnrollPrompt::LookUp,
        2 => EnrollPrompt::LookDown,
        3 => EnrollPrompt::LookLeft,
        _ => EnrollPrompt::LookRight,
    }
}

/// An enrollment progress signal; `time_remaining` is `-1` on a failure or
/// cancellation and `0` otherwise.
#[derive(Clone, Copy, Debug, PartialEq, Eq, Structural)]
pub struct EnrollSignal {
    pub progress: u32,
    pub max: u32,
    pub is_done: bool,
    pub prompt: EnrollPrompt,
    pub time_remaining: i8,
}

/// The signal sent when no camera is configured for enrollment.
pub fn enroll_unavailable_signal() -> (r: EnrollSignal)
    ensures
        r == (EnrollSignal { progress: 0, max: 5, is_done: true, prompt: EnrollPrompt::Cancelled, time_remaining: -1i8 }),
{
    EnrollSignal { progress: 0, max: 5, is_done: true, prompt: EnrollPrompt::Cancelled, time_remaining: -1i8 }
}

/// The final signal once the captured template has been stored (`saved`)
/// or could not be.
pub fn enroll_saved_signal(saved: bool) -> (r: EnrollSignal)
    ensures
        saved ==> r == (EnrollSignal { progress: 5, max: 5, is_done: true, prompt: EnrollPrompt::Completed, time_remaining: 0i8 }),
        !saved ==> r == (EnrollSignal { progress: 5, max: 5, is_done: true, prompt: EnrollPrompt::DbFailed, time_remaining: -1i8 }),
{
    if saved {
        EnrollSignal { progress: 5, max: 5, is_done: true, prompt: EnrollPrompt::Completed, time_remaining: 0i8 }
    } else {
        EnrollSignal { progress: 5, max: 5, is_done: true, prompt: EnrollPrompt::DbFailed, time_remaining: -1i8 }
    }
}

/// What happened in a running enrollment.
#[derive(Clone, Copy, Debug, PartialEq, Eq, Structural)]
pub enum EnrollEvent {
    Cancelled,
    /// A stream processed a frame at `step`.
    Status { step: u32, spectrum: Spectrum, status: CaptureStatus },
    /// A stream captured the pose of `step`.
    Captured { step: u32, spectrum: Spectrum },
    Error,
    /// Every stream has stopped.
    Closed,
}

/// How an enrollment ends.
#[derive(Clone, Copy, Debug, PartialEq, Eq, Structural)]
pub enum EnrollFinish {
    /// Send the signal and store nothing.
    Abort(EnrollSignal),
    /// Store the captured embeddings as a template.
    Save,
}

/// What the daemon does in response to an enrollment event.
#[derive(Clone, Copy, Debug, PartialEq, Eq, Structural)]
pub struct EnrollAction {
    /// A face status to signal.
    pub face_status: Option<CaptureStatus>,
    /// Set when the current step is complete: keep the step's embeddings
    /// (RGB first) and send this signal.
    pub step_complete: Option<EnrollSignal>,
    pub finish: Option<EnrollFinish>,
}

/// The state of one enrollment across its RGB and IR streams.
pub struct EnrollSession {
    pub run_rgb: bool,
    pub run_ir: bool,
    pub completed_steps: u32,
    pub has_rgb_for_step: bool,
    pub has_ir_for_step: bool,
    pub rgb_status: CaptureStatus,
    pub ir_status: CaptureStatus,
    pub last_emitted: Option<CaptureStatus>,
    pub last_sent_prompt: Option<EnrollPrompt>,
    pub finished: bool,
}

pub open spec fn step_done(run_rgb: bool, run_ir: bool, has_rgb: bool, has_ir: bool) -> bool {
    if run_rgb && run_ir {
        has_rgb && has_ir
    } else if run_rgb {
        has_rgb
    } else if run_ir {
        has_ir
    } else {
        false
    }
}

impl EnrollSession {
    pub open spec fn wf(&self) -> bool {
        self.completed_steps <= ENROLL_STEPS && (self.completed_steps == ENROLL_STEPS
            ==> self.finished)
    }

    /// The status shown for one stream: a stream that has captured the
    /// current pose shows no face.
    pub open spec fn shown(&self) -> CaptureStatus {
        effective_status(
            if self.has_rgb_for_step {
                CaptureStatus::NoFace
            } else {
                self.rgb_status
            },
            if self.has_ir_for_step {
                CaptureStatus::NoFace
            } else {
                self.ir_status
            },
        )
    }

    pub fn new(run_rgb: bool, run_ir: bool) -> (r: Self)
        ensures
            r.wf(),
            !r.finished,
            r.run_rgb == run_rgb && r.run_ir == run_ir,
            r.completed_steps == 0,
            !r.has_rgb_for_step && !r.has_ir_for_step,
            r.rgb_status == CaptureStatus::NoFace && r.ir_status == CaptureStatus::NoFace,
            r.last_emitted is None && r.last_sent_prompt is None,
    {
        EnrollSession {
            run_rgb,
            run_ir,
            completed_steps: 0,
            has_rgb_for_step: false,
            has_ir_for_step: false,
            rgb_status: CaptureStatus::NoFace,
            ir_status: CaptureStatus::NoFace,
            last_emitted: None,
            last_sent_prompt: None,
            finished: false,
        }
    }

    /// The prompt signal for the current step, unless it was already sent.
    pub fn next_prompt(&mut self) -> (r: Option<EnrollSignal>)
        requires
            old(self).wf(),
            !old(self).finished,
        ensures
            final(self).wf(),
            !final(self).finished,
            ({
                let p = prompt_for_step(old(self).completed_steps as int);
                &&& r == (if old(self).last_sent_prompt == Some(p) {
                    None::<EnrollSignal>
                } else {
                    Some(EnrollSignal { progress: old(self).completed_steps, max: 5, is_done: false, prompt: p, time_remaining: 0i8 })
                })
                &&& *final(self) == (EnrollSession { last_sent_prompt: Some(p), ..*old(self) })
            }),
    {
        let prompt = enroll_prompt(self.completed_steps);
        if self.last_sent_prompt == Some(prompt) {
            None
        } else {
            self.last_sent_prompt = Some(prompt);
            Some(EnrollSignal { progress: self.completed_steps, max: 5, is_done: false, prompt, time_remaining: 0i8 })
        }
    }

    fn emit_shown(&mut self) -> (r: Option<CaptureStatus>)
        ensures
            *final(self) == (EnrollSession { last_emitted: Some(old(self).shown()), ..*old(self) }),
            r == (if old(self).last_emitted == Some(old(self).shown()) {
                None::<CaptureStatus>
            } else {
                Some(old(self).shown())
            }),
    {
        let r_status = if self.has_rgb_for_step {
            CaptureStatus::NoFace
        } else {
            self.rgb_status
        };
        let i_status = if self.has_ir_for_step {
            CaptureStatus::NoFace
        } else {
            self.ir_status
        };
        let shown = effective(r_status, i_status);
        let out = if self.last_emitted == Some(shown) {
            None
        } else {
            Some(shown)
        };
        self.last_emitted = Some(shown);
        out
    }

    /// Advances the enrollment by one event.
    pub fn handle(&mut self, event: EnrollEvent) -> (r: EnrollAction)
        requires
            old(self).wf(),
            !old(self).finished,
        ensures
            final(self).wf(),
            final(self).finished == r.finish is Some,
            final(self).run_rgb == old(self).run_rgb && final(self).run_ir == old(self).run_ir,
            final(self).completed_steps >= old(self).completed_steps,
            match event {
                EnrollEvent::Cancelled => r == (EnrollAction {
                    face_status: None,
                    step_complete: None,
                    finish: Some(EnrollFinish::Abort(EnrollSignal { progress: 0, max: 5, is_done: true, prompt: EnrollPrompt::Cancelled, time_remaining: -1i8 })),
                }) && *final(self) == (EnrollSession { finished: true, ..*old(self) }),
                EnrollEvent::Error => r == (EnrollAction {
                    face_status: None,
                    step_complete: None,
                    finish: Some(EnrollFinish::Abort(EnrollSignal { progress: 5, max: 5, is_done: true, prompt: EnrollPrompt::DbFailed, time_remaining: -1i8 })),
                }) && *final(self) == (EnrollSession { finished: true, ..*old(self) }),
                EnrollEvent::Closed => r == (EnrollAction {
                    face_status: None,
                    step_complete: None,
                    finish: Some(EnrollFinish::Save),
                }) && *final(self) == (EnrollSession { finished: true, ..*old(self) }),
                EnrollEvent::Status { step, spectrum, status } => if step != old(self).completed_steps {
                    r == (EnrollAction { face_status: None, step_complete: None, finish: None })
                        && *final(self) == *old(self)
                } else {
                    let s1 = EnrollSession {
                        rgb_status: if spectrum == Spectrum::Rgb {
                            status
                        } else {
                            old(self).rgb_status
                        },
                        ir_status: if spectrum == Spectrum::Ir {
                            status
                        } else {
                            old(self).ir_status
                        },
                        ..*old(self)
                    };
                    &&& r.step_complete is None && r.finish is None
                    &&& r.face_status == (if s1.last_emitted == Some(s1.shown()) {
                        None::<CaptureStatus>
                    } else {
                        Some(s1.shown())
                    })
                    &&& *final(self) == (EnrollSession { last_emitted: Some(s1.shown()), ..s1 })
                },
                EnrollEvent::Captured { step, spectrum } => if step != old(self).completed_steps {
                    r == (EnrollAction { face_status: None, step_complete: None, finish: None })
                        && *final(self) == *old(self)
                } else {
                    let has_rgb = old(self).has_rgb_for_step || spectrum == Spectrum::Rgb;
                    let has_ir = old(self).has_ir_for_step || spectrum == Spectrum::Ir;
                    let done = step_done(old(self).run_rgb, old(self).run_ir, has_rgb, has_ir);
                    let s1 = EnrollSession { has_rgb_for_step: has_rgb, has_ir_for_step: has_ir, ..*old(self) };
                    let s2 = EnrollSession { last_emitted: Some(s1.shown()), ..s1 };
                    &&& r.face_status == (if s1.last_emitted == Some(s1.shown()) {
                        None::<CaptureStatus>
                    } else {
                        Some(s1.shown())
                    })
                    &&& done ==> *final(self) == (EnrollSession {
                        has_rgb_for_step: false,
                        has_ir_for_step: false,
                        completed_steps: (old(self).completed_steps + 1) as u32,
                        finished: old(self).completed_steps + 1 == ENROLL_STEPS,
                        ..s2
                    })
                    &&& !done ==> *final(self) == s2
                    &&& done ==> final(self).completed_steps == old(self).completed_steps + 1
                        && !final(self).has_rgb_for_step && !final(self).has_ir_for_step
                        && r.step_complete == Some(EnrollSignal { progress: final(self).completed_steps, max: 5, is_done: false, prompt: EnrollPrompt::Captured, time_remaining: 0i8 })
                        && (r.finish is Some <==> final(self).completed_steps == ENROLL_STEPS)
                        && (r.finish is Some ==> r.finish == Some(EnrollFinish::Save))
                    &&& !done ==> final(self).completed_steps == old(self).completed_steps
                        && final(self).has_rgb_for_step == has_rgb && final(self).has_ir_for_step
                        == has_ir && r.step_complete is None && r.finish is None
                },
            },
    {
        match event {
            EnrollEvent::Cancelled => {
                self.finished = true;
                EnrollAction {
                    face_status: None,
                    step_complete: None,
                    finish: Some(EnrollFinish::Abort(EnrollSignal { progress: 0, max: 5, is_done: true, prompt: EnrollPrompt::Cancelled, time_remaining: -1i8 })),
                }
            },
            EnrollEvent::Error => {
                self.finished = true;
                EnrollAction {
                    face_status: None,
                    step_complete: None,
                    finish: Some(EnrollFinish::Abort(EnrollSignal { progress: 5, max: 5, is_done: true, prompt: EnrollPrompt::DbFailed, time_remaining: -1i8 })),
                }
            },
            EnrollEvent::Closed => {
                self.finished = true;
                EnrollAction { face_status: None, step_complete: None, finish: Some(EnrollFinish::Save) }
            },
            EnrollEvent::Status { step, spectrum, status } => {
                if step != self.completed_steps {
                    return EnrollAction { face_status: None, step_complete: None, finish: None };
                }
                match spectrum {
                    Spectrum::Rgb => {
                        self.rgb_status = status;
                    },
                    Spectrum::Ir => {
                        self.ir_status = status;
                    },
                }
                let face_status = self.emit_shown();
                EnrollAction { face_status, step_complete: None, finish: None }
            },
            EnrollEvent::Captured { step, spectrum } => {
                if step != self.completed_steps {
                    return EnrollAction { face_status: None, step_complete: None, finish: None };
                }
                match spectrum {
                    Spectrum::Rgb => {
                        self.has_rgb_for_step = true;
                    },
                    Spectrum::Ir => {
                        self.has_ir_for_step = true;
                    },
                }
                let face_status = self.emit_shown();
                let done = if self.run_rgb && self.run_ir {
                    self.has_rgb_for_step && self.has_ir_for_step
                } else if self.run_rgb {
                    self.has_rgb_for_step
                } else if self.run_ir {
                    self.has_ir_for_step
                } else {
                    false
                };
                if done {
                    self.has_rgb_for_step = false;
                    self.has_ir_for_step = false;
                    self.completed_steps = self.completed_steps + 1;
                    let signal = EnrollSignal {
                        progress: self.completed_steps,
                        max: 5,
                        is_done: false,
                        prompt: EnrollPrompt::Captured,
                        time_remaining: 0,
                    };
                    let finish = if self.completed_steps == ENROLL_STEPS {
                        self.finished = true;
                        Some(EnrollFinish::Save)
                    } else {
                        None
                    };
                    EnrollAction { face_status, step_complete: Some(signal), finish }
                } else {
                    EnrollAction { face_status, step_complete: None, finish: None }
                }
            },
        }
    }
}

/// Enrollment asks for five different poses, in this order: straight ahead,
/// up, down, left, right.
pub proof fn enroll_poses_law()
    ensures
        forall|i: int|
            0 <= i < ENROLL_STEPS ==> #[trigger] prompt_for_step(i) == seq![
                EnrollPrompt::LookStraight,
                EnrollPrompt::LookUp,
                EnrollPrompt::LookDown,
                EnrollPrompt::LookLeft,
                EnrollPrompt::LookRight,
            ][i],
        forall|i: int, j: int|
            0 <= i < ENROLL_STEPS && 0 <= j < ENROLL_STEPS && i != j ==> #[trigger] prompt_for_step(i)
                != #[trigger] prompt_for_step(j),
{
    let poses = seq![
        EnrollPrompt::LookStraight,
        EnrollPrompt::LookUp,
        EnrollPrompt::LookDown,
        EnrollPrompt::LookLeft,
        EnrollPrompt::LookRight,
    ];
    assert(poses[0] == EnrollPrompt::LookStraight && poses[1] == EnrollPrompt::LookUp && poses[2]
        == EnrollPrompt::LookDown && poses[3] == EnrollPrompt::LookLeft && poses[4] == EnrollPrompt::LookRight);
}

} // verus!
