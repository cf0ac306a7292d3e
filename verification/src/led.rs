//! IR emitter control: runtime profiles, the face-authentication control
//! probe, and the control sequences that switch an emitter on or off.

use vstd::prelude::*;
use crate::text::{concat3, string_of};
use crate::face_index::{has_key, key_pos, keys_distinct, lemma_key_pos, lemma_push_key, lemma_update_key, position};
use crate::text::owned;
use crate::devices::{CameraBus, IrControl, IrDevice, IrQuery, find_device, has_match, ir_device_table, is_first_match, modalias_ids, usb_ids_of};

verus! {

/// `UVC_SET_CUR` query code.
pub const SET_CUR: u8 = 0x01;

/// `UVC_GET_CUR` query code.
pub const GET_CUR: u8 = 0x81;

/// Selector of the Microsoft face-authentication extension control.
pub const FACE_AUTH_SELECTOR: u8 = 0x06;

/// Payload length of the face-authentication control.
pub const FACE_AUTH_LEN: usize = 9;

/// Highest extension unit the face-authentication probe tries.
pub const FACE_AUTH_PROBE_MAX_UNIT: u8 = 31;

/// A control step held at run time.
#[derive(Clone, Debug)]
pub struct RuntimeControl {
    pub unit: u8,
    pub selector: u8,
    pub query: IrQuery,
    pub payload: Vec<u8>,
}

/// The emitter profile of one camera.
#[derive(Clone, Debug)]
pub struct IrProfile {
    pub name: String,
    pub on_sequence: Vec<RuntimeControl>,
    pub off_sequence: Vec<RuntimeControl>,
    pub source: String,
}

/// An IR emitter bound to a V4L2 node.
pub struct IrLed {
    node: String,
    profile: IrProfile,
}

/// `r` is the run-time copy of the static control `c`.
pub open spec fn copies_control(r: RuntimeControl, c: IrControl) -> bool {
    r.unit == c.unit && r.selector == c.selector && r.query == c.query && r.payload@ == c.payload@
}

pub open spec fn copies_sequence(r: Seq<RuntimeControl>, c: Seq<IrControl>) -> bool {
    r.len() == c.len() && forall|i: int| 0 <= i < r.len() ==> copies_control(#[trigger] r[i], c[i])
}

/// `p` is the run-time copy of the static profile `d`.
pub open spec fn copies_device(p: IrProfile, d: IrDevice) -> bool {
    &&& p.name@ == d.name@
    &&& p.source@ == d.source@
    &&& copies_sequence(p.on_sequence@, d.on_sequence@)
    &&& copies_sequence(p.off_sequence@, d.off_sequence@)
}

fn copy_bytes(b: &[u8]) -> (r: Vec<u8>)
    ensures
        r@ == b@,
{
    let mut out: Vec<u8> = Vec::new();
    let mut i: usize = 0;
    while i < b.len()
        invariant
            i <= b.len(),
            out@ == b@.take(i as int),
        decreases b.len() - i,
    {
        out.push(b[i]);
        i = i + 1;
        assert(b@.take(i as int) == b@.take(i - 1).push(b@[i - 1]));
    }
    assert(b@.take(b.len() as int) == b@);
    out
}

impl RuntimeControl {
    pub fn from_static(control: &IrControl) -> (r: Self)
        ensures
            copies_control(r, *control),
    {
        RuntimeControl {
            unit: control.unit,
            selector: control.selector,
            query: control.query,
            payload: copy_bytes(control.payload),
        }
    }

    /// A `SET_CUR` write of `payload` to `unit`/`selector`.
    pub fn set(unit: u8, selector: u8, payload: &[u8]) -> (r: Self)
        ensures
            r.unit == unit,
            r.selector == selector,
            r.query == IrQuery::SetCur,
            r.payload@ == payload@,
    {
        RuntimeControl { unit, selector, query: IrQuery::SetCur, payload: copy_bytes(payload) }
    }

    /// The UVC query code the step is issued with.
    pub fn query_code(&self) -> (r: u8)
        ensures
            r == match self.query {
                IrQuery::SetCur => SET_CUR,
                IrQuery::GetCur => GET_CUR,
            },
    {
        match self.query {
            IrQuery::SetCur => SET_CUR,
            IrQuery::GetCur => GET_CUR,
        }
    }
}

fn copy_sequence(seq: &[IrControl]) -> (r: Vec<RuntimeControl>)
    ensures
        copies_sequence(r@, seq@),
{
    let mut out: Vec<RuntimeControl> = Vec::new();
    let mut i: usize = 0;
    while i < seq.len()
        invariant
            i <= seq.len(),
            out@.len() == i,
            forall|k: int| 0 <= k < i ==> copies_control(#[trigger] out@[k], seq@[k]),
        decreases seq.len() - i,
    {
        out.push(RuntimeControl::from_static(&seq[i]));
        i = i + 1;
    }
    out
}

impl IrProfile {
    pub fn from_static(device: &IrDevice) -> (r: Self)
        ensures
            copies_device(r, *device),
    {
        IrProfile {
            name: String::from_str(device.name),
            on_sequence: copy_sequence(device.on_sequence),
            off_sequence: copy_sequence(device.off_sequence),
            source: String::from_str(device.source),
        }
    }
}

// ---------------------------------------------------------------------------
// Face-authentication control probe
// ---------------------------------------------------------------------------

/// A `GET_CUR` reply shaped like the Microsoft face-authentication control:
/// `[1, 3, mode, 0, 0, 0, 0, 0, 0]` with `mode` in `1..=3`.
pub open spec fn is_face_auth_payload(p: Seq<u8>) -> bool {
    &&& p.len() == FACE_AUTH_LEN
    &&& p[0] == 1
    &&& p[1] == 3
    &&& 1 <= p[2] <= 3
    &&& forall|i: int| 3 <= i < p.len() ==> p[i] == 0
}

pub fn looks_like_face_auth_control(payload: &[u8; 9]) -> (r: bool)
    ensures
        r == is_face_auth_payload(payload@),
{
    if !(payload[0] == 1 && payload[1] == 3 && 1 <= payload[2] && payload[2] <= 3) {
        return false;
    }
    let mut i: usize = 3;
    while i < 9
        invariant
            3 <= i <= 9,
            payload@.len() == 9,
            forall|k: int| 3 <= k < i ==> payload@[k] == 0,
        decreases 9 - i,
    {
        if payload[i] != 0 {
            return false;
        }
        i = i + 1;
    }
    true
}

/// The `SET_CUR` payload that enables the emitter on alternate frames.
pub open spec fn face_auth_on_payload() -> Seq<u8> {
    seq![1u8, 3, 2, 0, 0, 0, 0, 0, 0]
}

/// The `SET_CUR` payload that disables the emitter.
pub open spec fn face_auth_off_payload() -> Seq<u8> {
    seq![1u8, 3, 1, 0, 0, 0, 0, 0, 0]
}

pub fn face_auth_on_alt_frame() -> (r: [u8; 9])
    ensures
        r@ == face_auth_on_payload(),
{
    let r = [1u8, 3, 2, 0, 0, 0, 0, 0, 0];
    assert(r@ =~= face_auth_on_payload());
    r
}

pub fn face_auth_off_disabled() -> (r: [u8; 9])
    ensures
        r@ == face_auth_off_payload(),
{
    let r = [1u8, 3, 1, 0, 0, 0, 0, 0, 0];
    assert(r@ =~= face_auth_off_payload());
    r
}

/// The profile of a camera whose face-authentication control answered at `unit`.
pub open spec fn is_face_auth_profile(p: IrProfile, unit: u8) -> bool {
    &&& p.on_sequence@.len() == 1
    &&& p.off_sequence@.len() == 1
    &&& p.on_sequence@[0].unit == unit && p.on_sequence@[0].selector == FACE_AUTH_SELECTOR
    &&& p.on_sequence@[0].query == IrQuery::SetCur
    &&& p.on_sequence@[0].payload@ == face_auth_on_payload()
    &&& p.off_sequence@[0].unit == unit && p.off_sequence@[0].selector == FACE_AUTH_SELECTOR
    &&& p.off_sequence@[0].query == IrQuery::SetCur
    &&& p.off_sequence@[0].payload@ == face_auth_off_payload()
}

/// The lower-case hexadecimal digit of `d < 16`.
pub open spec fn hex_char(d: int) -> char {
    if d < 10 {
        ('0' as int + d) as char
    } else {
        ('a' as int + d - 10) as char
    }
}

/// `n` in four lower-case hexadecimal digits, as `{:04x}` writes it.
pub open spec fn hex4_text(n: u16) -> Seq<char> {
    seq![
        hex_char((n / 4096) as int),
        hex_char((n / 256 % 16) as int),
        hex_char((n / 16 % 16) as int),
        hex_char((n % 16) as int),
    ]
}

fn hex_digit(d: u16) -> (c: char)
    requires
        d < 16,
    ensures
        c == hex_char(d as int),
{
    let ds = ['0', '1', '2', '3', '4', '5', '6', '7', '8', '9', 'a', 'b', 'c', 'd', 'e', 'f'];
    let c = ds[d as usize];
    assert(c == hex_char(d as int)) by {
        assert(ds@ =~= seq!['0', '1', '2', '3', '4', '5', '6', '7', '8', '9', 'a', 'b', 'c', 'd', 'e', 'f']);
    }
    c
}

/// `format!("{:04x}", n)`.
pub fn hex4(n: u16) -> (r: Vec<char>)
    ensures
        r@ == hex4_text(n),
{
    let mut out: Vec<char> = Vec::new();
    out.push(hex_digit(n / 4096));
    out.push(hex_digit(n / 256 % 16));
    out.push(hex_digit(n / 16 % 16));
    out.push(hex_digit(n % 16));
    assert(out@ =~= hex4_text(n));
    out
}

/// The name of a camera found by the probe.
pub open spec fn face_auth_name_text(vid: u16, pid: u16) -> Seq<char> {
    "USB "@ + hex4_text(vid) + ":"@ + hex4_text(pid) + " Microsoft Face Authentication UVC control"@
}

/// `USB vvvv:pppp Microsoft Face Authentication UVC control`.
fn face_auth_name(vid: u16, pid: u16) -> (r: String)
    ensures
        r@ == face_auth_name_text(vid, pid),
{
    let v = string_of(&hex4(vid));
    let p = string_of(&hex4(pid));
    let a = concat3("USB ", v.as_str(), ":");
    concat3(a.as_str(), p.as_str(), " Microsoft Face Authentication UVC control")
}

/// The profile used for a camera whose face-authentication control sits at `unit`.
pub fn face_auth_profile(vid: u16, pid: u16, unit: u8) -> (r: IrProfile)
    ensures
        is_face_auth_profile(r, unit),
        r.name@ == face_auth_name_text(vid, pid),
        r.source@ == "runtime probe: selector 0x06 exposes Microsoft Face Authentication-style [1,3,mode,0...] control"@,
{
    let on = face_auth_on_alt_frame();
    let off = face_auth_off_disabled();
    let mut on_sequence: Vec<RuntimeControl> = Vec::new();
    on_sequence.push(RuntimeControl::set(unit, FACE_AUTH_SELECTOR, &on));
    let mut off_sequence: Vec<RuntimeControl> = Vec::new();
    off_sequence.push(RuntimeControl::set(unit, FACE_AUTH_SELECTOR, &off));
    IrProfile {
        name: face_auth_name(vid, pid),
        on_sequence,
        off_sequence,
        source: String::from_str(
            "runtime probe: selector 0x06 exposes Microsoft Face Authentication-style [1,3,mode,0...] control",
        ),
    }
}

/// Walks the extension units `1..=31` looking for the face-authentication
/// control. The caller issues `GET_CUR` at `unit()` and reports the reply.
pub struct FaceAuthProbe {
    pub vid: u16,
    pub pid: u16,
    pub next_unit: u8,
}

impl FaceAuthProbe {
    pub fn new(vid: u16, pid: u16) -> (r: Self)
        ensures
            r.vid == vid,
            r.pid == pid,
            r.next_unit == 1,
    {
        FaceAuthProbe { vid, pid, next_unit: 1 }
    }

    /// The unit to query next, or `None` once every unit has been tried.
    pub fn unit(&self) -> (r: Option<u8>)
        ensures
            r == (if self.next_unit <= FACE_AUTH_PROBE_MAX_UNIT {
                Some(self.next_unit)
            } else {
                None::<u8>
            }),
    {
        if self.next_unit <= FACE_AUTH_PROBE_MAX_UNIT {
            Some(self.next_unit)
        } else {
            None
        }
    }

    /// Records the `GET_CUR` reply at the current unit (`None` when the query
    /// failed). Returns the camera's profile when the reply has the
    /// face-authentication shape; otherwise moves on to the next unit.
    pub fn observe(&mut self, reply: Option<&[u8]>) -> (r: Option<IrProfile>)
        requires
            old(self).next_unit <= FACE_AUTH_PROBE_MAX_UNIT,
        ensures
            final(self).vid == old(self).vid,
            final(self).pid == old(self).pid,
            r is Some <==> (reply matches Some(p) && is_face_auth_payload(p@)),
            r matches Some(p) ==> is_face_auth_profile(p, old(self).next_unit) && p.name@
                == face_auth_name_text(old(self).vid, old(self).pid),
            r is None ==> final(self).next_unit == old(self).next_unit + 1,
            r is Some ==> final(self).next_unit == old(self).next_unit,
    {
        let unit = self.next_unit;
        if let Some(p) = reply {
            if p.len() == FACE_AUTH_LEN {
                let arr: [u8; 9] = [p[0], p[1], p[2], p[3], p[4], p[5], p[6], p[7], p[8]];
                assert(arr@ =~= p@);
                if looks_like_face_auth_control(&arr) {
                    return Some(face_auth_profile(self.vid, self.pid, unit));
                }
            }
        }
        self.next_unit = unit + 1;
        None
    }
}

// ---------------------------------------------------------------------------
// The emitter of one node
// ---------------------------------------------------------------------------

impl IrLed {
    pub closed spec fn node_view(&self) -> Seq<char> {
        self.node@
    }

    pub closed spec fn profile_view(&self) -> IrProfile {
        self.profile
    }

    pub fn new(node: String, profile: IrProfile) -> (r: Self)
        ensures
            r.node_view() == node@,
            r.profile_view() == profile,
    {
        IrLed { node, profile }
    }

    /// The emitter of `node`, given the text of the node's sysfs `modalias`
    /// (`None` when unreadable). Cameras in the shipped table use their
    /// researched profile; others are handed to `probe`, which answers with
    /// the face-authentication profile it found, if any.
    pub fn for_path<F: Fn(u16, u16) -> Option<IrProfile>>(
        node: &str,
        modalias: Option<&str>,
        probe: F,
    ) -> (r: Option<Self>)
        requires
            forall|v: u16, p: u16| probe.requires((v, p)),
        ensures
            r matches Some(led) ==> led.node_view() == node@,
            match modalias {
                None => r is None,
                Some(m) => match modalias_ids(m@) {
                    None => r is None,
                    Some((vid, pid)) => if has_match(ir_device_table(), vid, pid) {
                        r matches Some(led) && exists|i: int|
                            is_first_match(ir_device_table(), vid, pid, i) && copies_device(
                                led.profile_view(),
                                ir_device_table()[i],
                            )
                    } else {
                        exists|p: Option<IrProfile>|
                            probe.ensures((vid, pid), p) && match p {
                                None => r is None,
                                Some(prof) => r matches Some(led) && led.profile_view() == prof,
                            }
                    },
                },
            },
    {
        let (vid, pid) = match usb_ids_of(modalias) {
            Some(ids) => ids,
            None => {
                return None;
            },
        };
        let profile = match find_device(vid, pid) {
            Some(dev) => IrProfile::from_static(dev),
            None => match probe(vid, pid) {
                Some(p) => p,
                None => {
                    return None;
                },
            },
        };
        Some(IrLed { node: String::from_str(node), profile })
    }

    pub fn node(&self) -> (r: &str)
        ensures
            r@ == self.node_view(),
    {
        self.node.as_str()
    }

    pub fn device_name(&self) -> (r: &str)
        ensures
            r@ == self.profile_view().name@,
    {
        self.profile.name.as_str()
    }

    pub fn profile(&self) -> (r: &IrProfile)
        ensures
            *r == self.profile_view(),
    {
        &self.profile
    }

    /// The control steps that switch the emitter on (`on`) or off, issued in
    /// order; nothing is issued when the sequence is empty.
    pub fn set(&self, on: bool) -> (r: &Vec<RuntimeControl>)
        ensures
            *r == (if on {
                self.profile_view().on_sequence
            } else {
                self.profile_view().off_sequence
            }),
    {
        if on {
            &self.profile.on_sequence
        } else {
            &self.profile.off_sequence
        }
    }

    /// The run that issues, in order, the steps switching the emitter on
    /// (`on`) or off. A sequence without steps ends at once, successfully,
    /// without the node being opened; each step is sent with its control's
    /// query code.
    pub fn start(&self, on: bool) -> (r: SequenceRun)
        ensures
            r.wf(),
            r.issued == 0 && r.failure is None,
            r.total == (if on {
                self.profile_view().on_sequence@.len()
            } else {
                self.profile_view().off_sequence@.len()
            }),
    {
        SequenceRun::new(self.set(on).len())
    }
}

// ---------------------------------------------------------------------------
// The probe cache
// ---------------------------------------------------------------------------

/// What the emitter lookup does for a camera missing from the table.
#[derive(Clone, Copy, Debug, PartialEq, Eq, Structural)]
pub enum ProbePlan {
    /// An earlier outcome is recorded for the node: use it.
    Cached,
    /// An IPU6 camera: it is never probed, and is recorded as having no
    /// face-authentication profile.
    Skip,
    /// Probe the node, then record the outcome.
    Probe,
}

pub open spec fn cache_view(v: Seq<(String, Option<IrProfile>)>) -> Seq<(Seq<char>, Option<IrProfile>)> {
    v.map_values(|p: (String, Option<IrProfile>)| (p.0@, p.1))
}

/// The outcome of probing each V4L2 node, so that a node is probed once.
pub struct ProbeCache {
    entries: Vec<(String, Option<IrProfile>)>,
}

impl View for ProbeCache {
    type V = Seq<(Seq<char>, Option<IrProfile>)>;

    closed spec fn view(&self) -> Self::V {
        cache_view(self.entries@)
    }
}

impl ProbeCache {
    #[verifier::type_invariant]
    spec fn inv(&self) -> bool {
        keys_distinct(self@)
    }

    pub fn new() -> (r: Self)
        ensures
            r@ == Seq::<(Seq<char>, Option<IrProfile>)>::empty(),
    {
        let r = ProbeCache { entries: Vec::new() };
        assert(r@ =~= Seq::<(Seq<char>, Option<IrProfile>)>::empty());
        r
    }

    /// The recorded outcome for a node, if any.
    pub fn get(&self, node: &str) -> (r: Option<&Option<IrProfile>>)
        ensures
            match r {
                Some(p) => has_key(self@, node@) && *p == self@[key_pos(self@, node@)].1,
                None => !has_key(self@, node@),
            },
    {
        proof {
            use_type_invariant(self);
        }
        match position(&self.entries, node) {
            Some(i) => {
                proof {
                    lemma_key_pos(self@, node@, i as int);
                }
                Some(&self.entries[i].1)
            },
            None => {
                assert(!has_key(self@, node@)) by {
                    if has_key(self@, node@) {
                        let j = choose|j: int| 0 <= j < self@.len() && (#[trigger] self@[j]).0 == node@;
                        assert(self.entries@[j].0@ == self@[j].0);
                    }
                }
                None
            },
        }
    }

    /// Decides what to do for a node missing from the table, given its bus:
    /// use a recorded outcome; never probe an IPU6 camera (recording that it
    /// has no profile); otherwise probe it.
    pub fn plan(&mut self, node: &str, bus: CameraBus) -> (r: ProbePlan)
        ensures
            if has_key(old(self)@, node@) {
                r == ProbePlan::Cached && final(self)@ == old(self)@
            } else if bus == CameraBus::Ipu6 {
                r == ProbePlan::Skip && final(self)@ == old(self)@.push((node@, None::<IrProfile>))
            } else {
                r == ProbePlan::Probe && final(self)@ == old(self)@
            },
            r == ProbePlan::Probe ==> bus != CameraBus::Ipu6,
            r != ProbePlan::Probe ==> has_key(final(self)@, node@),
    {
        proof {
            use_type_invariant(&*self);
        }
        let ghost v = self@;
        match position(&self.entries, node) {
            Some(i) => {
                proof {
                    lemma_key_pos(v, node@, i as int);
                }
                ProbePlan::Cached
            },
            None => {
                assert(!has_key(v, node@)) by {
                    if has_key(v, node@) {
                        let j = choose|j: int| 0 <= j < v.len() && (#[trigger] v[j]).0 == node@;
                        assert(self.entries@[j].0@ == v[j].0);
                    }
                }
                if bus == CameraBus::Ipu6 {
                    let mut entries = Vec::new();
                    std::mem::swap(&mut entries, &mut self.entries);
                    entries.push((owned(node), None));
                    proof {
                        assert(cache_view(entries@) =~= v.push((node@, None::<IrProfile>)));
                        lemma_push_key(v, (node@, None::<IrProfile>));
                        assert(v.push((node@, None::<IrProfile>))[v.len() as int].0 == node@);
                    }
                    self.entries = entries;
                    ProbePlan::Skip
                } else {
                    ProbePlan::Probe
                }
            },
        }
    }

    /// Records the outcome of probing a node: the profile found, or none.
    /// A probe that failed records nothing, so the node is probed again.
    pub fn record(&mut self, node: &str, outcome: Result<Option<IrProfile>, String>)
        ensures
            match outcome {
                Ok(p) => final(self)@ == if has_key(old(self)@, node@) {
                    old(self)@.update(key_pos(old(self)@, node@), (node@, p))
                } else {
                    old(self)@.push((node@, p))
                },
                Err(_) => final(self)@ == old(self)@,
            },
    {
        proof {
            use_type_invariant(&*self);
        }
        let p = match outcome {
            Ok(p) => p,
            Err(_) => {
                return;
            },
        };
        let ghost v = self@;
        let ghost pv = p;
        let mut entries = Vec::new();
        std::mem::swap(&mut entries, &mut self.entries);
        match position(&entries, node) {
            Some(i) => {
                proof {
                    lemma_key_pos(v, node@, i as int);
                    assert forall|j: int| 0 <= j < v.len() && j != i implies (#[trigger] v[j]).0 != node@ by {
                        assert(v[j].0 != v[i as int].0);
                    }
                    lemma_update_key(v, i as int, (node@, pv));
                }
                entries.remove(i);
                entries.insert(i, (owned(node), p));
                assert(cache_view(entries@) =~= v.update(i as int, (node@, pv)));
            },
            None => {
                assert(!has_key(v, node@)) by {
                    if has_key(v, node@) {
                        let j = choose|j: int| 0 <= j < v.len() && (#[trigger] v[j]).0 == node@;
                        assert(entries@[j].0@ == v[j].0);
                    }
                }
                proof {
                    lemma_push_key(v, (node@, pv));
                }
                entries.push((owned(node), p));
                assert(cache_view(entries@) =~= v.push((node@, pv)));
            },
        }
        self.entries = entries;
    }
}

// ---------------------------------------------------------------------------
// Issuing a control sequence
// ---------------------------------------------------------------------------

/// Where the issuing of a control sequence stands: its steps are issued in
/// order, and the first failure stops it.
pub struct SequenceRun {
    pub total: usize,
    pub issued: usize,
    pub failure: Option<String>,
}

impl SequenceRun {
    pub open spec fn wf(&self) -> bool {
        self.issued <= self.total
    }

    /// A run of a sequence of `total` steps, none issued yet.
    pub fn new(total: usize) -> (r: Self)
        ensures
            r.wf(),
            r.total == total && r.issued == 0 && r.failure is None,
    {
        SequenceRun { total, issued: 0, failure: None }
    }

    /// The position of the next step to issue; none once every step has
    /// been issued or one has failed.
    pub fn next_step(&self) -> (r: Option<usize>)
        ensures
            r == (if self.failure is None && self.issued < self.total {
                Some(self.issued)
            } else {
                None::<usize>
            }),
    {
        if self.failure.is_none() && self.issued < self.total {
            Some(self.issued)
        } else {
            None
        }
    }

    /// Records the outcome of issuing the next step.
    pub fn report(&mut self, outcome: Result<(), String>)
        requires
            old(self).wf(),
            old(self).failure is None,
            old(self).issued < old(self).total,
        ensures
            final(self).wf(),
            final(self).total == old(self).total,
            match outcome {
                Ok(_) => final(self).issued == old(self).issued + 1 && final(self).failure is None,
                Err(e) => final(self).issued == old(self).issued && final(self).failure == Some(e),
            },
    {
        match outcome {
            Ok(()) => {
                self.issued = self.issued + 1;
            },
            Err(e) => {
                self.failure = Some(e);
            },
        }
    }

    /// The outcome of a run that has stopped: success only when every step
    /// was issued, else the first failure.
    pub fn outcome(self) -> (r: Result<(), String>)
        requires
            self.wf(),
            self.failure is Some || self.issued == self.total,
        ensures
            match self.failure {
                None => r is Ok && self.issued == self.total,
                Some(e) => r == Err::<(), String>(e),
            },
    {
        match self.failure {
            None => Ok(()),
            Some(e) => Err(e),
        }
    }
}

} // verus!
