//! Known IR-emitter camera profiles and sysfs identification of V4L2 nodes.

use vstd::prelude::*;
use crate::text::{
    chars_eq, chars_of, contains, contains_chars, has_prefix, hex_digit_value, hex_value,
    is_hex_digit, slice_vec, starts_with, string_of, trim, trim_vec,
};

verus! {

/// The UVC extension-unit query that a control step issues.
#[derive(Clone, Copy, Debug, PartialEq, Eq, Structural)]
pub enum IrQuery {
    SetCur,
    GetCur,
}

/// One UVC extension-unit control write or read.
#[derive(Clone, Copy, Debug, PartialEq, Eq)]
pub struct IrControl {
    pub unit: u8,
    pub selector: u8,
    pub query: IrQuery,
    pub payload: &'static [u8],
}

/// A researched camera: the control sequences that switch its IR emitter.
#[derive(Debug)]
pub struct IrDevice {
    pub vid: u16,
    pub pid: u16,
    pub name: &'static str,
    pub on_sequence: &'static [IrControl],
    pub off_sequence: &'static [IrControl],
    pub source: &'static str,
}

/// The bus a V4L2 node's driver belongs to.
#[derive(Clone, Copy, Debug, PartialEq, Eq, Structural)]
pub enum CameraBus {
    Uvc,
    Ipu6,
    Other,
}

/// The researched IR-emitter profiles shipped with the library. Their data
/// is generated from a research table kept outside these sources; none is
/// shipped here, so cameras are found by the face-authentication probe.
pub open spec fn ir_device_table() -> Seq<IrDevice> {
    Seq::empty()
}

/// The table of researched IR-emitter profiles shipped with the library.
pub fn ir_devices() -> (r: &'static [IrDevice])
    ensures
        r@ == ir_device_table(),
{
    &[]
}

/// `devices[i]` is the first entry with the given USB ids.
pub open spec fn is_first_match(devices: Seq<IrDevice>, vid: u16, pid: u16, i: int) -> bool {
    &&& 0 <= i < devices.len()
    &&& devices[i].vid == vid && devices[i].pid == pid
    &&& forall|k: int| 0 <= k < i ==> !(devices[k].vid == vid && devices[k].pid == pid)
}

pub open spec fn has_match(devices: Seq<IrDevice>, vid: u16, pid: u16) -> bool {
    exists|i: int| 0 <= i < devices.len() && devices[i].vid == vid && devices[i].pid == pid
}

/// The first profile in `devices` for `vid:pid`.
pub fn find_in(devices: &[IrDevice], vid: u16, pid: u16) -> (r: Option<&IrDevice>)
    ensures
        r is Some <==> has_match(devices@, vid, pid),
        r matches Some(d) ==> exists|i: int|
            is_first_match(devices@, vid, pid, i) && *d == devices@[i],
{
    let mut i: usize = 0;
    while i < devices.len()
        invariant
            i <= devices.len(),
            forall|k: int| 0 <= k < i ==> !(devices@[k].vid == vid && devices@[k].pid == pid),
        decreases devices.len() - i,
    {
        if devices[i].vid == vid && devices[i].pid == pid {
            assert(is_first_match(devices@, vid, pid, i as int));
            return Some(&devices[i]);
        }
        i = i + 1;
    }
    None
}

/// The shipped profile for `vid:pid`, if the table has one.
pub fn find_device(vid: u16, pid: u16) -> (r: Option<&'static IrDevice>)
    ensures
        r is Some <==> has_match(ir_device_table(), vid, pid),
        r matches Some(d) ==> exists|i: int|
            is_first_match(ir_device_table(), vid, pid, i) && *d == ir_device_table()[i],
{
    find_in(ir_devices(), vid, pid)
}

// ---------------------------------------------------------------------------
// modalias
// ---------------------------------------------------------------------------

/// `u16::from_str_radix(d, 16)` for a four-character field: four hex digits,
/// or a `+` sign followed by three.
pub open spec fn hex4(d: Seq<char>) -> Option<u16> {
    if d.len() != 4 {
        None
    } else if is_hex_digit(d[0]) && is_hex_digit(d[1]) && is_hex_digit(d[2]) && is_hex_digit(
        d[3],
    ) {
        Some((4096 * hex_value(d[0]) + 256 * hex_value(d[1]) + 16 * hex_value(d[2]) + hex_value(
            d[3],
        )) as u16)
    } else if d[0] == '+' && is_hex_digit(d[1]) && is_hex_digit(d[2]) && is_hex_digit(d[3]) {
        Some((256 * hex_value(d[1]) + 16 * hex_value(d[2]) + hex_value(d[3])) as u16)
    } else {
        None
    }
}

/// Vendor and product ids of a `usb:vVVVVpPPPP...` modalias.
pub open spec fn modalias_ids(m: Seq<char>) -> Option<(u16, u16)> {
    let t = trim(m);
    if !starts_with(t, "usb:v"@) || t.len() < 14 {
        None
    } else {
        let u = t.subrange(5, t.len() as int);
        let w = u.subrange(5, u.len() as int);
        match (hex4(u.subrange(0, 4)), hex4(w.subrange(0, 4))) {
            (Some(vid), Some(pid)) => if u[4] == 'p' {
                Some((vid, pid))
            } else {
                None
            },
            _ => None,
        }
    }
}

fn hex4_exec(s: &[char], at: usize) -> (r: Option<u16>)
    requires
        at + 4 <= s.len(),
    ensures
        r == hex4(s@.subrange(at as int, at + 4)),
{
    let ghost d = s@.subrange(at as int, at + 4);
    assert(d[0] == s@[at as int] && d[1] == s@[at + 1] && d[2] == s@[at + 2] && d[3] == s@[at
        + 3]);
    let h1 = hex_digit_value(s[at + 1]);
    let h2 = hex_digit_value(s[at + 2]);
    let h3 = hex_digit_value(s[at + 3]);
    match (h1, h2, h3) {
        (Some(b), Some(c), Some(e)) => {
            let low = (b as u16) * 256 + (c as u16) * 16 + (e as u16);
            match hex_digit_value(s[at]) {
                Some(a) => {
                    let v = (a as u16) * 4096 + low;
                    Some(v)
                },
                None => if s[at] == '+' {
                    Some(low)
                } else {
                    None
                },
            }
        },
        _ => None,
    }
}

/// USB vendor and product ids from the text of a sysfs `modalias` file.
pub fn parse_modalias(modalias: &str) -> (r: Option<(u16, u16)>)
    ensures
        r == modalias_ids(modalias@),
{
    let all = chars_of(modalias);
    let t = trim_vec(&all);
    let prefix = chars_of("usb:v");
    proof {
        reveal_strlit("usb:v");
    }
    if !has_prefix(&t, &prefix) || t.len() < 14 {
        return None;
    }
    let ghost u = t@.subrange(5, t@.len() as int);
    let ghost w = u.subrange(5, u.len() as int);
    assert(u.subrange(0, 4) == t@.subrange(5, 9));
    assert(w.subrange(0, 4) == t@.subrange(10, 14));
    let vid = hex4_exec(&t, 5);
    let pid = hex4_exec(&t, 10);
    match (vid, pid) {
        (Some(v), Some(p)) => if t[9] == 'p' {
            Some((v, p))
        } else {
            None
        },
        _ => None,
    }
}

/// USB ids of a V4L2 node, given the text of its sysfs `modalias` file
/// (`None` when that file could not be read).
pub fn usb_ids_of(modalias: Option<&str>) -> (r: Option<(u16, u16)>)
    ensures
        r == match modalias {
            Some(m) => modalias_ids(m@),
            None => None,
        },
{
    match modalias {
        Some(m) => parse_modalias(m),
        None => None,
    }
}

// ---------------------------------------------------------------------------
// Drivers and sysfs paths
// ---------------------------------------------------------------------------

pub open spec fn driver_bus(driver: Seq<char>) -> CameraBus {
    if contains(driver, "ipu6"@) || contains(driver, "intel_ipu"@) {
        CameraBus::Ipu6
    } else if driver == "uvcvideo"@ {
        CameraBus::Uvc
    } else {
        CameraBus::Other
    }
}

/// Classifies the bus of a V4L2 node from its driver's name.
pub fn bus_of_driver(driver: &str) -> (r: CameraBus)
    ensures
        r == driver_bus(driver@),
{
    let d = chars_of(driver);
    let ipu6 = chars_of("ipu6");
    let intel = chars_of("intel_ipu");
    let uvc = chars_of("uvcvideo");
    if contains_chars(&d, &ipu6) || contains_chars(&d, &intel) {
        CameraBus::Ipu6
    } else if chars_eq(&d, &uvc) {
        CameraBus::Uvc
    } else {
        CameraBus::Other
    }
}

/// The bus of a V4L2 node, given the base name of its sysfs `driver` link
/// (`None` when the link could not be read).
pub fn camera_bus(driver: Option<&str>) -> (r: CameraBus)
    ensures
        r == match driver {
            Some(d) => driver_bus(d@),
            None => CameraBus::Other,
        },
{
    match driver {
        Some(d) => bus_of_driver(d),
        None => CameraBus::Other,
    }
}

/// Index of the last `/` in `s[..end]`, or `-1`.
pub open spec fn last_slash(s: Seq<char>, end: int) -> int
    decreases end,
{
    if end <= 0 {
        -1
    } else if s[end - 1] == '/' {
        end - 1
    } else {
        last_slash(s, end - 1)
    }
}

/// `Path::file_name`: the final normal component of a `/`-separated path,
/// skipping trailing separators and `.` components; none for `..`, the root
/// or an empty path.
pub open spec fn file_name(s: Seq<char>) -> Option<Seq<char>>
    decreases s.len(),
{
    if s.len() == 0 {
        None
    } else if s.last() == '/' {
        file_name(s.drop_last())
    } else {
        let k = last_slash(s, s.len() as int);
        proof {
            lemma_last_slash_bounds(s, s.len() as int);
        }
        let seg = s.subrange(k + 1, s.len() as int);
        if seg == "."@ {
            if k < 0 {
                None
            } else {
                file_name(s.subrange(0, k))
            }
        } else if seg == ".."@ {
            None
        } else {
            Some(seg)
        }
    }
}

pub proof fn lemma_last_slash_bounds(s: Seq<char>, end: int)
    requires
        0 <= end <= s.len(),
    ensures
        -1 <= last_slash(s, end) < end,
        last_slash(s, end) >= 0 ==> s[last_slash(s, end)] == '/',
    decreases end,
{
    if end > 0 {
        lemma_last_slash_bounds(s, end - 1);
    }
}

fn last_slash_exec(s: &[char], end: usize) -> (r: Option<usize>)
    requires
        end <= s.len(),
    ensures
        r matches Some(k) ==> k < end && k as int == last_slash(s@, end as int),
        r is None ==> last_slash(s@, end as int) == -1,
{
    let mut e = end;
    while e > 0 && s[e - 1] != '/'
        invariant
            e <= end <= s.len(),
            last_slash(s@, end as int) == last_slash(s@, e as int),
        decreases e,
    {
        e = e - 1;
    }
    if e == 0 {
        None
    } else {
        Some(e - 1)
    }
}

/// The final component of a path, as `Path::file_name` computes it.
pub fn path_file_name(path: &str) -> (r: Option<String>)
    ensures
        r matches Some(n) ==> file_name(path@) == Some(n@),
        r is None ==> file_name(path@) is None,
{
    let s = chars_of(path);
    let dot = chars_of(".");
    let dotdot = chars_of("..");
    proof {
        reveal_strlit(".");
        reveal_strlit("..");
    }
    let mut end = s.len();
    assert(s@.subrange(0, end as int) == s@);
    loop
        invariant
            end <= s.len(),
            s@ == path@,
            file_name(s@) == file_name(s@.subrange(0, end as int)),
            dot@ == "."@,
            dotdot@ == ".."@,
        decreases end,
    {
        let ghost cur = s@.subrange(0, end as int);
        if end == 0 {
            assert(cur.len() == 0);
            return None;
        }
        if s[end - 1] == '/' {
            assert(cur.drop_last() == s@.subrange(0, end - 1));
            end = end - 1;
        } else {
            let k = last_slash_exec(&s, end);
            let start = match k {
                Some(k) => k + 1,
                None => 0,
            };
            proof {
                lemma_last_slash_prefix(s@, end as int, end as int);
                lemma_last_slash_bounds(s@, end as int);
            }
            let seg = slice_vec(&s, start, end);
            assert(cur.last() != '/');
            assert(seg@ == cur.subrange(last_slash(cur, cur.len() as int) + 1, cur.len() as int));
            if chars_eq(&seg, &dot) {
                match k {
                    None => {
                        return None;
                    },
                    Some(k) => {
                        assert(cur.subrange(0, k as int) == s@.subrange(0, k as int));
                        end = k;
                    },
                }
            } else if chars_eq(&seg, &dotdot) {
                return None;
            } else {
                return Some(string_of(&seg));
            }
        }
    }
}

/// `last_slash` only looks at the first `end` characters.
proof fn lemma_last_slash_prefix(s: Seq<char>, end: int, e: int)
    requires
        0 <= e <= end <= s.len(),
    ensures
        last_slash(s.subrange(0, end), e) == last_slash(s, e),
    decreases e,
{
    if e > 0 {
        lemma_last_slash_prefix(s, end, e - 1);
    }
}

/// The sysfs device directory of a V4L2 node such as `/dev/video2`.
pub fn sysfs_device_dir(node: &str) -> (r: Option<String>)
    ensures
        r matches Some(d) ==> exists|n: Seq<char>|
            file_name(node@) == Some(n) && d@ == "/sys/class/video4linux/"@ + n + "/device"@,
        r is None ==> file_name(node@) is None,
{
    match path_file_name(node) {
        None => None,
        Some(name) => {
            let mut out = String::from_str("/sys/class/video4linux/");
            out.append(name.as_str());
            out.append("/device");
            Some(out)
        },
    }
}

/// The driver's name from the target of a sysfs `driver` symlink.
pub fn driver_basename(link_target: &str) -> (r: Option<String>)
    ensures
        r matches Some(n) ==> file_name(link_target@) == Some(n@),
        r is None ==> file_name(link_target@) is None,
{
    path_file_name(link_target)
}

} // verus!
