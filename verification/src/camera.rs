//! Camera sources: which configured source a stream uses, the V4L2 node behind
//! it, the GStreamer pipeline that opens it, and the classification of the
//! devices PipeWire advertises.

use vstd::prelude::*;
use crate::config::{CameraConfig, DEFAULT_RGB_CAMERA};
use crate::text::{
    all_digits, all_digits_exec, chars_eq, chars_of, concat2, concat3, debug_quote, debug_text,
    decimal, decimal_string, digit, find, is_digit, map_upper, occurs_at, owned, slice_vec,
    starts_with, string_of, trim, trim_vec, upper_all, has_prefix, contains,
};

verus! {

/// The kind of a configured camera stream.
#[derive(Debug, Clone, PartialEq, Eq)]
pub enum CameraKind {
    Rgb { source: String },
    Ir { source: String, node: String },
}

/// The sources the daemon streams from; empty when not configured.
#[derive(Debug, Clone)]
pub struct ConfiguredCameraSources {
    pub rgb: String,
    pub ir: String,
    pub ir_node: String,
}

pub open spec fn rgb_source_of(c: CameraConfig) -> Option<Seq<char>> {
    let t = trim(c.rgb@);
    if t.len() == 0 {
        None
    } else {
        Some(t)
    }
}

pub open spec fn ir_source_of(c: CameraConfig) -> Option<Seq<char>> {
    let t = trim(c.ir@);
    if t.len() == 0 {
        None
    } else {
        Some(t)
    }
}

/// The configured RGB source, trimmed; none when blank.
pub fn resolve_rgb_source(cameras: &CameraConfig) -> (r: Option<String>)
    ensures
        r matches Some(s) ==> rgb_source_of(*cameras) == Some(s@),
        r is None ==> rgb_source_of(*cameras) is None,
{
    let t = trim_vec(&chars_of(cameras.rgb.as_str()));
    if t.len() == 0 {
        None
    } else {
        Some(string_of(&t))
    }
}

/// The V4L2 node of an IR source: the node it names, or for a PipeWire
/// source the node `resolve` finds for its target (empty when none).
pub open spec fn ir_node_matches<F: Fn(&str) -> Option<String>>(resolve: F, source: Seq<char>, node: Seq<char>) -> bool {
    match node_resolution(source) {
        NodeResolutionView::Node(n) => node == n,
        NodeResolutionView::Unknown => node.len() == 0,
        NodeResolutionView::PipewireTarget(t) => exists|a: &str, n: Option<String>|
            a@ == t && resolve.ensures((a,), n) && node == match n {
                Some(x) => x@,
                None => Seq::<char>::empty(),
            },
    }
}

/// The V4L2 node of a source; `resolve` is asked only for the target of a
/// PipeWire source.
fn node_of_source<F: Fn(&str) -> Option<String>>(source: &str, resolve: F) -> (r: String)
    requires
        forall|s: &str| resolve.requires((s,)),
    ensures
        ir_node_matches(resolve, source@, r@),
{
    match resolve_node(source) {
        NodeResolution::Node(n) => n,
        NodeResolution::Unknown => String::new(),
        NodeResolution::PipewireTarget(t) => {
            let n = resolve(t.as_str());
            match n {
                Some(x) => x,
                None => String::new(),
            }
        },
    }
}

/// The configured IR source, trimmed, with its V4L2 node (empty when none is
/// known); none when the IR source is blank. `resolve` maps a PipeWire target
/// name to its node.
pub fn resolve_ir_source<F: Fn(&str) -> Option<String>>(cameras: &CameraConfig, resolve: F) -> (r:
    Option<(String, String)>)
    requires
        forall|s: &str| resolve.requires((s,)),
    ensures
        r is None <==> ir_source_of(*cameras) is None,
        r matches Some((src, node)) ==> ir_source_of(*cameras) == Some(src@) && ir_node_matches(resolve, src@, node@),
{
    let t = trim_vec(&chars_of(cameras.ir.as_str()));
    if t.len() == 0 {
        None
    } else {
        let src = string_of(&t);
        let node = node_of_source(src.as_str(), resolve);
        Some((src, node))
    }
}

/// The RGB source, the IR source and the IR node the daemon streams from.
pub fn resolve_configured_sources<F: Fn(&str) -> Option<String>>(
    cameras: &CameraConfig,
    resolve: F,
) -> (r: ConfiguredCameraSources)
    requires
        forall|s: &str| resolve.requires((s,)),
    ensures
        r.rgb@ == match rgb_source_of(*cameras) {
            Some(s) => s,
            None => Seq::<char>::empty(),
        },
        r.ir@ == match ir_source_of(*cameras) {
            Some(s) => s,
            None => Seq::<char>::empty(),
        },
        ir_source_of(*cameras) is None ==> r.ir_node@.len() == 0,
        ir_source_of(*cameras) is Some ==> ir_node_matches(resolve, r.ir@, r.ir_node@),
{
    let rgb = match resolve_rgb_source(cameras) {
        Some(s) => s,
        None => String::new(),
    };
    let (ir, ir_node) = match resolve_ir_source(cameras, resolve) {
        Some(p) => p,
        None => (String::new(), String::new()),
    };
    ConfiguredCameraSources { rgb, ir, ir_node }
}

/// The source a single-stream capture opens and whether it is the IR camera:
/// RGB when configured, else IR, else the default camera.
pub fn preferred_capture_source(cameras: &CameraConfig) -> (r: (String, bool))
    ensures
        match (rgb_source_of(*cameras), ir_source_of(*cameras)) {
            (Some(rgb), _) => r.0@ == rgb && !r.1,
            (None, Some(ir)) => r.0@ == ir && r.1,
            (None, None) => r.0@ == DEFAULT_RGB_CAMERA@ && !r.1,
        },
{
    if let Some(rgb) = resolve_rgb_source(cameras) {
        (rgb, false)
    } else {
        let t = trim_vec(&chars_of(cameras.ir.as_str()));
        if t.len() > 0 {
            (string_of(&t), true)
        } else {
            (owned(DEFAULT_RGB_CAMERA), false)
        }
    }
}

/// The single source to open: the IR camera when configured, else RGB, else
/// the default camera.
pub fn resolve_source<F: Fn(&str) -> Option<String>>(cameras: &CameraConfig, resolve: F) -> (r: (
    String,
    CameraKind,
))
    requires
        forall|s: &str| resolve.requires((s,)),
    ensures
        match ir_source_of(*cameras) {
            Some(ir) => r.0@ == ir && (r.1 matches CameraKind::Ir { source, node } && source@ == ir
                && ir_node_matches(resolve, ir, node@)),
            None => {
                let rgb = match rgb_source_of(*cameras) {
                    Some(s) => s,
                    None => DEFAULT_RGB_CAMERA@,
                };
                r.0@ == rgb && (r.1 matches CameraKind::Rgb { source } && source@ == rgb)
            },
        },
{
    if let Some((ir_source, ir_node)) = resolve_ir_source(cameras, resolve) {
        let src = ir_source.clone();
        (src, CameraKind::Ir { source: ir_source, node: ir_node })
    } else {
        let rgb = match resolve_rgb_source(cameras) {
            Some(s) => s,
            None => owned(DEFAULT_RGB_CAMERA),
        };
        (rgb.clone(), CameraKind::Rgb { source: rgb })
    }
}

// ---------------------------------------------------------------------------
// V4L2 nodes
// ---------------------------------------------------------------------------

/// Where the V4L2 node of a source comes from.
#[derive(Debug, Clone, PartialEq, Eq)]
pub enum NodeResolution {
    /// The source names no node.
    Unknown,
    /// The source names this node directly.
    Node(String),
    /// The node is that of the PipeWire object with this target name.
    PipewireTarget(String),
}

pub const PIPEWIRE_TARGET_PREFIX: &'static str = "pipewiresrc target-object=";

/// The first position of `p` in `s`.
pub open spec fn first_occurrence(s: Seq<char>, p: Seq<char>) -> int {
    choose|i: int| occurs_at(s, p, i) && forall|k: int| 0 <= k < i ==> !occurs_at(s, p, k)
}

/// The length of the run of ASCII digits that starts `s`.
pub open spec fn digit_run(s: Seq<char>) -> int {
    if forall|i: int| 0 <= i < s.len() ==> is_digit(#[trigger] s[i]) {
        s.len() as int
    } else {
        choose|i: int| 0 <= i < s.len() && !is_digit(s[i]) && forall|k: int| 0 <= k < i ==> is_digit(#[trigger] s[k])
    }
}

/// `s` without leading and trailing quote characters (`"` or `'`).
pub open spec fn trim_quotes(s: Seq<char>) -> Seq<char>
    decreases s.len(),
{
    if s.len() > 0 && (s[0] == '"' || s[0] == '\'') {
        trim_quotes(s.drop_first())
    } else if s.len() > 0 && (s.last() == '"' || s.last() == '\'') {
        trim_quotes(s.drop_last())
    } else {
        s
    }
}

pub open spec fn node_resolution(source: Seq<char>) -> NodeResolutionView {
    let t = trim(source);
    if t.len() == 0 {
        NodeResolutionView::Unknown
    } else if contains(t, "/dev/video"@) {
        let pos = first_occurrence(t, "/dev/video"@);
        let tail = t.subrange(pos + 10, t.len() as int);
        NodeResolutionView::Node("/dev/video"@ + tail.subrange(0, digit_run(tail)))
    } else if starts_with(t, PIPEWIRE_TARGET_PREFIX@) {
        NodeResolutionView::PipewireTarget(
            trim_quotes(trim(t.subrange(PIPEWIRE_TARGET_PREFIX@.len() as int, t.len() as int))),
        )
    } else {
        NodeResolutionView::Unknown
    }
}

/// `NodeResolution` with its strings taken as character sequences.
pub enum NodeResolutionView {
    Unknown,
    Node(Seq<char>),
    PipewireTarget(Seq<char>),
}

impl NodeResolution {
    pub open spec fn view(&self) -> NodeResolutionView {
        match self {
            NodeResolution::Unknown => NodeResolutionView::Unknown,
            NodeResolution::Node(n) => NodeResolutionView::Node(n@),
            NodeResolution::PipewireTarget(t) => NodeResolutionView::PipewireTarget(t@),
        }
    }
}

fn trim_quotes_bounds(s: &[char]) -> (r: (usize, usize))
    ensures
        r.0 <= r.1 <= s.len(),
        trim_quotes(s@) == s@.subrange(r.0 as int, r.1 as int),
{
    let mut a: usize = 0;
    let mut b: usize = s.len();
    assert(s@.subrange(0, s.len() as int) == s@);
    loop
        invariant
            a <= b <= s.len(),
            trim_quotes(s@) == trim_quotes(s@.subrange(a as int, b as int)),
        decreases b - a,
    {
        let ghost cur = s@.subrange(a as int, b as int);
        if a < b && (s[a] == '"' || s[a] == '\'') {
            assert(cur.drop_first() == s@.subrange(a + 1, b as int));
            a = a + 1;
        } else if a < b && (s[b - 1] == '"' || s[b - 1] == '\'') {
            assert(cur.drop_last() == s@.subrange(a as int, b - 1));
            b = b - 1;
        } else {
            return (a, b);
        }
    }
}

/// The V4L2 node a source names, or the PipeWire target whose node it uses.
pub fn resolve_node(source: &str) -> (r: NodeResolution)
    ensures
        r@ == node_resolution(source@),
{
    let t = trim_vec(&chars_of(source));
    if t.len() == 0 {
        return NodeResolution::Unknown;
    }
    let dev = chars_of("/dev/video");
    proof {
        reveal_strlit("/dev/video");
    }
    match find(&t, &dev) {
        Some(pos) => {
            let tail = slice_vec(&t, pos + 10, t.len());
            let mut end: usize = 0;
            while end < tail.len() && digit(tail[end])
                invariant
                    end <= tail.len(),
                    forall|k: int| 0 <= k < end ==> is_digit(#[trigger] tail@[k]),
                decreases tail.len() - end,
            {
                end = end + 1;
            }
            proof {
                let tv = tail@;
                if forall|i: int| 0 <= i < tv.len() ==> is_digit(#[trigger] tv[i]) {
                    assert(end == tv.len());
                } else {
                    let j = choose|i: int| 0 <= i < tv.len() && !is_digit(tv[i]) && forall|k: int|
                        0 <= k < i ==> is_digit(#[trigger] tv[k]);
                    assert(j == end) by {
                        if j < end {
                            assert(is_digit(tv[j]));
                        } else if j > end {
                            assert(is_digit(tv[end as int]));
                        }
                    }
                }
                let fo = first_occurrence(t@, "/dev/video"@);
                assert(fo == pos) by {
                    if fo < pos {
                    } else if fo > pos {
                    }
                }
            }
            let digits = slice_vec(&tail, 0, end);
            let mut node = owned("/dev/video");
            let ds = string_of(&digits);
            node.append(ds.as_str());
            NodeResolution::Node(node)
        },
        None => {
            let prefix = chars_of(PIPEWIRE_TARGET_PREFIX);
            if has_prefix(&t, &prefix) {
                let rest = slice_vec(&t, prefix.len(), t.len());
                let rt = trim_vec(&rest);
                let (a, b) = trim_quotes_bounds(&rt);
                NodeResolution::PipewireTarget(string_of(&slice_vec(&rt, a, b)))
            } else {
                NodeResolution::Unknown
            }
        },
    }
}

// ---------------------------------------------------------------------------
// PipeWire devices
// ---------------------------------------------------------------------------

/// A device property as the device monitor reports it.
#[derive(Debug, Clone)]
pub enum PropValue {
    Text(String),
    U64(u64),
    U32(u32),
    Absent,
}

pub open spec fn prop_text(v: PropValue) -> Option<Seq<char>> {
    match v {
        PropValue::Text(s) => Some(s@),
        PropValue::U64(n) => Some(decimal(n as nat)),
        PropValue::U32(n) => Some(decimal(n as nat)),
        PropValue::Absent => None,
    }
}

/// The properties of an advertised video source that the library reads.
#[derive(Debug, Clone)]
pub struct DeviceProps {
    /// Whether the property structure is a `pipewire-proplist`.
    pub is_pipewire: bool,
    pub node_name: PropValue,
    pub object_serial: PropValue,
    pub object_id: PropValue,
    pub object_path: PropValue,
    pub v4l2_path: PropValue,
    pub device_path: PropValue,
}

/// A property as text: strings as they are, integers in decimal.
pub fn string_property(v: &PropValue) -> (r: Option<String>)
    ensures
        r matches Some(s) ==> prop_text(*v) == Some(s@),
        r is None ==> prop_text(*v) is None,
{
    match v {
        PropValue::Text(s) => Some(s.clone()),
        PropValue::U64(n) => Some(decimal_string(*n)),
        PropValue::U32(n) => Some(decimal_string(*n as u64)),
        PropValue::Absent => None,
    }
}

pub open spec fn target_of(p: DeviceProps) -> Option<Seq<char>> {
    if prop_text(p.node_name) is Some {
        prop_text(p.node_name)
    } else if prop_text(p.object_serial) is Some {
        prop_text(p.object_serial)
    } else if prop_text(p.object_id) is Some {
        prop_text(p.object_id)
    } else {
        prop_text(p.object_path)
    }
}

/// The PipeWire target name of a device: its node name, else its object
/// serial, id or path.
pub fn pipewire_target(props: &DeviceProps) -> (r: Option<String>)
    ensures
        r matches Some(s) ==> target_of(*props) == Some(s@),
        r is None ==> target_of(*props) is None,
{
    if let Some(s) = string_property(&props.node_name) {
        return Some(s);
    }
    if let Some(s) = string_property(&props.object_serial) {
        return Some(s);
    }
    if let Some(s) = string_property(&props.object_id) {
        return Some(s);
    }
    string_property(&props.object_path)
}

/// The node a device offers: its V4L2 path, else a `/dev/video*` device path.
pub open spec fn device_node(p: DeviceProps) -> Option<Seq<char>> {
    if prop_text(p.v4l2_path) is Some {
        prop_text(p.v4l2_path)
    } else {
        match prop_text(p.device_path) {
            Some(d) => if starts_with(d, "/dev/video"@) {
                Some(d)
            } else {
                None
            },
            None => None,
        }
    }
}

pub open spec fn matches_target(d: Option<DeviceProps>, target: Seq<char>) -> bool {
    d matches Some(p) && target_of(p) == Some(target) && device_node(p) is Some
}

/// The node of the first device with the given target that offers one.
pub fn node_for_target(target: &str, devices: &[Option<DeviceProps>]) -> (r: Option<String>)
    ensures
        r is None ==> forall|i: int| 0 <= i < devices@.len() ==> !matches_target(devices@[i], target@),
        r matches Some(n) ==> exists|i: int|
            0 <= i < devices@.len() && matches_target(devices@[i], target@) && (forall|k: int|
                0 <= k < i ==> !matches_target(devices@[k], target@)) && (devices@[i] matches Some(p)
                && device_node(p) == Some(n@)),
{
    let tc = chars_of(target);
    let dev = chars_of("/dev/video");
    let mut i: usize = 0;
    while i < devices.len()
        invariant
            i <= devices.len(),
            tc@ == target@,
            dev@ == "/dev/video"@,
            forall|k: int| 0 <= k < i ==> !matches_target(devices@[k], target@),
        decreases devices.len() - i,
    {
        if let Some(p) = &devices[i] {
            if let Some(t) = pipewire_target(p) {
                if chars_eq(&chars_of(t.as_str()), &tc) {
                    if let Some(path) = string_property(&p.v4l2_path) {
                        return Some(path);
                    }
                    if let Some(path) = string_property(&p.device_path) {
                        if has_prefix(&chars_of(path.as_str()), &dev) {
                            return Some(path);
                        }
                    }
                }
            }
        }
        i = i + 1;
    }
    None
}

/// One structure of a device's capabilities.
#[derive(Debug, Clone)]
pub struct CapsEntry {
    pub name: String,
    /// The `format` field, when it is a string.
    pub format: Option<String>,
    /// The `drm-format` field, when it is a string.
    pub drm_format: Option<String>,
}

/// A grey-scale pixel format, whatever its case or surrounding whitespace.
pub open spec fn mono_format(format: Seq<char>) -> bool {
    let f = map_upper(trim(format));
    starts_with(f, "GRAY"@) || starts_with(f, "GREY"@) || f == "R8"@ || f == "R16"@ || f == "Y8"@
        || f == "Y16"@
}

pub fn is_mono_format(format: &str) -> (r: bool)
    ensures
        r == mono_format(format@),
{
    let f = upper_all(&trim_vec(&chars_of(format)));
    has_prefix(&f, &chars_of("GRAY")) || has_prefix(&f, &chars_of("GREY")) || chars_eq(
        &f,
        &chars_of("R8"),
    ) || chars_eq(&f, &chars_of("R16")) || chars_eq(&f, &chars_of("Y8")) || chars_eq(
        &f,
        &chars_of("Y16"),
    )
}

/// The pixel format a raw-video structure declares (DMA-BUF formats through
/// their `drm-format`).
pub open spec fn declared_format(e: CapsEntry) -> Option<Seq<char>> {
    match e.format {
        None => None,
        Some(f) => if f@ == "DMA_DRM"@ {
            match e.drm_format {
                Some(d) => Some(d@),
                None => Some(f@),
            }
        } else {
            Some(f@)
        },
    }
}

/// A structure that shows the device produces colour.
pub open spec fn shows_color(e: CapsEntry) -> bool {
    e.name@ == "image/jpeg"@ || (e.name@ == "video/x-raw"@ && match declared_format(e) {
        None => true,
        Some(f) => !mono_format(f),
    })
}

pub open spec fn caps_color(caps: Option<Seq<CapsEntry>>) -> bool {
    match caps {
        None => true,
        Some(c) => (exists|i: int| 0 <= i < c.len() && shows_color(c[i])) || !(exists|i: int|
            0 <= i < c.len() && c[i].name@ == "video/x-raw"@),
    }
}

/// Whether a device's capabilities show a colour camera: unknown caps, JPEG,
/// or a raw format that is not grey-scale; a device with no raw video at all
/// counts as colour too.
pub fn has_color_caps(caps: &Option<Vec<CapsEntry>>) -> (r: bool)
    ensures
        r == caps_color(match caps {
            Some(c) => Some(c@),
            None => None,
        }),
{
    let c = match caps {
        None => {
            return true;
        },
        Some(c) => c,
    };
    let jpeg = chars_of("image/jpeg");
    let raw = chars_of("video/x-raw");
    let drm = chars_of("DMA_DRM");
    let mut saw_raw = false;
    let mut i: usize = 0;
    while i < c.len()
        invariant
            i <= c.len(),
            match caps {
                Some(cc) => cc@ == c@,
                None => false,
            },
            jpeg@ == "image/jpeg"@,
            raw@ == "video/x-raw"@,
            drm@ == "DMA_DRM"@,
            forall|k: int| 0 <= k < i ==> !shows_color(#[trigger] c@[k]),
            saw_raw == exists|k: int| 0 <= k < i && c@[k].name@ == "video/x-raw"@,
        decreases c.len() - i,
    {
        let e = &c[i];
        let name = chars_of(e.name.as_str());
        if chars_eq(&name, &jpeg) {
            assert(shows_color(c@[i as int]));
            return true;
        }
        if chars_eq(&name, &raw) {
            saw_raw = true;
            match &e.format {
                None => {
                    assert(shows_color(c@[i as int]));
                    return true;
                },
                Some(f) => {
                    let fmt = if chars_eq(&chars_of(f.as_str()), &drm) {
                        match &e.drm_format {
                            Some(d) => d.as_str(),
                            None => f.as_str(),
                        }
                    } else {
                        f.as_str()
                    };
                    assert(declared_format(c@[i as int]) == Some(fmt@));
                    if !is_mono_format(fmt) {
                        assert(shows_color(c@[i as int]));
                        return true;
                    }
                },
            }
        }
        i = i + 1;
    }
    !saw_raw
}

/// A video source as the device monitor advertises it.
#[derive(Debug, Clone)]
pub struct AdvertisedCamera {
    pub display_name: String,
    pub props: Option<DeviceProps>,
    pub caps: Option<Vec<CapsEntry>>,
}

pub open spec fn caps_view(c: Option<Vec<CapsEntry>>) -> Option<Seq<CapsEntry>> {
    match c {
        Some(v) => Some(v@),
        None => None,
    }
}

/// The selector entry a device contributes, if it is of the wanted kind.
pub open spec fn camera_entry(d: AdvertisedCamera, mono_only: bool) -> Option<(Seq<char>, Seq<char>)> {
    match d.props {
        None => None,
        Some(p) => {
            let color = caps_color(caps_view(d.caps));
            if !p.is_pipewire || (!mono_only && !color) || (mono_only && color) {
                None
            } else {
                match target_of(p) {
                    None => None,
                    Some(t) => Some((d.display_name@, PIPEWIRE_TARGET_PREFIX@ + t)),
                }
            }
        },
    }
}

pub open spec fn pairs_view(v: Seq<(String, String)>) -> Seq<(Seq<char>, Seq<char>)> {
    v.map_values(|p: (String, String)| (p.0@, p.1@))
}

pub open spec fn has_target(list: Seq<(Seq<char>, Seq<char>)>, t: Seq<char>) -> bool {
    exists|i: int| 0 <= i < list.len() && list[i].1 == t
}

/// The camera selector list: the default camera first (colour listing only),
/// then each wanted device whose target is not listed yet.
pub open spec fn camera_list(devices: Seq<AdvertisedCamera>, mono_only: bool) -> Seq<(Seq<char>, Seq<char>)>
    decreases devices.len(),
{
    if devices.len() == 0 {
        if mono_only {
            Seq::empty()
        } else {
            seq![("Primary Camera"@, DEFAULT_RGB_CAMERA@)]
        }
    } else {
        let prev = camera_list(devices.drop_last(), mono_only);
        match camera_entry(devices.last(), mono_only) {
            Some(e) => if has_target(prev, e.1) {
                prev
            } else {
                prev.push(e)
            },
            None => prev,
        }
    }
}

fn camera_entry_exec(d: &AdvertisedCamera, mono_only: bool) -> (r: Option<(String, String)>)
    ensures
        r matches Some(p) ==> camera_entry(*d, mono_only) == Some((p.0@, p.1@)),
        r is None ==> camera_entry(*d, mono_only) is None,
{
    match &d.props {
        None => None,
        Some(p) => {
            let color = has_color_caps(&d.caps);
            if !p.is_pipewire || (!mono_only && !color) || (mono_only && color) {
                None
            } else {
                match pipewire_target(p) {
                    None => None,
                    Some(t) => Some((d.display_name.clone(), concat2(PIPEWIRE_TARGET_PREFIX, t.as_str()))),
                }
            }
        },
    }
}

/// The cameras a selector offers, from the advertised devices: colour
/// cameras (after the default camera) or, with `mono_only`, IR cameras.
pub fn camera_choices(devices: &[AdvertisedCamera], mono_only: bool) -> (r: Vec<(String, String)>)
    ensures
        pairs_view(r@) == camera_list(devices@, mono_only),
{
    let mut out: Vec<(String, String)> = Vec::new();
    if !mono_only {
        out.push((owned("Primary Camera"), owned(DEFAULT_RGB_CAMERA)));
    }
    assert(devices@.take(0) == Seq::<AdvertisedCamera>::empty());
    assert(pairs_view(out@) =~= camera_list(devices@.take(0), mono_only));
    let mut i: usize = 0;
    while i < devices.len()
        invariant
            i <= devices.len(),
            pairs_view(out@) == camera_list(devices@.take(i as int), mono_only),
        decreases devices.len() - i,
    {
        let ghost prev = out@;
        assert(devices@.take(i + 1).drop_last() == devices@.take(i as int));
        if let Some(entry) = camera_entry_exec(&devices[i], mono_only) {
            let tgt = chars_of(entry.1.as_str());
            let mut j: usize = 0;
            let mut found = false;
            while j < out.len()
                invariant
                    j <= out.len(),
                    out@ == prev,
                    tgt@ == entry.1@,
                    found == exists|k: int| 0 <= k < j && pairs_view(out@)[k].1 == tgt@,
                decreases out.len() - j,
            {
                assert(pairs_view(out@)[j as int].1 == out@[j as int].1@);
                if chars_eq(&chars_of(out[j].1.as_str()), &tgt) {
                    found = true;
                }
                j = j + 1;
            }
            if !found {
                out.push(entry);
                assert(pairs_view(out@) =~= pairs_view(prev).push((entry.0@, entry.1@)));
            }
        }
        i = i + 1;
    }
    assert(devices@.take(devices.len() as int) == devices@);
    out
}

// ---------------------------------------------------------------------------
// Pipelines
// ---------------------------------------------------------------------------

/// The GStreamer source element for a camera source, or the message it is
/// refused with.
pub open spec fn source_element(source: Seq<char>, allow_direct_v4l2: bool) -> Result<Seq<char>, Seq<char>> {
    let s = trim(source);
    if s.len() == 0 {
        Err("camera source cannot be empty; use \"primary\" or a GStreamer source"@)
    } else if s == DEFAULT_RGB_CAMERA@ {
        Ok("pipewiresrc"@)
    } else if starts_with(s, "/dev/video"@) {
        let index = s.subrange(10, s.len() as int);
        if !allow_direct_v4l2 {
            Err("direct /dev/video* RGB camera paths are not supported; use \"primary\" or a GStreamer source"@)
        } else if index.len() == 0 || !all_digits(index) {
            Err("invalid V4L2 camera node "@ + debug_text(s) + "; expected /dev/video<number>"@)
        } else {
            Ok("v4l2src device="@ + s)
        }
    } else {
        Ok(s)
    }
}

pub open spec fn pipeline_suffix() -> Seq<char> {
    " ! video/x-raw; image/jpeg ! decodebin ! videoconvert ! videoscale ! appsink name=gaze_sink"@
}

/// The GStreamer pipeline that opens `camera_source` into the frame sink;
/// direct `/dev/videoN` nodes only when `allow_direct_v4l2` (IR cameras).
pub fn camera_pipeline(camera_source: &str, allow_direct_v4l2: bool) -> (r: Result<String, String>)
    ensures
        match source_element(camera_source@, allow_direct_v4l2) {
            Ok(e) => r matches Ok(p) && p@ == e + pipeline_suffix(),
            Err(m) => r matches Err(e) && e@ == m,
        },
{
    let s = trim_vec(&chars_of(camera_source));
    let dev = chars_of("/dev/video");
    proof {
        reveal_strlit("/dev/video");
    }
    let element = if s.len() == 0 {
        return Err(owned("camera source cannot be empty; use \"primary\" or a GStreamer source"));
    } else if chars_eq(&s, &chars_of(DEFAULT_RGB_CAMERA)) {
        owned("pipewiresrc")
    } else if has_prefix(&s, &dev) {
        let index = slice_vec(&s, 10, s.len());
        let source = string_of(&s);
        if !allow_direct_v4l2 {
            return Err(owned(
                "direct /dev/video* RGB camera paths are not supported; use \"primary\" or a GStreamer source",
            ));
        } else if index.len() == 0 || !all_digits_exec(&index) {
            let q = debug_quote(source.as_str());
            return Err(concat3("invalid V4L2 camera node ", q.as_str(), "; expected /dev/video<number>"));
        }
        concat2("v4l2src device=", source.as_str())
    } else {
        string_of(&s)
    };
    Ok(concat2(
        element.as_str(),
        " ! video/x-raw; image/jpeg ! decodebin ! videoconvert ! videoscale ! appsink name=gaze_sink",
    ))
}

/// A custom GStreamer source (non-empty, not `primary`, not a `/dev/video`
/// path) is used as given: its pipeline starts with the trimmed source text
/// itself, followed by the frame sink.
pub proof fn custom_source_law(source: Seq<char>, allow_direct_v4l2: bool)
    requires
        trim(source).len() > 0,
        trim(source) != DEFAULT_RGB_CAMERA@,
        !starts_with(trim(source), "/dev/video"@),
    ensures
        source_element(source, allow_direct_v4l2) == Ok::<Seq<char>, Seq<char>>(trim(source)),
        starts_with(trim(source) + pipeline_suffix(), trim(source)),
{
    assert((trim(source) + pipeline_suffix()).subrange(0, trim(source).len() as int) =~= trim(source));
}

} // verus!
