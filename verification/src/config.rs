//! The daemon configuration: security presets and their model, threshold and
//! hybrid-policy mappings, camera, authentication, enrollment, liveness and
//! storage settings with their defaults.
//!
//! Fractional thresholds are carried as the IEEE-754 bit patterns of their
//! `f64` values (`threshold_bits`); the library never computes with them.

use vstd::prelude::*;
use crate::text::{concat3, debug_quote, debug_text, owned, str_eq};

verus! {

pub const CONFIG_PATH: &'static str = "/etc/gaze/config.toml";

pub const USERS_DIR: &'static str = "/var/lib/gaze/users";

pub const MODELS_DIR: &'static str = "/var/cache/gaze";

pub const DEFAULT_RGB_CAMERA: &'static str = "primary";

/// Index of `custom` in the security level options.
pub const CUSTOM_LEVEL_INDEX: u32 = 4;

/// The security levels, in display order.
pub open spec fn security_level_options() -> Seq<Seq<char>> {
    seq!["low"@, "medium"@, "high"@, "maximum"@, "custom"@]
}

/// The model qualities of a custom level, in display order.
pub open spec fn model_quality_options() -> Seq<Seq<char>> {
    seq!["standard"@, "accurate"@]
}

/// The hybrid policies, in display order.
pub open spec fn hybrid_policy_options() -> Seq<Seq<char>> {
    seq!["default"@, "or"@, "fallback_on_dark"@, "and"@]
}

pub fn security_level_option(i: usize) -> (r: &'static str)
    requires
        i < 5,
    ensures
        r@ == security_level_options()[i as int],
{
    match i {
        0 => "low",
        1 => "medium",
        2 => "high",
        3 => "maximum",
        _ => "custom",
    }
}

pub fn model_quality_option(i: usize) -> (r: &'static str)
    requires
        i < 2,
    ensures
        r@ == model_quality_options()[i as int],
{
    match i {
        0 => "standard",
        _ => "accurate",
    }
}

pub fn hybrid_policy_option(i: usize) -> (r: &'static str)
    requires
        i < 4,
    ensures
        r@ == hybrid_policy_options()[i as int],
{
    match i {
        0 => "default",
        1 => "or",
        2 => "fallback_on_dark",
        _ => "and",
    }
}

/// The position of the first `v` in `opts`, if any.
pub open spec fn position_of(opts: Seq<Seq<char>>, v: Seq<char>) -> Option<int> {
    if exists|i: int| 0 <= i < opts.len() && opts[i] == v {
        Some(choose|i: int| 0 <= i < opts.len() && opts[i] == v && forall|k: int| 0 <= k < i ==> opts[k] != v)
    } else {
        None
    }
}

/// The face-matching preset and, for `custom`, its explicit choices.
#[derive(Clone, Debug)]
pub struct SecurityLevel {
    pub level: String,
    pub detector: String,
    pub recognizer: String,
    /// Bit pattern of the custom `f64` match threshold.
    pub threshold_bits: u64,
    pub hybrid_policy: String,
}

/// The bit pattern of a level's `f64` match threshold.
pub open spec fn match_threshold_bits_of(s: SecurityLevel) -> u64 {
    let l = s.level@;
    if l == "low"@ {
        0x3FD3_3333_3333_3333
    } else if l == "medium"@ {
        0x3FD9_9999_9999_999A
    } else if l == "high"@ {
        0x3FE0_0000_0000_0000
    } else if l == "maximum"@ {
        0x3FE3_3333_3333_3333
    } else if l == "custom"@ {
        s.threshold_bits
    } else {
        0x3FD9_9999_9999_999A
    }
}

pub open spec fn is_preset(s: SecurityLevel, level: Seq<char>) -> bool {
    s.level@ == level && s.detector@.len() == 0 && s.recognizer@.len() == 0 && s.threshold_bits
        == 0 && s.hybrid_policy@.len() == 0
}

/// The detector model a level selects; unknown levels fall back to the
/// medium model.
pub open spec fn detector_model(s: SecurityLevel) -> Seq<char> {
    let l = s.level@;
    if l == "low"@ || l == "medium"@ {
        "det_500m.onnx"@
    } else if l == "high"@ || l == "maximum"@ {
        "det_10g.onnx"@
    } else if l == "custom"@ {
        if s.detector@ == "accurate"@ {
            "det_10g.onnx"@
        } else {
            "det_500m.onnx"@
        }
    } else {
        "det_500m.onnx"@
    }
}

/// The recognizer model a level selects; unknown levels fall back to the
/// medium model.
pub open spec fn recognizer_model(s: SecurityLevel) -> Seq<char> {
    let l = s.level@;
    if l == "low"@ || l == "medium"@ {
        "w600k_mbf.onnx"@
    } else if l == "high"@ || l == "maximum"@ {
        "w600k_r50.onnx"@
    } else if l == "custom"@ {
        if s.recognizer@ == "accurate"@ {
            "w600k_r50.onnx"@
        } else {
            "w600k_mbf.onnx"@
        }
    } else {
        "w600k_mbf.onnx"@
    }
}

/// The hybrid RGB/IR policy a level selects.
pub open spec fn effective_hybrid_policy(s: SecurityLevel) -> Seq<char> {
    let l = s.level@;
    if l == "low"@ {
        "or"@
    } else if l == "medium"@ || l == "high"@ {
        "fallback_on_dark"@
    } else if l == "maximum"@ {
        "and"@
    } else if l == "custom"@ {
        if s.hybrid_policy@.len() == 0 {
            "fallback_on_dark"@
        } else {
            s.hybrid_policy@
        }
    } else {
        "fallback_on_dark"@
    }
}

pub open spec fn is_model_quality(v: Seq<char>) -> bool {
    v == "standard"@ || v == "accurate"@
}

/// The message `validate` rejects a level with, if any.
pub open spec fn validation_error(s: SecurityLevel) -> Option<Seq<char>> {
    if !security_level_options().contains(s.level@) {
        Some("invalid security level "@ + debug_text(s.level@)
            + ": expected one of [\"low\", \"medium\", \"high\", \"maximum\", \"custom\"]"@)
    } else if s.level@ == "custom"@ && !is_model_quality(s.detector@) {
        Some("invalid detector level "@ + debug_text(s.detector@)
            + ": expected \"standard\" or \"accurate\""@)
    } else if s.level@ == "custom"@ && !is_model_quality(s.recognizer@) {
        Some("invalid recognizer level "@ + debug_text(s.recognizer@)
            + ": expected \"standard\" or \"accurate\""@)
    } else {
        None
    }
}

fn preset(level: &str) -> (r: SecurityLevel)
    ensures
        is_preset(r, level@),
{
    SecurityLevel {
        level: owned(level),
        detector: String::new(),
        recognizer: String::new(),
        threshold_bits: 0,
        hybrid_policy: String::new(),
    }
}

pub fn default_level() -> (r: String)
    ensures
        r@ == "medium"@,
{
    owned("medium")
}

impl Default for SecurityLevel {
    fn default() -> (r: Self)
        ensures
            is_preset(r, "medium"@),
    {
        preset("medium")
    }
}

fn is_level_option(v: &str) -> (r: bool)
    ensures
        r == security_level_options().contains(v@),
{
    let mut i: usize = 0;
    while i < 5
        invariant
            i <= 5,
            forall|k: int| 0 <= k < i ==> security_level_options()[k] != v@,
        decreases 5 - i,
    {
        if str_eq(v, security_level_option(i)) {
            assert(security_level_options()[i as int] == v@);
            return true;
        }
        i = i + 1;
    }
    false
}

impl SecurityLevel {
    pub fn low() -> (r: Self)
        ensures
            is_preset(r, "low"@),
    {
        preset("low")
    }

    pub fn medium() -> (r: Self)
        ensures
            is_preset(r, "medium"@),
    {
        preset("medium")
    }

    pub fn high() -> (r: Self)
        ensures
            is_preset(r, "high"@),
    {
        preset("high")
    }

    pub fn maximum() -> (r: Self)
        ensures
            is_preset(r, "maximum"@),
    {
        preset("maximum")
    }

    /// A `custom` level with explicit models, threshold and hybrid policy.
    pub fn custom(
        detector: String,
        recognizer: String,
        threshold_bits: u64,
        hybrid_policy: String,
    ) -> (r: Self)
        ensures
            r.level@ == "custom"@,
            r.detector == detector,
            r.recognizer == recognizer,
            r.threshold_bits == threshold_bits,
            r.hybrid_policy == hybrid_policy,
    {
        SecurityLevel { level: owned("custom"), detector, recognizer, threshold_bits, hybrid_policy }
    }

    /// The preset at a position of the level selector; none past `maximum`.
    pub fn preset_from_index(index: usize) -> (r: Option<Self>)
        ensures
            index < 4 <==> r is Some,
            r matches Some(l) ==> is_preset(l, security_level_options()[index as int]),
    {
        match index {
            0 => Some(Self::low()),
            1 => Some(Self::medium()),
            2 => Some(Self::high()),
            3 => Some(Self::maximum()),
            _ => None,
        }
    }

    /// The selector position of the level; unknown levels show as `medium`.
    pub fn level_index(&self) -> (r: u32)
        ensures
            r == match position_of(security_level_options(), self.level@) {
                Some(i) => i as u32,
                None => 1u32,
            },
    {
        let mut i: usize = 0;
        while i < 5
            invariant
                i <= 5,
                forall|k: int| 0 <= k < i ==> security_level_options()[k] != self.level@,
            decreases 5 - i,
        {
            if str_eq(self.level.as_str(), security_level_option(i)) {
                proof {
                    let opts = security_level_options();
                    let j = choose|j: int|
                        0 <= j < opts.len() && opts[j] == self.level@ && forall|k: int|
                            0 <= k < j ==> opts[k] != self.level@;
                    assert(j == i) by {
                        if j > i {
                            assert(opts[i as int] == self.level@);
                        }
                    }
                }
                return i as u32;
            }
            i = i + 1;
        }
        1
    }

    /// The selector position of a model quality; unknown values show as `standard`.
    pub fn model_quality_index(value: &str) -> (r: u32)
        ensures
            r == (if value@ == "accurate"@ {
                1u32
            } else {
                0u32
            }),
    {
        if str_eq(value, "accurate") {
            1
        } else {
            0
        }
    }

    /// The model quality at a selector position; `standard` past the end.
    pub fn model_quality_from_index(index: usize) -> (r: &'static str)
        ensures
            r@ == (if index == 1 {
                "accurate"@
            } else {
                "standard"@
            }),
    {
        if index == 1 {
            "accurate"
        } else {
            "standard"
        }
    }

    /// The selector position of a hybrid policy; unknown values show as `default`.
    pub fn hybrid_policy_index_for_value(value: &str) -> (r: u32)
        ensures
            r == match position_of(hybrid_policy_options(), value@) {
                Some(i) => i as u32,
                None => 0u32,
            },
    {
        let mut i: usize = 0;
        while i < 4
            invariant
                i <= 4,
                forall|k: int| 0 <= k < i ==> hybrid_policy_options()[k] != value@,
            decreases 4 - i,
        {
            if str_eq(value, hybrid_policy_option(i)) {
                proof {
                    let opts = hybrid_policy_options();
                    let j = choose|j: int|
                        0 <= j < opts.len() && opts[j] == value@ && forall|k: int|
                            0 <= k < j ==> opts[k] != value@;
                    assert(j == i) by {
                        if j > i {
                            assert(opts[i as int] == value@);
                        }
                    }
                }
                return i as u32;
            }
            i = i + 1;
        }
        0
    }

    /// The stored hybrid policy for a selector position: empty for `default`
    /// and past the end.
    pub fn hybrid_policy_from_index(index: usize) -> (r: String)
        ensures
            r@ == (if 1 <= index < 4 {
                hybrid_policy_options()[index as int]
            } else {
                Seq::<char>::empty()
            }),
    {
        if index == 0 || index >= 4 {
            String::new()
        } else {
            owned(hybrid_policy_option(index))
        }
    }

    /// The detector model file; unknown levels use the medium model.
    pub fn detector(&self) -> (r: &'static str)
        ensures
            r@ == detector_model(*self),
    {
        let l = self.level.as_str();
        if str_eq(l, "low") || str_eq(l, "medium") {
            "det_500m.onnx"
        } else if str_eq(l, "high") || str_eq(l, "maximum") {
            "det_10g.onnx"
        } else if str_eq(l, "custom") {
            if str_eq(self.detector.as_str(), "accurate") {
                "det_10g.onnx"
            } else {
                "det_500m.onnx"
            }
        } else {
            "det_500m.onnx"
        }
    }

    /// The recognizer model file; unknown levels use the medium model.
    pub fn recognizer(&self) -> (r: &'static str)
        ensures
            r@ == recognizer_model(*self),
    {
        let l = self.level.as_str();
        if str_eq(l, "low") || str_eq(l, "medium") {
            "w600k_mbf.onnx"
        } else if str_eq(l, "high") || str_eq(l, "maximum") {
            "w600k_r50.onnx"
        } else if str_eq(l, "custom") {
            if str_eq(self.recognizer.as_str(), "accurate") {
                "w600k_r50.onnx"
            } else {
                "w600k_mbf.onnx"
            }
        } else {
            "w600k_mbf.onnx"
        }
    }

    /// The bit pattern of the level's match threshold as an `f64`: 0.3, 0.4,
    /// 0.5 and 0.6 for the presets, the explicit threshold for `custom`, and
    /// the medium threshold for unknown levels.
    pub fn match_threshold_bits(&self) -> (r: u64)
        ensures
            r == match_threshold_bits_of(*self),
    {
        let l = self.level.as_str();
        if str_eq(l, "low") {
            0x3FD3_3333_3333_3333
        } else if str_eq(l, "medium") {
            0x3FD9_9999_9999_999A
        } else if str_eq(l, "high") {
            0x3FE0_0000_0000_0000
        } else if str_eq(l, "maximum") {
            0x3FE3_3333_3333_3333
        } else if str_eq(l, "custom") {
            self.threshold_bits
        } else {
            0x3FD9_9999_9999_999A
        }
    }

    /// The hybrid RGB/IR policy of the level.
    pub fn hybrid_policy(&self) -> (r: &str)
        ensures
            r@ == effective_hybrid_policy(*self),
    {
        let l = self.level.as_str();
        if str_eq(l, "low") {
            "or"
        } else if str_eq(l, "medium") || str_eq(l, "high") {
            "fallback_on_dark"
        } else if str_eq(l, "maximum") {
            "and"
        } else if str_eq(l, "custom") {
            if self.hybrid_policy.as_str().is_empty() {
                "fallback_on_dark"
            } else {
                self.hybrid_policy.as_str()
            }
        } else {
            "fallback_on_dark"
        }
    }

    /// Rejects an unknown level and, for `custom`, unknown model qualities.
    pub fn validate(&self) -> (r: Result<(), String>)
        ensures
            match validation_error(*self) {
                None => r is Ok,
                Some(m) => r matches Err(e) && e@ == m,
            },
    {
        if !is_level_option(self.level.as_str()) {
            let q = debug_quote(self.level.as_str());
            return Err(concat3(
                "invalid security level ",
                q.as_str(),
                ": expected one of [\"low\", \"medium\", \"high\", \"maximum\", \"custom\"]",
            ));
        }
        if str_eq(self.level.as_str(), "custom") {
            let d = self.detector.as_str();
            if !(str_eq(d, "standard") || str_eq(d, "accurate")) {
                let q = debug_quote(d);
                return Err(concat3(
                    "invalid detector level ",
                    q.as_str(),
                    ": expected \"standard\" or \"accurate\"",
                ));
            }
            let rec = self.recognizer.as_str();
            if !(str_eq(rec, "standard") || str_eq(rec, "accurate")) {
                let q = debug_quote(rec);
                return Err(concat3(
                    "invalid recognizer level ",
                    q.as_str(),
                    ": expected \"standard\" or \"accurate\"",
                ));
            }
        }
        Ok(())
    }
}

// ---------------------------------------------------------------------------
// Other tables
// ---------------------------------------------------------------------------

/// Template storage settings.
#[derive(Clone, Debug)]
pub struct StorageConfig {
    pub encrypt_templates: bool,
}

/// Anti-spoofing settings.
#[derive(Clone, Debug)]
pub struct LivenessConfig {
    pub enabled: bool,
    /// Bit pattern of the `f64` liveness threshold.
    pub threshold_bits: u64,
    pub max_frames: u32,
}

/// Camera sources and IR emitter settings.
#[derive(Clone, Debug)]
pub struct CameraConfig {
    pub rgb: String,
    pub ir: String,
    pub emitter_enabled: bool,
    pub dark_luma_threshold: u8,
}

/// Authentication safeguards.
#[derive(Clone, Debug)]
pub struct AuthConfig {
    pub abort_if_ssh: bool,
    pub abort_if_lid_closed: bool,
    pub require_confirmation: bool,
    pub resume_grace_ms: u64,
}

/// Enrollment limits.
#[derive(Clone, Debug)]
pub struct EnrollmentConfig {
    pub max_templates: u32,
}

/// The whole configuration file.
#[derive(Clone, Debug)]
pub struct Config {
    pub security: SecurityLevel,
    pub cameras: CameraConfig,
    pub auth: AuthConfig,
    pub enrollment: EnrollmentConfig,
    pub liveness: LivenessConfig,
    pub storage: StorageConfig,
}

/// Bit pattern of the default liveness threshold, `0.8_f64`.
pub const DEFAULT_LIVENESS_THRESHOLD_BITS: u64 = 0x3FE9_9999_9999_999A;

pub fn default_liveness_enabled() -> (r: bool)
    ensures
        r,
{
    true
}

pub fn default_liveness_threshold_bits() -> (r: u64)
    ensures
        r == DEFAULT_LIVENESS_THRESHOLD_BITS,
{
    DEFAULT_LIVENESS_THRESHOLD_BITS
}

pub fn default_max_frames() -> (r: u32)
    ensures
        r == 40,
{
    40
}

pub fn default_rgb_device() -> (r: String)
    ensures
        r@ == DEFAULT_RGB_CAMERA@,
{
    owned(DEFAULT_RGB_CAMERA)
}

pub fn default_dark_luma_threshold() -> (r: u8)
    ensures
        r == 30,
{
    30
}

pub fn default_false() -> (r: bool)
    ensures
        !r,
{
    false
}

pub fn default_resume_grace_ms() -> (r: u64)
    ensures
        r == 0,
{
    0
}

pub fn default_true() -> (r: bool)
    ensures
        r,
{
    true
}

pub fn default_max_templates() -> (r: u32)
    ensures
        r == 2,
{
    2
}

impl Default for StorageConfig {
    fn default() -> (r: Self)
        ensures
            !r.encrypt_templates,
    {
        StorageConfig { encrypt_templates: false }
    }
}

impl Default for LivenessConfig {
    fn default() -> (r: Self)
        ensures
            r.enabled,
            r.threshold_bits == DEFAULT_LIVENESS_THRESHOLD_BITS,
            r.max_frames == 40,
    {
        LivenessConfig {
            enabled: default_liveness_enabled(),
            threshold_bits: default_liveness_threshold_bits(),
            max_frames: default_max_frames(),
        }
    }
}

impl Default for CameraConfig {
    fn default() -> (r: Self)
        ensures
            r.rgb@ == DEFAULT_RGB_CAMERA@,
            r.ir@.len() == 0,
            !r.emitter_enabled,
            r.dark_luma_threshold == 30,
    {
        CameraConfig {
            rgb: default_rgb_device(),
            ir: String::new(),
            emitter_enabled: false,
            dark_luma_threshold: default_dark_luma_threshold(),
        }
    }
}

impl Default for AuthConfig {
    fn default() -> (r: Self)
        ensures
            r.abort_if_ssh,
            r.abort_if_lid_closed,
            !r.require_confirmation,
            r.resume_grace_ms == 0,
    {
        AuthConfig {
            abort_if_ssh: true,
            abort_if_lid_closed: true,
            require_confirmation: false,
            resume_grace_ms: default_resume_grace_ms(),
        }
    }
}

impl Default for EnrollmentConfig {
    fn default() -> (r: Self)
        ensures
            r.max_templates == 2,
    {
        EnrollmentConfig { max_templates: default_max_templates() }
    }
}

/// Every table at its default.
pub open spec fn is_default_config(c: Config) -> bool {
    &&& is_preset(c.security, "medium"@)
    &&& c.cameras.rgb@ == DEFAULT_RGB_CAMERA@ && c.cameras.ir@.len() == 0
    &&& !c.cameras.emitter_enabled && c.cameras.dark_luma_threshold == 30
    &&& c.auth.abort_if_ssh && c.auth.abort_if_lid_closed && !c.auth.require_confirmation
    &&& c.auth.resume_grace_ms == 0
    &&& c.enrollment.max_templates == 2
    &&& c.liveness.enabled && c.liveness.threshold_bits == DEFAULT_LIVENESS_THRESHOLD_BITS
    &&& c.liveness.max_frames == 40
    &&& !c.storage.encrypt_templates
}

impl Default for Config {
    fn default() -> (r: Self)
        ensures
            is_default_config(r),
    {
        Config {
            security: SecurityLevel::default(),
            cameras: CameraConfig::default(),
            auth: AuthConfig::default(),
            enrollment: EnrollmentConfig::default(),
            liveness: LivenessConfig::default(),
            storage: StorageConfig::default(),
        }
    }
}


// ---------------------------------------------------------------------------
// Selector laws
// ---------------------------------------------------------------------------

/// Each level of the selector is found at its own position, so selecting a
/// position and reading the level's position back gives the same position.
pub proof fn level_selector_law(i: int)
    requires
        0 <= i < 5,
    ensures
        position_of(security_level_options(), security_level_options()[i]) == Some(i),
{
    reveal_strlit("low");
    reveal_strlit("medium");
    reveal_strlit("high");
    reveal_strlit("maximum");
    reveal_strlit("custom");
    let opts = security_level_options();
    assert(forall|a: int, b: int| 0 <= a < b < 5 ==> opts[a] != opts[b]) by {
        assert(opts[0].len() == 3 && opts[1].len() == 6 && opts[2].len() == 4);
        assert(opts[3].len() == 7 && opts[4].len() == 6);
        assert(opts[1][0] == 'm' && opts[4][0] == 'c');
    }
    let c = choose|j: int| 0 <= j < opts.len() && opts[j] == opts[i] && forall|k: int|
        0 <= k < j ==> opts[k] != opts[i];
    assert(0 <= i < opts.len() && opts[i] == opts[i] && forall|k: int| 0 <= k < i ==> opts[k] != opts[i]);
    assert(c == i);
}

/// A stored hybrid policy survives the selector: the selector shows it at a
/// position whose stored value is the policy itself, `default` being stored
/// as the empty policy.
pub proof fn hybrid_policy_selector_law(p: Seq<char>)
    requires
        p == Seq::<char>::empty() || p == "or"@ || p == "fallback_on_dark"@ || p == "and"@,
    ensures
        ({
            let i = match position_of(hybrid_policy_options(), p) {
                Some(i) => i,
                None => 0,
            };
            (if 1 <= i < 4 {
                hybrid_policy_options()[i]
            } else {
                Seq::<char>::empty()
            }) == p
        }),
{
    reveal_strlit("default");
    reveal_strlit("or");
    reveal_strlit("fallback_on_dark");
    reveal_strlit("and");
    let opts = hybrid_policy_options();
    assert(opts[0].len() == 7 && opts[1].len() == 2 && opts[2].len() == 16 && opts[3].len() == 3);
    if p.len() == 0 {
        assert(forall|k: int| 0 <= k < 4 ==> opts[k] != p);
    } else {
        let i: int = if p == "or"@ {
            1
        } else if p == "fallback_on_dark"@ {
            2
        } else {
            3
        };
        assert(opts[i] == p);
        assert(forall|k: int| 0 <= k < i ==> opts[k] != p);
        let c = choose|j: int| 0 <= j < opts.len() && opts[j] == p && forall|k: int|
            0 <= k < j ==> opts[k] != p;
        assert(c == i) by {
            if c < i {
                assert(opts[c] != p);
            } else if c > i {
                assert(opts[i] != p);
            }
        }
    }
}

/// A model quality survives the selector: its position holds it.
pub proof fn model_quality_selector_law(v: Seq<char>)
    requires
        v == "standard"@ || v == "accurate"@,
    ensures
        (if (if v == "accurate"@ { 1int } else { 0int }) == 1 {
            "accurate"@
        } else {
            "standard"@
        }) == v,
{
}

/// A security level is valid exactly when it is one of the five levels,
/// and a `custom` level only when both its detector and its recognizer are
/// `standard` or `accurate`.
pub proof fn validation_law(s: SecurityLevel)
    ensures
        validation_error(s) is None <==> (s.level@ == "low"@ || s.level@ == "medium"@ || s.level@
            == "high"@ || s.level@ == "maximum"@ || (s.level@ == "custom"@ && (s.detector@
            == "standard"@ || s.detector@ == "accurate"@) && (s.recognizer@ == "standard"@
            || s.recognizer@ == "accurate"@))),
{
    reveal_strlit("low");
    reveal_strlit("medium");
    reveal_strlit("high");
    reveal_strlit("maximum");
    reveal_strlit("custom");
    assert("medium"@[0] != "custom"@[0]);
    let o = security_level_options();
    assert(o[0] == "low"@ && o[1] == "medium"@ && o[2] == "high"@ && o[3] == "maximum"@ && o[4] == "custom"@);
    if o.contains(s.level@) {
        let i = choose|i: int| 0 <= i < o.len() && o[i] == s.level@;
        assert(i == 0 || i == 1 || i == 2 || i == 3 || i == 4);
    }
    if s.level@ == "low"@ {
        assert(o[0] == s.level@);
    } else if s.level@ == "medium"@ {
        assert(o[1] == s.level@);
    } else if s.level@ == "high"@ {
        assert(o[2] == s.level@);
    } else if s.level@ == "maximum"@ {
        assert(o[3] == s.level@);
    } else if s.level@ == "custom"@ {
        assert(o[4] == s.level@);
    }
}

} // verus!
