//! The settings form of the desktop application: how a configuration fills
//! the form, and how the form's values change the configuration.

use vstd::prelude::*;
use crate::camera::pairs_view;
use crate::config::{Config, SecurityLevel, detector_model, match_threshold_bits_of, recognizer_model};
use crate::cli::{camera_default_index, first_target_index};
use crate::text::{owned, str_eq, string_of, trim, trim_vec, chars_of};

verus! {

/// The values the settings form shows and edits. Numbers entered as
/// decimals are held as the bit patterns of their `f64` values.
pub struct SettingsForm {
    /// Position in the level selector: low, medium, high, maximum, custom.
    pub level_index: u32,
    pub detector: String,
    pub recognizer: String,
    pub threshold_bits: u64,
    /// Whether `threshold_bits` is the explicit custom threshold (else it is
    /// the level's own).
    pub threshold_is_custom: bool,
    /// Position in the camera selector.
    pub camera_index: usize,
    pub ir: String,
    pub emitter_enabled: bool,
    pub dark_luma_threshold: u8,
    pub max_templates: u32,
    pub liveness_enabled: bool,
    pub liveness_threshold_bits: u64,
    pub liveness_max_frames: u32,
    pub require_confirmation: bool,
    pub abort_if_ssh: bool,
    pub abort_if_lid_closed: bool,
}

/// The selector position of a level; unknown levels show as `medium`.
pub open spec fn level_position(level: Seq<char>) -> u32 {
    if level == "low"@ {
        0
    } else if level == "medium"@ {
        1
    } else if level == "high"@ {
        2
    } else if level == "maximum"@ {
        3
    } else if level == "custom"@ {
        4
    } else {
        1
    }
}

fn level_position_exec(level: &str) -> (r: u32)
    ensures
        r == level_position(level@),
{
    if str_eq(level, "low") {
        0
    } else if str_eq(level, "medium") {
        1
    } else if str_eq(level, "high") {
        2
    } else if str_eq(level, "maximum") {
        3
    } else if str_eq(level, "custom") {
        4
    } else {
        1
    }
}

/// The form for a configuration and the camera choices.
pub fn settings_form(cfg: &Config, cameras: &[(String, String)]) -> (r: SettingsForm)
    ensures
        r.level_index == level_position(cfg.security.level@),
        cfg.security.level@ == "custom"@ ==> r.detector@ == cfg.security.detector@
            && r.recognizer@ == cfg.security.recognizer@ && r.threshold_bits
            == cfg.security.threshold_bits && r.threshold_is_custom,
        cfg.security.level@ != "custom"@ ==> r.detector@ == detector_model(cfg.security)
            && r.recognizer@ == recognizer_model(cfg.security) && r.threshold_bits
            == match_threshold_bits_of(cfg.security) && !r.threshold_is_custom,
        r.camera_index == first_target_index(pairs_view(cameras@), cfg.cameras.rgb@),
        r.ir@ == cfg.cameras.ir@,
        r.emitter_enabled == cfg.cameras.emitter_enabled,
        r.dark_luma_threshold == cfg.cameras.dark_luma_threshold,
        r.max_templates == cfg.enrollment.max_templates,
        r.liveness_enabled == cfg.liveness.enabled,
        r.liveness_threshold_bits == cfg.liveness.threshold_bits,
        r.liveness_max_frames == cfg.liveness.max_frames,
        r.require_confirmation == cfg.auth.require_confirmation,
        r.abort_if_ssh == cfg.auth.abort_if_ssh,
        r.abort_if_lid_closed == cfg.auth.abort_if_lid_closed,
{
    let custom = str_eq(cfg.security.level.as_str(), "custom");
    let (detector, recognizer, threshold_bits) = if custom {
        (
            owned(cfg.security.detector.as_str()),
            owned(cfg.security.recognizer.as_str()),
            cfg.security.threshold_bits,
        )
    } else {
        (
            owned(cfg.security.detector()),
            owned(cfg.security.recognizer()),
            cfg.security.match_threshold_bits(),
        )
    };
    SettingsForm {
        level_index: level_position_exec(cfg.security.level.as_str()),
        detector,
        recognizer,
        threshold_bits,
        threshold_is_custom: custom,
        camera_index: camera_default_index(cameras, cfg.cameras.rgb.as_str()),
        ir: owned(cfg.cameras.ir.as_str()),
        emitter_enabled: cfg.cameras.emitter_enabled,
        dark_luma_threshold: cfg.cameras.dark_luma_threshold,
        max_templates: cfg.enrollment.max_templates,
        liveness_enabled: cfg.liveness.enabled,
        liveness_threshold_bits: cfg.liveness.threshold_bits,
        liveness_max_frames: cfg.liveness.max_frames,
        require_confirmation: cfg.auth.require_confirmation,
        abort_if_ssh: cfg.auth.abort_if_ssh,
        abort_if_lid_closed: cfg.auth.abort_if_lid_closed,
    }
}

/// The security level a form selects: the preset at its position, a custom
/// level from its fields (with the default hybrid policy), or the old level
/// when the position is past the selector's end.
pub open spec fn level_from_form(old: SecurityLevel, f: SettingsForm, new: SecurityLevel) -> bool {
    if f.level_index < 4 {
        &&& new.level@ == crate::config::security_level_options()[f.level_index as int]
        &&& new.detector@.len() == 0 && new.recognizer@.len() == 0
        &&& new.threshold_bits == 0 && new.hybrid_policy@.len() == 0
    } else if f.level_index == 4 {
        &&& new.level@ == "custom"@
        &&& new.detector@ == f.detector@ && new.recognizer@ == f.recognizer@
        &&& new.threshold_bits == f.threshold_bits && new.hybrid_policy@.len() == 0
    } else {
        new == old
    }
}

/// Applies the form to the configuration: the level, the camera chosen (kept
/// when the position is out of range), the IR source trimmed, and the other
/// values as entered.
pub fn apply_settings_form(cfg: &mut Config, form: &SettingsForm, cameras: &[(String, String)])
    ensures
        level_from_form(old(cfg).security, *form, final(cfg).security),
        final(cfg).cameras.rgb@ == (if form.camera_index < cameras@.len() {
            cameras@[form.camera_index as int].1@
        } else {
            old(cfg).cameras.rgb@
        }),
        final(cfg).cameras.ir@ == trim(form.ir@),
        final(cfg).cameras.emitter_enabled == form.emitter_enabled,
        final(cfg).cameras.dark_luma_threshold == form.dark_luma_threshold,
        final(cfg).enrollment.max_templates == form.max_templates,
        final(cfg).liveness.enabled == form.liveness_enabled,
        final(cfg).liveness.threshold_bits == form.liveness_threshold_bits,
        final(cfg).liveness.max_frames == form.liveness_max_frames,
        final(cfg).auth.require_confirmation == form.require_confirmation,
        final(cfg).auth.abort_if_ssh == form.abort_if_ssh,
        final(cfg).auth.abort_if_lid_closed == form.abort_if_lid_closed,
        final(cfg).auth.resume_grace_ms == old(cfg).auth.resume_grace_ms,
        final(cfg).storage.encrypt_templates == old(cfg).storage.encrypt_templates,
{
    proof {
        reveal_strlit("low");
        reveal_strlit("medium");
        reveal_strlit("high");
        reveal_strlit("maximum");
    }
    match form.level_index {
        0 => cfg.security = SecurityLevel::low(),
        1 => cfg.security = SecurityLevel::medium(),
        2 => cfg.security = SecurityLevel::high(),
        3 => cfg.security = SecurityLevel::maximum(),
        4 => {
            cfg.security = SecurityLevel::custom(
                owned(form.detector.as_str()),
                owned(form.recognizer.as_str()),
                form.threshold_bits,
                String::new(),
            );
        },
        _ => {},
    }
    if form.camera_index < cameras.len() {
        cfg.cameras.rgb = owned(cameras[form.camera_index].1.as_str());
    }
    cfg.cameras.ir = string_of(&trim_vec(&chars_of(form.ir.as_str())));
    cfg.cameras.emitter_enabled = form.emitter_enabled;
    cfg.cameras.dark_luma_threshold = form.dark_luma_threshold;
    cfg.enrollment.max_templates = form.max_templates;
    cfg.liveness.enabled = form.liveness_enabled;
    cfg.liveness.threshold_bits = form.liveness_threshold_bits;
    cfg.liveness.max_frames = form.liveness_max_frames;
    cfg.auth.require_confirmation = form.require_confirmation;
    cfg.auth.abort_if_ssh = form.abort_if_ssh;
    cfg.auth.abort_if_lid_closed = form.abort_if_lid_closed;
}

/// Showing a configuration in the form and applying the form unchanged
/// keeps the level of a preset or custom configuration.
pub proof fn settings_round_trip_law(old: SecurityLevel, f: SettingsForm, new: SecurityLevel)
    requires
        f.level_index == level_position(old.level@),
        old.level@ == "custom"@ ==> f.detector@ == old.detector@ && f.recognizer@ == old.recognizer@
            && f.threshold_bits == old.threshold_bits,
        old.level@ != "custom"@ ==> old.detector@.len() == 0 && old.recognizer@.len() == 0
            && old.threshold_bits == 0,
        old.hybrid_policy@.len() == 0,
        level_from_form(old, f, new),
        crate::config::security_level_options().contains(old.level@),
    ensures
        new.level@ == old.level@,
        new.detector@ == old.detector@,
        new.recognizer@ == old.recognizer@,
        new.threshold_bits == old.threshold_bits,
        new.hybrid_policy@ == old.hybrid_policy@,
{
    reveal_strlit("low");
    reveal_strlit("medium");
    reveal_strlit("high");
    reveal_strlit("maximum");
    reveal_strlit("custom");
    let opts = crate::config::security_level_options();
    assert(opts.contains(old.level@));
    let k = choose|k: int| 0 <= k < opts.len() && opts[k] == old.level@;
    assert(0 <= k < 5 && opts[k] == old.level@);
    if old.level@ == "custom"@ {
        assert("custom"@.len() != "low"@.len() && "custom"@.len() != "high"@.len());
        assert("custom"@.len() != "maximum"@.len() && "custom"@[0] != "medium"@[0]);
        assert(f.level_index == 4);
    } else {
        assert(f.level_index < 4);
        assert(new.detector@ =~= old.detector@);
        assert(new.recognizer@ =~= old.recognizer@);
    }
    assert(new.hybrid_policy@ =~= old.hybrid_policy@);
}

} // verus!
