//! Display-scale policy: configuration of the bridge and the font
//! parameters recomputed from the scale at every renderer rebuild.
//!
//! Scale factors and font sizes are carried as fixed-point integers in
//! thousandths, so a display scale of 1.5 is 1500 and the default font size
//! of 13 pixels is 13000.

use vstd::prelude::*;

verus! {

/// Configuration of the bridge, fixed at construction.
#[derive(Clone, Debug)]
pub struct Settings {
    /// Where the GUI library persists its layout state; `None` disables
    /// persistence. The path is opaque to this crate.
    pub settings_path: Option<String>,
    /// The unscaled font size, in thousandths of a pixel.
    pub font_size_millis: u32,
    /// Horizontal oversampling of the font atlas; at least 1.
    pub font_oversample_h: u32,
    /// Vertical oversampling of the font atlas; at least 1.
    pub font_oversample_v: u32,
    /// Whether the display scale multiplies the font size.
    pub scale_affects_font_size: bool,
    /// Whether the display scale multiplies the oversampling.
    pub scale_affects_font_oversample: bool,
}

impl Settings {
    /// Well-formedness: the GUI library requires oversampling of at least 1.
    pub open spec fn wf(self) -> bool {
        self.font_oversample_h >= 1 && self.font_oversample_v >= 1
    }
}

impl Default for Settings {
    /// The defaults: no persistence, a 13 pixel font, no oversampling, and
    /// the display scale applied to both font size and oversampling.
    fn default() -> (r: Settings)
        ensures
            r.settings_path is None,
            r.font_size_millis == 13000,
            r.font_oversample_h == 1,
            r.font_oversample_v == 1,
            r.scale_affects_font_size,
            r.scale_affects_font_oversample,
            r.wf(),
    {
        Settings {
            settings_path: None,
            font_size_millis: 13000,
            font_oversample_h: 1,
            font_oversample_v: 1,
            scale_affects_font_size: true,
            scale_affects_font_oversample: true,
        }
    }
}

/// The font parameters the GUI library's atlas is regenerated with after a
/// rebuild.
#[derive(Clone, Copy, PartialEq, Eq, Structural, Debug)]
pub struct FontPlan {
    /// Atlas glyph size in whole pixels: the scaled font size rounded down,
    /// as the GUI library's scaling guidance asks.
    pub size_px: u64,
    /// Horizontal oversampling after the scale policy is applied.
    pub oversample_h: u64,
    /// Vertical oversampling after the scale policy is applied.
    pub oversample_v: u64,
    /// The factor applied to the font size, in thousandths. The io mirror's
    /// global font scale is this factor's reciprocal.
    pub font_scale_millis: u32,
}

/// The scale factor rounded up to whole units: what the oversampling is
/// multiplied by when the policy ties it to the display scale.
pub open spec fn ceil_units(scale_millis: u32) -> int {
    (scale_millis + 999) / 1000
}

/// The factor applied to the font size: the display scale if the policy ties
/// the font size to it, otherwise one (carried as 1000).
pub open spec fn font_scale_of(s: Settings, scale_millis: u32) -> int {
    if s.scale_affects_font_size {
        scale_millis as int
    } else {
        1000
    }
}

/// The factor applied to the oversampling: the display scale rounded up to
/// whole units if the policy ties oversampling to it, otherwise one.
pub open spec fn oversample_factor_of(s: Settings, scale_millis: u32) -> int {
    if s.scale_affects_font_oversample {
        ceil_units(scale_millis)
    } else {
        1
    }
}

/// The font parameters that `s` prescribes at display scale `scale_millis`.
pub open spec fn font_plan_spec(s: Settings, scale_millis: u32) -> FontPlan {
    FontPlan {
        size_px: ((s.font_size_millis * font_scale_of(s, scale_millis)) / 1000000) as u64,
        oversample_h: (s.font_oversample_h * oversample_factor_of(s, scale_millis)) as u64,
        oversample_v: (s.font_oversample_v * oversample_factor_of(s, scale_millis)) as u64,
        font_scale_millis: font_scale_of(s, scale_millis) as u32,
    }
}

/// Computes the font parameters for a rebuild at display scale
/// `scale_millis`: the font size is scaled (or not) per the policy and
/// rounded down to whole pixels, and the oversampling is multiplied by the
/// rounded-up scale (or left alone), per the policy.
pub fn plan_font(s: &Settings, scale_millis: u32) -> (r: FontPlan)
    ensures
        r == font_plan_spec(*s, scale_millis),
{
    let fs: u64 = if s.scale_affects_font_size {
        scale_millis as u64
    } else {
        1000
    };
    proof {
        assert(s.font_size_millis as u64 * fs <= 0xffff_ffffu64 * 0xffff_ffffu64)
            by (nonlinear_arith)
            requires
                s.font_size_millis <= 0xffff_ffffu64,
                fs <= 0xffff_ffffu64,
        ;
    }
    let size_px: u64 = (s.font_size_millis as u64) * fs / 1000000;
    let ceil: u64 = ((scale_millis as u64) + 999) / 1000;
    let ov: u64 = if s.scale_affects_font_oversample {
        ceil
    } else {
        1
    };
    proof {
        assert(ov <= 4294968);
        assert(s.font_oversample_h as u64 * ov <= 0xffff_ffffu64 * 4294968u64) by (nonlinear_arith)
            requires
                s.font_oversample_h <= 0xffff_ffffu64,
                ov <= 4294968,
        ;
        assert(s.font_oversample_v as u64 * ov <= 0xffff_ffffu64 * 4294968u64) by (nonlinear_arith)
            requires
                s.font_oversample_v <= 0xffff_ffffu64,
                ov <= 4294968,
        ;
    }
    let oh: u64 = (s.font_oversample_h as u64) * ov;
    let ovv: u64 = (s.font_oversample_v as u64) * ov;
    let fsm: u32 = if s.scale_affects_font_size {
        scale_millis
    } else {
        1000
    };
    FontPlan { size_px, oversample_h: oh, oversample_v: ovv, font_scale_millis: fsm }
}

} // verus!
