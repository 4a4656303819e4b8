//! Output (development) parameters: LibRaw's `libraw_output_params_t`, the
//! defaults this binding starts from, and chainable setters. Floating-point
//! parameters are held as IEEE-754 bit patterns (`u32` for `float`, `u64` for
//! `double`), so each setter of such a parameter takes the bit pattern of the
//! value.
use vstd::prelude::*;

verus! {

/// The output color space.
#[derive(Debug, Clone, Copy, PartialEq, Eq, Structural)]
pub enum OutputColor {
    Raw,
    Srgb,
    AdobeRgb,
    WideGamut,
    ProPhoto,
    Xyz,
}

impl OutputColor {
    /// LibRaw's number for the color space (`output_color`).
    pub open spec fn libraw_code(self) -> i32 {
        match self {
            OutputColor::Raw => 0,
            OutputColor::Srgb => 1,
            OutputColor::AdobeRgb => 2,
            OutputColor::WideGamut => 3,
            OutputColor::ProPhoto => 4,
            OutputColor::Xyz => 5,
        }
    }

    /// LibRaw's number for the color space.
    pub fn code(self) -> (c: i32)
        ensures
            c == self.libraw_code(),
            c == (match self {
                OutputColor::Raw => 0i32,
                OutputColor::Srgb => 1i32,
                OutputColor::AdobeRgb => 2i32,
                OutputColor::WideGamut => 3i32,
                OutputColor::ProPhoto => 4i32,
                OutputColor::Xyz => 5i32,
            }),
    {
        match self {
            OutputColor::Raw => 0,
            OutputColor::Srgb => 1,
            OutputColor::AdobeRgb => 2,
            OutputColor::WideGamut => 3,
            OutputColor::ProPhoto => 4,
            OutputColor::Xyz => 5,
        }
    }
}

/// How highlights are recovered.
#[derive(Debug, Clone, Copy, PartialEq, Eq, Structural)]
pub enum HighlightMode {
    Clip,
    Unclip,
    Blend,
    Rebuild,
}

impl HighlightMode {
    /// LibRaw's number for the mode (`highlight`).
    pub open spec fn libraw_code(self) -> i32 {
        match self {
            HighlightMode::Clip => 0,
            HighlightMode::Unclip => 1,
            HighlightMode::Blend => 2,
            HighlightMode::Rebuild => 3,
        }
    }

    /// LibRaw's number for the mode.
    pub fn code(self) -> (c: i32)
        ensures
            c == self.libraw_code(),
            c == (match self {
                HighlightMode::Clip => 0i32,
                HighlightMode::Unclip => 1i32,
                HighlightMode::Blend => 2i32,
                HighlightMode::Rebuild => 3i32,
            }),
    {
        match self {
            HighlightMode::Clip => 0,
            HighlightMode::Unclip => 1,
            HighlightMode::Blend => 2,
            HighlightMode::Rebuild => 3,
        }
    }
}

/// Each color space has LibRaw's number: raw 0, sRGB 1, Adobe RGB 2, wide
/// gamut 3, ProPhoto 4, XYZ 5; so two color spaces never share a number.
pub proof fn lemma_output_color_codes(a: OutputColor, b: OutputColor)
    ensures
        OutputColor::Raw.libraw_code() == 0,
        OutputColor::Srgb.libraw_code() == 1,
        OutputColor::AdobeRgb.libraw_code() == 2,
        OutputColor::WideGamut.libraw_code() == 3,
        OutputColor::ProPhoto.libraw_code() == 4,
        OutputColor::Xyz.libraw_code() == 5,
        a.libraw_code() == b.libraw_code() ==> a == b,
        0 <= a.libraw_code() <= 5,
{
}

/// Each highlight mode has LibRaw's number: clip 0, unclip 1, blend 2,
/// rebuild 3; so two modes never share a number.
pub proof fn lemma_highlight_mode_codes(a: HighlightMode, b: HighlightMode)
    ensures
        HighlightMode::Clip.libraw_code() == 0,
        HighlightMode::Unclip.libraw_code() == 1,
        HighlightMode::Blend.libraw_code() == 2,
        HighlightMode::Rebuild.libraw_code() == 3,
        a.libraw_code() == b.libraw_code() ==> a == b,
        0 <= a.libraw_code() <= 3,
{
}

/// LibRaw's flag value for a switch: 1 when on, 0 when off.
pub open spec fn flag(on: bool) -> i32 {
    if on {
        1
    } else {
        0
    }
}

fn flag_value(on: bool) -> (v: i32)
    ensures
        v == flag(on),
{
    if on {
        1
    } else {
        0
    }
}

/// The fields of `libraw_output_params_t` that this binding sets. Pointer
/// fields (profiles, bad-pixel and dark-frame files) are always null and are
/// not represented. `float` fields are `u32` bit patterns, `double` fields
/// `u64` bit patterns.
#[derive(Debug, Clone, Copy)]
pub struct RawOutputParams {
    pub greybox: [u32; 4],
    pub cropbox: [u32; 4],
    pub aber: [u64; 4],
    pub gamm: [u64; 6],
    pub user_mul: [u32; 4],
    pub bright: u32,
    pub threshold: u32,
    pub half_size: i32,
    pub four_color_rgb: i32,
    pub highlight: i32,
    pub use_auto_wb: i32,
    pub use_camera_wb: i32,
    pub use_camera_matrix: i32,
    pub output_color: i32,
    pub output_bps: i32,
    pub output_tiff: i32,
    pub output_flags: i32,
    pub user_flip: i32,
    pub user_qual: i32,
    pub user_black: i32,
    pub user_cblack: [i32; 4],
    pub user_sat: i32,
    pub med_passes: i32,
    pub auto_bright_thr: u32,
    pub adjust_maximum_thr: u32,
    pub no_auto_bright: i32,
    pub use_fuji_rotate: i32,
    pub use_p1_correction: i32,
    pub green_matching: i32,
    pub dcb_iterations: i32,
    pub dcb_enhance_fl: i32,
    pub fbdd_noiserd: i32,
    pub exp_correc: i32,
    pub exp_shift: u32,
    pub exp_preser: u32,
    pub no_auto_scale: i32,
    pub no_interpolation: i32,
}

/// Bit pattern of the `float` 1.0.
pub const FLOAT_ONE_BITS: u32 = 0x3f80_0000u32;

/// Bit pattern of LibRaw's default auto-brightness threshold, 0.01 as a `float`.
pub const DEFAULT_AUTO_BRIGHTNESS_THRESHOLD_BITS: u32 = 0x3c23_d70au32;

/// Bit pattern of LibRaw's default adjust-maximum threshold, 0.75 as a `float`.
pub const DEFAULT_ADJUST_MAXIMUM_THRESHOLD_BITS: u32 = 0x3f40_0000u32;

/// The parameters this binding starts from: every field zero except the ones listed.
pub open spec fn is_default_params(p: RawOutputParams) -> bool {
    &&& p.greybox@ == seq![0u32, 0u32, 0xffffu32, 0u32]
    &&& p.cropbox@ == seq![0u32, 0u32, 0u32, 0u32]
    &&& p.aber@ == seq![0u64, 0u64, 0u64, 0u64]
    &&& p.gamm@ == seq![0u64, 0u64, 0u64, 0u64, 0u64, 0u64]
    &&& p.user_mul@ == seq![0u32, 0u32, 0u32, 0u32]
    &&& p.bright == FLOAT_ONE_BITS
    &&& p.threshold == 0
    &&& p.half_size == 0
    &&& p.four_color_rgb == 0
    &&& p.highlight == 0
    &&& p.use_auto_wb == 0
    &&& p.use_camera_wb == 0
    &&& p.use_camera_matrix == 1
    &&& p.output_color == 1
    &&& p.output_bps == 8
    &&& p.output_tiff == 0
    &&& p.output_flags == 0
    &&& p.user_flip == -1
    &&& p.user_qual == -1
    &&& p.user_black == -1
    &&& p.user_cblack@ == seq![-1i32, -1i32, -1i32, -1i32]
    &&& p.user_sat == -1
    &&& p.med_passes == 0
    &&& p.auto_bright_thr == DEFAULT_AUTO_BRIGHTNESS_THRESHOLD_BITS
    &&& p.adjust_maximum_thr == DEFAULT_ADJUST_MAXIMUM_THRESHOLD_BITS
    &&& p.no_auto_bright == 0
    &&& p.use_fuji_rotate == -1
    &&& p.use_p1_correction == 1
    &&& p.green_matching == 0
    &&& p.dcb_iterations == -1
    &&& p.dcb_enhance_fl == 1
    &&& p.fbdd_noiserd == 0
    &&& p.exp_correc == 1
    &&& p.exp_shift == FLOAT_ONE_BITS
    &&& p.exp_preser == 0
    &&& p.no_auto_scale == 0
    &&& p.no_interpolation == 0
}

/// The defaults describe one parameter set: any two that meet them are equal.
pub proof fn lemma_default_params_unique(a: RawOutputParams, b: RawOutputParams)
    requires
        is_default_params(a),
        is_default_params(b),
    ensures
        a == b,
{
    assert(a.greybox =~= b.greybox);
    assert(a.cropbox =~= b.cropbox);
    assert(a.aber =~= b.aber);
    assert(a.gamm =~= b.gamm);
    assert(a.user_mul =~= b.user_mul);
    assert(a.user_cblack =~= b.user_cblack);
}

/// The defaults, field by field: full-size output (`half_size` 0), automatic
/// brightening on (`no_auto_bright` 0), sRGB (`output_color` 1), 8 bits per
/// sample, brightness 1.0, the camera matrix on, camera and automatic white
/// balance off, highlights clipped, no flip, quality, black or saturation
/// override (-1), thresholds 0.01 and 0.75, exposure correction on with shift
/// 1.0 and preservation 0.0, DCB with default passes (-1) and enhancement on,
/// Fuji rotation left to LibRaw (-1), Phase One correction on, and every
/// other switch off.
pub proof fn lemma_default_values(p: RawOutputParams)
    requires
        is_default_params(p),
    ensures
        p.half_size == 0i32,
        p.no_auto_bright == 0i32,
        p.output_color == 1i32,
        p.output_bps == 8i32,
        p.bright == 0x3f80_0000u32,
        p.threshold == 0u32,
        p.four_color_rgb == 0i32,
        p.highlight == 0i32,
        p.use_auto_wb == 0i32,
        p.use_camera_wb == 0i32,
        p.use_camera_matrix == 1i32,
        p.output_tiff == 0i32,
        p.output_flags == 0i32,
        p.user_flip == -1i32,
        p.user_qual == -1i32,
        p.user_black == -1i32,
        p.user_sat == -1i32,
        p.med_passes == 0i32,
        p.auto_bright_thr == 0x3c23_d70au32,
        p.adjust_maximum_thr == 0x3f40_0000u32,
        p.use_fuji_rotate == -1i32,
        p.use_p1_correction == 1i32,
        p.green_matching == 0i32,
        p.dcb_iterations == -1i32,
        p.dcb_enhance_fl == 1i32,
        p.fbdd_noiserd == 0i32,
        p.exp_correc == 1i32,
        p.exp_shift == 0x3f80_0000u32,
        p.exp_preser == 0u32,
        p.no_auto_scale == 0i32,
        p.no_interpolation == 0i32,
        forall|i: int| 0 <= i < 4 ==> p.user_cblack@[i] == -1i32,
        forall|i: int| 0 <= i < 4 ==> p.user_mul@[i] == 0u32,
        forall|i: int| 0 <= i < 4 ==> p.aber@[i] == 0u64,
        forall|i: int| 0 <= i < 4 ==> p.cropbox@[i] == 0u32,
        forall|i: int| 0 <= i < 6 ==> p.gamm@[i] == 0u64,
        p.greybox@[0] == 0u32 && p.greybox@[1] == 0u32 && p.greybox@[2] == 0xffffu32
            && p.greybox@[3] == 0u32,
{
}

/// Output parameters, built by chaining setters on [`OutputParams::default`].
#[derive(Debug, Clone, Copy)]
pub struct OutputParams {
    pub inner: RawOutputParams,
}

impl Default for OutputParams {
    fn default() -> (p: Self)
        ensures
            is_default_params(p.inner),
    {
        let inner = RawOutputParams {
            greybox: [0, 0, 0xffff, 0],
            cropbox: [0, 0, 0, 0],
            aber: [0, 0, 0, 0],
            gamm: [0, 0, 0, 0, 0, 0],
            user_mul: [0, 0, 0, 0],
            bright: FLOAT_ONE_BITS,
            threshold: 0,
            half_size: 0,
            four_color_rgb: 0,
            highlight: 0,
            use_auto_wb: 0,
            use_camera_wb: 0,
            use_camera_matrix: 1,
            output_color: 1,
            output_bps: 8,
            output_tiff: 0,
            output_flags: 0,
            user_flip: -1,
            user_qual: -1,
            user_black: -1,
            user_cblack: [-1, -1, -1, -1],
            user_sat: -1,
            med_passes: 0,
            auto_bright_thr: DEFAULT_AUTO_BRIGHTNESS_THRESHOLD_BITS,
            adjust_maximum_thr: DEFAULT_ADJUST_MAXIMUM_THRESHOLD_BITS,
            no_auto_bright: 0,
            use_fuji_rotate: -1,
            use_p1_correction: 1,
            green_matching: 0,
            dcb_iterations: -1,
            dcb_enhance_fl: 1,
            fbdd_noiserd: 0,
            exp_correc: 1,
            exp_shift: FLOAT_ONE_BITS,
            exp_preser: 0,
            no_auto_scale: 0,
            no_interpolation: 0,
        };
        assert(inner.greybox@ =~= seq![0u32, 0u32, 0xffffu32, 0u32]);
        assert(inner.cropbox@ =~= seq![0u32, 0u32, 0u32, 0u32]);
        assert(inner.aber@ =~= seq![0u64, 0u64, 0u64, 0u64]);
        assert(inner.gamm@ =~= seq![0u64, 0u64, 0u64, 0u64, 0u64, 0u64]);
        assert(inner.user_mul@ =~= seq![0u32, 0u32, 0u32, 0u32]);
        assert(inner.user_cblack@ =~= seq![-1i32, -1i32, -1i32, -1i32]);
        OutputParams { inner }
    }
}

impl OutputParams {
    /// Sets the output color space.
    pub fn output_color(self, color: OutputColor) -> (r: Self)
        ensures
            r.inner == (RawOutputParams { output_color: color.libraw_code(), ..self.inner }),
    {
        let mut p = self;
        p.inner.output_color = color.code();
        p
    }

    /// Sets the bits per sample of the output (8 or 16).
    pub fn output_bps(self, bps: u8) -> (r: Self)
        ensures
            r.inner == (RawOutputParams { output_bps: bps as i32, ..self.inner }),
    {
        let mut p = self;
        p.inner.output_bps = bps as i32;
        p
    }

    /// Sets the highlight recovery mode.
    pub fn highlight_mode(self, mode: HighlightMode) -> (r: Self)
        ensures
            r.inner == (RawOutputParams { highlight: mode.libraw_code(), ..self.inner }),
    {
        let mut p = self;
        p.inner.highlight = mode.code();
        p
    }

    /// Switches automatic white balance.
    pub fn use_auto_wb(self, on: bool) -> (r: Self)
        ensures
            r.inner == (RawOutputParams { use_auto_wb: flag(on), ..self.inner }),
    {
        let mut p = self;
        p.inner.use_auto_wb = flag_value(on);
        p
    }

    /// Switches the camera's own white balance.
    pub fn use_camera_wb(self, on: bool) -> (r: Self)
        ensures
            r.inner == (RawOutputParams { use_camera_wb: flag(on), ..self.inner }),
    {
        let mut p = self;
        p.inner.use_camera_wb = flag_value(on);
        p
    }

    /// Switches the camera's color matrix.
    pub fn use_camera_matrix(self, on: bool) -> (r: Self)
        ensures
            r.inner == (RawOutputParams { use_camera_matrix: flag(on), ..self.inner }),
    {
        let mut p = self;
        p.inner.use_camera_matrix = flag_value(on);
        p
    }

    /// Switches off automatic brightening.
    pub fn no_auto_bright(self, on: bool) -> (r: Self)
        ensures
            r.inner == (RawOutputParams { no_auto_bright: flag(on), ..self.inner }),
    {
        let mut p = self;
        p.inner.no_auto_bright = flag_value(on);
        p
    }

    /// Switches the rotation of Fuji sensors.
    pub fn use_fuji_rotate(self, on: bool) -> (r: Self)
        ensures
            r.inner == (RawOutputParams { use_fuji_rotate: flag(on), ..self.inner }),
    {
        let mut p = self;
        p.inner.use_fuji_rotate = flag_value(on);
        p
    }

    /// Switches half-size output.
    pub fn half_size(self, on: bool) -> (r: Self)
        ensures
            r.inner == (RawOutputParams { half_size: flag(on), ..self.inner }),
    {
        let mut p = self;
        p.inner.half_size = flag_value(on);
        p
    }

    /// Switches TIFF output (PPM when off).
    pub fn output_tiff(self, on: bool) -> (r: Self)
        ensures
            r.inner == (RawOutputParams { output_tiff: flag(on), ..self.inner }),
    {
        let mut p = self;
        p.inner.output_tiff = flag_value(on);
        p
    }

    /// Switches green channel matching.
    pub fn green_matching(self, on: bool) -> (r: Self)
        ensures
            r.inner == (RawOutputParams { green_matching: flag(on), ..self.inner }),
    {
        let mut p = self;
        p.inner.green_matching = flag_value(on);
        p
    }

    /// Switches DCB color enhancement.
    pub fn dcb_enhance(self, on: bool) -> (r: Self)
        ensures
            r.inner == (RawOutputParams { dcb_enhance_fl: flag(on), ..self.inner }),
    {
        let mut p = self;
        p.inner.dcb_enhance_fl = flag_value(on);
        p
    }

    /// Switches exposure correction before demosaicing.
    pub fn exp_correc(self, on: bool) -> (r: Self)
        ensures
            r.inner == (RawOutputParams { exp_correc: flag(on), ..self.inner }),
    {
        let mut p = self;
        p.inner.exp_correc = flag_value(on);
        p
    }

    /// Switches off automatic scaling.
    pub fn no_auto_scale(self, on: bool) -> (r: Self)
        ensures
            r.inner == (RawOutputParams { no_auto_scale: flag(on), ..self.inner }),
    {
        let mut p = self;
        p.inner.no_auto_scale = flag_value(on);
        p
    }

    /// Switches off demosaicing.
    pub fn no_interpolation(self, on: bool) -> (r: Self)
        ensures
            r.inner == (RawOutputParams { no_interpolation: flag(on), ..self.inner }),
    {
        let mut p = self;
        p.inner.no_interpolation = flag_value(on);
        p
    }

    /// Sets the image flip (LibRaw's `user_flip`; -1 keeps the file's).
    pub fn user_flip(self, flip: i32) -> (r: Self)
        ensures
            r.inner == (RawOutputParams { user_flip: flip, ..self.inner }),
    {
        let mut p = self;
        p.inner.user_flip = flip;
        p
    }

    /// Sets the number of DCB correction passes.
    pub fn dcb_iterations(self, n: i32) -> (r: Self)
        ensures
            r.inner == (RawOutputParams { dcb_iterations: n, ..self.inner }),
    {
        let mut p = self;
        p.inner.dcb_iterations = n;
        p
    }

    /// Sets the FBDD noise reduction level.
    pub fn fbdd_noiserd(self, value: i32) -> (r: Self)
        ensures
            r.inner == (RawOutputParams { fbdd_noiserd: value, ..self.inner }),
    {
        let mut p = self;
        p.inner.fbdd_noiserd = value;
        p
    }

    /// Sets the brightness; `bits` is the bit pattern of the `float` value.
    pub fn brightness_bits(self, bits: u32) -> (r: Self)
        ensures
            r.inner == (RawOutputParams { bright: bits, ..self.inner }),
    {
        let mut p = self;
        p.inner.bright = bits;
        p
    }

    /// Sets the auto-brightness threshold; `bits` is the bit pattern of the `float` value.
    pub fn auto_bright_thr_bits(self, bits: u32) -> (r: Self)
        ensures
            r.inner == (RawOutputParams { auto_bright_thr: bits, ..self.inner }),
    {
        let mut p = self;
        p.inner.auto_bright_thr = bits;
        p
    }

    /// Sets the adjust-maximum threshold; `bits` is the bit pattern of the `float` value.
    pub fn adjust_maximum_thr_bits(self, bits: u32) -> (r: Self)
        ensures
            r.inner == (RawOutputParams { adjust_maximum_thr: bits, ..self.inner }),
    {
        let mut p = self;
        p.inner.adjust_maximum_thr = bits;
        p
    }

    /// Sets the exposure shift; `bits` is the bit pattern of the `float` value.
    pub fn exp_shift_bits(self, bits: u32) -> (r: Self)
        ensures
            r.inner == (RawOutputParams { exp_shift: bits, ..self.inner }),
    {
        let mut p = self;
        p.inner.exp_shift = bits;
        p
    }

    /// Sets the highlight preservation of the exposure shift; `bits` is the bit pattern of the `float` value.
    pub fn exp_preser_bits(self, bits: u32) -> (r: Self)
        ensures
            r.inner == (RawOutputParams { exp_preser: bits, ..self.inner }),
    {
        let mut p = self;
        p.inner.exp_preser = bits;
        p
    }

    /// Sets the user white-balance multiplier of channel `index` (below 4);
    /// `bits` is the bit pattern of the `float` value.
    pub fn user_mul_bits(self, index: usize, bits: u32) -> (r: Self)
        requires
            index < 4,
        ensures
            r.inner == (RawOutputParams { user_mul: r.inner.user_mul, ..self.inner }),
            r.inner.user_mul@ == self.inner.user_mul@.update(index as int, bits),
    {
        let mut p = self;
        p.inner.user_mul[index] = bits;
        p
    }

    /// Sets the gamma curve: `power` and `slope` are the bit patterns of the
    /// `double` values, the remaining four entries become 0.0.
    pub fn gamma_bits(self, power: u64, slope: u64) -> (r: Self)
        ensures
            r.inner == (RawOutputParams { gamm: r.inner.gamm, ..self.inner }),
            r.inner.gamm@ == seq![power, slope, 0u64, 0u64, 0u64, 0u64],
    {
        let mut p = self;
        p.inner.gamm = [power, slope, 0, 0, 0, 0];
        assert(p.inner.gamm@ =~= seq![power, slope, 0u64, 0u64, 0u64, 0u64]);
        p
    }
}

} // verus!
