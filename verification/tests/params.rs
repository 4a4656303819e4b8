use libraw_rs::params::{
    DEFAULT_ADJUST_MAXIMUM_THRESHOLD_BITS, DEFAULT_AUTO_BRIGHTNESS_THRESHOLD_BITS,
};
use libraw_rs::{HighlightMode, OutputColor, OutputParams};

#[test]
fn test_default_params() {
    let p = OutputParams::default();
    assert_eq!(p.inner.output_color, 1);
    assert_eq!(p.inner.output_bps, 8);
    assert_eq!(f32::from_bits(p.inner.bright), 1.0);
}

#[test]
fn test_builder_chain() {
    let p = OutputParams::default()
        .output_color(OutputColor::AdobeRgb)
        .output_bps(16)
        .highlight_mode(HighlightMode::Blend)
        .use_camera_wb(true)
        .brightness_bits(1.2f32.to_bits());
    assert_eq!(p.inner.output_color, 2);
    assert_eq!(p.inner.output_bps, 16);
    assert_eq!(p.inner.highlight, 2);
    assert_eq!(p.inner.use_camera_wb, 1);
    assert_eq!(f32::from_bits(p.inner.bright), 1.2);
}

#[test]
fn default_thresholds_are_libraw_defaults() {
    let p = OutputParams::default();
    assert_eq!(f32::from_bits(p.inner.auto_bright_thr), 0.01f64 as f32);
    assert_eq!(f32::from_bits(p.inner.adjust_maximum_thr), 0.75f64 as f32);
    assert_eq!(p.inner.auto_bright_thr, DEFAULT_AUTO_BRIGHTNESS_THRESHOLD_BITS);
    assert_eq!(p.inner.adjust_maximum_thr, DEFAULT_ADJUST_MAXIMUM_THRESHOLD_BITS);
    assert_eq!(f32::from_bits(p.inner.exp_shift), 1.0);
    assert_eq!(p.inner.greybox, [0, 0, 0xffff, 0]);
    assert_eq!(p.inner.user_cblack, [-1; 4]);
    assert_eq!(p.inner.user_flip, -1);
    assert_eq!(p.inner.use_camera_matrix, 1);
    assert_eq!(p.inner.use_fuji_rotate, -1);
    assert_eq!(p.inner.dcb_iterations, -1);
    assert_eq!(p.inner.gamm, [0; 6]);
}

#[test]
fn enum_codes_follow_libraw() {
    let colors = [
        OutputColor::Raw,
        OutputColor::Srgb,
        OutputColor::AdobeRgb,
        OutputColor::WideGamut,
        OutputColor::ProPhoto,
        OutputColor::Xyz,
    ];
    for (i, c) in colors.iter().enumerate() {
        assert_eq!(c.code(), i as i32);
    }
    assert_eq!(HighlightMode::Clip.code(), 0);
    assert_eq!(HighlightMode::Rebuild.code(), 3);
}

#[test]
fn setters_change_only_their_field() {
    let d = OutputParams::default();
    let p = d.half_size(true).no_interpolation(true).user_flip(3).dcb_iterations(2).fbdd_noiserd(1);
    assert_eq!(p.inner.half_size, 1);
    assert_eq!(p.inner.no_interpolation, 1);
    assert_eq!(p.inner.user_flip, 3);
    assert_eq!(p.inner.dcb_iterations, 2);
    assert_eq!(p.inner.fbdd_noiserd, 1);
    assert_eq!(p.inner.output_color, d.inner.output_color);
    assert_eq!(p.inner.bright, d.inner.bright);
    let q = p.half_size(false).use_camera_matrix(false);
    assert_eq!(q.inner.half_size, 0);
    assert_eq!(q.inner.use_camera_matrix, 0);
}

#[test]
fn float_setters_store_bit_patterns() {
    let p = OutputParams::default()
        .user_mul_bits(2, 1.5f32.to_bits())
        .gamma_bits(0.45f64.to_bits(), 4.5f64.to_bits())
        .exp_shift_bits(2.0f32.to_bits())
        .exp_preser_bits(0.5f32.to_bits())
        .auto_bright_thr_bits(0.02f32.to_bits())
        .adjust_maximum_thr_bits(0.5f32.to_bits());
    assert_eq!(p.inner.user_mul, [0, 0, 1.5f32.to_bits(), 0]);
    assert_eq!(f64::from_bits(p.inner.gamm[0]), 0.45);
    assert_eq!(f64::from_bits(p.inner.gamm[1]), 4.5);
    assert_eq!(&p.inner.gamm[2..], &[0, 0, 0, 0]);
    assert_eq!(f32::from_bits(p.inner.exp_shift), 2.0);
    assert_eq!(f32::from_bits(p.inner.exp_preser), 0.5);
    assert_eq!(f32::from_bits(p.inner.auto_bright_thr), 0.02);
    assert_eq!(f32::from_bits(p.inner.adjust_maximum_thr), 0.5);
}
