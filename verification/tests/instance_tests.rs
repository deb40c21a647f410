use forte_ui::fixed::FX_ONE;
use forte_ui::instance::{encode_instance, ndc_decode, ndc_encode, radius_encode, scale_decode};
use forte_ui::style::{Sizing, Style, Vec2};

fn px(pixels: i64) -> Sizing {
    Sizing::Px(pixels * FX_ONE)
}

fn display_400() -> Vec2 {
    Vec2 { x: 400 * FX_ONE, y: 400 * FX_ONE }
}

#[test]
fn radius_normalization_law() {
    // round=20 on a 100x50 box -> encoded radius 20/100 = 0.2
    let mut s = Style::default();
    s.round = px(20);
    s.width = px(100);
    s.height = px(50);
    let inst = encode_instance(
        &s,
        Vec2 { x: 0, y: 0 },
        Vec2 { x: 100 * FX_ONE, y: 50 * FX_ONE },
        display_400(),
        FX_ONE / 2,
    );
    assert_eq!(inst.corner_radius, FX_ONE / 5);
    assert_eq!(inst.border_radius, 0);
}

#[test]
fn zero_area_box_encodes_zero_radius() {
    let mut s = Style::default();
    s.round = px(20);
    s.border = px(4);
    let inst = encode_instance(
        &s,
        Vec2 { x: 0, y: 0 },
        Vec2 { x: 0, y: 0 },
        display_400(),
        FX_ONE / 2,
    );
    assert_eq!(inst.corner_radius, 0);
    assert_eq!(inst.border_radius, 0);
    assert_eq!(radius_encode(20 * FX_ONE, 0), 0);
    assert_eq!(radius_encode(20 * FX_ONE, -5 * FX_ONE), 0);
}

#[test]
fn ndc_mapping_known_values() {
    let d = 400 * FX_ONE;
    // center of the display maps to 0
    assert_eq!(ndc_encode(200 * FX_ONE, d), 0);
    // left edge maps to -1, right edge to +1
    assert_eq!(ndc_encode(0, d), -FX_ONE);
    assert_eq!(ndc_encode(400 * FX_ONE, d), FX_ONE);
    // 150 maps to -0.25
    assert_eq!(ndc_encode(150 * FX_ONE, d), -FX_ONE / 4);
}

#[test]
fn encoded_instance_fields() {
    let mut s = Style::default();
    s.width = px(100);
    s.height = px(100);
    s.rotation = 45 * FX_ONE;
    let inst = encode_instance(
        &s,
        Vec2 { x: 150 * FX_ONE, y: 150 * FX_ONE },
        Vec2 { x: 100 * FX_ONE, y: 100 * FX_ONE },
        display_400(),
        FX_ONE / 2,
    );
    // center (200, 200) -> ndc (0, 0); scale 100/400 = 0.25
    assert_eq!(inst.ndc_x, 0);
    assert_eq!(inst.ndc_y, 0);
    assert_eq!(inst.scale_x, FX_ONE / 4);
    assert_eq!(inst.scale_y, FX_ONE / 4);
    assert_eq!(inst.layer, FX_ONE / 2);
    assert_eq!(inst.rotation, 45 * FX_ONE);
    assert_eq!(inst.color, s.color);
    assert_eq!(inst.border_color, s.border_color);
}

#[test]
fn transform_round_trip_exact() {
    // encoding then decoding recovers (center, size, rotation) exactly when
    // the divisions are exact
    let d = 400 * FX_ONE;
    let center = 150 * FX_ONE;
    let size = 100 * FX_ONE;
    let ndc = ndc_encode(center, d);
    assert_eq!(ndc_decode(ndc, d), center);
    let mut s = Style::default();
    s.rotation = 30 * FX_ONE;
    s.width = px(100);
    s.height = px(100);
    let inst = encode_instance(
        &s,
        Vec2 { x: 100 * FX_ONE, y: 100 * FX_ONE },
        Vec2 { x: size, y: size },
        display_400(),
        FX_ONE / 2,
    );
    assert_eq!(ndc_decode(inst.ndc_x, d), 150 * FX_ONE);
    assert_eq!(ndc_decode(inst.ndc_y, d), 150 * FX_ONE);
    assert_eq!(scale_decode(inst.scale_x, d), size);
    assert_eq!(scale_decode(inst.scale_y, d), size);
    assert_eq!(inst.rotation, 30 * FX_ONE);
}

#[test]
fn transform_round_trip_within_tolerance() {
    // an inexact division still comes back within one fixed-point unit of
    // pixels
    let d = 400 * FX_ONE;
    let center = 151 * FX_ONE + 7;
    let back = ndc_decode(ndc_encode(center, d), d);
    let err_px = (back - center).abs() as f64 / FX_ONE as f64;
    assert!(err_px < 0.001, "round trip error {} px", err_px);

    // and the fixed-point NDC value tracks the exact real-valued mapping
    let ndc = ndc_encode(center, d) as f64 / FX_ONE as f64;
    let exact = 2.0 * (center as f64 / d as f64) - 1.0;
    assert!((ndc - exact).abs() < 2e-6);
}
