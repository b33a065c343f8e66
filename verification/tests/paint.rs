use vitruvia::paint::Color;
use vitruvia::paint::GradientStop;
use vitruvia::paint::OFFSET_UNIT;

#[test]
fn black_is_opaque() {
    assert_eq!(Color::black(), Color { r: 0, g: 0, b: 0, a: 255 });
}

#[test]
fn with_alpha_replaces_only_the_alpha_channel() {
    let c = Color::rgba(10, 20, 30, 255).with_alpha(40);
    assert_eq!(c, Color { r: 10, g: 20, b: 30, a: 40 });
}

#[test]
fn gradient_stops_span_the_unit_range() {
    let start = GradientStop { offset: 0, color: Color::black() };
    let end = GradientStop { offset: OFFSET_UNIT, color: Color::black() };
    assert!(start.offset < end.offset);
    assert_eq!(OFFSET_UNIT, 1000000);
}
