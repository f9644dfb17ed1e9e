use candlestick_chart::volume_pane::VolumePane;
use candlestick_chart::y_axis::{RowCoord, YAxis};
use candlestick_chart::{Candle, CandleType};

#[test]
fn coordinate_map_is_affine() {
    // Range 0..100 over height 11: price p maps to 1 + p / 10.
    let axis = YAxis::new(0, 100, 11);
    let c = axis.price_to_height(50);
    assert_eq!(c.num as f64 / c.den as f64, 6.0);
    let lo = axis.price_to_height(0);
    assert_eq!(lo.num as f64 / lo.den as f64, 1.0);
    let hi = axis.price_to_height(100);
    assert_eq!(hi.num as f64 / hi.den as f64, 11.0);
}

#[test]
fn coordinate_map_keeps_fractions_exact() {
    // Range 0..3 over height 3: price 1 maps to 1 + 2/3.
    let axis = YAxis::new(0, 3, 3);
    let c = axis.price_to_height(1);
    assert_eq!((c.num, c.den), (5, 3));
}

#[test]
fn from_quarters_places_quarter_rows() {
    let c = RowCoord::from_quarters(21);
    assert_eq!((c.num, c.den), (21, 4));
    assert_eq!(c.num as f64 / c.den as f64, 5.25);
}

#[test]
fn labels_are_right_aligned_prices() {
    let axis = YAxis::new(0, 100, 11);
    assert_eq!(axis.render_line(6), "         50┤");
    assert_eq!(axis.render_line(1), "          0┤");
    assert_eq!(axis.render_line(10), "         90┤");
}

#[test]
fn labels_show_negative_prices() {
    let axis = YAxis::new(-100, -50, 6);
    assert_eq!(axis.render_line(1), "       -100┤");
    assert_eq!(axis.render_line(2), "        -90┤");
}

#[test]
fn blank_label_is_axis_wide() {
    let axis = YAxis::new(0, 1, 5);
    assert_eq!(axis.render_empty(), "            ");
    assert_eq!(axis.render_empty().chars().count(), 12);
}

#[test]
fn degenerate_price_range_labels_min() {
    let axis = YAxis::new(42, 42, 10);
    assert_eq!(axis.render_line(3), "         42┤");
}

#[test]
fn volume_bars_scale_to_pane_height() {
    let pane = VolumePane::new(4);
    let full = Candle::new(1, 2, 0, 1, Some(100), None);
    let half = Candle::new(2, 3, 1, 1, Some(50), None);

    for y in 1..=4 {
        let (t, s) = pane.render(&full, y, 100);
        assert!(matches!(t, CandleType::Bearish));
        assert_eq!(s, "┃");
    }
    let (t, s) = pane.render(&half, 2, 100);
    assert!(matches!(t, CandleType::Bearish));
    assert_eq!(s, "┃");
    let (_, s) = pane.render(&half, 3, 100);
    assert_eq!(s, " ");
}

#[test]
fn volume_bar_empty_without_volume() {
    let pane = VolumePane::new(4);
    let c = Candle::new(1, 2, 0, 2, None, None);
    for y in 1..=4 {
        let (_, s) = pane.render(&c, y, 100);
        assert_eq!(s, " ");
    }
}

#[test]
fn volume_bar_empty_when_max_is_zero() {
    let pane = VolumePane::new(4);
    let c = Candle::new(1, 2, 0, 2, Some(0), None);
    let (_, s) = pane.render(&c, 1, 0);
    assert_eq!(s, " ");
}

#[test]
fn volume_fill_character_is_used() {
    let mut pane = VolumePane::new(2);
    pane.unicode_fill = '#';
    let c = Candle::new(1, 2, 0, 2, Some(10), None);
    let (_, s) = pane.render(&c, 1, 10);
    assert_eq!(s, "#");
}
