use candlestick_chart::chart_renderer::{classify_glyph, ChartRenderer, Glyph};
use candlestick_chart::y_axis::{RowCoord, YAxis};
use candlestick_chart::{Candle, CandleType};

/// The exact rational `num / den` as a row coordinate.
fn coord(num: i128, den: i128) -> RowCoord {
    RowCoord { num, den }
}

/// Classifies row `y` for a candle whose high, low, body-top and
/// body-bottom map to the given coordinates.
fn glyph(high: RowCoord, low: RowCoord, top: RowCoord, bot: RowCoord, y: i64) -> Glyph {
    classify_glyph(&high, &low, &top, &bot, y)
}

#[test]
fn body_zone_renders_full_body() {
    // Body spans rows 3..7, row 5 is strictly inside.
    let g = glyph(coord(8, 1), coord(2, 1), coord(7, 1), coord(3, 1), 5);
    assert_eq!(g, Glyph::Body);
}

#[test]
fn upper_zone_body_edge_high_in_row() {
    // Body top at 5.8: more than three quarters above the row base, the
    // body fills the whole row.
    let g = glyph(coord(8, 1), coord(2, 1), coord(29, 5), coord(3, 1), 5);
    assert_eq!(g, Glyph::Body);
}

#[test]
fn upper_zone_half_body() {
    // Body top at 5.5 with the high in the same row: half body.
    let g = glyph(coord(11, 2), coord(2, 1), coord(11, 2), coord(3, 1), 5);
    assert_eq!(g, Glyph::HalfBodyBottom);
}

#[test]
fn upper_zone_body_meeting_wick() {
    // Body top at 5.5, wick going on past 5.75: body meets wick.
    let g = glyph(coord(6, 1), coord(2, 1), coord(11, 2), coord(3, 1), 5);
    assert_eq!(g, Glyph::Top);
}

#[test]
fn upper_zone_full_wick() {
    // Body top exactly on the row base, wick crossing the row.
    let g = glyph(coord(6, 1), coord(2, 1), coord(5, 1), coord(3, 1), 5);
    assert_eq!(g, Glyph::Wick);
}

#[test]
fn upper_zone_quarter_wick() {
    // Wick ending at 5.5: a short wick in the upper part of the row.
    let g = glyph(coord(11, 2), coord(2, 1), coord(5, 1), coord(3, 1), 5);
    assert_eq!(g, Glyph::UpperWick);
}

#[test]
fn upper_zone_quarter_threshold_is_strict() {
    // Wick ending exactly at 5.25 does not cross the strict quarter
    // threshold: the cell stays empty.
    let g = glyph(coord(21, 4), coord(2, 1), coord(5, 1), coord(3, 1), 5);
    assert_eq!(g, Glyph::Void);
}

#[test]
fn degenerate_candle_on_row_boundary() {
    // All four coordinates exactly on row 5: the upper-wick zone claims
    // the row first and none of its thresholds is crossed.
    let c = coord(5, 1);
    let g = glyph(c, c, c, c, 5);
    assert_eq!(g, Glyph::Void);
}

#[test]
fn lower_zone_body_edge_low_in_row() {
    // Body bottom at 5.2, low below the plot row: body fills the row.
    let g = glyph(coord(8, 1), coord(4, 1), coord(7, 1), coord(26, 5), 5);
    assert_eq!(g, Glyph::Body);
}

#[test]
fn lower_zone_body_meeting_wick() {
    // Body bottom at 5.5, low at 5.2: body above, wick just below.
    let g = glyph(coord(8, 1), coord(26, 5), coord(7, 1), coord(11, 2), 5);
    assert_eq!(g, Glyph::Bottom);
}

#[test]
fn lower_zone_half_body() {
    // Body bottom at 5.5, low exactly at 5.25: upper half body.
    let g = glyph(coord(8, 1), coord(21, 4), coord(7, 1), coord(11, 2), 5);
    assert_eq!(g, Glyph::HalfBodyTop);
}

#[test]
fn lower_zone_full_wick() {
    // Body bottom at 5.75, low at 5.0: the wick crosses the row.
    let g = glyph(coord(8, 1), coord(5, 1), coord(7, 1), coord(23, 4), 5);
    assert_eq!(g, Glyph::Wick);
}

#[test]
fn lower_zone_quarter_wick() {
    // Body bottom at 5.75, low at 5.5: a short wick low in the row.
    let g = glyph(coord(8, 1), coord(11, 2), coord(7, 1), coord(23, 4), 5);
    assert_eq!(g, Glyph::LowerWick);
}

#[test]
fn candle_outside_row_is_void() {
    // The whole candle sits below row 9.
    let g = glyph(coord(6, 1), coord(2, 1), coord(5, 1), coord(3, 1), 9);
    assert_eq!(g, Glyph::Void);
}

#[test]
fn glyph_strings() {
    assert_eq!(Glyph::Void.as_str(), " ");
    assert_eq!(Glyph::Body.as_str(), "┃");
    assert_eq!(Glyph::HalfBodyBottom.as_str(), "╻");
    assert_eq!(Glyph::HalfBodyTop.as_str(), "╹");
    assert_eq!(Glyph::Wick.as_str(), "│");
    assert_eq!(Glyph::Top.as_str(), "╽");
    assert_eq!(Glyph::Bottom.as_str(), "╿");
    assert_eq!(Glyph::UpperWick.as_str(), "╷");
    assert_eq!(Glyph::LowerWick.as_str(), "╵");
}

#[test]
fn render_candle_picks_body_glyph() {
    let axis = YAxis::new(0, 10, 6);
    let renderer = ChartRenderer::new();
    let candle = Candle::new(0, 10, 0, 10, None, None);
    let (t, s) = renderer.render_candle(&candle, 3, &axis);
    assert!(matches!(t, CandleType::Bullish));
    assert_eq!(s, "┃");
}

#[test]
fn render_candle_void_above_high() {
    let axis = YAxis::new(0, 100, 20);
    let renderer = ChartRenderer::new();
    // High maps to coordinate 1 + 40 * 19 / 100 = 8.6: row 12 is empty.
    let candle = Candle::new(10, 40, 5, 30, None, None);
    let (_, s) = renderer.render_candle(&candle, 12, &axis);
    assert_eq!(s, " ");
}
