use candlestick_chart::candle_set::CandleSet;
use candlestick_chart::chart_data::ChartData;
use candlestick_chart::info_bar::InfoBar;
use candlestick_chart::volume_pane::VolumePane;
use candlestick_chart::{Candle, CandleType, Chart};

fn candle(open: i64, high: i64, low: i64, close: i64) -> Candle {
    Candle::new(open, high, low, close, None, None)
}

#[test]
fn tie_break_is_bearish() {
    for price in [-1000i64, -1, 0, 1, 42, 1_000_000] {
        let c = candle(price, price, price, price);
        assert!(matches!(c.get_type(), CandleType::Bearish));
    }
}

#[test]
fn classification_follows_open_close() {
    assert!(matches!(candle(10, 20, 5, 15).get_type(), CandleType::Bullish));
    assert!(matches!(candle(15, 20, 5, 10).get_type(), CandleType::Bearish));
    assert!(matches!(candle(10, 20, 5, 10).get_type(), CandleType::Bearish));
}

#[test]
fn visible_window_is_suffix() {
    let candles: Vec<Candle> = (0..5).map(|i| candle(i, i + 2, i - 1, i + 1)).collect();
    // 15 columns leave 15 - 12 = 3 candle columns.
    let data = ChartData::new_with_canvas_size(candles.clone(), (15, 20));
    assert_eq!(data.main_candle_set.candles.len(), 5);
    assert_eq!(data.visible_candle_set.candles.len(), 3);
    for i in 0..3 {
        assert_eq!(data.visible_candle_set.candles[i].open, candles[2 + i].open);
        assert_eq!(data.visible_candle_set.candles[i].close, candles[2 + i].close);
    }
}

#[test]
fn visible_window_shows_all_when_few() {
    let candles: Vec<Candle> = (0..2).map(|i| candle(i, i + 2, i - 1, i + 1)).collect();
    let data = ChartData::new_with_canvas_size(candles, (40, 20));
    assert_eq!(data.visible_candle_set.candles.len(), 2);
}

#[test]
fn visible_window_empty_when_axis_fills_canvas() {
    let candles: Vec<Candle> = (0..4).map(|i| candle(i, i + 2, i - 1, i + 1)).collect();
    // 12 columns leave nothing right of the axis; neither do 5.
    let narrow = ChartData::new_with_canvas_size(candles.clone(), (12, 20));
    assert_eq!(narrow.visible_candle_set.candles.len(), 0);
    let narrower = ChartData::new_with_canvas_size(candles, (5, 20));
    assert_eq!(narrower.visible_candle_set.candles.len(), 0);
}

#[test]
fn visible_window_recomputes_on_resize() {
    let candles: Vec<Candle> = (0..5).map(|i| candle(i, i + 2, i - 1, i + 1)).collect();
    let mut data = ChartData::new_with_canvas_size(candles, (15, 20));
    assert_eq!(data.visible_candle_set.candles.len(), 3);
    data.canvas_size = (13, 20);
    data.compute_visible_candles();
    assert_eq!(data.visible_candle_set.candles.len(), 1);
    assert_eq!(data.visible_candle_set.candles[0].open, 4);
}

#[test]
fn plot_height_subtracts_enabled_panes() {
    let mut data = ChartData::new_with_canvas_size(Vec::new(), (40, 20));
    let mut info = InfoBar::new(String::from("X"));
    let vol = VolumePane::new(4);

    data.compute_height(&info, &vol);
    assert_eq!(data.height, 20 - 3 - 4);

    info.enabled = false;
    data.compute_height(&info, &vol);
    assert_eq!(data.height, 20 - 4);

    let mut vol_off = VolumePane::new(4);
    vol_off.enabled = false;
    data.compute_height(&info, &vol_off);
    assert_eq!(data.height, 20);

    info.enabled = true;
    data.compute_height(&info, &vol_off);
    assert_eq!(data.height, 17);
}

#[test]
fn plot_height_not_clamped_below_zero() {
    let mut data = ChartData::new_with_canvas_size(Vec::new(), (40, 4));
    let info = InfoBar::new(String::from("X"));
    let vol = VolumePane::new(10);
    data.compute_height(&info, &vol);
    assert_eq!(data.height, 4 - 3 - 10);
}

#[test]
fn render_is_deterministic() {
    let candles: Vec<Candle> = vec![
        Candle::new(10, 30, 5, 25, Some(100), Some(0)),
        Candle::new(25, 40, 20, 22, Some(50), Some(1)),
        Candle::new(22, 28, 15, 27, None, Some(2)),
    ];
    let chart = Chart::new_with_canvas_size(&candles, (30, 24));
    let first = chart.draw_to_buffer();
    let second = chart.draw_to_buffer();
    assert_eq!(first.lines.len(), second.lines.len());
    for (a, b) in first.lines.iter().zip(second.lines.iter()) {
        assert_eq!(a.axis_component, b.axis_component);
        assert_eq!(a.samples.len(), b.samples.len());
        for (sa, sb) in a.samples.iter().zip(b.samples.iter()) {
            assert_eq!(sa.content, sb.content);
            assert!(
                matches!(
                    (sa.candle_type, sb.candle_type),
                    (CandleType::Bearish, CandleType::Bearish)
                        | (CandleType::Bullish, CandleType::Bullish)
                )
            );
        }
    }
}

#[test]
fn empty_input_renders_axis_only_lines() {
    let chart = Chart::new_with_canvas_size(&[], (40, 20));
    let rendered = chart.draw_to_buffer();
    // Plot height 20 - 3 (info bar) - 3 (volume pane, 20 / 6) = 14:
    // rows 13 down to 1, then 3 volume rows.
    assert_eq!(rendered.lines.len(), 13 + 3);
    for line in rendered.lines.iter() {
        assert_eq!(line.samples.len(), 0);
        assert!(!line.axis_component.is_empty());
    }
}

#[test]
fn degenerate_viewport_renders_no_plot_rows() {
    let candles = vec![candle(10, 20, 5, 15)];
    let mut chart = Chart::new_with_canvas_size(&candles, (40, 5));
    chart.set_volume_pane_height(10);
    let rendered = chart.draw_to_buffer();
    // Plot height 5 - 3 - 10 is negative: no plot rows, only the 10
    // volume-pane rows survive.
    assert_eq!(rendered.lines.len(), 10);
    for line in rendered.lines.iter() {
        assert_eq!(line.samples.len(), 1);
    }
}

#[test]
fn height_recomputed_between_renders() {
    let candles = vec![candle(10, 20, 5, 15)];
    let mut chart = Chart::new_with_canvas_size(&candles, (40, 24));
    // 24 rows - 3 info - 4 volume = 17: rows 16..1, plus 4 volume rows.
    chart.set_volume_pane_height(4);
    assert_eq!(chart.draw_to_buffer().lines.len(), 16 + 4);
    chart.set_info_bar_enabled(false);
    assert_eq!(chart.draw_to_buffer().lines.len(), 19 + 4);
    chart.set_volume_pane_enabled(false);
    assert_eq!(chart.draw_to_buffer().lines.len(), 23);
}

#[test]
fn single_bullish_candle_renders_full_bodies() {
    // 13 columns leave one candle column; panes off leave height 6:
    // rows 5..1, and the candle's body spans the whole price range.
    let candles = vec![candle(0, 10, 0, 10)];
    let mut chart = Chart::new_with_canvas_size(&candles, (13, 6));
    chart.set_info_bar_enabled(false);
    chart.set_volume_pane_enabled(false);
    let rendered = chart.draw_to_buffer();
    assert_eq!(rendered.lines.len(), 5);
    let expected_prices = [8, 6, 4, 2, 0];
    for (k, line) in rendered.lines.iter().enumerate() {
        let expected_label = format!("{:>11}┤", expected_prices[k]);
        assert_eq!(line.axis_component, expected_label);
        assert_eq!(line.samples.len(), 1);
        assert_eq!(line.samples[0].content, "┃");
        assert!(matches!(line.samples[0].candle_type, CandleType::Bullish));
    }
}

#[test]
fn max_volume_ignores_missing_volumes() {
    let set = CandleSet::new(vec![
        Candle::new(1, 2, 0, 1, Some(7), None),
        Candle::new(1, 2, 0, 1, None, None),
        Candle::new(1, 2, 0, 1, Some(11), None),
    ]);
    assert_eq!(set.max_volume(), 11);
    assert_eq!(set.min_low(), 0);
    assert_eq!(set.max_high(), 2);
}

#[test]
fn extrema_of_empty_set_are_zero() {
    let set = CandleSet::new(Vec::new());
    assert_eq!(set.min_low(), 0);
    assert_eq!(set.max_high(), 0);
    assert_eq!(set.max_volume(), 0);
}
