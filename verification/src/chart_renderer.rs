//! The sub-cell rasterizer: for every plot row and every visible candle
//! it classifies the candle's geometric overlap with the row into one of
//! nine glyphs, then assembles the rendered frame line by line.
//!
//! A row `y` spans the coordinate interval `[y, y + 1)`.  An edge of the
//! candle that crosses a row is quantized against the quarter marks of
//! that interval (the `1/4` and `3/4` thresholds below), so a boundary
//! crossing a row near its top renders differently from one crossing
//! near its bottom, although both fall in the same integer row.

use vstd::prelude::*;

use crate::candle_set::{spec_max_high, spec_max_volume, spec_min_low};
use crate::chart::{Candle, CandleType, Chart, RenderedChart, RenderedLine, RenderedSample};
use crate::chart_data::spec_plot_height;
use crate::info_bar::INFO_BAR_HEIGHT;
use crate::volume_pane::{spec_vol_cell, VolumePane};
use crate::y_axis::{spec_blank_label, spec_label, spec_price_to_height, RowCoord, YAxis};

verus! {

/// The glyph drawn in one character cell of the candle plot.
#[derive(Debug, Clone, Copy, PartialEq, Eq, Structural)]
pub enum Glyph {
    /// No part of the candle reaches this row.
    Void,
    /// The body fills the row.
    Body,
    /// The body fills the lower half of the row.
    HalfBodyBottom,
    /// The body fills the upper half of the row.
    HalfBodyTop,
    /// The wick crosses the whole row.
    Wick,
    /// A wick in the upper half of the row meeting a body below.
    Top,
    /// A body in the upper half of the row meeting a wick below.
    Bottom,
    /// A short wick in the upper quarter of the row.
    UpperWick,
    /// A short wick in the lower quarter of the row.
    LowerWick,
}

/// The character each glyph renders as.
pub open spec fn glyph_seq(g: Glyph) -> Seq<char> {
    match g {
        Glyph::Void => " "@,
        Glyph::Body => "┃"@,
        Glyph::HalfBodyBottom => "╻"@,
        Glyph::HalfBodyTop => "╹"@,
        Glyph::Wick => "│"@,
        Glyph::Top => "╽"@,
        Glyph::Bottom => "╿"@,
        Glyph::UpperWick => "╷"@,
        Glyph::LowerWick => "╵"@,
    }
}

/// `ceil(c) >= y`: the coordinate lies strictly above the row below `y`.
pub open spec fn coord_ceil_ge(c: RowCoord, y: int) -> bool {
    c.num > c.den * (y - 1)
}

/// `floor(c) <= y`: the coordinate lies strictly below the row above `y`.
pub open spec fn coord_floor_le(c: RowCoord, y: int) -> bool {
    c.num < c.den * (y + 1)
}

/// `floor(c) >= y`: the coordinate is at least `y`.
pub open spec fn coord_floor_ge(c: RowCoord, y: int) -> bool {
    c.num >= c.den * y
}

/// `ceil(c) <= y`: the coordinate is at most `y`.
pub open spec fn coord_ceil_le(c: RowCoord, y: int) -> bool {
    c.num <= c.den * y
}

/// `c - y > q/4`: the coordinate sits more than `q` quarter-rows above
/// the bottom edge of row `y`.
pub open spec fn coord_above_quarters(c: RowCoord, y: int, q: int) -> bool {
    4 * c.num > c.den * (4 * y + q)
}

/// `c - y < q/4`: the coordinate sits less than `q` quarter-rows above
/// the bottom edge of row `y`.
pub open spec fn coord_below_quarters(c: RowCoord, y: int, q: int) -> bool {
    4 * c.num < c.den * (4 * y + q)
}

/// The glyph for row `y` of a candle whose high, low and body edges map
/// to the given coordinates.
///
/// Three vertical zones are tried in turn — between high and body top,
/// strictly inside the body, between body bottom and low — and the two
/// wick zones subdivide the row into quarters to pick a partial glyph.
pub open spec fn spec_glyph(
    high: RowCoord,
    low: RowCoord,
    body_top: RowCoord,
    body_bot: RowCoord,
    y: int,
) -> Glyph {
    if coord_ceil_ge(high, y) && coord_floor_le(body_top, y) {
        if coord_above_quarters(body_top, y, 3) {
            Glyph::Body
        } else if coord_above_quarters(body_top, y, 1) {
            if coord_above_quarters(high, y, 3) {
                Glyph::Top
            } else {
                Glyph::HalfBodyBottom
            }
        } else if coord_above_quarters(high, y, 3) {
            Glyph::Wick
        } else if coord_above_quarters(high, y, 1) {
            Glyph::UpperWick
        } else {
            Glyph::Void
        }
    } else if coord_floor_ge(body_top, y) && coord_ceil_le(body_bot, y) {
        Glyph::Body
    } else if coord_ceil_ge(body_bot, y) && coord_floor_le(low, y) {
        if coord_below_quarters(body_bot, y, 1) {
            Glyph::Body
        } else if coord_below_quarters(body_bot, y, 3) {
            if coord_below_quarters(low, y, 1) {
                Glyph::Bottom
            } else {
                Glyph::HalfBodyTop
            }
        } else if coord_below_quarters(low, y, 1) {
            Glyph::Wick
        } else if coord_below_quarters(low, y, 3) {
            Glyph::LowerWick
        } else {
            Glyph::Void
        }
    } else {
        Glyph::Void
    }
}

/// `den * k` for a well-formed coordinate and a small factor, without
/// overflow.
fn den_times(c: &RowCoord, k: i128) -> (r: i128)
    requires
        c.wf(),
        -0x80000 <= k <= 0x80000,
    ensures
        r == c.den * k,
{
    proof {
        assert(-0x8_0000_0000_0000_0000_0000 <= c.den * k <= 0x8_0000_0000_0000_0000_0000)
            by (nonlinear_arith)
            requires
                1 <= c.den <= 0x1_0000_0000_0000_0000,
                -0x80000 <= k <= 0x80000,
        ;
    }
    c.den * k
}

fn above_quarters(c: &RowCoord, y: i64, q: i64) -> (r: bool)
    requires
        c.wf(),
        0 <= y <= 0x10000,
        0 <= q <= 3,
    ensures
        r == coord_above_quarters(*c, y as int, q as int),
{
    let lhs: i128 = 4 * c.num;
    let rhs: i128 = den_times(c, 4 * (y as i128) + (q as i128));
    lhs > rhs
}

fn below_quarters(c: &RowCoord, y: i64, q: i64) -> (r: bool)
    requires
        c.wf(),
        0 <= y <= 0x10000,
        0 <= q <= 3,
    ensures
        r == coord_below_quarters(*c, y as int, q as int),
{
    let lhs: i128 = 4 * c.num;
    let rhs: i128 = den_times(c, 4 * (y as i128) + (q as i128));
    lhs < rhs
}

/// The executable glyph classification; exactly `spec_glyph`.
pub fn classify_glyph(
    high: &RowCoord,
    low: &RowCoord,
    body_top: &RowCoord,
    body_bot: &RowCoord,
    y: i64,
) -> (g: Glyph)
    requires
        high.wf(),
        low.wf(),
        body_top.wf(),
        body_bot.wf(),
        0 <= y <= 0x10000,
    ensures
        g == spec_glyph(*high, *low, *body_top, *body_bot, y as int),
{
    let yi: i128 = y as i128;
    if high.num > den_times(high, yi - 1) && body_top.num < den_times(body_top, yi + 1) {
        if above_quarters(body_top, y, 3) {
            Glyph::Body
        } else if above_quarters(body_top, y, 1) {
            if above_quarters(high, y, 3) {
                Glyph::Top
            } else {
                Glyph::HalfBodyBottom
            }
        } else if above_quarters(high, y, 3) {
            Glyph::Wick
        } else if above_quarters(high, y, 1) {
            Glyph::UpperWick
        } else {
            Glyph::Void
        }
    } else if body_top.num >= den_times(body_top, yi) && body_bot.num <= den_times(body_bot, yi) {
        Glyph::Body
    } else if body_bot.num > den_times(body_bot, yi - 1) && low.num < den_times(low, yi + 1) {
        if below_quarters(body_bot, y, 1) {
            Glyph::Body
        } else if below_quarters(body_bot, y, 3) {
            if below_quarters(low, y, 1) {
                Glyph::Bottom
            } else {
                Glyph::HalfBodyTop
            }
        } else if below_quarters(low, y, 1) {
            Glyph::Wick
        } else if below_quarters(low, y, 3) {
            Glyph::LowerWick
        } else {
            Glyph::Void
        }
    } else {
        Glyph::Void
    }
}

impl Glyph {
    /// The one-character string this glyph renders as.
    pub fn as_str(&self) -> (r: &'static str)
        ensures
            r@ == glyph_seq(*self),
    {
        match self {
            Glyph::Void => " ",
            Glyph::Body => "┃",
            Glyph::HalfBodyBottom => "╻",
            Glyph::HalfBodyTop => "╹",
            Glyph::Wick => "│",
            Glyph::Top => "╽",
            Glyph::Bottom => "╿",
            Glyph::UpperWick => "╷",
            Glyph::LowerWick => "╵",
        }
    }
}

/// The coordinate the axis assigns to a price, as a `RowCoord` value.
pub open spec fn spec_coord(ax: YAxis, price: int) -> RowCoord {
    let (num, den) = spec_price_to_height(ax, price);
    RowCoord { num: num as i128, den: den as i128 }
}

/// The glyph of one cell: row `y` of `candle` under the axis scale `ax`.
pub open spec fn spec_cell_glyph(c: Candle, y: int, ax: YAxis) -> Glyph {
    let body_top = if c.open > c.close { c.open } else { c.close };
    let body_bot = if c.open < c.close { c.open } else { c.close };
    spec_glyph(
        spec_coord(ax, c.high as int),
        spec_coord(ax, c.low as int),
        spec_coord(ax, body_top as int),
        spec_coord(ax, body_bot as int),
        y,
    )
}

/// The rendered content of one cell.
pub open spec fn spec_cell(c: Candle, y: int, ax: YAxis) -> (CandleType, Seq<char>) {
    (c.spec_type(), glyph_seq(spec_cell_glyph(c, y, ax)))
}

/// The renderer: it owns nothing but the colors that the caller shows
/// bullish and bearish candles in.
#[derive(Debug, Clone, Copy)]
pub struct ChartRenderer {
    pub bearish_color: (u8, u8, u8),
    pub bullish_color: (u8, u8, u8),
}

impl ChartRenderer {
    pub fn new() -> (r: ChartRenderer)
        ensures
            r == (ChartRenderer { bearish_color: (234u8, 74u8, 90u8), bullish_color: (52u8, 208u8, 88u8) }),
    {
        ChartRenderer { bullish_color: (52, 208, 88), bearish_color: (234, 74, 90) }
    }

    /// Renders one cell: the candle's classification and the glyph of
    /// its overlap with row `y`.
    pub fn render_candle(&self, candle: &Candle, y: i64, y_axis: &YAxis) -> (out: (
        CandleType,
        String,
    ))
        requires
            y_axis.wf(),
            0 <= y <= 0x10000,
        ensures
            out.0 == candle.spec_type(),
            out.1@ == spec_cell(*candle, y as int, *y_axis).1,
    {
        let high_y = y_axis.price_to_height(candle.high);
        let low_y = y_axis.price_to_height(candle.low);
        let body_top_price = if candle.open > candle.close {
            candle.open
        } else {
            candle.close
        };
        let body_bot_price = if candle.open < candle.close {
            candle.open
        } else {
            candle.close
        };
        let max_y = y_axis.price_to_height(body_top_price);
        let min_y = y_axis.price_to_height(body_bot_price);
        let g = classify_glyph(&high_y, &low_y, &max_y, &min_y, y);
        (candle.get_type(), String::from_str(g.as_str()))
    }
}

/// The model of one rendered line: the axis label and one
/// `(classification, glyph)` pair per visible candle.
pub type LineView = (Seq<char>, Seq<(CandleType, Seq<char>)>);

/// The axis scale a render pass works under: the visible candles' price
/// extrema spread over the freshly recomputed plot height.
pub open spec fn spec_axis_for(chart: Chart) -> YAxis {
    YAxis {
        min_price: spec_min_low(chart.chart_data.visible_candle_set.candles@),
        max_price: spec_max_high(chart.chart_data.visible_candle_set.candles@),
        height: spec_plot_height(
            chart.chart_data.canvas_size.1 as int,
            chart.info_bar.enabled,
            chart.volume_pane.enabled,
            chart.volume_pane.height as int,
        ) as i64,
    }
}

/// How many plot lines a frame holds: rows `height - 1` down to `1`,
/// none when the height leaves no room.  Row `0` is never rendered.
pub open spec fn spec_plot_rows(height: int) -> nat {
    if height >= 2 {
        (height - 1) as nat
    } else {
        0
    }
}

/// How many volume-pane lines a frame holds.
pub open spec fn spec_vol_rows(vp: VolumePane) -> nat {
    if vp.enabled && vp.height >= 1 {
        vp.height as nat
    } else {
        0
    }
}

/// One plot line: the label of row `y` and one classified glyph per
/// visible candle, in series order.
pub open spec fn spec_plot_line(vis: Seq<Candle>, y: int, ax: YAxis) -> LineView {
    (spec_label(ax, y), Seq::new(vis.len(), |i: int| spec_cell(vis[i], y, ax)))
}

/// One volume-pane line: a blank label and one volume-bar cell per
/// visible candle.
pub open spec fn spec_vol_line(vis: Seq<Candle>, y: int, vp: VolumePane, max_vol: int) -> LineView {
    (
        spec_blank_label(),
        Seq::new(vis.len(), |i: int| (vis[i].spec_type(), spec_vol_cell(vp, vis[i], y, max_vol))),
    )
}

/// The full rendered frame of a chart: plot rows `height - 1` down to
/// `1`, then — when the volume pane is enabled — its rows from the top
/// of the pane down to `1`.
pub open spec fn spec_render(chart: Chart) -> Seq<LineView> {
    let vis = chart.chart_data.visible_candle_set.candles@;
    let ax = spec_axis_for(chart);
    let max_vol = spec_max_volume(vis) as int;
    Seq::new(spec_plot_rows(ax.height as int), |k: int| spec_plot_line(vis, ax.height - 1 - k, ax))
        + Seq::new(
        spec_vol_rows(chart.volume_pane),
        |k: int| spec_vol_line(vis, chart.volume_pane.height - k, chart.volume_pane, max_vol),
    )
}

/// Rendering is deterministic: the frame is a function of the chart
/// state alone, so two renders of the same unmutated state are equal.
pub proof fn lemma_render_deterministic(chart: Chart, r1: Seq<LineView>, r2: Seq<LineView>)
    requires
        r1 == spec_render(chart),
        r2 == spec_render(chart),
    ensures
        r1 == r2,
{
}

/// Every line of a rendered frame carries a non-empty axis label: plot
/// rows are labelled with their price, auxiliary rows with the blank
/// axis column.
pub proof fn lemma_lines_have_axis_labels(chart: Chart)
    ensures
        forall|k: int|
            0 <= k < spec_render(chart).len() ==> (#[trigger] spec_render(chart)[k]).0.len() > 0,
{
    let r = spec_render(chart);
    let ax = spec_axis_for(chart);
    let prows = spec_plot_rows(ax.height as int);
    assert forall|k: int| 0 <= k < r.len() implies (#[trigger] r[k]).0.len() > 0 by {
        if k < prows {
            crate::y_axis::lemma_label_nonempty(ax, ax.height - 1 - k);
        } else {
            crate::y_axis::lemma_blank_label_len();
        }
    }
}

/// A canvas too small for the enabled panes leaves a plot height of one
/// row or less, and then no plot row is rendered: the frame holds only
/// the auxiliary-pane lines.
pub proof fn lemma_degenerate_viewport(chart: Chart)
    requires
        chart.wf(),
        spec_plot_height(
            chart.chart_data.canvas_size.1 as int,
            chart.info_bar.enabled,
            chart.volume_pane.enabled,
            chart.volume_pane.height as int,
        ) <= 1,
    ensures
        spec_render(chart).len() == spec_vol_rows(chart.volume_pane),
{
}

impl ChartRenderer {
    /// Assembles the rendered frame: every plot row top to bottom, then
    /// the volume pane when enabled.  Layout (plot height, axis scale)
    /// is recomputed from the chart's current state, so a canvas or
    /// pane change between calls is always honored.
    pub fn render_to_buffer(&self, chart: &Chart) -> (r: RenderedChart)
        requires
            chart.wf(),
        ensures
            r@ == spec_render(*chart),
    {
        let info_h: i64 = if chart.info_bar.enabled {
            INFO_BAR_HEIGHT
        } else {
            0
        };
        let vol_h: i64 = if chart.volume_pane.enabled {
            chart.volume_pane.height
        } else {
            0
        };
        let h: i64 = chart.chart_data.canvas_size.1 as i64 - info_h - vol_h;
        let min_p = chart.chart_data.visible_candle_set.min_low();
        let max_p = chart.chart_data.visible_candle_set.max_high();
        let max_v = chart.chart_data.visible_candle_set.max_volume();
        let axis = YAxis::new(min_p, max_p, h);
        let ghost vis = chart.chart_data.visible_candle_set.candles@;
        proof {
            assert(axis == spec_axis_for(*chart));
        }
        let mut lines: Vec<RenderedLine> = Vec::new();
        let ghost prows = spec_plot_rows(h as int);
        if h >= 2 {
            let mut y: i64 = h - 1;
            while y >= 1
                invariant
                    0 <= y <= h - 1,
                    2 <= h <= 0x10000,
                    axis == spec_axis_for(*chart),
                    axis.height == h,
                    axis.wf(),
                    chart.wf(),
                    vis == chart.chart_data.visible_candle_set.candles@,
                    lines@.len() == h - 1 - y,
                    forall|k: int|
                        0 <= k < lines@.len() ==> (#[trigger] lines@[k])@ == spec_plot_line(
                            vis,
                            h - 1 - k,
                            axis,
                        ),
                decreases y,
            {
                let axis_component = axis.render_line(y);
                let n = chart.chart_data.visible_candle_set.candles.len();
                let mut samples: Vec<RenderedSample> = Vec::new();
                let mut i: usize = 0;
                while i < n
                    invariant
                        0 <= i <= n,
                        n == vis.len(),
                        vis == chart.chart_data.visible_candle_set.candles@,
                        axis.wf(),
                        1 <= y <= 0x10000,
                        samples@.len() == i,
                        forall|j: int|
                            0 <= j < i ==> (#[trigger] samples@[j])@ == spec_cell(
                                vis[j],
                                y as int,
                                axis,
                            ),
                    decreases n - i,
                {
                    let candle = chart.chart_data.visible_candle_set.candles[i];
                    let (candle_type, content) = self.render_candle(&candle, y, &axis);
                    samples.push(RenderedSample { candle_type, content });
                    i += 1;
                }
                let line = RenderedLine { axis_component, samples };
                proof {
                    assert(line@.1 =~~= spec_plot_line(vis, y as int, axis).1);
                    assert(line@ == spec_plot_line(vis, y as int, axis));
                }
                lines.push(line);
                y -= 1;
            }
        }
        proof {
            assert(lines@.len() == prows);
        }
        if chart.volume_pane.enabled {
            let vh = chart.volume_pane.height;
            let mut y: i64 = vh;
            while y >= 1
                invariant
                    0 <= y <= vh,
                    0 <= vh <= 0xFFFF,
                    vh == chart.volume_pane.height,
                    chart.wf(),
                    axis.wf(),
                    vis == chart.chart_data.visible_candle_set.candles@,
                    max_v == spec_max_volume(vis),
                    lines@.len() == prows + (vh - y),
                    forall|k: int|
                        0 <= k < prows ==> (#[trigger] lines@[k])@ == spec_plot_line(
                            vis,
                            h - 1 - k,
                            axis,
                        ),
                    forall|k: int|
                        prows <= k < lines@.len() ==> (#[trigger] lines@[k])@ == spec_vol_line(
                            vis,
                            vh - (k - prows),
                            chart.volume_pane,
                            max_v as int,
                        ),
                decreases y,
            {
                let axis_component = axis.render_empty();
                let n = chart.chart_data.visible_candle_set.candles.len();
                let mut samples: Vec<RenderedSample> = Vec::new();
                let mut i: usize = 0;
                while i < n
                    invariant
                        0 <= i <= n,
                        n == vis.len(),
                        vis == chart.chart_data.visible_candle_set.candles@,
                        chart.wf(),
                        max_v == spec_max_volume(vis),
                        samples@.len() == i,
                        forall|j: int|
                            0 <= j < i ==> (#[trigger] samples@[j])@ == (
                                vis[j].spec_type(),
                                spec_vol_cell(chart.volume_pane, vis[j], y as int, max_v as int),
                            ),
                    decreases n - i,
                {
                    let candle = chart.chart_data.visible_candle_set.candles[i];
                    let (candle_type, content) = chart.volume_pane.render(&candle, y, max_v);
                    samples.push(RenderedSample { candle_type, content });
                    i += 1;
                }
                let line = RenderedLine { axis_component, samples };
                proof {
                    assert(line@.1 =~~= spec_vol_line(
                        vis,
                        y as int,
                        chart.volume_pane,
                        max_v as int,
                    ).1);
                    assert(line@ == spec_vol_line(vis, y as int, chart.volume_pane, max_v as int));
                }
                lines.push(line);
                y -= 1;
            }
        }
        let result = RenderedChart { lines };
        proof {
            assert(result@ =~~= spec_render(*chart));
        }
        result
    }
}

impl Default for ChartRenderer {
    fn default() -> (r: Self)
        ensures
            r == (ChartRenderer {
                bearish_color: (234u8, 74u8, 90u8),
                bullish_color: (52u8, 208u8, 88u8),
            }),
    {
        Self::new()
    }
}

} // verus!
