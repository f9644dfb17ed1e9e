//! The candle data point, the rendered-frame types, and the chart that
//! owns all state.

use vstd::prelude::*;

use crate::chart_data::{spec_plot_height, spec_visible, ChartData};
use crate::chart_renderer::{spec_render, ChartRenderer, LineView};
use crate::info_bar::InfoBar;
use crate::volume_pane::VolumePane;

verus! {

/// One OHLC(V) price sample.
///
/// Prices are fixed-point integers in a scale chosen by the caller (for
/// example cents).  The usual shape is `low <= min(open, close)` and
/// `max(open, close) <= high`, but the type does not enforce it: candles
/// that break it render incoherently, never unsafely.
#[derive(Debug, Clone, Copy, PartialEq, Eq, Structural)]
pub struct Candle {
    pub open: i64,
    pub high: i64,
    pub low: i64,
    pub close: i64,
    pub volume: Option<u64>,
    pub timestamp: Option<i64>,
}

/// The binary classification of a candle, used by callers for coloring.
#[derive(Debug, Clone, Copy, PartialEq, Eq, Structural)]
pub enum CandleType {
    Bearish,
    Bullish,
}

impl Candle {
    pub fn new(
        open: i64,
        high: i64,
        low: i64,
        close: i64,
        volume: Option<u64>,
        timestamp: Option<i64>,
    ) -> (c: Candle)
        ensures
            c == (Candle { open, high, low, close, volume, timestamp }),
    {
        Candle { open, high, low, close, volume, timestamp }
    }

    /// The classification of this candle: bullish exactly when the close
    /// is strictly above the open, so a candle with `open == close` is
    /// bearish.
    pub open spec fn spec_type(&self) -> CandleType {
        if self.open < self.close {
            CandleType::Bullish
        } else {
            CandleType::Bearish
        }
    }

    pub fn get_type(&self) -> (t: CandleType)
        ensures
            t == self.spec_type(),
    {
        if self.open < self.close {
            CandleType::Bullish
        } else {
            CandleType::Bearish
        }
    }
}

/// A candle whose open and close are equal never classifies as bullish:
/// the tie breaks toward bearish for every price value.
pub proof fn lemma_tie_breaks_bearish(c: Candle)
    requires
        c.open == c.close,
    ensures
        c.spec_type() == CandleType::Bearish,
{
}

/// One character cell of a rendered frame: a glyph and the
/// classification the caller colors it by.
pub struct RenderedSample {
    pub candle_type: CandleType,
    pub content: String,
}

impl View for RenderedSample {
    type V = (CandleType, Seq<char>);

    open spec fn view(&self) -> (CandleType, Seq<char>) {
        (self.candle_type, self.content@)
    }
}

/// One rendered line: the axis label and one cell per visible candle.
pub struct RenderedLine {
    pub axis_component: String,
    pub samples: Vec<RenderedSample>,
}

impl View for RenderedLine {
    type V = LineView;

    open spec fn view(&self) -> LineView {
        (self.axis_component@, self.samples@.map_values(|s: RenderedSample| s@))
    }
}

/// A rendered frame: the plot lines top to bottom, then the volume-pane
/// lines when that pane is enabled.
pub struct RenderedChart {
    pub lines: Vec<RenderedLine>,
}

impl View for RenderedChart {
    type V = Seq<LineView>;

    open spec fn view(&self) -> Seq<LineView> {
        self.lines@.map_values(|l: RenderedLine| l@)
    }
}

pub struct Chart {
    pub renderer: ChartRenderer,
    pub chart_data: ChartData,
    pub info_bar: InfoBar,
    pub volume_pane: VolumePane,
}

impl Chart {
    /// The layout bounds every constructor establishes and every setter
    /// preserves.
    pub open spec fn wf(&self) -> bool {
        self.volume_pane.wf()
    }

    /// A chart over the given candles on a canvas of `(columns, rows)`.
    ///
    /// Both auxiliary panes start enabled; the volume pane takes a
    /// sixth of the canvas rows.
    pub fn new_with_canvas_size(candles: &[Candle], canvas_size: (u16, u16)) -> (c: Chart)
        ensures
            c.wf(),
            c.renderer == (ChartRenderer {
                bearish_color: (234u8, 74u8, 90u8),
                bullish_color: (52u8, 208u8, 88u8),
            }),
            c.chart_data.main_candle_set.candles@ == candles@,
            c.chart_data.visible_candle_set.candles@ == spec_visible(
                candles@,
                canvas_size.0 as int,
            ),
            c.chart_data.canvas_size == canvas_size,
            c.chart_data.height == spec_plot_height(
                canvas_size.1 as int,
                true,
                true,
                canvas_size.1 as int / 6,
            ),
            c.info_bar.enabled,
            c.info_bar.name@ == "APPLE"@,
            c.volume_pane.enabled,
            c.volume_pane.height == canvas_size.1 as int / 6,
            c.volume_pane.unicode_fill == '┃',
    {
        let renderer = ChartRenderer::new();
        let mut owned: Vec<Candle> = Vec::new();
        let mut i: usize = 0;
        while i < candles.len()
            invariant
                0 <= i <= candles@.len(),
                owned@ =~= candles@.take(i as int),
            decreases candles@.len() - i,
        {
            owned.push(candles[i]);
            proof {
                assert(owned@ =~= candles@.take(i + 1));
            }
            i += 1;
        }
        proof {
            assert(owned@ =~= candles@);
        }
        let mut chart_data = ChartData::new_with_canvas_size(owned, canvas_size);
        let info_bar = InfoBar::new(String::from_str("APPLE"));
        let volume_pane = VolumePane::new((canvas_size.1 / 6) as i64);
        chart_data.compute_height(&info_bar, &volume_pane);
        Chart { renderer, chart_data, info_bar, volume_pane }
    }

    /// Renders the chart into an ordered sequence of lines.
    pub fn draw_to_buffer(&self) -> (r: RenderedChart)
        requires
            self.wf(),
        ensures
            r@ == spec_render(*self),
    {
        self.renderer.render_to_buffer(self)
    }

    /// Sets the name shown in the info bar.
    pub fn set_name(&mut self, name: String)
        requires
            old(self).wf(),
        ensures
            final(self).wf(),
            final(self).info_bar.name == name,
            final(self).info_bar.enabled == old(self).info_bar.enabled,
            final(self).renderer == old(self).renderer,
            final(self).chart_data == old(self).chart_data,
            final(self).volume_pane == old(self).volume_pane,
    {
        self.info_bar.name = name;
    }

    /// Sets the color of bearish candles; the default is (234, 74, 90).
    pub fn set_bear_color(&mut self, r: u8, g: u8, b: u8)
        requires
            old(self).wf(),
        ensures
            final(self).wf(),
            final(self).renderer.bearish_color == (r, g, b),
            final(self).renderer.bullish_color == old(self).renderer.bullish_color,
            final(self).chart_data == old(self).chart_data,
            final(self).info_bar == old(self).info_bar,
            final(self).volume_pane == old(self).volume_pane,
    {
        self.renderer.bearish_color = (r, g, b);
    }

    /// Sets the color of bullish candles; the default is (52, 208, 88).
    pub fn set_bull_color(&mut self, r: u8, g: u8, b: u8)
        requires
            old(self).wf(),
        ensures
            final(self).wf(),
            final(self).renderer.bullish_color == (r, g, b),
            final(self).renderer.bearish_color == old(self).renderer.bearish_color,
            final(self).chart_data == old(self).chart_data,
            final(self).info_bar == old(self).info_bar,
            final(self).volume_pane == old(self).volume_pane,
    {
        self.renderer.bullish_color = (r, g, b);
    }

    /// Sets the volume-bar color under bearish candles; the default is
    /// (234, 74, 90).
    pub fn set_vol_bear_color(&mut self, r: u8, g: u8, b: u8)
        requires
            old(self).wf(),
        ensures
            final(self).wf(),
            final(self).volume_pane.bearish_color == (r, g, b),
            final(self).volume_pane.bullish_color == old(self).volume_pane.bullish_color,
            final(self).volume_pane.enabled == old(self).volume_pane.enabled,
            final(self).volume_pane.height == old(self).volume_pane.height,
            final(self).volume_pane.unicode_fill == old(self).volume_pane.unicode_fill,
            final(self).renderer == old(self).renderer,
            final(self).chart_data == old(self).chart_data,
            final(self).info_bar == old(self).info_bar,
    {
        self.volume_pane.bearish_color = (r, g, b);
    }

    /// Sets the volume-bar color under bullish candles; the default is
    /// (52, 208, 88).
    pub fn set_vol_bull_color(&mut self, r: u8, g: u8, b: u8)
        requires
            old(self).wf(),
        ensures
            final(self).wf(),
            final(self).volume_pane.bullish_color == (r, g, b),
            final(self).volume_pane.bearish_color == old(self).volume_pane.bearish_color,
            final(self).volume_pane.enabled == old(self).volume_pane.enabled,
            final(self).volume_pane.height == old(self).volume_pane.height,
            final(self).volume_pane.unicode_fill == old(self).volume_pane.unicode_fill,
            final(self).renderer == old(self).renderer,
            final(self).chart_data == old(self).chart_data,
            final(self).info_bar == old(self).info_bar,
    {
        self.volume_pane.bullish_color = (r, g, b);
    }

    /// Shows or hides the volume pane.
    pub fn set_volume_pane_enabled(&mut self, enabled: bool)
        requires
            old(self).wf(),
        ensures
            final(self).wf(),
            final(self).volume_pane.enabled == enabled,
            final(self).volume_pane.height == old(self).volume_pane.height,
            final(self).volume_pane.unicode_fill == old(self).volume_pane.unicode_fill,
            final(self).volume_pane.bearish_color == old(self).volume_pane.bearish_color,
            final(self).volume_pane.bullish_color == old(self).volume_pane.bullish_color,
            final(self).renderer == old(self).renderer,
            final(self).chart_data == old(self).chart_data,
            final(self).info_bar == old(self).info_bar,
    {
        self.volume_pane.enabled = enabled;
    }

    /// Sets the character the volume bars are drawn with.
    pub fn set_volume_pane_unicode_fill(&mut self, unicode_fill: char)
        requires
            old(self).wf(),
        ensures
            final(self).wf(),
            final(self).volume_pane.unicode_fill == unicode_fill,
            final(self).volume_pane.enabled == old(self).volume_pane.enabled,
            final(self).volume_pane.height == old(self).volume_pane.height,
            final(self).volume_pane.bearish_color == old(self).volume_pane.bearish_color,
            final(self).volume_pane.bullish_color == old(self).volume_pane.bullish_color,
            final(self).renderer == old(self).renderer,
            final(self).chart_data == old(self).chart_data,
            final(self).info_bar == old(self).info_bar,
    {
        self.volume_pane.unicode_fill = unicode_fill;
    }

    /// Sets the volume-pane height in rows.  The default is a sixth of
    /// the canvas rows.
    pub fn set_volume_pane_height(&mut self, height: i64)
        requires
            old(self).wf(),
            0 <= height <= 0xFFFF,
        ensures
            final(self).wf(),
            final(self).volume_pane.height == height,
            final(self).volume_pane.enabled == old(self).volume_pane.enabled,
            final(self).volume_pane.unicode_fill == old(self).volume_pane.unicode_fill,
            final(self).volume_pane.bearish_color == old(self).volume_pane.bearish_color,
            final(self).volume_pane.bullish_color == old(self).volume_pane.bullish_color,
            final(self).renderer == old(self).renderer,
            final(self).chart_data == old(self).chart_data,
            final(self).info_bar == old(self).info_bar,
    {
        self.volume_pane.height = height;
    }

    /// Shows or hides the info bar.
    pub fn set_info_bar_enabled(&mut self, enabled: bool)
        requires
            old(self).wf(),
        ensures
            final(self).wf(),
            final(self).info_bar.enabled == enabled,
            final(self).info_bar.name == old(self).info_bar.name,
            final(self).renderer == old(self).renderer,
            final(self).chart_data == old(self).chart_data,
            final(self).volume_pane == old(self).volume_pane,
    {
        self.info_bar.enabled = enabled;
    }
}

} // verus!
