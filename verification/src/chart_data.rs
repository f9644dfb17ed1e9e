//! Layout bookkeeping: the canvas size, the plot height left after the
//! auxiliary panes, and the visible window of the candle series.

use vstd::prelude::*;

use crate::candle_set::CandleSet;
use crate::chart::Candle;
use crate::info_bar::{InfoBar, INFO_BAR_HEIGHT};
use crate::volume_pane::VolumePane;
use crate::y_axis::AXIS_WIDTH;

verus! {

#[derive(Debug)]
pub struct ChartData {
    pub main_candle_set: CandleSet,
    pub visible_candle_set: CandleSet,
    pub canvas_size: (u16, u16),
    pub height: i64,
}

/// The plot height: the canvas rows minus each auxiliary pane's height
/// when that pane is enabled.  Not clamped: a canvas smaller than the
/// panes yields a non-positive height, and the plot renders no rows.
pub open spec fn spec_plot_height(
    rows: int,
    info_enabled: bool,
    vol_enabled: bool,
    vol_height: int,
) -> int {
    rows - (if info_enabled {
        INFO_BAR_HEIGHT as int
    } else {
        0
    }) - (if vol_enabled {
        vol_height
    } else {
        0
    })
}

/// Index of the first visible candle: the visible window is the suffix
/// of the main series that fits right of the axis column.
pub open spec fn spec_visible_start(n: int, avail: int) -> int {
    let fit = if avail > 0 {
        avail
    } else {
        0
    };
    if n - fit > 0 {
        n - fit
    } else {
        0
    }
}

/// The visible window: the last `min(len, max(width - AXIS_WIDTH, 0))`
/// candles of the main series, in original order.
pub open spec fn spec_visible(main: Seq<Candle>, width: int) -> Seq<Candle> {
    main.skip(spec_visible_start(main.len() as int, width - AXIS_WIDTH as int))
}

/// The visible window is the suffix of the main series sized to the
/// viewport: with `N` candles and `K = width - AXIS_WIDTH` columns for
/// them, it holds the last `min(N, max(K, 0))` candles in original
/// order.
pub proof fn lemma_visible_window(main: Seq<Candle>, width: int)
    ensures
        ({
            let k = width - AXIS_WIDTH as int;
            let fit = if k > 0 { k } else { 0 };
            let len = if main.len() as int <= fit { main.len() as int } else { fit };
            &&& spec_visible(main, width).len() == len
            &&& forall|i: int|
                0 <= i < len ==> spec_visible(main, width)[i] == main[main.len() - len + i]
        }),
{
}

impl ChartData {
    pub fn new_with_canvas_size(candles: Vec<Candle>, canvas_size: (u16, u16)) -> (d: ChartData)
        ensures
            d.main_candle_set.candles@ == candles@,
            d.visible_candle_set.candles@ == spec_visible(candles@, canvas_size.0 as int),
            d.canvas_size == canvas_size,
            d.height == canvas_size.1 as int,
    {
        let (w, h) = canvas_size;
        let mut chart_data = ChartData {
            main_candle_set: CandleSet::new(candles),
            visible_candle_set: CandleSet::new(Vec::new()),
            canvas_size: (w, h),
            height: h as i64,
        };
        chart_data.compute_visible_candles();
        chart_data
    }

    /// Recomputes the plot height from the canvas rows and the enabled
    /// panes' heights.
    pub fn compute_height(&mut self, info_bar: &InfoBar, volume_pane: &VolumePane)
        requires
            volume_pane.wf(),
        ensures
            final(self).height == spec_plot_height(
                old(self).canvas_size.1 as int,
                info_bar.enabled,
                volume_pane.enabled,
                volume_pane.height as int,
            ),
            final(self).main_candle_set == old(self).main_candle_set,
            final(self).visible_candle_set == old(self).visible_candle_set,
            final(self).canvas_size == old(self).canvas_size,
    {
        let info_bar_height: i64 = if info_bar.enabled {
            INFO_BAR_HEIGHT
        } else {
            0
        };
        let volume_pane_height: i64 = if volume_pane.enabled {
            volume_pane.height
        } else {
            0
        };
        self.height = self.canvas_size.1 as i64 - info_bar_height - volume_pane_height;
    }

    /// Recomputes the visible window: the suffix of the main series that
    /// fits right of the axis column, all of it when fewer candles exist
    /// than fit.
    pub fn compute_visible_candles(&mut self)
        ensures
            final(self).visible_candle_set.candles@ == spec_visible(
                old(self).main_candle_set.candles@,
                old(self).canvas_size.0 as int,
            ),
            final(self).main_candle_set == old(self).main_candle_set,
            final(self).canvas_size == old(self).canvas_size,
            final(self).height == old(self).height,
    {
        let n = self.main_candle_set.candles.len();
        let avail: i64 = self.canvas_size.0 as i64 - AXIS_WIDTH;
        let fit: usize = if avail > 0 {
            avail as usize
        } else {
            0
        };
        let start: usize = if n > fit {
            n - fit
        } else {
            0
        };
        let ghost main = self.main_candle_set.candles@;
        let mut visible: Vec<Candle> = Vec::new();
        let mut i: usize = start;
        while i < n
            invariant
                start <= i <= n,
                n == main.len(),
                main == self.main_candle_set.candles@,
                visible@ =~= main.subrange(start as int, i as int),
            decreases n - i,
        {
            let c = self.main_candle_set.candles[i];
            visible.push(c);
            proof {
                assert(visible@ =~= main.subrange(start as int, i + 1));
            }
            i += 1;
        }
        proof {
            assert(start as int == spec_visible_start(
                n as int,
                self.canvas_size.0 as int - AXIS_WIDTH as int,
            ));
            assert(visible@ =~= main.skip(start as int));
        }
        self.visible_candle_set.set_candles(visible);
    }
}

} // verus!
