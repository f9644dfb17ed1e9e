//! The volume pane under the plot: one bar per visible candle, scaled to
//! the pane height against the greatest visible volume.

use vstd::prelude::*;

use crate::candle_set::spec_volume;
use crate::chart::{Candle, CandleType};

verus! {

pub struct VolumePane {
    pub enabled: bool,
    pub height: i64,
    pub unicode_fill: char,
    pub bearish_color: (u8, u8, u8),
    pub bullish_color: (u8, u8, u8),
}

/// The height in rows of a candle's volume bar: the pane height scaled
/// by the candle's share of the greatest visible volume, rounded down.
pub open spec fn spec_bar_height(vol: int, max_vol: int, pane_height: int) -> int {
    if max_vol <= 0 {
        0
    } else {
        vol * pane_height / max_vol
    }
}

/// The content of one volume-pane cell: the fill character where the
/// bar reaches row `y`, a space where it does not.
pub open spec fn spec_vol_cell(pane: VolumePane, c: Candle, y: int, max_vol: int) -> Seq<char> {
    if spec_bar_height(spec_volume(c) as int, max_vol, pane.height as int) >= y {
        seq![pane.unicode_fill]
    } else {
        " "@
    }
}

/// Relies on char::to_string: the returned string holds exactly the
/// one character it was given.
#[verifier::external_body]
fn char_to_string(c: char) -> (r: String)
    ensures
        r@ == seq![c],
{
    c.to_string()
}

impl VolumePane {
    /// The pane height stays within the canvas row range, so layout
    /// arithmetic cannot overflow.
    pub open spec fn wf(&self) -> bool {
        0 <= self.height <= 0xFFFF
    }

    pub fn new(height: i64) -> (p: VolumePane)
        requires
            0 <= height <= 0xFFFF,
        ensures
            p.enabled,
            p.height == height,
            p.unicode_fill == '┃',
            p.bearish_color == (234u8, 74u8, 90u8),
            p.bullish_color == (52u8, 208u8, 88u8),
            p.wf(),
    {
        VolumePane {
            enabled: true,
            height,
            unicode_fill: '┃',
            bearish_color: (234, 74, 90),
            bullish_color: (52, 208, 88),
        }
    }

    /// Renders one volume cell: the candle's classification and either
    /// the fill character or a space, by whether the candle's bar
    /// reaches row `y`.
    pub fn render(&self, candle: &Candle, y: i64, max_volume: u64) -> (out: (CandleType, String))
        requires
            self.wf(),
        ensures
            out.0 == candle.spec_type(),
            out.1@ == spec_vol_cell(*self, *candle, y as int, max_volume as int),
    {
        let vol: u64 = match candle.volume {
            Some(v) => v,
            None => 0,
        };
        let filled: bool = if max_volume == 0 {
            y <= 0
        } else {
            proof {
                assert((vol as int) * (self.height as int) <= 0xFFFF_FFFF_FFFF_FFFFint * 0xFFFF)
                    by (nonlinear_arith)
                    requires
                        0 <= vol as int <= 0xFFFF_FFFF_FFFF_FFFFint,
                        0 <= self.height as int <= 0xFFFF,
                ;
            }
            let bar: u128 = (vol as u128) * (self.height as u128) / (max_volume as u128);
            if y <= 0 {
                true
            } else {
                bar >= y as u128
            }
        };
        let content: String = if filled {
            char_to_string(self.unicode_fill)
        } else {
            String::from_str(" ")
        };
        (candle.get_type(), content)
    }
}

} // verus!
