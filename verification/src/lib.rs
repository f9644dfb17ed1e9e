//! Candlestick charts for character terminals.
//!
//! A chart holds an ordered series of OHLC candles and renders it into a
//! fixed character grid, using Unicode block-drawing glyphs to fake
//! sub-row vertical resolution.  Prices are fixed-point integers in a
//! scale of the caller's choosing; the price-to-row mapping works on
//! exact rationals, so every glyph decision is exact integer arithmetic.

pub mod candle_set;
pub mod chart;
pub mod chart_data;
pub mod chart_renderer;
pub mod info_bar;
pub mod volume_pane;
pub mod y_axis;

pub use chart::{Candle, CandleType, Chart, RenderedChart, RenderedLine, RenderedSample};
