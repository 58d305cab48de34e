use vstd::prelude::*;

verus! {

/// A price held as a sign and a magnitude in thousandths: the three-decimal
/// precision at which every price is rendered. `-0.000` keeps its sign.
#[derive(Clone, Copy, Debug, PartialEq, Eq, Structural)]
pub struct Price {
    pub negative: bool,
    pub thousandths: u64,
}

/// One OHLC bar. The time label is opaque text; the prices are not checked
/// against each other.
#[derive(Clone, Debug)]
pub struct Candle {
    pub time: String,
    pub open: Price,
    pub high: Price,
    pub low: Price,
    pub close: Price,
}

/// The inbound snapshot: a primary symbol with three series (high, mid and
/// low timeframe) and an optional correlated symbol with two series. An
/// absent optional series is an empty `Vec`; an absent correlated symbol is
/// the empty string.
#[derive(Clone, Debug)]
pub struct Mt4Data {
    pub symbol: String,
    pub period: i32,
    pub candles: Vec<Candle>,
    pub mid_period: i32,
    pub mid_candles: Vec<Candle>,
    pub low_period: i32,
    pub low_candles: Vec<Candle>,
    pub sub_symbol: String,
    pub sub_symbol_period: i32,
    pub sub_candles: Vec<Candle>,
    pub sub_symbol_low_period: i32,
    pub sub_low_candles: Vec<Candle>,
}

/// Wall-clock time split into calendar fields, as the local clock reads it.
#[derive(Clone, Copy, Debug, PartialEq, Eq, Structural)]
pub struct LocalTime {
    pub year: i32,
    pub month: u32,
    pub day: u32,
    pub hour: u32,
    pub minute: u32,
    pub second: u32,
}

impl LocalTime {
    pub open spec fn wf(&self) -> bool {
        &&& 1 <= self.month <= 12
        &&& 1 <= self.day <= 31
        &&& self.hour < 24
        &&& self.minute < 60
        &&& self.second < 60
    }
}

} // verus!
