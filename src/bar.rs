//! Bars of a trading history: the text form that the remote service sends and
//! the numeric form that views hold.
use vstd::prelude::*;
use vstd::math::{max, min};
use crate::decimal::{parse_count, parse_price, count_value, price_value, PRICE_UNITS};

verus! {

/// One bar as the remote service sends it, every number as decimal text.
#[derive(Clone, Debug, PartialEq, Eq)]
pub struct TradingHistoryItem {
    pub date: String,
    pub open: String,
    pub close: String,
    pub high: String,
    pub low: String,
    pub volume: String,
}

/// One open/high/low/close/volume bar; prices are fixed-point numbers with
/// `PRICE_UNITS` units to the whole.
#[derive(Clone, Debug)]
pub struct TradingHistoryValueItem {
    pub date: String,
    pub open: i64,
    pub close: i64,
    pub high: i64,
    pub low: i64,
    pub volume: u64,
}

/// What a price field that cannot be read becomes: minus one whole unit.
pub const UNREADABLE_PRICE: i64 = -PRICE_UNITS;

/// A price text read as fixed-point units, or `UNREADABLE_PRICE`.
pub open spec fn price_or_sentinel(s: Seq<char>) -> int {
    match price_value(s) {
        Some(v) => v,
        None => UNREADABLE_PRICE as int,
    }
}

/// A volume text read as a count, or zero.
pub open spec fn volume_or_zero(s: Seq<char>) -> int {
    match count_value(s) {
        Some(v) => v,
        None => 0,
    }
}

fn price_field(s: &String) -> (r: i64)
    ensures
        r as int == price_or_sentinel(s@),
{
    match parse_price(s.as_str()) {
        Some(v) => v,
        None => UNREADABLE_PRICE,
    }
}

fn volume_field(s: &String) -> (r: u64)
    ensures
        r as int == volume_or_zero(s@),
{
    match parse_count(s.as_str()) {
        Some(v) => v,
        None => 0,
    }
}

impl TradingHistoryValueItem {
    /// Well-formed: volume non-zero, every price positive, high not below low.
    pub open spec fn is_valid(&self) -> bool {
        &&& self.volume != 0
        &&& self.low > 0
        &&& self.open > 0
        &&& self.close > 0
        &&& self.high > 0
        &&& self.high >= self.low
    }

    /// The bar that `force_valid` makes of this one.
    pub open spec fn normalized(&self) -> Self {
        let low = min(min(self.high as int, self.open as int), self.close as int) as i64;
        let high = max(max(low as int, self.open as int), self.close as int) as i64;
        TradingHistoryValueItem {
            date: self.date,
            open: self.open,
            close: self.close,
            high: high,
            low: low,
            volume: if self.volume == 0 {
                1
            } else {
                self.volume
            },
        }
    }

    /// The bar that the text form `item` reads as.
    pub open spec fn read_from(item: TradingHistoryItem) -> Self {
        TradingHistoryValueItem {
            date: item.date,
            open: price_or_sentinel(item.open@) as i64,
            close: price_or_sentinel(item.close@) as i64,
            high: price_or_sentinel(item.high@) as i64,
            low: price_or_sentinel(item.low@) as i64,
            volume: volume_or_zero(item.volume@) as u64,
        }
    }

    pub fn valid(&self) -> (r: bool)
        ensures
            r == self.is_valid(),
    {
        self.volume != 0 && self.low > 0 && self.open > 0 && self.close > 0 && self.high > 0
            && self.high >= self.low
    }

    /// An empty bar for `date`: all prices and the volume zero.
    pub fn new(date: &str) -> (r: Self)
        ensures
            r.date@ == date@,
            r.open == 0 && r.close == 0 && r.high == 0 && r.low == 0,
            r.volume == 0,
    {
        TradingHistoryValueItem {
            date: date.to_owned(),
            open: 0,
            close: 0,
            high: 0,
            low: 0,
            volume: 0,
        }
    }

    /// Makes the bar drawable: volume at least one, low at most open and close,
    /// high at least open and close.
    pub fn force_valid(&mut self)
        ensures
            *final(self) == old(self).normalized(),
            final(self).low <= final(self).open <= final(self).high,
            final(self).low <= final(self).close <= final(self).high,
            final(self).volume >= 1,
    {
        if self.volume == 0 {
            self.volume = 1;
        }
        let a = if self.high < self.open {
            self.high
        } else {
            self.open
        };
        self.low = if a < self.close {
            a
        } else {
            self.close
        };
        let b = if self.low > self.open {
            self.low
        } else {
            self.open
        };
        self.high = if b > self.close {
            b
        } else {
            self.close
        };
    }
}

impl From<TradingHistoryItem> for TradingHistoryValueItem {
    /// Reads a bar from its text form; a price that cannot be read becomes
    /// `UNREADABLE_PRICE`, a volume that cannot be read becomes zero.
    fn from(value: TradingHistoryItem) -> (r: Self)
        ensures
            r == Self::read_from(value),
    {
        let open = price_field(&value.open);
        let close = price_field(&value.close);
        let high = price_field(&value.high);
        let low = price_field(&value.low);
        let volume = volume_field(&value.volume);
        TradingHistoryValueItem { date: value.date, open, close, high, low, volume }
    }
}

impl vstd::std_specs::convert::FromSpecImpl<TradingHistoryItem> for TradingHistoryValueItem {
    open spec fn obeys_from_spec() -> bool {
        true
    }

    open spec fn from_spec(v: TradingHistoryItem) -> Self {
        Self::read_from(v)
    }
}

/// A bar with no volume is not valid; once normalized, its prices are ordered
/// low, then open and close, then high, and its volume is at least one.
pub proof fn lemma_zero_volume_normalizes(b: TradingHistoryValueItem)
    requires
        b.volume == 0,
    ensures
        !b.is_valid(),
        b.normalized().low <= b.normalized().open <= b.normalized().high,
        b.normalized().low <= b.normalized().close <= b.normalized().high,
        b.normalized().volume >= 1,
{
}

} // verus!
