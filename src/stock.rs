//! What the remote service tells about listed companies, and the requests
//! that views send to it.
use vstd::prelude::*;

verus! {

/// Summary of one listed company.
#[derive(Debug)]
pub struct StockResp {
    pub code: String,
    pub symbol: String,
    pub name: String,
}

impl View for StockResp {
    /// Code, symbol and name.
    type V = (Seq<char>, Seq<char>, Seq<char>);

    open spec fn view(&self) -> (Seq<char>, Seq<char>, Seq<char>) {
        (self.code@, self.symbol@, self.name@)
    }
}

impl Clone for StockResp {
    fn clone(&self) -> (r: Self)
        ensures
            r@ == self@,
    {
        StockResp { code: self.code.clone(), symbol: self.symbol.clone(), name: self.name.clone() }
    }
}

/// The list of companies that the service offers.
#[derive(Clone, Debug)]
pub struct StockListResp {
    pub data: Vec<StockResp>,
}

/// Listing metadata of one company, each field as display text.
#[derive(Clone, Debug, Default)]
pub struct StockIssueResp {
    pub market: String,
    pub consignee: String,
    pub underwriting: String,
    pub sponsor: String,
    pub issue_price: String,
    pub issue_mode: String,
    pub issue_pe: String,
    pub pre_capital: String,
    pub capital: String,
    pub issue_volume: String,
    pub expected_fundraising: String,
    pub fundraising: String,
    pub issue_cost: String,
    pub net_amount_raised: String,
    pub underwriting_fee: String,
    pub announcement_date: String,
    pub launch_date: String,
}

/// Period of one bar.
#[derive(Clone, Copy, Debug, PartialEq, Eq, Structural)]
pub enum TradingHistoryType {
    Daily,
    Week,
    Month,
}

impl TradingHistoryType {
    pub open spec fn spec_code(self) -> i32 {
        match self {
            TradingHistoryType::Daily => 0,
            TradingHistoryType::Week => 1,
            TradingHistoryType::Month => 2,
        }
    }

    /// The number that names this period on the wire.
    pub fn code(self) -> (r: i32)
        ensures
            r == self.spec_code(),
    {
        match self {
            TradingHistoryType::Daily => 0,
            TradingHistoryType::Week => 1,
            TradingHistoryType::Month => 2,
        }
    }
}

/// Asks for the bars of one company at one period (`typ` as `code` gives it).
#[derive(Clone, Debug)]
pub struct TradingHistoryRequest {
    pub symbol: String,
    pub typ: i32,
}

/// Asks for the listing metadata of one company.
#[derive(Clone, Debug)]
pub struct StockIssueRequest {
    pub symbol: String,
}

/// Asks to extend one series of prices by `length` values.
#[derive(Clone, Debug)]
pub struct PredictRequest {
    pub data: Vec<i64>,
    pub length: u32,
}

} // verus!
