//! Events that background work hands to the state that the render loop owns.
use vstd::prelude::*;
use crate::bar::{TradingHistoryItem, TradingHistoryValueItem};
use crate::stock::{StockIssueResp, StockListResp};

verus! {

/// An authentication token.
pub type Token = String;

/// One outcome of background work. `C` is the handle to the remote service.
/// Outcomes about one company carry its symbol first; a fallible outcome
/// carries either its result or an error text.
#[derive(Debug)]
pub enum Message<C> {
    ApiClientConnect(C),
    LoginDone(Token),
    LoginError(String),
    GotStockList(StockListResp),
    GotTradingHistory(String, Result<Vec<TradingHistoryItem>, String>),
    GotPredicts(String, Result<Vec<TradingHistoryValueItem>, String>),
    GotStockIssue(String, Result<StockIssueResp, String>),
}

impl<C> Message<C> {
    /// The company that the event is about, if it is about one.
    pub open spec fn spec_symbol(&self) -> Option<Seq<char>> {
        match self {
            Message::GotTradingHistory(symbol, _) => Some(symbol@),
            Message::GotPredicts(symbol, _) => Some(symbol@),
            Message::GotStockIssue(symbol, _) => Some(symbol@),
            _ => None,
        }
    }
}

} // verus!
