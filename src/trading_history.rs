//! A plainer view of one company: its bars only, without prediction or
//! metadata.
use vstd::prelude::*;
use crate::bar::TradingHistoryValueItem;
use crate::message::Message;
use crate::stock::{StockResp, TradingHistoryRequest, TradingHistoryType};
use crate::stock_view::read_all;
use crate::stock_view::FetchState;

verus! {

/// The bars of one company and the flag that keeps one fetch in flight.
#[derive(Debug)]
pub struct TradingHistoryView {
    pub stock: StockResp,
    pub data: Vec<TradingHistoryValueItem>,
    pub requesting: bool,
    pub error: String,
    pub typ: TradingHistoryType,
    /// The window is still open.
    pub valid: bool,
}

impl TradingHistoryView {
    pub open spec fn spec_fetch_state(&self) -> FetchState {
        if self.requesting {
            FetchState::Requesting
        } else if self.error@.len() > 0 {
            FetchState::Failed
        } else if self.data@.len() > 0 {
            FetchState::Loaded
        } else {
            FetchState::Empty
        }
    }

    /// A fresh view of `stock`, with nothing fetched, at weekly bars.
    pub fn new(stock: StockResp) -> (r: Self)
        ensures
            r.stock == stock,
            r.data@.len() == 0,
            !r.requesting,
            r.error@.len() == 0,
            r.typ == TradingHistoryType::Week,
            r.valid,
    {
        TradingHistoryView {
            stock,
            data: Vec::new(),
            requesting: false,
            error: String::new(),
            typ: TradingHistoryType::Week,
            valid: true,
        }
    }

    /// Once a frame: when the view is `Empty`, marks it `Requesting` and
    /// returns the fetch to run; otherwise returns nothing.
    pub fn poll_history(&mut self) -> (r: Option<TradingHistoryRequest>)
        ensures
            old(self).spec_fetch_state() == FetchState::Empty ==> *final(self) == (
            TradingHistoryView { requesting: true, ..*old(self) }),
            old(self).spec_fetch_state() != FetchState::Empty ==> *final(self) == *old(self),
            r is Some <==> old(self).spec_fetch_state() == FetchState::Empty,
            r matches Some(q) ==> q.symbol@ == old(self).stock.symbol@ && q.typ
                == old(self).typ.spec_code(),
    {
        if !self.requesting && self.data.len() == 0 && self.error.as_str().is_empty() {
            self.requesting = true;
            Some(TradingHistoryRequest { symbol: self.stock.symbol.clone(), typ: self.typ.code() })
        } else {
            None
        }
    }

    /// `new` is `old` after the period was set to `typ`: a view that is not
    /// fetching and gets another period drops its bars and its error;
    /// otherwise nothing changes.
    pub open spec fn type_set(old: Self, new: Self, typ: TradingHistoryType) -> bool {
        if old.requesting || typ == old.typ {
            new == old
        } else {
            &&& new.typ == typ
            &&& !new.requesting
            &&& new.data@.len() == 0
            &&& new.error@.len() == 0
            &&& new.stock == old.stock
            &&& new.valid == old.valid
        }
    }

    /// Sets the period of the bars. A view that is not fetching and gets
    /// another period drops what it holds, so that the next frame fetches
    /// anew.
    pub fn set_type(&mut self, typ: TradingHistoryType)
        ensures
            Self::type_set(*old(self), *final(self), typ),
            old(self).spec_fetch_state() == FetchState::Loaded || old(self).spec_fetch_state()
                == FetchState::Failed ==> typ != old(self).typ ==> final(self).spec_fetch_state()
                == FetchState::Empty,
    {
        if !self.requesting && typ != self.typ {
            self.typ = typ;
            self.data = Vec::new();
            self.error = String::new();
        }
    }

    /// Takes the bars of this company, ending the fetch; other events change
    /// nothing.
    pub fn message_handler<C>(&mut self, msg: Message<C>)
        ensures
            match msg {
                Message::GotTradingHistory(symbol, res) => if symbol@ == old(self).stock.symbol@ {
                    &&& *final(self) == (TradingHistoryView {
                        data: final(self).data,
                        error: final(self).error,
                        requesting: false,
                        ..*old(self)
                    })
                    &&& match res {
                        Ok(items) => final(self).data@ == read_all(items@)
                            && final(self).error@.len() == 0,
                        Err(e) => final(self).data@.len() == 0 && final(self).error@ == e@,
                    }
                } else {
                    *final(self) == *old(self)
                },
                _ => *final(self) == *old(self),
            },
    {
        if let Message::GotTradingHistory(symbol, res) = msg {
            if symbol == self.stock.symbol {
                match res {
                    Ok(items) => {
                        self.data = crate::stock_view::read_items(items);
                        self.error = String::new();
                    },
                    Err(e) => {
                        self.data = Vec::new();
                        self.error = e;
                    },
                }
                self.requesting = false;
            }
        }
    }
}

} // verus!
