//! The fetch controller of one company's view: when to fetch its bars and
//! metadata, when to ask for a prediction, how four predicted price series
//! join into bars, and what each result does to the view.
use vstd::prelude::*;
use vstd::math::min;
use vstd::string::StringExecFns;
use crate::bar::{TradingHistoryItem, TradingHistoryValueItem};
use crate::message::Message;
use crate::stock::{
    PredictRequest, StockIssueRequest, StockIssueResp, StockResp, TradingHistoryRequest,
    TradingHistoryType,
};

verus! {

/// Where a view stands with its bars.
#[derive(Clone, Copy, Debug, PartialEq, Eq, Structural)]
pub enum FetchState {
    /// No bars, no fetch running, no error: a fetch is due.
    Empty,
    Requesting,
    Loaded,
    Failed,
}

/// Where a view stands with its prediction.
#[derive(Clone, Copy, Debug, PartialEq, Eq, Structural)]
pub enum PredictState {
    Idle,
    Predicting,
}

/// Index of each price series in a prediction, in the order the requests go out.
pub const HIGH: usize = 0;
pub const LOW: usize = 1;
pub const OPEN: usize = 2;
pub const CLOSE: usize = 3;

/// The price of `b` that series `which` follows.
pub open spec fn price_of(b: TradingHistoryValueItem, which: int) -> i64 {
    if which == HIGH {
        b.high
    } else if which == LOW {
        b.low
    } else if which == OPEN {
        b.open
    } else {
        b.close
    }
}

/// Series `which` of `bars`.
pub open spec fn series_of(bars: Seq<TradingHistoryValueItem>, which: int) -> Seq<i64> {
    Seq::new(bars.len(), |i: int| price_of(bars[i], which))
}

/// The bars that a list of text bars reads as.
pub open spec fn read_all(items: Seq<TradingHistoryItem>) -> Seq<TradingHistoryValueItem> {
    items.map_values(|item: TradingHistoryItem| TradingHistoryValueItem::read_from(item))
}

/// The four requests of one prediction, and the company they are for.
#[derive(Clone, Debug)]
pub struct PredictJob {
    pub symbol: String,
    pub requests: Vec<PredictRequest>,
}

/// The view of one company: its bars, its prediction and its metadata, and
/// the flags that keep one fetch of each in flight at a time.
#[derive(Debug)]
pub struct StockView {
    pub stock: StockResp,
    pub data: Vec<TradingHistoryValueItem>,
    pub requesting: bool,
    pub error: String,
    pub typ: TradingHistoryType,
    /// The window is still open.
    pub valid: bool,
    pub predicts: Vec<TradingHistoryValueItem>,
    pub predict_len: u32,
    pub predicting: bool,
    pub predict_error: String,
    pub issue: Option<StockIssueResp>,
    pub requesting_issue: bool,
    /// Why the last metadata request failed; empty when it did not.
    pub issue_error: String,
}

impl StockView {
    pub open spec fn spec_fetch_state(&self) -> FetchState {
        if self.requesting {
            FetchState::Requesting
        } else if self.error@.len() > 0 {
            FetchState::Failed
        } else if self.data@.len() > 0 {
            FetchState::Loaded
        } else {
            FetchState::Empty
        }
    }

    pub open spec fn spec_predict_state(&self) -> PredictState {
        if self.predicting {
            PredictState::Predicting
        } else {
            PredictState::Idle
        }
    }

    /// The view after one frame's check for a fetch of bars.
    pub open spec fn polled(self) -> Self {
        if self.spec_fetch_state() == FetchState::Empty {
            StockView { requesting: true, ..self }
        } else {
            self
        }
    }

    /// A prediction may start: no fetch of bars and no prediction is running,
    /// and the length asked for is non-zero and at most a quarter of the bars.
    pub open spec fn can_predict(&self) -> bool {
        &&& !self.requesting
        &&& !self.predicting
        &&& self.predict_len != 0
        &&& self.predict_len <= self.data@.len() / 4
    }

    /// `new` is `old` after the period was set to `typ`: a view that is not
    /// fetching and gets another period drops its bars, its error and its
    /// prediction; otherwise nothing changes.
    pub open spec fn type_set(old: Self, new: Self, typ: TradingHistoryType) -> bool {
        if old.requesting || typ == old.typ {
            new == old
        } else {
            &&& new.typ == typ
            &&& !new.requesting
            &&& new.data@.len() == 0
            &&& new.error@.len() == 0
            &&& new.predicts@.len() == 0
            &&& new.predict_error@.len() == 0
            &&& new.stock == old.stock
            &&& new.valid == old.valid
            &&& new.predict_len == old.predict_len
            &&& new.predicting == old.predicting
            &&& new.issue == old.issue
            &&& new.requesting_issue == old.requesting_issue
            &&& new.issue_error == old.issue_error
        }
    }

    /// A view as `new` makes it: nothing fetched or asked for, weekly bars,
    /// the window open.
    pub open spec fn is_fresh(&self) -> bool {
        &&& self.data@.len() == 0
        &&& !self.requesting
        &&& self.error@.len() == 0
        &&& self.typ == TradingHistoryType::Week
        &&& self.valid
        &&& self.predicts@.len() == 0
        &&& self.predict_len == 0
        &&& !self.predicting
        &&& self.predict_error@.len() == 0
        &&& self.issue is None
        &&& !self.requesting_issue
        &&& self.issue_error@.len() == 0
    }

    /// Metadata is due: none held, none asked for, and no failed request
    /// waiting to be seen.
    pub open spec fn issue_due(&self) -> bool {
        self.issue is None && !self.requesting_issue && self.issue_error@.len() == 0
    }

    /// A fresh view of `stock`, with nothing fetched, at weekly bars.
    pub fn new(stock: StockResp) -> (r: Self)
        ensures
            r.stock == stock,
            r.is_fresh(),
            r.spec_fetch_state() == FetchState::Empty,
            r.spec_predict_state() == PredictState::Idle,
    {
        StockView {
            stock,
            data: Vec::new(),
            requesting: false,
            error: String::new(),
            typ: TradingHistoryType::Week,
            valid: true,
            predicts: Vec::new(),
            predict_len: 0,
            predicting: false,
            predict_error: String::new(),
            issue: None,
            requesting_issue: false,
            issue_error: String::new(),
        }
    }

    pub fn fetch_state(&self) -> (r: FetchState)
        ensures
            r == self.spec_fetch_state(),
    {
        if self.requesting {
            FetchState::Requesting
        } else if !self.error.as_str().is_empty() {
            FetchState::Failed
        } else if self.data.len() > 0 {
            FetchState::Loaded
        } else {
            FetchState::Empty
        }
    }

    pub fn predict_state(&self) -> (r: PredictState)
        ensures
            r == self.spec_predict_state(),
    {
        if self.predicting {
            PredictState::Predicting
        } else {
            PredictState::Idle
        }
    }

    /// Once a frame: when the view is `Empty`, marks it `Requesting` and
    /// returns the fetch to run; otherwise returns nothing.
    pub fn poll_history(&mut self) -> (r: Option<TradingHistoryRequest>)
        ensures
            *final(self) == old(self).polled(),
            r is Some <==> old(self).spec_fetch_state() == FetchState::Empty,
            r matches Some(q) ==> q.symbol@ == old(self).stock.symbol@ && q.typ
                == old(self).typ.spec_code(),
    {
        if !self.requesting && self.data.len() == 0 && self.error.as_str().is_empty() {
            self.requesting = true;
            Some(TradingHistoryRequest { symbol: self.stock.symbol.clone(), typ: self.typ.code() })
        } else {
            None
        }
    }

    /// Once a frame: when metadata is due, marks it asked for and returns the
    /// request to run.
    pub fn poll_issue(&mut self) -> (r: Option<StockIssueRequest>)
        ensures
            old(self).issue_due() ==> {
                &&& *final(self) == (StockView { requesting_issue: true, ..*old(self) })
                &&& r matches Some(q) && q.symbol@ == old(self).stock.symbol@
            },
            !old(self).issue_due() ==> r is None && *final(self) == *old(self),
    {
        if self.issue.is_none() && !self.requesting_issue && self.issue_error.as_str().is_empty() {
            self.requesting_issue = true;
            Some(StockIssueRequest { symbol: self.stock.symbol.clone() })
        } else {
            None
        }
    }

    /// Sets the period of the bars. A view that is not fetching and gets
    /// another period drops what it holds, so that the next frame fetches
    /// anew.
    pub fn set_type(&mut self, typ: TradingHistoryType)
        ensures
            Self::type_set(*old(self), *final(self), typ),
    {
        if !self.requesting && typ != self.typ {
            self.typ = typ;
            self.data = Vec::new();
            self.error = String::new();
            self.predicts = Vec::new();
            self.predict_error = String::new();
        }
    }

    /// Sets the prediction length asked for, cut to a quarter of the bars;
    /// ignored while a prediction runs.
    pub fn set_predict_len(&mut self, len: u32)
        ensures
            old(self).predicting ==> *final(self) == *old(self),
            !old(self).predicting ==> *final(self) == (StockView {
                predict_len: if len as int <= old(self).data@.len() / 4 {
                    len
                } else {
                    (old(self).data@.len() / 4) as u32
                },
                ..*old(self)
            }),
    {
        if !self.predicting {
            let cap = self.data.len() / 4;
            self.predict_len = if (len as usize) <= cap {
                len
            } else {
                cap as u32
            };
        }
    }

    /// Starts a prediction when one may start: marks the view `Predicting`
    /// and returns one request per price series, each with every bar's price
    /// and the length asked for.
    pub fn start_predict(&mut self) -> (r: Option<PredictJob>)
        ensures
            !old(self).can_predict() ==> r is None && *final(self) == *old(self),
            old(self).can_predict() ==> {
                &&& *final(self) == (StockView { predicting: true, ..*old(self) })
                &&& r matches Some(job) && {
                    &&& job.symbol@ == old(self).stock.symbol@
                    &&& job.requests@.len() == 4
                    &&& forall|k: int|
                        0 <= k < 4 ==> (#[trigger] job.requests@[k]).data@ == series_of(
                            old(self).data@,
                            k,
                        ) && job.requests@[k].length == old(self).predict_len
                }
            },
    {
        if self.requesting || self.predicting || self.predict_len == 0 || (self.predict_len as usize) > self.data.len()
            / 4 {
            return None;
        }
        self.predicting = true;
        let mut requests: Vec<PredictRequest> = Vec::new();
        let mut k: usize = 0;
        while k < 4
            invariant
                *self == (StockView { predicting: true, ..*old(self) }),
                k <= 4,
                requests@.len() == k,
                forall|j: int|
                    0 <= j < k ==> (#[trigger] requests@[j]).data@ == series_of(self.data@, j)
                        && requests@[j].length == self.predict_len,
            decreases 4 - k,
        {
            let data = price_series(&self.data, k);
            requests.push(PredictRequest { data, length: self.predict_len });
            k = k + 1;
        }
        Some(PredictJob { symbol: self.stock.symbol.clone(), requests })
    }

    /// `new` is `old` after `msg` was applied to it.
    pub open spec fn handled<C>(old: StockView, new: StockView, msg: Message<C>) -> bool {
        &&& (msg.spec_symbol() != Some(old.stock.symbol@) ==> new == old)
        &&& (msg.spec_symbol() == Some(old.stock.symbol@) ==> match msg {
            Message::GotTradingHistory(_, res) => {
                &&& new == (StockView {
                    data: new.data,
                    error: new.error,
                    requesting: false,
                    ..old
                })
                &&& match res {
                    Ok(items) => new.data@ == read_all(items@) && new.error@.len() == 0,
                    Err(e) => new.data@.len() == 0 && new.error@ == e@,
                }
            },
            Message::GotPredicts(_, res) => {
                &&& new == (StockView {
                    predicts: new.predicts,
                    predict_error: new.predict_error,
                    predicting: false,
                    ..old
                })
                &&& match res {
                    Ok(bars) => new.predicts@ == bars@ && new.predict_error@.len() == 0,
                    Err(e) => new.predicts@.len() == 0 && new.predict_error@
                        == e@,
                }
            },
            Message::GotStockIssue(_, res) => {
                &&& new == (StockView {
                    issue: new.issue,
                    issue_error: new.issue_error,
                    requesting_issue: false,
                    ..old
                })
                &&& match res {
                    Ok(issue) => new.issue == Some(issue) && new.issue_error@.len() == 0,
                    Err(e) => new.issue == old.issue && new.issue_error@ == e@,
                }
            },
            _ => new == old,
        })
    }

    /// Applies an event to this view when it is about this company: bars
    /// replace the old ones and end the fetch, a predicted extension replaces
    /// the old one and ends the prediction, metadata is kept. Other events,
    /// and events about other companies, change nothing.
    pub fn message_handler<C>(&mut self, msg: Message<C>)
        ensures
            Self::handled(*old(self), *final(self), msg),
    {
        match msg {
            Message::GotTradingHistory(symbol, res) => {
                if symbol == self.stock.symbol {
                    match res {
                        Ok(items) => {
                            self.data = read_items(items);
                            self.error = String::new();
                        },
                        Err(e) => {
                            self.data = Vec::new();
                            self.error = e;
                        },
                    }
                    self.requesting = false;
                }
            },
            Message::GotPredicts(symbol, res) => {
                if symbol == self.stock.symbol {
                    match res {
                        Ok(bars) => {
                            self.predicts = bars;
                            self.predict_error = String::new();
                        },
                        Err(e) => {
                            self.predicts = Vec::new();
                            self.predict_error = e;
                        },
                    }
                    self.predicting = false;
                }
            },
            Message::GotStockIssue(symbol, res) => {
                if symbol == self.stock.symbol {
                    match res {
                        Ok(issue) => {
                            self.issue = Some(issue);
                            self.issue_error = String::new();
                        },
                        Err(e) => {
                            self.issue_error = e;
                        },
                    }
                    self.requesting_issue = false;
                }
            },
            _ => {},
        }
    }
}

/// The outcome of one prediction call: a series of prices or an error text.
pub type SeriesResult = Result<Vec<i64>, String>;

/// The length of a series that came back, zero for a failed call.
pub open spec fn series_len(r: SeriesResult) -> int {
    match r {
        Ok(v) => v@.len() as int,
        Err(_) => 0,
    }
}

pub open spec fn all_ok(rs: Seq<SeriesResult>) -> bool {
    forall|i: int| 0 <= i < rs.len() ==> #[trigger] rs[i] is Ok
}

/// The length that four series share: the shortest of them.
pub open spec fn shared_len(rs: Seq<SeriesResult>) -> int {
    min(min(series_len(rs[0]), series_len(rs[1])), min(series_len(rs[2]), series_len(rs[3])))
}

/// Four calls joined: all four came back, and none came back empty.
pub open spec fn join_succeeds(rs: Seq<SeriesResult>) -> bool {
    rs.len() == 4 && all_ok(rs) && shared_len(rs) > 0
}

/// The error texts of the failed calls, in call order.
pub open spec fn failures(rs: Seq<SeriesResult>) -> Seq<Seq<char>>
    decreases rs.len(),
{
    if rs.len() == 0 {
        Seq::empty()
    } else {
        failures(rs.drop_last()) + match rs.last() {
            Ok(_) => Seq::<Seq<char>>::empty(),
            Err(e) => seq![e@],
        }
    }
}

/// Texts in double quotes, separated by a comma and a space.
pub open spec fn quoted_list(es: Seq<Seq<char>>) -> Seq<char>
    decreases es.len(),
{
    if es.len() == 0 {
        Seq::empty()
    } else if es.len() == 1 {
        seq!['"'] + es[0] + seq!['"']
    } else {
        quoted_list(es.drop_last()) + seq![',', ' ', '"'] + es.last() + seq!['"']
    }
}

/// The one error text of a failed join: the failed calls' errors, listed.
pub open spec fn join_error(rs: Seq<SeriesResult>) -> Seq<char> {
    seq!['E', 'r', 'r', 'o', 'r', 's', ':', ' ', '['] + quoted_list(failures(rs)) + seq![']']
}

/// Bar `k` of a joined prediction: the four series' values at `k`, no date,
/// volume one.
pub open spec fn joined_bar(rs: Seq<SeriesResult>, k: int, b: TradingHistoryValueItem) -> bool {
    &&& b.date@.len() == 0
    &&& b.high == rs[HIGH as int]->Ok_0@[k]
    &&& b.low == rs[LOW as int]->Ok_0@[k]
    &&& b.open == rs[OPEN as int]->Ok_0@[k]
    &&& b.close == rs[CLOSE as int]->Ok_0@[k]
    &&& b.volume == 1
}

/// Joins the outcomes of the four prediction calls, given in the order of
/// `HIGH`, `LOW`, `OPEN`, `CLOSE`. All or nothing: when all four came back
/// and none is empty, the series are cut to the shortest and read index by
/// index as bars; otherwise the join fails with the errors of the failed
/// calls.
pub fn join_predicts(results: Vec<SeriesResult>) -> (r: Result<
    Vec<TradingHistoryValueItem>,
    String,
>)
    ensures
        r is Ok <==> join_succeeds(results@),
        r matches Ok(bars) ==> bars@.len() == shared_len(results@) && forall|k: int|
            0 <= k < bars@.len() ==> joined_bar(results@, k, #[trigger] bars@[k]),
        r matches Err(e) ==> e@ == join_error(results@),
{
    let ghost rs = results@;
    let mut ok = true;
    let mut errors: Vec<String> = Vec::new();
    let mut series: Vec<Vec<i64>> = Vec::new();
    for res in it: results
        invariant
            it.seq() == rs,
            series@.len() == it.index(),
            ok == all_ok(rs.take(it.index() as int)),
            errors@.map_values(|e: String| e@) == failures(rs.take(it.index() as int)),
            forall|i: int|
                0 <= i < series@.len() ==> (#[trigger] series@[i])@.len() == series_len(rs[i]),
            forall|i: int|
                0 <= i < series@.len() && rs[i] is Ok ==> (#[trigger] series@[i])@
                    == rs[i]->Ok_0@,
    {
        let ghost i = it.index();
        assert(rs.take(i + 1).drop_last() =~= rs.take(i));
        match res {
            Ok(v) => {
                series.push(v);
                assert(errors@.map_values(|e: String| e@) =~= failures(rs.take(i + 1)));
            },
            Err(e) => {
                ok = false;
                errors.push(e);
                assert(errors@.map_values(|e: String| e@) =~= failures(rs.take(i + 1)));
                series.push(Vec::new());
            },
        }
        assert(ok == all_ok(rs.take(i + 1)));
    }
    assert(rs.take(rs.len() as int) =~= rs);
    if series.len() == 4 && ok {
        let n0 = if series[0].len() < series[1].len() {
            series[0].len()
        } else {
            series[1].len()
        };
        let n1 = if series[2].len() < series[3].len() {
            series[2].len()
        } else {
            series[3].len()
        };
        let n = if n0 < n1 {
            n0
        } else {
            n1
        };
        if n > 0 {
            let mut bars: Vec<TradingHistoryValueItem> = Vec::new();
            let mut k: usize = 0;
            while k < n
                invariant
                    series@.len() == 4,
                    all_ok(rs),
                    rs.len() == 4,
                    n == shared_len(rs),
                    k <= n,
                    bars@.len() == k,
                    forall|i: int| 0 <= i < 4 ==> (#[trigger] series@[i])@ == rs[i]->Ok_0@,
                    forall|j: int| 0 <= j < k ==> joined_bar(rs, j, #[trigger] bars@[j]),
                decreases n - k,
            {
                assert(rs[0] is Ok && rs[1] is Ok && rs[2] is Ok && rs[3] is Ok);
                assert(series@[0]@ == rs[0]->Ok_0@ && series@[1]@ == rs[1]->Ok_0@);
                assert(series@[2]@ == rs[2]->Ok_0@ && series@[3]@ == rs[3]->Ok_0@);
                let bar = TradingHistoryValueItem {
                    date: String::new(),
                    high: series[HIGH][k],
                    low: series[LOW][k],
                    open: series[OPEN][k],
                    close: series[CLOSE][k],
                    volume: 1,
                };
                bars.push(bar);
                k = k + 1;
            }
            return Ok(bars);
        }
    }
    let mut text = "Errors: [".to_owned();
    proof {
        reveal_strlit("Errors: [");
        reveal_strlit(", \"");
        reveal_strlit("\"");
        reveal_strlit("]");
    }
    let ghost es = errors@.map_values(|e: String| e@);
    let mut j: usize = 0;
    while j < errors.len()
        invariant
            es == errors@.map_values(|e: String| e@),
            j <= errors.len(),
            text@ == seq!['E', 'r', 'r', 'o', 'r', 's', ':', ' ', '['] + quoted_list(
                es.take(j as int),
            ),
        decreases errors.len() - j,
    {
        proof {
            reveal_strlit(", \"");
            reveal_strlit("\"");
        }
        let ghost before = text@;
        assert(es.take(j + 1).drop_last() =~= es.take(j as int));
        assert(es.take(j + 1).last() == errors@[j as int]@);
        if j == 0 {
            text.append("\"");
        } else {
            text.append(", \"");
        }
        text.append(errors[j].as_str());
        text.append("\"");
        assert(j == 0 ==> text@ =~= before + (seq!['"'] + errors@[j as int]@ + seq!['"']));
        assert(j > 0 ==> text@ =~= before + seq![',', ' ', '"'] + errors@[j as int]@ + seq!['"']);
        j = j + 1;
        assert(text@ =~= seq!['E', 'r', 'r', 'o', 'r', 's', ':', ' ', '['] + quoted_list(
            es.take(j as int),
        ));
    }
    text.append("]");
    assert(es.take(es.len() as int) =~= es);
    Err(text)
}

/// Series `which` of `bars`, in order.
fn price_series(bars: &Vec<TradingHistoryValueItem>, which: usize) -> (r: Vec<i64>)
    ensures
        r@ == series_of(bars@, which as int),
{
    let mut r: Vec<i64> = Vec::new();
    let mut i: usize = 0;
    while i < bars.len()
        invariant
            i <= bars.len(),
            r@ == series_of(bars@.take(i as int), which as int),
        decreases bars.len() - i,
    {
        let b = &bars[i];
        let p = if which == HIGH {
            b.high
        } else if which == LOW {
            b.low
        } else if which == OPEN {
            b.open
        } else {
            b.close
        };
        r.push(p);
        i = i + 1;
        assert(r@ =~= series_of(bars@.take(i as int), which as int));
    }
    assert(bars@.take(i as int) =~= bars@);
    r
}

/// Reads every text bar, in order.
pub(crate) fn read_items(items: Vec<TradingHistoryItem>) -> (r: Vec<TradingHistoryValueItem>)
    ensures
        r@ == read_all(items@),
{
    let ghost all = items@;
    let mut r: Vec<TradingHistoryValueItem> = Vec::new();
    for item in it: items
        invariant
            it.seq() == all,
            r@ == read_all(all.take(it.index() as int)),
    {
        let ghost i = it.index();
        r.push(TradingHistoryValueItem::from(item));
        assert(r@ =~= read_all(all.take(i + 1)));
    }
    assert(all.take(all.len() as int) =~= all);
    r
}


/// A view with nothing fetched and no error starts one fetch when polled, and
/// no second one when polled again before the result arrives.
pub proof fn lemma_single_fetch(v: StockView)
    requires
        v.spec_fetch_state() == FetchState::Empty,
    ensures
        v.polled().spec_fetch_state() == FetchState::Requesting,
        v.polled().spec_fetch_state() != FetchState::Empty,
        v.polled().polled() == v.polled(),
{
}

/// Setting another period on a view that holds bars or an error drops the
/// bars, the error and the prediction, and leaves the view `Empty`.
pub proof fn lemma_type_change_resets(
    old: StockView,
    new: StockView,
    typ: TradingHistoryType,
)
    requires
        old.spec_fetch_state() == FetchState::Loaded || old.spec_fetch_state()
            == FetchState::Failed,
        typ != old.typ,
        StockView::type_set(old, new, typ),
    ensures
        new.spec_fetch_state() == FetchState::Empty,
        new.data@.len() == 0,
        new.error@.len() == 0,
        new.predicts@.len() == 0,
{
}

/// When all four calls come back with series of one non-zero length `l`, the
/// join succeeds with `l` bars, each of volume at least one.
pub proof fn lemma_join_full(rs: Seq<SeriesResult>, l: int)
    requires
        rs.len() == 4,
        forall|i: int| 0 <= i < 4 ==> #[trigger] rs[i] is Ok && series_len(rs[i]) == l,
        l > 0,
    ensures
        join_succeeds(rs),
        shared_len(rs) == l,
        forall|k: int, b: TradingHistoryValueItem| #[trigger] joined_bar(rs, k, b) ==> b.volume >= 1,
{
    assert(rs[0] is Ok && series_len(rs[0]) == l);
    assert(rs[1] is Ok && series_len(rs[1]) == l);
    assert(rs[2] is Ok && series_len(rs[2]) == l);
    assert(rs[3] is Ok && series_len(rs[3]) == l);
}

proof fn lemma_failures_nonempty(rs: Seq<SeriesResult>, i: int)
    requires
        0 <= i < rs.len(),
        rs[i] is Err,
    ensures
        failures(rs).len() > 0,
    decreases rs.len(),
{
    if i < rs.len() - 1 {
        lemma_failures_nonempty(rs.drop_last(), i);
    }
}

/// When any of the four calls fails, the join fails, with an error text that
/// lists at least that call's error.
pub proof fn lemma_join_failure(rs: Seq<SeriesResult>, i: int)
    requires
        rs.len() == 4,
        0 <= i < 4,
        rs[i] is Err,
    ensures
        !join_succeeds(rs),
        failures(rs).len() > 0,
        join_error(rs).len() > 0,
{
    lemma_failures_nonempty(rs, i);
}

} // verus!
