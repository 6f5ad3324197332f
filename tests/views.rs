use financial_analysis::bar::{TradingHistoryItem, TradingHistoryValueItem};
use financial_analysis::message::Message;
use financial_analysis::stock::{StockIssueResp, StockResp, TradingHistoryType};
use financial_analysis::stock_view::{
    join_predicts, FetchState, PredictState, StockView, CLOSE, HIGH, LOW, OPEN,
};
use financial_analysis::trading_history::TradingHistoryView;

fn stock(symbol: &str) -> StockResp {
    StockResp { code: "600000".to_string(), symbol: symbol.to_string(), name: "Pudong".to_string() }
}

fn daily_items(n: usize) -> Vec<TradingHistoryItem> {
    (0..n)
        .map(|i| TradingHistoryItem {
            date: format!("2023-01-{:02}", i + 1),
            open: format!("{}.5", 10 + i),
            close: format!("{}.25", 11 + i),
            high: format!("{}", 12 + i),
            low: format!("{}", 9 + i),
            volume: format!("{}", 1000 + i),
        })
        .collect()
}

#[test]
fn poll_starts_one_fetch_per_empty_view() {
    let mut v = StockView::new(stock("sh600000"));
    assert_eq!(v.fetch_state(), FetchState::Empty);
    let req = v.poll_history().expect("a fetch is due");
    assert_eq!(req.symbol, "sh600000");
    assert_eq!(req.typ, 1);
    assert_eq!(v.fetch_state(), FetchState::Requesting);
    assert!(v.poll_history().is_none());
    assert!(v.poll_history().is_none());
    assert_eq!(v.fetch_state(), FetchState::Requesting);
}

#[test]
fn poll_issue_asks_once() {
    let mut v = StockView::new(stock("sh600000"));
    let req = v.poll_issue().expect("metadata is due");
    assert_eq!(req.symbol, "sh600000");
    assert!(v.poll_issue().is_none());
    v.message_handler::<()>(Message::GotStockIssue("sh600000".to_string(), Ok(StockIssueResp::default())));
    assert!(v.issue.is_some());
    assert!(!v.requesting_issue);
    assert!(v.poll_issue().is_none());
}

#[test]
fn loaded_bars_end_the_fetch() {
    let mut v = StockView::new(stock("sh600000"));
    v.poll_history();
    v.message_handler::<()>(Message::GotTradingHistory("sh600000".to_string(), Ok(daily_items(3))));
    assert_eq!(v.fetch_state(), FetchState::Loaded);
    assert_eq!(v.data.len(), 3);
    assert_eq!(v.data[0].open, 105000);
    assert!(v.poll_history().is_none());
}

#[test]
fn failed_fetch_keeps_error_and_no_refetch() {
    let mut v = StockView::new(stock("sh600000"));
    v.poll_history();
    v.message_handler::<()>(Message::GotTradingHistory("sh600000".to_string(), Err("timeout".to_string())));
    assert_eq!(v.fetch_state(), FetchState::Failed);
    assert_eq!(v.error, "timeout");
    assert!(v.data.is_empty());
    assert!(v.poll_history().is_none());
}

#[test]
fn events_for_other_companies_are_dropped() {
    let mut v = StockView::new(stock("sh600000"));
    v.poll_history();
    v.message_handler::<()>(Message::GotTradingHistory("sz000001".to_string(), Ok(daily_items(2))));
    assert_eq!(v.fetch_state(), FetchState::Requesting);
    assert!(v.data.is_empty());
    v.message_handler::<()>(Message::LoginError("x".to_string()));
    assert_eq!(v.fetch_state(), FetchState::Requesting);
}

#[test]
fn type_change_after_load_resets_to_empty() {
    let mut v = StockView::new(stock("sh600000"));
    v.poll_history();
    v.message_handler::<()>(Message::GotTradingHistory("sh600000".to_string(), Ok(daily_items(8))));
    v.predicts.push(TradingHistoryValueItem::new(""));
    v.set_type(TradingHistoryType::Month);
    assert_eq!(v.typ, TradingHistoryType::Month);
    assert_eq!(v.fetch_state(), FetchState::Empty);
    assert!(v.data.is_empty() && v.error.is_empty() && v.predicts.is_empty());
    let req = v.poll_history().unwrap();
    assert_eq!(req.typ, 2);
}

#[test]
fn type_change_after_failure_resets_to_empty() {
    let mut v = StockView::new(stock("sh600000"));
    v.poll_history();
    v.message_handler::<()>(Message::GotTradingHistory("sh600000".to_string(), Err("down".to_string())));
    v.set_type(TradingHistoryType::Daily);
    assert_eq!(v.fetch_state(), FetchState::Empty);
    assert!(v.error.is_empty());
}

#[test]
fn same_type_or_running_fetch_keeps_state() {
    let mut v = StockView::new(stock("sh600000"));
    v.poll_history();
    v.set_type(TradingHistoryType::Daily);
    assert_eq!(v.typ, TradingHistoryType::Week);
    assert_eq!(v.fetch_state(), FetchState::Requesting);
    v.message_handler::<()>(Message::GotTradingHistory("sh600000".to_string(), Ok(daily_items(4))));
    v.set_type(TradingHistoryType::Week);
    assert_eq!(v.fetch_state(), FetchState::Loaded);
}

#[test]
fn predict_len_is_cut_to_a_quarter() {
    let mut v = StockView::new(stock("sh600000"));
    v.message_handler::<()>(Message::GotTradingHistory("sh600000".to_string(), Ok(daily_items(20))));
    v.set_predict_len(9);
    assert_eq!(v.predict_len, 5);
    v.set_predict_len(3);
    assert_eq!(v.predict_len, 3);
}

#[test]
fn prediction_needs_nonzero_length() {
    let mut v = StockView::new(stock("sh600000"));
    v.message_handler::<()>(Message::GotTradingHistory("sh600000".to_string(), Ok(daily_items(20))));
    assert!(v.start_predict().is_none());
    assert_eq!(v.predict_state(), PredictState::Idle);
    v.set_predict_len(2);
    assert!(v.start_predict().is_some());
    assert_eq!(v.predict_state(), PredictState::Predicting);
    assert!(v.start_predict().is_none());
}

#[test]
fn join_of_four_full_series_gives_bars() {
    let r = join_predicts(vec![Ok(vec![12, 13, 14]), Ok(vec![9, 10, 11]), Ok(vec![10, 11, 12]), Ok(vec![11, 12, 13])]);
    let bars = r.unwrap();
    assert_eq!(bars.len(), 3);
    for (k, b) in bars.iter().enumerate() {
        assert_eq!(b.high, 12 + k as i64);
        assert_eq!(b.low, 9 + k as i64);
        assert_eq!(b.open, 10 + k as i64);
        assert_eq!(b.close, 11 + k as i64);
        assert!(b.volume >= 1);
        assert!(b.date.is_empty());
    }
}

#[test]
fn join_cuts_to_shortest_series() {
    let r = join_predicts(vec![Ok(vec![5, 6, 7]), Ok(vec![1, 2]), Ok(vec![3, 4, 5, 6]), Ok(vec![4, 5, 6])]);
    let bars = r.unwrap();
    assert_eq!(bars.len(), 2);
    assert_eq!((bars[1].high, bars[1].low, bars[1].open, bars[1].close), (6, 2, 4, 5));
}

#[test]
fn join_with_a_failed_call_fails() {
    let r = join_predicts(vec![Ok(vec![1, 2]), Err("boom".to_string()), Ok(vec![1, 2]), Err("down".to_string())]);
    assert_eq!(r.unwrap_err(), "Errors: [\"boom\", \"down\"]");
}

#[test]
fn join_with_an_empty_series_fails() {
    let r = join_predicts(vec![Ok(vec![1]), Ok(vec![]), Ok(vec![1]), Ok(vec![1])]);
    assert_eq!(r.unwrap_err(), "Errors: []");
}

#[test]
fn join_needs_four_results() {
    let r = join_predicts(vec![Ok(vec![1]), Ok(vec![1]), Ok(vec![1])]);
    assert!(r.is_err());
}

#[test]
fn failed_prediction_leaves_no_bars_and_an_error() {
    let mut v = StockView::new(stock("sh600000"));
    v.message_handler::<()>(Message::GotTradingHistory("sh600000".to_string(), Ok(daily_items(8))));
    v.set_predict_len(2);
    v.start_predict().unwrap();
    let joined = join_predicts(vec![Err("unreachable host".to_string()), Ok(vec![1, 2]), Ok(vec![1, 2]), Ok(vec![1, 2])]);
    v.message_handler::<()>(Message::GotPredicts("sh600000".to_string(), joined));
    assert_eq!(v.predict_state(), PredictState::Idle);
    assert!(v.predicts.is_empty());
    assert!(!v.predict_error.is_empty());
}

#[test]
fn twenty_daily_bars_predicted_five_ahead() {
    let mut v = StockView::new(stock("sh600000"));
    v.set_type(TradingHistoryType::Daily);
    let req = v.poll_history().unwrap();
    assert_eq!(req.typ, 0);
    v.message_handler::<()>(Message::GotTradingHistory("sh600000".to_string(), Ok(daily_items(20))));
    assert_eq!(v.data.len(), 20);
    assert!(v.data.iter().all(|b| b.valid()));
    v.set_predict_len(5);
    let job = v.start_predict().unwrap();
    assert_eq!(job.symbol, "sh600000");
    assert_eq!(job.requests.len(), 4);
    for r in &job.requests {
        assert_eq!(r.data.len(), 20);
        assert_eq!(r.length, 5);
    }
    assert_eq!(job.requests[HIGH].data[0], 120000);
    assert_eq!(job.requests[LOW].data[0], 90000);
    assert_eq!(job.requests[OPEN].data[0], 105000);
    assert_eq!(job.requests[CLOSE].data[0], 112500);
    let outcomes = job
        .requests
        .iter()
        .map(|r| Ok(r.data[15..].to_vec()))
        .collect::<Vec<_>>();
    let joined = join_predicts(outcomes);
    v.message_handler::<()>(Message::GotPredicts(job.symbol.clone(), joined));
    assert_eq!(v.predict_state(), PredictState::Idle);
    assert_eq!(v.predicts.len(), 5);
    assert!(v.predict_error.is_empty());
    assert!(v.predicts.iter().all(|b| b.volume >= 1));
}

#[test]
fn plain_history_view_fetches_once() {
    let mut v = TradingHistoryView::new(stock("sz000001"));
    assert!(v.poll_history().is_some());
    assert!(v.poll_history().is_none());
    v.message_handler::<()>(Message::GotTradingHistory("sz000001".to_string(), Ok(daily_items(2))));
    assert!(!v.requesting);
    assert_eq!(v.data.len(), 2);
    assert!(v.poll_history().is_none());
}

#[test]
fn failed_metadata_is_kept_and_not_asked_again() {
    let mut v = StockView::new(stock("sh600000"));
    v.poll_issue().unwrap();
    v.message_handler::<()>(Message::GotStockIssue("sh600000".to_string(), Err("no such company".to_string())));
    assert!(!v.requesting_issue);
    assert!(v.issue.is_none());
    assert_eq!(v.issue_error, "no such company");
    assert!(v.poll_issue().is_none());
}

#[test]
fn no_prediction_while_bars_are_fetched() {
    let mut v = StockView::new(stock("sh600000"));
    v.message_handler::<()>(Message::GotTradingHistory("sh600000".to_string(), Ok(daily_items(4))));
    v.set_predict_len(1);
    assert_eq!(v.predict_len, 1);
    v.requesting = true;
    assert!(v.start_predict().is_none());
    assert_eq!(v.predict_state(), PredictState::Idle);
    v.requesting = false;
    assert!(v.start_predict().is_some());
}

#[test]
fn plain_history_view_period_change_resets() {
    let mut v = TradingHistoryView::new(stock("sz000001"));
    v.poll_history();
    v.set_type(TradingHistoryType::Month);
    assert_eq!(v.typ, TradingHistoryType::Week);
    v.message_handler::<()>(Message::GotTradingHistory("sz000001".to_string(), Ok(daily_items(2))));
    v.set_type(TradingHistoryType::Month);
    assert_eq!(v.typ, TradingHistoryType::Month);
    assert!(v.data.is_empty() && v.error.is_empty() && !v.requesting);
    assert_eq!(v.poll_history().unwrap().typ, 2);
}
