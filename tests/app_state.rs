use financial_analysis::financial_analysis::{pick_popular, FinancialAnalysis};
use financial_analysis::message::Message;
use financial_analysis::search::{contains_text, filter_stocks, select_flagged};
use financial_analysis::stock::{StockListResp, StockResp, TradingHistoryType};
use financial_analysis::stock_view::FetchState;

fn stock(code: &str, symbol: &str, name: &str) -> StockResp {
    StockResp { code: code.to_string(), symbol: symbol.to_string(), name: name.to_string() }
}

fn list() -> Vec<StockResp> {
    vec![
        stock("600000", "sh600000", "Pudong Bank"),
        stock("000001", "sz000001", "Ping An Bank"),
        stock("600519", "sh600519", "Moutai"),
    ]
}

#[test]
fn default_state_is_logged_out() {
    let s: FinancialAnalysis<u8> = FinancialAnalysis::default();
    assert!(s.token.is_empty());
    assert!(!s.login_done);
    assert!(s.enable_debug_panel);
    assert_eq!(s.input_username, "test");
    assert_eq!(s.api_host, "localhost");
    assert!(s.client.is_none());
    assert!(s.history_views.is_empty());
}

#[test]
fn stored_token_counts_as_login() {
    let mut s: FinancialAnalysis<u8> = FinancialAnalysis::default();
    s.token = "abc".to_string();
    let s = s.init();
    assert!(s.login_done);
    let s: FinancialAnalysis<u8> = FinancialAnalysis::default().init();
    assert!(!s.login_done);
}

#[test]
fn login_asks_for_list_only_with_a_handle() {
    let mut s: FinancialAnalysis<u8> = FinancialAnalysis::default();
    assert!(!s.message_handler(Message::LoginDone("t1".to_string()), &vec![]));
    assert!(s.login_done);
    assert!(!s.stock_list_requesting);
    assert!(!s.message_handler(Message::ApiClientConnect(7), &vec![]));
    assert_eq!(s.client, Some(7));
    assert!(s.message_handler(Message::LoginDone("t2".to_string()), &vec![]));
    assert_eq!(s.token, "t2");
    assert!(s.stock_list_requesting);
}

#[test]
fn login_error_is_kept() {
    let mut s: FinancialAnalysis<u8> = FinancialAnalysis::default();
    s.login_done = true;
    s.message_handler(Message::LoginError("bad password".to_string()), &vec![]);
    assert!(!s.login_done);
    assert_eq!(s.login_error, "bad password");
}

#[test]
fn list_arrival_draws_popular_companies() {
    let mut s: FinancialAnalysis<u8> = FinancialAnalysis::default();
    s.client = Some(1);
    s.token = "t".to_string();
    assert!(s.needs_stock_list());
    assert!(s.load_stock_list());
    assert!(!s.needs_stock_list());
    s.message_handler(Message::GotStockList(StockListResp { data: list() }), &vec![4, 0, 2, 7, 1, 5, 9]);
    assert!(!s.stock_list_requesting);
    assert_eq!(s.stock_list.len(), 3);
    let picked: Vec<&str> = s.stock_list_popular.iter().map(|x| x.symbol.as_str()).collect();
    assert_eq!(picked, vec!["sz000001", "sh600000", "sh600519", "sz000001", "sz000001", "sh600519"]);
}

#[test]
fn popular_of_empty_list_is_empty() {
    assert!(pick_popular(&vec![], &vec![1, 2, 3]).is_empty());
    assert_eq!(pick_popular(&list(), &vec![2]).len(), 1);
}

#[test]
fn open_view_once_per_company() {
    let mut s: FinancialAnalysis<u8> = FinancialAnalysis::default();
    s.open_view(stock("600000", "sh600000", "Pudong Bank"));
    s.open_view(stock("600000", "sh600000", "Pudong Bank"));
    s.open_view(stock("600519", "sh600519", "Moutai"));
    assert_eq!(s.history_views.len(), 2);
    for v in &s.history_views {
        assert_eq!(v.fetch_state(), FetchState::Empty);
        assert!(v.valid);
        assert_eq!(v.typ, TradingHistoryType::Week);
        assert!(v.predicts.is_empty() && v.predict_len == 0 && !v.predicting);
        assert!(v.issue.is_none() && !v.requesting_issue);
    }
}

#[test]
fn events_are_routed_by_symbol() {
    let mut s: FinancialAnalysis<u8> = FinancialAnalysis::default();
    s.open_view(stock("600000", "sh600000", "Pudong Bank"));
    s.open_view(stock("600519", "sh600519", "Moutai"));
    s.history_views[1].poll_history();
    s.message_handler(Message::GotTradingHistory("sh600519".to_string(), Err("gone".to_string())), &vec![]);
    assert_eq!(s.history_views[1].fetch_state(), FetchState::Failed);
    assert_eq!(s.history_views[0].fetch_state(), FetchState::Empty);
    s.message_handler(Message::GotTradingHistory("sz999999".to_string(), Err("x".to_string())), &vec![]);
    assert_eq!(s.history_views[0].fetch_state(), FetchState::Empty);
    assert_eq!(s.history_views[1].error, "gone");
}

#[test]
fn closed_views_are_removed_in_order() {
    let mut s: FinancialAnalysis<u8> = FinancialAnalysis::default();
    for l in list() {
        s.open_view(l);
    }
    s.history_views[1].valid = false;
    s.remove_closed_views();
    let left: Vec<&str> = s.history_views.iter().map(|v| v.stock.symbol.as_str()).collect();
    assert_eq!(left, vec!["sh600000", "sh600519"]);
}

#[test]
fn logout_forgets_token() {
    let mut s: FinancialAnalysis<u8> = FinancialAnalysis::default();
    s.token = "t".to_string();
    s.login_done = true;
    s.logout();
    assert!(s.token.is_empty());
    assert!(!s.login_done);
}

#[test]
fn regex_search_filters_by_any_field() {
    let found = filter_stocks(&list(), "^600");
    let codes: Vec<&str> = found.iter().map(|x| x.code.as_str()).collect();
    assert_eq!(codes, vec!["600000", "600519"]);
    let found = filter_stocks(&list(), "Bank$");
    assert_eq!(found.len(), 2);
    assert_eq!(filter_stocks(&list(), "").len(), 3);
    assert!(filter_stocks(&list(), "^zzz").is_empty());
}

#[test]
fn invalid_regex_searches_as_text() {
    // "(" does not compile; the search text holds none of the fields.
    assert!(filter_stocks(&list(), "(").is_empty());
    // Not a regex either, and it holds the whole symbol of one company.
    let found = filter_stocks(&list(), "(sh600519");
    assert_eq!(found.len(), 1);
    assert_eq!(found[0].name, "Moutai");
}

#[test]
fn selection_refreshes_when_text_changes() {
    let mut s: FinancialAnalysis<u8> = FinancialAnalysis::default();
    s.refresh_selection(true);
    assert!(s.stock_list_select.is_empty());
    s.stock_list = list();
    s.search_text = "Moutai".to_string();
    s.refresh_selection(false);
    assert_eq!(s.stock_list_select.len(), 1);
    assert_eq!(s.stock_list_select_text, "Moutai");
    s.stock_list.pop();
    s.refresh_selection(false);
    assert_eq!(s.stock_list_select.len(), 1);
    s.refresh_selection(true);
    assert!(s.stock_list_select.is_empty());
}

#[test]
fn text_contains_checks_substrings() {
    assert!(contains_text("abcdef", "cde"));
    assert!(contains_text("abc", ""));
    assert!(contains_text("浦发银行", "发银"));
    assert!(!contains_text("abc", "abcd"));
    assert!(!contains_text("abc", "ac"));
}

#[test]
fn select_flagged_keeps_flagged_in_order() {
    let picked = select_flagged(&list(), &vec![true, false, true]);
    assert_eq!(picked.len(), 2);
    assert_eq!(picked[1].symbol, "sh600519");
    assert_eq!(select_flagged(&list(), &vec![false, true]).len(), 1);
}
