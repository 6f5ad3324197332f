//! Data orchestration of a client for listed companies' trading histories:
//! the message bus, the dispatch service, the per-company fetch controllers
//! and the join of a four-part prediction.
pub mod api;
pub mod bar;
pub mod channel;
pub mod decimal;
pub mod financial_analysis;
pub mod message;
pub mod search;
pub mod service;
pub mod stock;
pub mod stock_view;
pub mod trading_history;
