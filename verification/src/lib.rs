//! Verified core logic of a personal finance manager: text parsing of numbers,
//! dates and times, validated text inputs, table paging, transaction filters,
//! budget recurrences and the brute-force protection of the server.

pub mod text;
pub mod number;
pub mod validation_text_input;
pub mod currency_input;
pub mod date_time;
pub mod inputs;
pub mod auth;
pub mod table;
pub mod named;
pub mod filter;
pub mod budget;
pub mod forms;
pub mod settings;
pub mod error;
pub mod client;
pub mod add_transaction;
pub mod scrollable;
pub mod heading;
pub mod sidebar;
pub mod importer;
pub mod config;
pub mod key_value_editor;
pub mod create_transaction;
pub mod create_bill;
pub mod create_budget;
pub mod create_asset_account;
pub mod create_book_checking_account;
pub mod create_category;
pub mod overview;
pub mod transaction_view;
pub mod finance_managers;
pub mod pages;
pub mod navigation;
pub mod item_pages;
pub mod page_dispatch;
pub mod ordered;
pub mod panes;
