pub mod activation;
pub mod bot;
pub mod config;
pub mod database;
pub mod device;
pub mod payment;
pub mod remnawave;
pub mod tariff;
pub mod text;
pub mod time;
pub mod trial;
pub mod ui;
pub mod url;
pub mod webhook;
