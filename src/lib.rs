pub mod locale;
pub mod source;
pub mod filter;
pub mod response;
pub mod calendar;
pub mod config;
