//! Greeting records and the answers a greeting service gives about them.

mod listing;
mod model;
mod schema;
mod text;

pub use listing::{ascending_ids, order_by_id};
pub use model::{
    error_text, lookup_result, status_of, Greeting, Info, ResponseMessage, ServiceError,
};
pub use schema::{COUNT_GREETINGS, CREATE_TABLE, INSERT_GREETING, SELECT_ALL, SELECT_BY_ID};
pub use text::{
    decimal, digit_char, digits, hello_message, hello_text, push_decimal, welcome_message, welcome_text,
    welcome_when_empty,
};
