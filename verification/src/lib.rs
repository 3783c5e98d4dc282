//! Paging through the users of a database, one request and one response at a
//! time.

pub mod activity;
pub mod body;
pub mod charge;
pub mod json;
pub mod models;
pub mod pager;
pub mod request;
pub mod response;
pub mod text;
pub mod wire;
