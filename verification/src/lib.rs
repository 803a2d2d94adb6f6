//! A small in-process dispatcher for HTTP-style invocations.
//!
//! An [`Application`] holds [`Handler`]s in the order they were registered. Each
//! handler pairs a predicate on requests with a [`Page`]. To dispatch a request,
//! the application asks the handlers in order and lets the page of the first one
//! that accepts render the [`AppResponse`]; when none accepts, the answer is an
//! empty 404.
//!
//! Every executable function carries a contract over the mathematical views of
//! the data it reads and writes, and every contract is proved.

pub mod request;
pub mod cookie;
pub mod response;
pub mod page;
pub mod handler;
pub mod application;

pub use crate::application::Application;
pub use crate::cookie::{Cookie, CookieJar};
pub use crate::handler::Handler;
pub use crate::page::{Cors, Page};
pub use crate::request::Request;
pub use crate::response::AppResponse;
