//! Client-side logic for submitting a contract class to the Voyager
//! verification service and following the resulting job to its end.

pub mod compiler;
pub mod dispatch;
pub mod endpoints;
pub mod error;
pub mod form;
pub mod http;
pub mod job;
pub mod lookup;
pub mod network;
pub mod poll;
pub mod status;
pub mod text;
