pub mod collection;
pub mod common;
pub mod configuration;
pub mod document;
pub mod encoding;
pub mod environment;
pub mod interop;
pub mod query;
pub mod request;
pub mod response;
