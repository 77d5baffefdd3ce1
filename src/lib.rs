//! Negotiation of a response language from an `Accept-Language` header and
//! the server's own weights for each language.

pub mod header;
pub mod lang;
pub mod negotiate;
pub mod quality;

pub use header::languages;
pub use lang::LangCode;
pub use negotiate::{
    accept_language, with_config_from_header, without_config_from_header, Config, Decider, Error,
};
pub use quality::Quality;
