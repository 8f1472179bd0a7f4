//! Filing selection, tolerant XBRL fact extraction and taxonomy normalization.
//!
//! A request names a company's filing history, a period category and a count.
//! [`resolve::Resolution`] picks the matching filings and asks its caller for
//! each filing's file listing and instance document; every document is
//! sanitized ([`sanitize`]), its facts extracted ([`extract`]) and mapped onto
//! the fixed report schema ([`schema`], [`normalize`]).

pub mod text;
pub mod sanitize;
pub mod numeric;
pub mod xml;
pub mod facts;
pub mod extract;
pub mod normalize;
pub mod schema;
pub mod select;
pub mod resolve;
pub mod models;
