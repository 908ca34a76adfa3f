//! Registration data of domains, by WHOIS and by RDAP.
//!
//! The library holds what is decided and computed in a lookup: which server answers
//! for a top-level domain, how referrals are followed and replies are read, and how
//! a reply becomes a record. It opens no connection itself: the program around it
//! does what the library asks for and hands back what came of it.

pub mod buffer_pool;
pub mod cache;
pub mod config;
pub mod dates;
pub mod directory;
pub mod discovery;
pub mod domain;
pub mod errors;
pub mod lookup;
pub mod metrics;
pub mod parser;
pub mod rdap;
pub mod record;
pub mod suffix;
pub mod text;
pub mod tld_mappings;
pub mod whois;

pub use config::Config;
pub use domain::ValidatedDomain;
pub use errors::WhoisError;
pub use lookup::WhoisResponse;
pub use parser::WhoisParser;
pub use rdap::{RdapResult, RdapService};
pub use record::ParsedWhoisData;
pub use whois::{WhoisResult, WhoisService};
