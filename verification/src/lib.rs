//! Resolve a repository name to one of its identifying strings (full name,
//! clone URL, git URL, web link) by scanning paginated search results for an
//! exact, case-insensitive name match.
//!
//! The crate is organised as a single downward pipeline: the argument
//! resolver ([`args`]) turns an invocation into a command, the locator
//! ([`locate`]) decides, page by page, whether a search is over and with what
//! result, and the formatter ([`output`]) extracts the requested field from
//! the matched record. All network traffic is left to the caller, which
//! feeds each page outcome back into the locator.

pub mod about;
pub mod args;
pub mod error;
pub mod locate;
pub mod output;
pub mod record;
pub mod text;
