//! Proves that a user controls an account on a competitive-programming
//! platform by finding a short code among the words of a public profile text.
pub mod authenticator;
pub mod json;
pub mod matching;
pub mod scrape;
