//! A minimal link-shortening core: a persistent slug -> URL store with a
//! uniqueness guarantee, and a redirect service that gates writes behind a
//! shared secret and translates store outcomes into response categories.

pub mod laws;
pub mod outcomes;
pub mod service;
pub mod store;
