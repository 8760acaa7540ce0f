//! Composition layer of a read-only bibliographic catalog.
//!
//! The catalog answers requests from two sources that are queried
//! independently: a relational store that holds the authoritative rows, and
//! a search index that ranks ids and estimates how many match. This library
//! holds the rules that reconcile the two: how a filter becomes a set of
//! predicates, how rows are put back into search rank, how one entity is
//! drawn at random, how a book and its related rows become one view object,
//! and how a result set is wrapped into a page.
//!
//! The library talks to neither source. Its callers fetch, hand over what
//! they fetched, and serve what they are handed back.

// The rules.
pub mod aggregate;
pub mod filter;
pub mod formats;
pub mod pagination;
pub mod rank;
pub mod sampler;
pub mod search;

// What is answered to each kind of request.
pub mod authors;
pub mod books;
pub mod sequences;
pub mod translators;

// The data.
pub mod annotation;
pub mod author;
pub mod book;
pub mod genre;
pub mod meilisearch;
pub mod sequence;
pub mod source;
pub mod translator;

// What the rest stands on.
pub mod config;
pub mod date;
pub mod error;
pub mod text;
