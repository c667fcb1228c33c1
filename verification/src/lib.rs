//! Builds in-memory Atom feed values (feed, entries, persons, generator) and
//! serializes them to an Atom 1.0 XML document, with the emission order,
//! optional-field omission and escaping pinned down by specification
//! functions over sequences of characters.

pub mod entry;
pub mod feed;
pub mod generator;
pub mod laws;
pub mod person;
pub mod timestamp;
pub mod xml;

pub use entry::AtomEntry;
pub use feed::{AtomFeed, AtomFeedBuilder};
pub use generator::Generator;
pub use person::Person;
pub use timestamp::Timestamp;
