//! Extraction of translated text from a translation provider's
//! pseudo-JSON response body.
//!
//! The provider's response is not valid JSON (omitted array elements are
//! written as bare commas, e.g. `,,,0`), so no conforming JSON parser can
//! read it. The heart of this crate is a single-pass scanner that walks the
//! raw text once, emits the translated literal of each element, resolves
//! backslash escapes, and discards everything else.

pub mod request;
pub mod scanner;
