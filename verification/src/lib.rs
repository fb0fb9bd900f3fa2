//! Multi-backend extraction of user/group timelines from web pages.
//!
//! A registry of site backends routes an opaque account string to the backend
//! that recognises it; the backend fetches the remote page over HTTP and
//! parses it into a uniform `User`/`Post` shape.  The parsing rules — header
//! spoofing, Open-Graph lookup, relative-href rewriting, relative-date
//! normalisation, permalink-to-identifier recovery — are verified; the HTTP
//! transport, the HTML/CSS engine and the JSON parser are called through
//! trusted declarations.

pub mod error;
pub mod text;
pub mod date;
pub mod dom;
pub mod cache;
pub mod fetch;
pub mod extract;
pub mod facebook;
pub mod sites;
