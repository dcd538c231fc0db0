//! Host-side support for a document compiler: a content-addressed resource
//! cache fed by a host fetch callback, a package resolution cache, a font
//! catalog, a once-per-compilation date, and a renderer that turns compiler
//! diagnostics into plain-text reports.

pub mod hash;
pub mod ident;
pub mod error;
pub mod text;
pub mod store;
pub mod packages;
pub mod date;
pub mod fonts;
pub mod world;
pub mod diagnostic;
pub mod thumbnail;
