//! Verified core of the bridge between a managed client and the embedded
//! database engine.
//!
//! The heart of it is the pager of query results: `values` holds the rows
//! and the estimate of their size, `paging` selects the rows of a page under
//! a budget in bytes, and `pager` caches what a page did not deliver, keyed
//! by the handle of the backend and a sequence number.
//!
//! Around it stand the decisions of the rest of the bridge, each free of
//! input and output: the sources of the generated Kotlin interfaces
//! (`translations`, `kotlin`, on strings from `text`), the filter of the log
//! (`logging`), what the entry points hand back (`bridge`), the page offset
//! of a mapping (`mmap`), the versions of the schema that can be opened
//! (`schema`), the targets of a build (`targets`), and the list of the
//! functions that the web components import (`web`).

pub mod bridge;
pub mod kotlin;
pub mod logging;
pub mod mmap;
pub mod pager;
pub mod paging;
pub mod schema;
pub mod targets;
pub mod text;
pub mod translations;
pub mod values;
pub mod web;
