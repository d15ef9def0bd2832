//! The verified core of a binding layer for DirectStorage, an engine that
//! loads files into memory and device resources asynchronously.
//!
//! The engine itself is a native component behind COM interfaces. What is
//! here is everything around it that can be stated and proved:
//!
//! - [`options`]: the packed options of a request, bit for bit as the
//!   engine's compiler packs them;
//! - [`layout`]: the size and alignment of every structure that crosses the
//!   boundary, derived from its members for 32-bit and 64-bit pointers;
//! - [`request`]: requests, with source and destination as sum types;
//! - [`queue`]: the command queue, which keeps commands in the order they
//!   were appended and hands them over one batch at a time;
//! - [`completion`]: the error record of a queue and what a caller concludes
//!   from it after a wait;
//! - [`compression`]: the chunk table of a file, stored as it is or
//!   compressed chunk by chunk with a fall-back for chunks that do not
//!   shrink;
//! - [`benchmark`] and [`results`]: which runs the benchmark makes, what it
//!   enqueues for each, and how it tabulates what it measured;
//! - [`interface`]: the identifiers of the engine's interfaces.
//!
//! Objects that the engine owns or refers to (files, resources, fences,
//! events) appear here as opaque handles. Calling the engine is left to the
//! caller, who passes the outcome back as plain values.

#![allow(non_snake_case)]
#![allow(non_camel_case_types)]
#![allow(non_upper_case_globals)]

pub mod benchmark;
pub mod completion;
pub mod compression;
pub mod interface;
pub mod layout;
pub mod options;
pub mod queue;
pub mod request;
pub mod results;

pub use crate::benchmark::DSTORAGE_CONFIGURATION;
pub use crate::completion::{
    DSTORAGE_ERROR_FIRST_FAILURE, DSTORAGE_ERROR_PARAMETERS, DSTORAGE_ERROR_PARAMETERS_EVENT,
    DSTORAGE_ERROR_PARAMETERS_REQUEST, DSTORAGE_ERROR_PARAMETERS_SIGNAL,
    DSTORAGE_ERROR_PARAMETERS_STATUS, DSTORAGE_ERROR_RECORD,
};
pub use crate::options::{
    DSTORAGE_COMPRESSION_FORMAT, DSTORAGE_COMPRESSION_FORMAT_GDEFLATE,
    DSTORAGE_COMPRESSION_FORMAT_NONE, DSTORAGE_CUSTOM_COMPRESSION_0,
    DSTORAGE_REQUEST_DESTINATION_BUFFER, DSTORAGE_REQUEST_DESTINATION_MEMORY,
    DSTORAGE_REQUEST_DESTINATION_MULTIPLE_SUBRESOURCES,
    DSTORAGE_REQUEST_DESTINATION_TEXTURE_REGION, DSTORAGE_REQUEST_DESTINATION_TILES,
    DSTORAGE_REQUEST_DESTINATION_TYPE, DSTORAGE_REQUEST_OPTIONS, DSTORAGE_REQUEST_SOURCE_FILE,
    DSTORAGE_REQUEST_SOURCE_MEMORY, DSTORAGE_REQUEST_SOURCE_TYPE,
};
pub use crate::queue::{
    DSTORAGE_COMMAND_TYPE, DSTORAGE_COMMAND_TYPE_EVENT, DSTORAGE_COMMAND_TYPE_NONE,
    DSTORAGE_COMMAND_TYPE_REQUEST, DSTORAGE_COMMAND_TYPE_SIGNAL, DSTORAGE_COMMAND_TYPE_STATUS,
    DSTORAGE_MAX_QUEUE_CAPACITY, DSTORAGE_MIN_QUEUE_CAPACITY, DSTORAGE_PRIORITY,
    DSTORAGE_PRIORITY_HIGH, DSTORAGE_PRIORITY_LOW, DSTORAGE_PRIORITY_NORMAL,
    DSTORAGE_PRIORITY_REALTIME, DSTORAGE_QUEUE_DESC,
};
pub use crate::request::{
    DSTORAGE_DESTINATION, DSTORAGE_DESTINATION_BUFFER, DSTORAGE_DESTINATION_MEMORY,
    DSTORAGE_DESTINATION_MULTIPLE_SUBRESOURCES, DSTORAGE_DESTINATION_TEXTURE_REGION,
    DSTORAGE_DESTINATION_TILES, DSTORAGE_REQUEST, DSTORAGE_SOURCE, DSTORAGE_SOURCE_FILE,
    DSTORAGE_SOURCE_MEMORY,
};
