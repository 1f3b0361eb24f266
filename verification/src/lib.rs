//! Batch report generator for a telephony account: fetches account details,
//! usage records, message records and call records, coordinates the four
//! fetches (sequentially or concurrently), and lays the results out as
//! spreadsheet cell grids.
//!
//! The fetch coordination and the cell layout are verified; the HTTP client,
//! the JSON decoder and the spreadsheet file writer are external collaborators
//! driven from outside this library.

pub mod error;
pub mod model;
pub mod pipeline;
pub mod render;
