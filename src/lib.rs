//! Reads the URL shown in the active tab of the foreground browser window.
//!
//! The library holds the logic of that pipeline: recognising browsers,
//! normalising the raw address-bar text, extracting the domain, deciding each
//! step of the platform probes, and assembling the final record. The calls into
//! the operating system are made by the program around it, which feeds their
//! outcomes back into these functions.

pub mod text;
pub mod url;
pub mod registry;
pub mod report;
pub mod probe;
