//! Rendering of markup that embeds a vector graphic into a one-page PDF whose
//! paper is exactly as large as the graphic.
//!
//! The crate holds the decisions of that pipeline: the document that is
//! injected into the rendering context, the paper geometry computed from the
//! measured graphic, the sequence of browser commands of one request, the
//! startup and end of the browser session, and the mapping of uploads and
//! outcomes at the HTTP boundary. Talking to the browser and to the network
//! is left to the caller, which performs each command it is asked for and
//! reports what came of it.

pub mod paper;
pub mod document;
pub mod error;
pub mod pipeline;
pub mod trace;
pub mod boundary;
pub mod session;
