//! Station management and playback coordination for an internet-radio panel
//! applet.
//!
//! The applet keeps a list of radio stations in a file, lets the user add,
//! edit and delete stations through small forms, and plays one station at a
//! time through a media engine. This library holds what the applet decides:
//!
//! - [`text`] and [`validation`]: what a form must hold, and how a station's
//!   identifier is derived from its name;
//! - [`channels`]: the station records, where their file lies, and the steps
//!   of loading and saving it;
//! - [`player`]: the requests that playing, stopping and pausing make of the
//!   engine;
//! - [`model`] and [`app`]: the coordinator, a function from state and event
//!   to next state and commands, and the state that computes it.
//!
//! Widgets, files and the engine are the caller's: the library takes events
//! and plain values, and gives commands and plain values back.

pub mod app;
pub mod channels;
pub mod model;
pub mod player;
pub mod text;
pub mod validation;
