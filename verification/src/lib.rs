//! Driver core for a 12.48 inch electronic-paper display made of four panels on one serial bus.
//!
//! The crate touches no hardware. It decides which signals go out on the wires and in which
//! order, and what follows from each answer of the bus; the host performs the signals.
//!
//! A host takes a script from [`driver::Epd12in48::init`], begins it with
//! [`run::Run::start`], and then, for as long as a signal is pending, performs
//! [`run::Run::pending`] on its bus and lines and hands the outcome to
//! [`run::Run::answered`].

pub mod command;
pub mod driver;
pub mod half;
pub mod log;
pub mod panel;
pub mod run;
pub mod sequencing;
pub mod signal;
