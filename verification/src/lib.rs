//! Interrupt-safe sharing of one input pin between a blinking main loop and
//! the handler of its falling-edge interrupt, on a single core.
//!
//! The pins are held as plain values ([`signal`]), the cell that both
//! contexts reach is [`cell::SharedCell`], the decisions of the main loop
//! and of the handler are in [`control`], the entry into a critical section
//! is in [`exclusive`], and [`board`] puts the parts together so that every
//! interleaving of loop steps and line changes can be reasoned about.
use vstd::prelude::*;

pub mod signal;
pub mod cell;
pub mod control;
pub mod exclusive;
pub mod board;
