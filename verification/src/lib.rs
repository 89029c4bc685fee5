//! Fixed-length binary command protocol for the hardware modules of a
//! remote-controlled vehicle: ballast, propulsion and lighting.
//!
//! A command travels as a sixteen-byte frame. The library builds frames from
//! typed commands, checks the structure of received frames and decodes their
//! payload back into typed commands.

pub mod commands;
