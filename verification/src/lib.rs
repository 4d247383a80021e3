//! Library for a small tool that prepares a dated folder and a minimal
//! OpenDocument Text file in it.
//!
//! The library computes the first Wednesday of a target month, formats it as a
//! `YYYYMMDD` folder name, parses the tool's command line, turns the
//! user-entered filename into an output name, assembles the document archive
//! bytes, and lists the viewer commands to try per platform.

pub mod archive;
pub mod cli;
pub mod date;
pub mod launch;
pub mod text;
