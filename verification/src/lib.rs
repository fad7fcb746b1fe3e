//! Code signing services: the values, options and call protocol through which
//! a program asks the operating system whether a piece of code satisfies a
//! signing requirement.

pub mod code;
pub mod error;
pub mod flags;
pub mod guest;
