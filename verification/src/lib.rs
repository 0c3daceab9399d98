//! Verified core of the Watermelon Clock desktop shell's launcher.
//!
//! The launcher itself is a thin native program: it assembles an application
//! builder, registers the opener plugin, installs a startup hook that gives
//! the main window its title, and hands control to the framework's run loop.
//! Everything the launcher decides is modelled and proved here, over an
//! explicit model of the framework state (a window registry, injected faults
//! for the two fallible framework operations), so that the startup behaviour
//! is stated once and checked against every registry and every fault pattern.

pub mod builder;
pub mod startup;
pub mod window;
