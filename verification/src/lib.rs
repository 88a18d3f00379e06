//! A scripted USB HID keystroke engine.
//!
//! Given a physical trigger event, the engine produces a deterministic
//! sequence of USB boot-keyboard input reports that reproduce a fixed macro
//! (key chords plus typed literal text) with controlled inter-report timing.
//! The library holds the verified core: character-to-keycode encoding, the
//! 8-byte report wire format, expansion of a macro script into a flat plan of
//! transport actions, a player that steps through a plan regardless of
//! per-write transport outcomes, the press/release trigger state machine, and
//! the fixed answers to host-originated HID requests.  Performing the actions
//! (writing to a USB endpoint, sleeping, watching a button) is left to the
//! surrounding program.

pub mod device;
pub mod keycode;
pub mod macro_script;
pub mod player;
pub mod report;
pub mod script;
pub mod session;
pub mod trigger;
