//! An interrupt-driven control core: a periodic timer drives a blink
//! pattern on a digital output, while a serial byte stream drives a small
//! line-oriented command shell that can retune the timer at runtime.
//!
//! The crate holds the pure logic: the blink pattern engine, the line
//! editor with history and autocomplete, the command parser and processor,
//! and a model of the priority-ceiling discipline that guards the shared
//! timer configuration. Hardware access stays outside.
pub mod autocomplete;
pub mod command;
pub mod history;
pub mod line;
pub mod parse;
pub mod pattern;
pub mod session;
pub mod text;
pub mod timer;
