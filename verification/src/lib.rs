//! A real-time driver for a CHIP-8 interpreter.
//!
//! Once per displayed frame the driver samples the keyboard and tells the
//! interpreter which keypad key went down or up, runs the interpreter for a
//! fixed number of steps, counts its timers down by one, and paints its
//! display as squares of the window. This crate holds the rules of all that:
//!
//! - [`keymap`]: which keypad key a set of host keys stands for;
//! - [`input`]: the key events of one sample of the keyboard;
//! - [`schedule`]: the actions of a frame, in order;
//! - [`render`]: the squares to paint for a display;
//! - [`machine`]: starting the interpreter, telling it of keys, ticking its
//!   timers, reading its display;
//! - [`interpreter`]: what is taken for granted of the interpreter;
//! - [`launch`]: what the command line asks for;
//! - [`config`]: the fixed sizes, colours and counts.
//!
//! The window, the keyboard, the program file and the loop over the frames
//! are the caller's.

pub mod config;
pub mod input;
pub mod interpreter;
pub mod keymap;
pub mod launch;
pub mod machine;
pub mod render;
pub mod schedule;
