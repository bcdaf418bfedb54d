//! Key event dispatch for a terminal window.
//!
//! A key press ends in exactly one of three ways: an action of the
//! application runs, the key or its text goes to the terminal in the pane, or
//! nothing happens. On the way it meets the key tables that are active (a
//! stack of named sets of bindings, each with its own way of leaving the
//! stack), the leader (a modifier that a key combination switches on for a
//! short time), and the several forms under which one key can be bound: by
//! its place on the keyboard, by the platform's code, by what it types.
//!
//! The dispatcher does no input or output itself. It takes events and a
//! time, changes its state, and puts what is to be done into a list of
//! operations for its host. Where the outcome of an operation decides how
//! the event goes on (an action may decline the key, a pane may refuse it),
//! the dispatcher says that it waits, and the host hands the outcome back.
//!
//! - [`modifiers`]: the set of modifier keys.
//! - [`keycode`]: key codes, and what a key of the window system is to the
//!   terminal.
//! - [`clock`]: time in milliseconds, and deadlines.
//! - [`input_map`]: the bindings.
//! - [`key_table`]: the stack of active key tables.
//! - [`event`]: events, operations and replies.
//! - [`model`]: the dispatcher as a state machine.
//! - [`window`]: the dispatcher.
//! - [`laws`], [`dispatch_laws`]: what holds of the stack and of the
//!   dispatcher in every state.

pub mod clock;
pub mod dispatch_laws;
pub mod event;
pub mod input_map;
pub mod key_table;
pub mod keycode;
pub mod laws;
pub mod model;
pub mod modifiers;
pub mod window;
