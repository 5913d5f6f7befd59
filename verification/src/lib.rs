//! Verified core of a terminal user-interface session.
//!
//! The crate models the three pieces every full-screen terminal program
//! needs and proves their coordination correct:
//!
//! * [`session`] — the terminal session guard: raw mode, alternate screen,
//!   mouse capture and cursor visibility as an explicit state machine, with
//!   the guarantee that every exit path restores the terminal.
//! * [`event`] — the event stream: keyboard, mouse and resize input merged
//!   with a periodic tick into one ordered queue that loses and reorders
//!   nothing.
//! * [`driver`] — the application driver: the render/update loop that draws
//!   once per iteration, dispatches each event to the application, and tears
//!   the session down exactly once, whatever ended the loop.
//!
//! The platform calls themselves (switching the terminal's modes, polling
//! the input device, painting a frame) are input/output and live outside
//! this crate; a host keeps its real terminal in step with the verified
//! state machine and feeds the verified loop with the events it reads.

pub mod driver;
pub mod event;
pub mod session;
