//! Pseudo-terminal allocation and the attachment of child processes to it.
//!
//! The verified part of the library holds:
//! - the terminal size and its conversions into the platform's window-size
//!   records (`size`, `windows`);
//! - the decisions that spawning a child on a pty makes: which standard
//!   streams get the subordinate device, and which post-fork hook is
//!   installed (`command`);
//! - the pseudo-console side of the platform model: its pty and pts, the
//!   opening sequence that releases what it acquired when a step fails
//!   (`open`), and the command line and environment block that its
//!   process-creation call takes (`cmdline`).

mod cmdline;
mod command;
mod error;
mod open;
mod size;
mod windows;

pub use cmdline::{
    command_line, env_block_of, env_entries, environment_block, escaped, escaped_head, has_nul,
    joined_args, needs_quotes, quote_arg, quoted, run_meets_quote, valid_var, vars_view,
};
pub use command::{
    custom_follows_leader, follows_leader, hook_steps, hook_to_install,
    lemma_session_leader_runs_first, run_order, spawn_planned, CommandState, Hook, PreExecStep,
    SpawnPlan,
};
pub use error::Error;
pub use open::{console_seq, pipe_seq, OpenAction, OpenEvent, OpenStage, PtyOpener, Resource};
pub use size::{lemma_winsize_round_trip, size_of_winsize, winsize_of, Size};
pub use windows::{
    console_size, console_size_of, fits_console, lemma_console_size_out_of_range,
    lemma_console_size_round_trip, size_of_console, ConsoleSize, WindowsPts, WindowsPty,
    MAX_CONSOLE_DIM,
};
