//! Commands: the tagged, inspectable units of work the executor applies to
//! the application state, one per tick, each atomic with respect to the
//! observable state.

use vstd::prelude::*;

use crate::app::App;
use crate::app::InputMode;

verus! {

/// A command is a tag with static parameters, never a captured closure, so it
/// can be inspected, tested in isolation, and passed across task boundaries.
#[derive(Clone, Copy, Debug, PartialEq, Eq, Structural)]
pub enum Command {
    DoNothing,
    AlwaysFail,
    Quit,
    EnterInsertMode,
}

/// The built-in command constructors.
pub struct Commands;

impl Commands {
    /// The no-op command: unmapped actions fall back to it.
    pub fn do_nothing() -> (r: Command)
        ensures
            r == Command::DoNothing,
    {
        Command::DoNothing
    }

    /// The always-failing command, kept for negative testing.
    pub fn err() -> (r: Command)
        ensures
            r == Command::AlwaysFail,
    {
        Command::AlwaysFail
    }

    /// The command that asks the main loop to terminate.
    pub fn quit() -> (r: Command)
        ensures
            r == Command::Quit,
    {
        Command::Quit
    }
}

/// What executing `c` on state `pre` and then letting the caller append the
/// message the executor handed back (exactly when the command failed) leaves
/// behind.
pub open spec fn command_effect(pre: App, post: App, c: Command) -> bool {
    match c {
        Command::DoNothing => post == pre,
        Command::AlwaysFail => {
            &&& post.is_finished == pre.is_finished
            &&& post.mode == pre.mode
            &&& post.data_store == pre.data_store
            &&& post.log@.len() == pre.log@.len() + 1
            &&& post.log@ == pre.log@.push(post.log@[pre.log@.len() as int])
            &&& post.log@[pre.log@.len() as int]@ == "Ai"@
        },
        Command::Quit => post == (App { is_finished: true, ..pre }),
        Command::EnterInsertMode => post == (App { mode: InputMode::Insert, ..pre }),
    }
}

/// Applies exactly one command to the application state under the
/// single-writer discipline. A failing command changes nothing and hands the
/// message back; appending it to the log is the caller's part.
pub struct CommandHandler;

impl CommandHandler {
    pub fn execute(app: &mut App, command: Command) -> (r: Result<(), String>)
        ensures
            match command {
                Command::DoNothing => r is Ok && *final(app) == *old(app),
                Command::AlwaysFail => r matches Err(m) && m@ == "Ai"@ && *final(app) == *old(app),
                Command::Quit => r is Ok && *final(app) == (App {
                    is_finished: true,
                    ..*old(app)
                }),
                Command::EnterInsertMode => r is Ok && *final(app) == (App {
                    mode: InputMode::Insert,
                    ..*old(app)
                }),
            },
    {
        match command {
            Command::DoNothing => Ok(()),
            Command::AlwaysFail => Err(String::from_str("Ai")),
            Command::Quit => {
                app.is_finished = true;
                Ok(())
            },
            Command::EnterInsertMode => {
                app.mode = InputMode::Insert;
                Ok(())
            },
        }
    }
}

} // verus!
