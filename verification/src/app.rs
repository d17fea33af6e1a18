//! The application state and the per-tick decisions of the main loop: which
//! mode the loop is in, whether an input cycle may start, what a received
//! action does to the state, and when the shutdown sequence begins.

use vstd::prelude::*;

use crate::commands::command_effect;
use crate::commands::Command;
use crate::commands::CommandHandler;
use crate::commands::Commands;
use crate::keymap::Actions;
use crate::keymap::Key;
use crate::response::Response;

verus! {

/// The two modes of the main loop: in `Normal` keys go through the resolver
/// and the action channel; in `Insert` raw keys are routed straight to the
/// text-edit handler.
#[derive(Clone, Copy, Debug, PartialEq, Eq, Structural)]
pub enum InputMode {
    Normal,
    Insert,
}

/// One stored request: a name and a target address.
#[derive(Clone, Debug)]
pub struct Request {
    pub name: String,
    pub url: String,
}

impl Request {
    pub fn set_url(&mut self, url: String)
        ensures
            final(self).url == url,
            final(self).name == old(self).name,
    {
        self.url = url;
    }

    pub fn set_name(&mut self, name: String)
        ensures
            final(self).name == name,
            final(self).url == old(self).url,
    {
        self.name = name;
    }
}

impl Default for Request {
    /// A fresh request: empty name, empty address.
    fn default() -> (r: Self)
        ensures
            r.name@ == Seq::<char>::empty(),
            r.url@ == Seq::<char>::empty(),
    {
        Request { name: String::new(), url: String::new() }
    }
}

/// The request/response store: the stored requests, which one is current,
/// the latest response, and the line being typed while in insert mode.
#[derive(Clone, Debug)]
pub struct DataStore {
    pub requests: Vec<Request>,
    pub current_request: usize,
    pub last_response: Response,
    pub input_buffer: String,
}

impl DataStore {
    pub fn init(requests: Vec<Request>) -> (r: Self)
        ensures
            r.requests == requests,
            r.current_request == 0,
            r.last_response.status == 0,
            r.last_response.response_time == 0,
            r.last_response.headers@ == Map::<String, String>::empty(),
            r.last_response.body@ == Seq::<char>::empty(),
            r.input_buffer@ == Seq::<char>::empty(),
    {
        DataStore {
            requests,
            current_request: 0,
            last_response: Response::default(),
            input_buffer: String::new(),
        }
    }
}

/// What the main loop is told to do with the tick at hand, once the render
/// handshake has been answered. One directive per tick: at most one input
/// cycle is eligible and at most one command will be executed.
#[derive(Clone, Copy, Debug, PartialEq, Eq, Structural)]
pub enum TickDirective {
    /// The render handshake failed: fatal, begin the shutdown sequence.
    Shutdown,
    /// Insert mode: read one raw key and hand it to the text-edit handler;
    /// no command dispatch this tick.
    EditKey,
    /// Normal mode: trigger one input cycle exactly when `start_input` (the
    /// gate flag was open, and the trigger closes it), then wait on the
    /// action channel for at most one render interval.
    AwaitAction { start_input: bool },
}

/// The decision of one tick, given the render outcome, the loop mode and the
/// gate flag. Pure: the loop performs the directive, this only chooses it.
pub open spec fn spec_plan_tick(mode: InputMode, render_ok: bool, gate_open: bool) -> TickDirective {
    if !render_ok {
        TickDirective::Shutdown
    } else if mode is Insert {
        TickDirective::EditKey
    } else {
        TickDirective::AwaitAction { start_input: gate_open }
    }
}

/// A failed render handshake ends the tick at once: the directive carries no
/// input trigger and no channel wait, so no action is dequeued or executed on
/// that tick, and the loop goes to the shutdown sequence.
pub proof fn lemma_render_failure_is_fatal(mode: InputMode, gate_open: bool)
    ensures
        spec_plan_tick(mode, false, gate_open) == TickDirective::Shutdown,
{
}

/// An input cycle is only ever triggered when the poll gate stands open, so
/// no second cycle begins while one is outstanding; and a tick's directive
/// holds a single trigger, so per tick at most one cycle is eligible.
pub proof fn lemma_gate_discipline(mode: InputMode, render_ok: bool, gate_open: bool)
    ensures
        spec_plan_tick(mode, render_ok, gate_open) matches TickDirective::AwaitAction {
            start_input,
        } ==> start_input == gate_open,
        !gate_open ==> !(spec_plan_tick(mode, render_ok, gate_open)
            == (TickDirective::AwaitAction { start_input: true })),
{
}

/// The action-to-command mapping of the loop: a pure lookup, with no side
/// effects and no failure mode. Actions without a command of their own stay
/// unmapped and fall back to the no-op command at dispatch.
pub open spec fn spec_command_of_action(action: Actions) -> Option<Command> {
    match action {
        Actions::Quit => Some(Command::Quit),
        Actions::Edit => Some(Command::EnterInsertMode),
        _ => None,
    }
}

/// The same mapping with the fallback applied: what one received action will
/// actually execute.
pub open spec fn command_of_action_total(action: Actions) -> Command {
    match spec_command_of_action(action) {
        Some(c) => c,
        None => Command::DoNothing,
    }
}

/// The single mutable aggregate of the system. Created once at startup and
/// written only through command execution and the insert-mode edit handler,
/// both called by the main loop alone; every other task sees snapshots.
#[derive(Clone, Debug)]
pub struct App {
    /// The termination flag: once true, the main loop exits at the top of
    /// the next tick.
    pub is_finished: bool,
    pub mode: InputMode,
    pub data_store: DataStore,
    /// Append-only log of human-readable messages.
    pub log: Vec<String>,
}

impl Default for App {
    /// The state the application starts in: running, normal mode, an empty
    /// store and an empty log.
    fn default() -> (r: Self)
        ensures
            !r.is_finished,
            r.mode == InputMode::Normal,
            r.data_store.requests@ == Seq::<Request>::empty(),
            r.data_store.current_request == 0,
            r.data_store.last_response.status == 0,
            r.data_store.last_response.response_time == 0,
            r.data_store.last_response.headers@ == Map::<String, String>::empty(),
            r.data_store.last_response.body@ == Seq::<char>::empty(),
            r.data_store.input_buffer@ == Seq::<char>::empty(),
            r.log@ == Seq::<String>::empty(),
    {
        App {
            is_finished: false,
            mode: InputMode::Normal,
            data_store: DataStore::init(Vec::new()),
            log: Vec::new(),
        }
    }
}

impl App {
    pub fn get_mode(&self) -> (m: InputMode)
        ensures
            m == self.mode,
    {
        self.mode
    }

    pub fn set_data_store(&mut self, data_store: DataStore)
        ensures
            final(self).data_store == data_store,
            final(self).is_finished == old(self).is_finished,
            final(self).mode == old(self).mode,
            final(self).log == old(self).log,
    {
        self.data_store = data_store;
    }

    pub fn get_data_store(&self) -> (r: &DataStore)
        ensures
            *r == self.data_store,
    {
        &self.data_store
    }

    /// Appends one message to the log; nothing else moves.
    pub fn set_log(&mut self, log: String)
        ensures
            final(self).log@ == old(self).log@.push(log),
            final(self).is_finished == old(self).is_finished,
            final(self).mode == old(self).mode,
            final(self).data_store == old(self).data_store,
    {
        self.log.push(log);
    }

    /// The mapper of the pipeline, as the loop calls it.
    pub fn get_command_of_action(&self, action: Actions) -> (r: Option<Command>)
        ensures
            r == spec_command_of_action(action),
    {
        match action {
            Actions::Quit => Some(Commands::quit()),
            Actions::Edit => Some(Command::EnterInsertMode),
            _ => None,
        }
    }

    /// Executes one command against this state and, exactly when it fails,
    /// appends the message the executor handed back to the log — the whole
    /// per-command part of a tick.
    pub fn run_command(&mut self, command: Command)
        ensures
            command_effect(*old(self), *final(self), command),
    {
        let result = CommandHandler::execute(self, command);
        match result {
            Ok(()) => (),
            Err(message) => {
                self.set_log(message);
            },
        }
    }

    /// One received action, from mapping to execution: unmapped actions run
    /// the no-op command.
    pub fn handle_action(&mut self, action: Actions)
        ensures
            command_effect(*old(self), *final(self), command_of_action_total(action)),
    {
        let command = match self.get_command_of_action(action) {
            Some(c) => c,
            None => Commands::do_nothing(),
        };
        self.run_command(command);
    }

    /// The decision of one tick. The caller renders first, then reports
    /// whether the handshake succeeded and whether the poll gate stands
    /// open; the directive says how the tick goes on.
    pub fn plan_tick(&self, render_ok: bool, gate_open: bool) -> (r: TickDirective)
        ensures
            r == spec_plan_tick(self.mode, render_ok, gate_open),
    {
        if !render_ok {
            TickDirective::Shutdown
        } else {
            match self.mode {
                InputMode::Insert => TickDirective::EditKey,
                InputMode::Normal => TickDirective::AwaitAction { start_input: gate_open },
            }
        }
    }

    /// The insert-mode text-edit handler: printable keys grow the input line,
    /// backspace shrinks it, escape leaves insert mode; every other key does
    /// nothing. No command dispatch happens here.
    pub fn edit_input_mode(&mut self, key: Key)
        ensures
            final(self).is_finished == old(self).is_finished,
            final(self).log == old(self).log,
            final(self).data_store.requests == old(self).data_store.requests,
            final(self).data_store.current_request == old(self).data_store.current_request,
            final(self).data_store.last_response == old(self).data_store.last_response,
            match key {
                Key::Esc => {
                    &&& final(self).mode == InputMode::Normal
                    &&& final(self).data_store.input_buffer == old(self).data_store.input_buffer
                },
                Key::Char(c) => {
                    &&& final(self).mode == old(self).mode
                    &&& final(self).data_store.input_buffer@ == old(
                        self,
                    ).data_store.input_buffer@.push(c)
                },
                Key::Backspace => {
                    &&& final(self).mode == old(self).mode
                    &&& final(self).data_store.input_buffer@ == (if old(
                        self,
                    ).data_store.input_buffer@.len() == 0 {
                        old(self).data_store.input_buffer@
                    } else {
                        old(self).data_store.input_buffer@.drop_last()
                    })
                },
                _ => *final(self) == *old(self),
            },
    {
        match key {
            Key::Esc => {
                self.mode = InputMode::Normal;
            },
            Key::Char(c) => {
                push_char(&mut self.data_store.input_buffer, c);
            },
            Key::Backspace => {
                pop_char(&mut self.data_store.input_buffer);
            },
            _ => (),
        }
    }
}

/// Relies on `String::push`: appends the given character to the end of the
/// string.
#[verifier::external_body]
fn push_char(s: &mut String, c: char)
    ensures
        final(s)@ == old(s)@.push(c),
{
    s.push(c);
}

/// Relies on `String::pop`: removes and returns the last character, or
/// returns `None` and leaves the string as it was if it is empty.
#[verifier::external_body]
fn pop_char(s: &mut String) -> (r: Option<char>)
    ensures
        old(s)@.len() == 0 ==> r is None && final(s)@ == old(s)@,
        old(s)@.len() > 0 ==> r == Some(old(s)@.last()) && final(s)@ == old(s)@.drop_last(),
{
    s.pop()
}

} // verus!
