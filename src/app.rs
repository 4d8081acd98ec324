//! The application is mainly a stack of states.
//!
//! Commands typed by the user are submitted to the current state, which
//! replies with an `AppStateCmdResult`: a transition to a new state, a pop
//! back to the previous one, an operation keeping the state, a request to
//! quit, or a request to launch something once the application has ended.
use crate::commands::Command;
use crate::external::Launchable;
use crate::input::Terminal;
use crate::pump::TaskPump;
use crate::task_sync::TaskLifetime;
use crate::text::append_str;
use vstd::prelude::*;

verus! {

/// Result of applying a command to a state.
pub enum AppStateCmdResult<S> {
    Quit,
    Keep,
    Launch(Launchable),
    DisplayError(String),
    NewState(S, Command),
    /// The state asks that the command be executed on the previous state.
    PopStateAndReapply,
    PopState,
    RefreshState,
}

/// What `{:?}` writes for a string: the text quoted, with its special
/// characters escaped.
pub uninterp spec fn debug_quoted(s: Seq<char>) -> Seq<char>;

/// Relies on the `Debug` impl of `str`: the text between double quotes,
/// with quotes, backslashes and control characters escaped.
#[verifier::external_body]
fn debug_of(s: &str) -> (r: String)
    ensures
        r@ == debug_quoted(s@),
{
    format!("{:?}", s)
}

/// Start of the message telling that no verb has the typed name.
pub const VERB_NOT_FOUND: &'static str = "verb not found: ";

/// The message telling that no verb is named `quoted` (already quoted).
pub fn verb_not_found_message(quoted: &str) -> (r: String)
    ensures
        r@ == VERB_NOT_FOUND@ + quoted@,
{
    let mut r = String::new();
    append_str(&mut r, VERB_NOT_FOUND);
    append_str(&mut r, quoted);
    r
}

impl<S> AppStateCmdResult<S> {
    /// An error result telling that no verb is named `text`.
    pub fn verb_not_found(text: &str) -> (r: AppStateCmdResult<S>)
        ensures
            r matches AppStateCmdResult::DisplayError(m) && m@ == VERB_NOT_FOUND@ + debug_quoted(
                text@,
            ),
    {
        let quoted = debug_of(text);
        AppStateCmdResult::DisplayError(verb_not_found_message(quoted.as_str()))
    }

    /// The result of an attempt to build a new state: a transition to it
    /// with `cmd`, no change when there is none, or the error's message.
    pub fn from_optional_state(os: Result<Option<S>, String>, cmd: Command) -> (r:
        AppStateCmdResult<S>)
        ensures
            match os {
                Ok(Some(s)) => r == AppStateCmdResult::NewState(s, cmd),
                Ok(None) => r is Keep,
                Err(e) => r == AppStateCmdResult::<S>::DisplayError(e),
            },
    {
        match os {
            Ok(Some(s)) => AppStateCmdResult::NewState(s, cmd),
            Ok(None) => AppStateCmdResult::Keep,
            Err(e) => AppStateCmdResult::DisplayError(e),
        }
    }
}

/// A whole application state, stackable to allow reverting to a
/// previous one. `D` is the display surface the state paints on.
pub trait AppState<D>: Sized {
    fn apply(&mut self, cmd: &mut Command, screen: &mut D) -> Result<
        AppStateCmdResult<Self>,
        std::io::Error,
    >;

    fn refresh(&mut self, screen: &D) -> Command;

    fn has_pending_tasks(&self) -> bool;

    fn do_pending_task(&mut self, screen: &mut D, tl: &TaskLifetime);

    fn display(&mut self, screen: &mut D) -> Result<(), std::io::Error>;

    fn write_status(&self, screen: &mut D, cmd: &Command) -> Result<(), std::io::Error>;

    fn write_flags(&self, screen: &mut D) -> Result<(), std::io::Error>;
}

/// What remains to be done after the engine has taken a state's result
/// into account.
pub enum Dispatch {
    /// Nothing more: the engine is quitting, or the command stands.
    Done,
    /// Paint the status of the current state for the command in play.
    ShowStatus,
    /// Ask the current state for a fresh command.
    Refresh,
    /// Ask the current state for a fresh command, then paint its status.
    RefreshAndShowStatus,
    /// The previous state was popped: apply the same command again.
    Reapply,
    /// Paint the message in the status area.
    ShowError(String),
}

/// Stack depth and quitting flag after a pop is asked for (by `PopState`
/// or `PopStateAndReapply`): the only state is never popped, the engine
/// quits instead.
pub open spec fn pop_step(depth: nat, quitting: bool) -> (nat, bool) {
    if depth <= 1 {
        (depth, true)
    } else {
        ((depth - 1) as nat, quitting)
    }
}

/// Stack depth and quitting flag after `n` pops asked for in a row.
pub open spec fn pops(depth: nat, quitting: bool, n: nat) -> (nat, bool)
    decreases n,
{
    if n == 0 {
        (depth, quitting)
    } else {
        let before = pops(depth, quitting, (n - 1) as nat);
        pop_step(before.0, before.1)
    }
}

/// Pops asked for in a row shrink a stack of `depth` states by exactly one
/// each, while more than one state is left; from then on each of them
/// quits and the sole remaining state stays: the stack is never empty.
pub proof fn lemma_pops_shrink_then_quit(depth: nat, quitting: bool, n: nat)
    requires
        depth >= 1,
    ensures
        n < depth ==> pops(depth, quitting, n) == ((depth - n) as nat, quitting),
        n >= depth ==> pops(depth, quitting, n) == (1nat, true),
    decreases n,
{
    if n > 0 {
        lemma_pops_shrink_then_quit(depth, quitting, (n - 1) as nat);
    }
}

/// The engine: the stack of states (the last one is current), whether
/// the application is quitting, and what must be launched after the end.
pub struct App<S> {
    states: Vec<S>,
    quitting: bool,
    launch_at_end: Option<Launchable>,
}

impl<S> App<S> {
    /// The stack of states, bottom first.
    pub closed spec fn stack(&self) -> Seq<S> {
        self.states@
    }

    pub closed spec fn is_quitting(&self) -> bool {
        self.quitting
    }

    /// What must be launched once the application has ended.
    pub closed spec fn launch(&self) -> Option<Launchable> {
        self.launch_at_end
    }

    pub fn new() -> (r: App<S>)
        ensures
            r.stack() == Seq::<S>::empty(),
            !r.is_quitting(),
            r.launch() is None,
    {
        App { states: Vec::new(), quitting: false, launch_at_end: None }
    }

    pub fn push(&mut self, new_state: S)
        ensures
            final(self).stack() == old(self).stack().push(new_state),
            final(self).is_quitting() == old(self).is_quitting(),
            final(self).launch() == old(self).launch(),
    {
        self.states.push(new_state);
    }

    pub fn depth(&self) -> (r: usize)
        ensures
            r == self.stack().len(),
    {
        self.states.len()
    }

    pub fn quitting(&self) -> (r: bool)
        ensures
            r == self.is_quitting(),
    {
        self.quitting
    }

    /// Hands out what must be launched after the end, leaving nothing.
    pub fn take_launchable(&mut self) -> (r: Option<Launchable>)
        ensures
            r == old(self).launch(),
            final(self).launch() is None,
            final(self).stack() == old(self).stack(),
            final(self).is_quitting() == old(self).is_quitting(),
    {
        self.launch_at_end.take()
    }

    /// The current state.
    pub fn state(&self) -> (r: &S)
        requires
            self.stack().len() > 0,
        ensures
            *r == self.stack().last(),
    {
        &self.states[self.states.len() - 1]
    }

    /// Takes the result a state returned for a command into account: the
    /// stack, the quitting flag, the deferred action and the command in
    /// play change as the result asks. Popping the only state quits.
    pub fn transition(&mut self, result: AppStateCmdResult<S>, cmd: &mut Command) -> (d: Dispatch)
        requires
            old(self).stack().len() > 0,
        ensures
            final(self).stack().len() > 0,
            match result {
                AppStateCmdResult::Quit => {
                    &&& d is Done
                    &&& final(self).is_quitting()
                    &&& final(self).stack() == old(self).stack()
                    &&& final(self).launch() == old(self).launch()
                    &&& *final(cmd) == *old(cmd)
                },
                AppStateCmdResult::Launch(l) => {
                    &&& d is Done
                    &&& final(self).is_quitting()
                    &&& final(self).stack() == old(self).stack()
                    &&& final(self).launch() == Some(l)
                    &&& *final(cmd) == *old(cmd)
                },
                AppStateCmdResult::NewState(s, c) => {
                    &&& d is ShowStatus
                    &&& final(self).is_quitting() == old(self).is_quitting()
                    &&& final(self).stack() == old(self).stack().push(s)
                    &&& final(self).launch() == old(self).launch()
                    &&& *final(cmd) == c
                },
                AppStateCmdResult::RefreshState => {
                    &&& d is Refresh
                    &&& final(self).is_quitting() == old(self).is_quitting()
                    &&& final(self).stack() == old(self).stack()
                    &&& final(self).launch() == old(self).launch()
                    &&& *final(cmd) == *old(cmd)
                },
                AppStateCmdResult::PopState => {
                    &&& (final(self).stack().len(), final(self).is_quitting()) == pop_step(
                        old(self).stack().len(),
                        old(self).is_quitting(),
                    )
                    &&& old(self).stack().len() == 1 ==> d is Done && final(self).is_quitting()
                        && final(self).stack() == old(self).stack()
                    &&& old(self).stack().len() > 1 ==> d is RefreshAndShowStatus
                        && final(self).is_quitting() == old(self).is_quitting()
                        && final(self).stack() == old(self).stack().drop_last()
                    &&& final(self).launch() == old(self).launch()
                    &&& *final(cmd) == *old(cmd)
                },
                AppStateCmdResult::PopStateAndReapply => {
                    &&& (final(self).stack().len(), final(self).is_quitting()) == pop_step(
                        old(self).stack().len(),
                        old(self).is_quitting(),
                    )
                    &&& old(self).stack().len() == 1 ==> d is Done && final(self).is_quitting()
                        && final(self).stack() == old(self).stack()
                    &&& old(self).stack().len() > 1 ==> d is Reapply
                        && final(self).is_quitting() == old(self).is_quitting()
                        && final(self).stack() == old(self).stack().drop_last()
                    &&& final(self).launch() == old(self).launch()
                    &&& *final(cmd) == *old(cmd)
                },
                AppStateCmdResult::DisplayError(m) => {
                    &&& d == Dispatch::ShowError(m)
                    &&& final(self).is_quitting() == old(self).is_quitting()
                    &&& final(self).stack() == old(self).stack()
                    &&& final(self).launch() == old(self).launch()
                    &&& *final(cmd) == *old(cmd)
                },
                AppStateCmdResult::Keep => {
                    &&& d is ShowStatus
                    &&& final(self).is_quitting() == old(self).is_quitting()
                    &&& final(self).stack() == old(self).stack()
                    &&& final(self).launch() == old(self).launch()
                    &&& *final(cmd) == *old(cmd)
                },
            },
    {
        match result {
            AppStateCmdResult::Quit => {
                self.quitting = true;
                Dispatch::Done
            },
            AppStateCmdResult::Launch(launchable) => {
                self.launch_at_end = Some(launchable);
                self.quitting = true;
                Dispatch::Done
            },
            AppStateCmdResult::NewState(state, new_cmd) => {
                self.push(state);
                *cmd = new_cmd;
                Dispatch::ShowStatus
            },
            AppStateCmdResult::RefreshState => Dispatch::Refresh,
            AppStateCmdResult::PopState => {
                if self.states.len() == 1 {
                    self.quitting = true;
                    Dispatch::Done
                } else {
                    self.states.pop();
                    Dispatch::RefreshAndShowStatus
                }
            },
            AppStateCmdResult::PopStateAndReapply => {
                if self.states.len() == 1 {
                    self.quitting = true;
                    Dispatch::Done
                } else {
                    self.states.pop();
                    Dispatch::Reapply
                }
            },
            AppStateCmdResult::DisplayError(txt) => Dispatch::ShowError(txt),
            AppStateCmdResult::Keep => Dispatch::ShowStatus,
        }
    }
    /// Applies a command to the current state and returns the command now
    /// in play, which may be the same one (modified or not) or a new one.
    /// A state asking for its command to be reapplied is popped and the
    /// same command goes to the state below, until a state takes it or the
    /// application quits.
    pub fn apply_command<D: Terminal>(&mut self, cmd: Command, screen: &mut D) -> (r: Result<
        Command,
        std::io::Error,
    >) where S: AppState<D>
        requires
            old(self).stack().len() > 0,
        ensures
            final(self).stack().len() > 0,
            old(self).is_quitting() ==> final(self).is_quitting(),
            final(self).launch() != old(self).launch() ==> final(self).is_quitting(),
            final(self).stack().len() <= old(self).stack().len() + 1,
    {
        let mut cmd = cmd;
        loop
            invariant
                self.stack().len() > 0,
                self.stack().len() <= old(self).stack().len(),
                old(self).is_quitting() ==> self.is_quitting(),
                self.launch() != old(self).launch() ==> self.is_quitting(),
            decreases self.stack().len(),
        {
            screen.read_size()?;
            screen.write_input(&cmd)?;
            self.state().write_flags(screen)?;
            let top = self.states.len() - 1;
            let result = self.states[top].apply(&mut cmd, screen)?;
            match self.transition(result, &mut cmd) {
                Dispatch::Reapply => {
                    continue;
                },
                Dispatch::Done => {},
                Dispatch::ShowStatus => {
                    self.state().write_status(screen, &cmd)?;
                },
                Dispatch::Refresh => {
                    let top = self.states.len() - 1;
                    cmd = self.states[top].refresh(screen);
                },
                Dispatch::RefreshAndShowStatus => {
                    let top = self.states.len() - 1;
                    cmd = self.states[top].refresh(screen);
                    self.state().write_status(screen, &cmd)?;
                },
                Dispatch::ShowError(txt) => {
                    screen.write_status_err(txt.as_str())?;
                },
            }
            screen.write_input(&cmd)?;
            self.state().write_flags(screen)?;
            return Ok(cmd);
        }
    }
    /// Starts a run of the background-task pump on the current state.
    pub fn pump_start<D>(&self) -> (r: TaskPump) where S: AppState<D>
        requires
            self.stack().len() > 0,
        ensures
            r == TaskPump::begin_spec(true) || r == TaskPump::begin_spec(false),
    {
        TaskPump::begin(self.state().has_pending_tasks())
    }

    /// One round of the pump: paints the status and the busy indicator,
    /// repaints the content, then, unless the token has expired, lets the
    /// current state do one unit of pending work and asks whether work is
    /// left. The stack keeps its depth.
    pub fn pump_round<D: Terminal>(
        &mut self,
        cmd: &Command,
        screen: &mut D,
        tl: &TaskLifetime,
        pump: &mut TaskPump,
    ) -> (r: Result<(), std::io::Error>) where S: AppState<D>
        requires
            old(self).stack().len() > 0,
            old(pump).exit is None,
        ensures
            final(self).stack().len() == old(self).stack().len(),
            final(self).is_quitting() == old(self).is_quitting(),
            final(self).launch() == old(self).launch(),
            r is Ok ==> exists|expired: bool, pending: bool|
                (tl@ is None ==> !expired) && *final(pump) == old(pump).round_spec(expired, pending),
            r is Err ==> *final(pump) == *old(pump),
    {
        self.state().write_status(screen, cmd)?;
        screen.write_spinner(true)?;
        let top = self.states.len() - 1;
        self.states[top].display(screen)?;
        let expired = tl.is_expired();
        if pump.check_expiry(expired) {
            self.states[top].do_pending_task(screen, tl);
            let pending = self.state().has_pending_tasks();
            pump.after_work(pending);
            assert((tl@ is None ==> !expired) && *pump == old(pump).round_spec(expired, pending));
        } else {
            assert((tl@ is None ==> !expired) && *pump == old(pump).round_spec(expired, true));
        }
        Ok(())
    }

    /// Ends a run of the pump: clears the busy indicator if it was shown,
    /// and always repaints the content once.
    pub fn pump_finish<D: Terminal>(&mut self, screen: &mut D, pump: &TaskPump) -> (r: Result<
        (),
        std::io::Error,
    >) where S: AppState<D>
        requires
            old(self).stack().len() > 0,
        ensures
            final(self).stack().len() == old(self).stack().len(),
            final(self).is_quitting() == old(self).is_quitting(),
            final(self).launch() == old(self).launch(),
    {
        if pump.busy {
            screen.write_spinner(false)?;
        }
        let top = self.states.len() - 1;
        self.states[top].display(screen)
    }
}

} // verus!
