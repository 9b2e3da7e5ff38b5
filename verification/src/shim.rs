//! The shell shim: when FuncTerm's executable is started under a shell's name
//! from the session's shim directory, it either passes the call through to
//! the real shell or runs a nested interactive shell that becomes the
//! session's active shell once it is ready. Here are the decisions and texts
//! of that run; starting processes, watching files and writing them is left
//! to the caller.
use crate::encoding::json_quote;
use crate::error::ShellError;
use crate::outside::json_string;
use crate::shell::choice::ShellChoice;
use crate::shell::drivers::{arguments_interactive, interactive_arguments};
use vstd::prelude::*;

verus! {

/// Whether a shim called as `choice` with `arguments` runs a nested
/// interactive shell: with no arguments, or with arguments that leave the
/// shell interactive. Otherwise the call is passed through to the real shell.
pub fn runs_interactive(choice: ShellChoice, arguments: &Vec<Option<String>>) -> (interactive: bool)
    ensures
        interactive == (arguments@.len() == 0 || arguments_interactive(choice, arguments@)),
{
    arguments.len() == 0 || interactive_arguments(choice, arguments)
}

/// The exit code of a finished process: its own, or 1 when it has none
/// (when a signal ended it).
pub fn exit_code(code: Option<i32>) -> (exit: i32)
    ensures
        exit == match code {
            Some(c) => c,
            None => 1,
        },
{
    match code {
        Some(c) => c,
        None => 1,
    }
}

/// The done record of a command that the nested shell ended before the
/// command published its own: exit code 0 and the working directory `cwd`.
pub open spec fn early_done_text(command_id: Seq<char>, cwd: Seq<char>) -> Seq<char> {
    "{\"command_id\":"@ + json_quote(command_id) + ",\"exit_code\":0,\"cwd\":"@ + json_quote(cwd) + "}"@
}

/// The JSON done record for the command `command_id` ended early in `cwd`.
pub fn early_done(command_id: &str, cwd: &str) -> (record: Result<String, ShellError>)
    ensures
        record matches Ok(text) && text@ == early_done_text(command_id@, cwd@),
{
    let id = match json_string(command_id) {
        Ok(t) => t,
        Err(_) => return Err(ShellError::JsonEncoding),
    };
    let directory = match json_string(cwd) {
        Ok(t) => t,
        Err(_) => return Err(ShellError::JsonEncoding),
    };
    let mut text = String::from_str("{\"command_id\":");
    text.append(id.as_str());
    text.append(",\"exit_code\":0,\"cwd\":");
    text.append(directory.as_str());
    text.append("}");
    Ok(text)
}

/// What to do once the early done record has been written to its temporary
/// file and renamed.
#[derive(Clone, Copy, Debug, PartialEq, Eq, Structural)]
pub enum PublishStep {
    /// The record is in place.
    Published,
    /// The rename failed because the command published its own record in
    /// the meantime: remove the temporary file.
    RemoveTemporary,
    /// The rename failed for another reason: report it.
    Fail,
}

/// The step after renaming the temporary record: `renamed` tells whether the
/// rename succeeded, `done_exists` whether a done record exists after a
/// failed rename.
pub fn after_rename(renamed: bool, done_exists: bool) -> (step: PublishStep)
    ensures
        step == (if renamed {
            PublishStep::Published
        } else if done_exists {
            PublishStep::RemoveTemporary
        } else {
            PublishStep::Fail
        }),
{
    if renamed {
        PublishStep::Published
    } else if done_exists {
        PublishStep::RemoveTemporary
    } else {
        PublishStep::Fail
    }
}

/// Something that happened while waiting for the nested shell.
#[derive(Clone, Copy, Debug, PartialEq, Eq, Structural)]
pub enum WatchEvent {
    /// The directory of the ready file changed (also sent once at the start).
    Changed,
    /// The file watcher failed.
    WatchFailed,
    /// The nested shell exited.
    ShellExited,
}

/// What to do about an event.
#[derive(Clone, Copy, Debug, PartialEq, Eq, Structural)]
pub enum WatchAction {
    /// The shell is ready: make it the active shell and complete the command
    /// it was started for.
    RunReadyHandler,
    /// Keep waiting.
    KeepWaiting,
    /// Stop with the watcher's error.
    FailWatcher,
    /// Stop with the shell's exit status.
    Finish,
}

/// One step of the wait: whether the ready handler is still pending after
/// `event`, and what to do. The handler runs when the ready file exists and
/// it has not run before.
pub open spec fn watch_step(pending: bool, event: WatchEvent, ready_exists: bool) -> (bool, WatchAction) {
    match event {
        WatchEvent::Changed => if ready_exists && pending {
            (false, WatchAction::RunReadyHandler)
        } else {
            (pending, WatchAction::KeepWaiting)
        },
        WatchEvent::WatchFailed => (pending, WatchAction::FailWatcher),
        WatchEvent::ShellExited => (pending, WatchAction::Finish),
    }
}

/// The wait for a nested shell to become ready and to exit.
pub struct ReadyWatch {
    handler_pending: bool,
}

impl View for ReadyWatch {
    type V = bool;

    /// Whether the ready handler has yet to run.
    closed spec fn view(&self) -> bool {
        self.handler_pending
    }
}

impl ReadyWatch {
    /// A wait whose ready handler has not run.
    pub fn new() -> (watch: Self)
        ensures
            watch@,
    {
        ReadyWatch { handler_pending: true }
    }

    /// The action for `event`, given whether the ready file exists now.
    pub fn on_event(&mut self, event: WatchEvent, ready_exists: bool) -> (action: WatchAction)
        ensures
            (final(self)@, action) == watch_step(old(self)@, event, ready_exists),
    {
        match event {
            WatchEvent::Changed => {
                if ready_exists && self.handler_pending {
                    self.handler_pending = false;
                    WatchAction::RunReadyHandler
                } else {
                    WatchAction::KeepWaiting
                }
            },
            WatchEvent::WatchFailed => WatchAction::FailWatcher,
            WatchEvent::ShellExited => WatchAction::Finish,
        }
    }
}

/// How many times the ready handler runs over a series of events, each with
/// whether the ready file existed then.
pub open spec fn handler_runs(pending: bool, events: Seq<(WatchEvent, bool)>) -> nat
    decreases events.len(),
{
    if events.len() == 0 {
        0
    } else {
        let (next, action) = watch_step(pending, events[0].0, events[0].1);
        (if action is RunReadyHandler {
            1nat
        } else {
            0nat
        }) + handler_runs(next, events.drop_first())
    }
}

/// The ready handler runs at most once however the events fall, and never
/// once it has run.
pub proof fn lemma_ready_handler_runs_at_most_once(pending: bool, events: Seq<(WatchEvent, bool)>)
    ensures
        handler_runs(pending, events) <= 1,
        !pending ==> handler_runs(pending, events) == 0,
    decreases events.len(),
{
    if events.len() > 0 {
        let (next, action) = watch_step(pending, events[0].0, events[0].1);
        lemma_ready_handler_runs_at_most_once(next, events.drop_first());
        if action is RunReadyHandler {
            assert(!next);
        }
    }
}

/// The active shell of a session while a nested shell runs: the shell to
/// record again when the nested one ends, once the nested one was recorded.
pub struct ActiveShellGuard {
    parent_shell: ShellChoice,
    active: bool,
}

impl View for ActiveShellGuard {
    type V = (ShellChoice, bool);

    /// The enclosing shell, and whether the nested shell was recorded as
    /// active.
    closed spec fn view(&self) -> (ShellChoice, bool) {
        (self.parent_shell, self.active)
    }
}

impl ActiveShellGuard {
    /// A guard for the enclosing shell `parent_shell`; nothing recorded yet.
    pub fn new(parent_shell: ShellChoice) -> (guard: Self)
        ensures
            guard@ == (parent_shell, false),
    {
        ActiveShellGuard { parent_shell, active: false }
    }

    /// Notes that the nested shell has been recorded as active.
    pub fn activate(&mut self)
        ensures
            final(self)@ == activated(old(self)@),
    {
        self.active = true;
    }

    /// The shell to record as active when the nested shell ends: the
    /// enclosing shell, if the nested one was recorded.
    pub fn shell_to_restore(&self) -> (shell: Option<ShellChoice>)
        ensures
            shell == restore_for(self@),
    {
        if self.active {
            Some(self.parent_shell)
        } else {
            None
        }
    }
}

/// A guard after the nested shell was recorded as active.
pub open spec fn activated(guard: (ShellChoice, bool)) -> (ShellChoice, bool) {
    (guard.0, true)
}

/// The shell a guard records again when the nested shell ends.
pub open spec fn restore_for(guard: (ShellChoice, bool)) -> Option<ShellChoice> {
    if guard.1 {
        Some(guard.0)
    } else {
        None
    }
}

/// A guard after `n` activations.
pub open spec fn after_activations(guard: (ShellChoice, bool), n: nat) -> (ShellChoice, bool)
    decreases n,
{
    if n == 0 {
        guard
    } else {
        activated(after_activations(guard, (n - 1) as nat))
    }
}

/// After a new guard for `parent` and any number of activations, the
/// enclosing shell is restored exactly when there was at least one.
pub proof fn lemma_restore_after_activations(parent: ShellChoice, n: nat)
    ensures
        restore_for(after_activations((parent, false), n)) == (if n > 0 {
            Some(parent)
        } else {
            None
        }),
        after_activations((parent, false), n).0 == parent,
    decreases n,
{
    if n > 0 {
        lemma_restore_after_activations(parent, (n - 1) as nat);
    }
}

/// Whether the early done record is owed, and which: nothing when no
/// command directory or no command identifier is set, or when the command's
/// done record already exists; otherwise the record for the command
/// `command_id` ended in `cwd`.
pub fn early_done_record(
    directory_set: bool,
    command_id: Option<&str>,
    done_exists: bool,
    cwd: &str,
) -> (record: Result<Option<String>, ShellError>)
    ensures
        !directory_set || command_id is None || done_exists ==> record == Ok::<
            Option<String>,
            ShellError,
        >(None),
        directory_set && !done_exists ==> match command_id {
            Some(id) => record matches Ok(Some(text)) && text@ == early_done_text(id@, cwd@),
            None => true,
        },
{
    if !directory_set {
        return Ok(None);
    }
    match command_id {
        None => Ok(None),
        Some(id) => {
            if done_exists {
                Ok(None)
            } else {
                match early_done(id, cwd) {
                    Ok(text) => Ok(Some(text)),
                    Err(e) => Err(e),
                }
            }
        },
    }
}

/// How the wait for a nested shell goes on after an action.
#[derive(Clone, Copy, Debug, PartialEq, Eq, Structural)]
pub enum WaitStep {
    /// Keep waiting.
    Continue,
    /// Stop with the ready handler's error.
    HandlerFailed,
    /// Stop with the watcher's error.
    WatcherFailed,
    /// Stop with the shell's exit status.
    Exited,
}

/// The step after `action`; `handler_ok` tells whether the ready handler,
/// when the action ran it, succeeded.
pub open spec fn wait_step_spec(action: WatchAction, handler_ok: bool) -> WaitStep {
    match action {
        WatchAction::RunReadyHandler => if handler_ok {
            WaitStep::Continue
        } else {
            WaitStep::HandlerFailed
        },
        WatchAction::KeepWaiting => WaitStep::Continue,
        WatchAction::FailWatcher => WaitStep::WatcherFailed,
        WatchAction::Finish => WaitStep::Exited,
    }
}

/// How the wait goes on after `action`, given whether the ready handler
/// succeeded when the action ran it.
pub fn wait_step(action: WatchAction, handler_ok: bool) -> (step: WaitStep)
    ensures
        step == wait_step_spec(action, handler_ok),
{
    match action {
        WatchAction::RunReadyHandler => if handler_ok {
            WaitStep::Continue
        } else {
            WaitStep::HandlerFailed
        },
        WatchAction::KeepWaiting => WaitStep::Continue,
        WatchAction::FailWatcher => WaitStep::WatcherFailed,
        WatchAction::Finish => WaitStep::Exited,
    }
}

/// How a wait ends over a series of events, each with whether the ready
/// file existed then and whether the ready handler would succeed if run
/// then: the first step that is not `Continue`, or `Continue` when the
/// events run out first.
pub open spec fn wait_outcome(pending: bool, events: Seq<(WatchEvent, bool, bool)>) -> WaitStep
    decreases events.len(),
{
    if events.len() == 0 {
        WaitStep::Continue
    } else {
        let (next, action) = watch_step(pending, events[0].0, events[0].1);
        let step = wait_step_spec(action, events[0].2);
        if step == WaitStep::Continue {
            wait_outcome(next, events.drop_first())
        } else {
            step
        }
    }
}

/// The wait ends with the shell's exit status when the shell exits before
/// the watcher fails and no run of the ready handler fails, whether or not
/// the handler ever ran.
pub proof fn lemma_exit_ends_wait(pending: bool, events: Seq<(WatchEvent, bool, bool)>, k: int)
    requires
        0 <= k < events.len(),
        events[k].0 == WatchEvent::ShellExited,
        forall|j: int| 0 <= j < k ==> (#[trigger] events[j]).0 == WatchEvent::Changed && events[j].2,
    ensures
        wait_outcome(pending, events) == WaitStep::Exited,
    decreases k,
{
    if k > 0 {
        let (next, action) = watch_step(pending, events[0].0, events[0].1);
        assert(events[0].0 == WatchEvent::Changed && events[0].2);
        assert forall|j: int| 0 <= j < k - 1 implies (#[trigger] events.drop_first()[j]).0 == WatchEvent::Changed
            && events.drop_first()[j].2 by {
            assert(events.drop_first()[j] == events[j + 1]);
        }
        lemma_exit_ends_wait(next, events.drop_first(), k - 1);
    }
}

} // verus!
