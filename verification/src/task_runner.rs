//! Decisions of the task runner: how a command is resolved to a program and
//! arguments, and what happens after each step of a run.

use vstd::prelude::*;
use crate::command::{
    clone_strings, strings_view, Command, CommandResult, CommandType, TaskStatus,
};
use crate::config::CLIENT;
use crate::text::{decimal, decimal_string, digit};

verus! {

/// Title shown while waiting for the current command after a cancel request.
pub const CANCEL_WAITING_MESSAGE: &'static str = "Waiting for current command to finish...";

/// Final message of a cancelled run.
pub const CANCELLED_MESSAGE: &'static str = "Operation cancelled by user";

/// Final message of a run whose commands all succeeded.
pub const SUCCESS_MESSAGE: &'static str = "All operations completed successfully!";

/// Error given when an AUR command cannot be resolved.
pub const NO_AUR_HELPER_MESSAGE: &'static str = "AUR helper not available (paru or yay required)";

/// The program and arguments that run `c`: privileged commands go through the
/// authentication client, AUR commands through the helper with the client as
/// its `--sudo` program.
pub open spec fn resolved(c: Command, helper: Option<Seq<char>>) -> Result<
    (Seq<char>, Seq<Seq<char>>),
    Seq<char>,
> {
    match c.command_type {
        CommandType::Normal => Ok((c.program@, strings_view(c.args@))),
        CommandType::Privileged => Ok(
            (CLIENT@, seq![c.program@] + strings_view(c.args@)),
        ),
        CommandType::Aur => match helper {
            Some(h) => Ok((h, seq!["--sudo"@, CLIENT@] + strings_view(c.args@))),
            None => Err(NO_AUR_HELPER_MESSAGE@),
        },
    }
}

/// The characters of a resolution result.
pub open spec fn resolution_view(r: Result<(String, Vec<String>), String>) -> Result<
    (Seq<char>, Seq<Seq<char>>),
    Seq<char>,
> {
    match r {
        Ok((p, a)) => Ok((p@, strings_view(a@))),
        Err(e) => Err(e@),
    }
}

/// The characters of an optional string slice.
pub open spec fn opt_str_view(s: Option<&str>) -> Option<Seq<char>> {
    match s {
        Some(t) => Some(t@),
        None => None,
    }
}

/// Resolves a command to the program and arguments to execute, given the AUR
/// helper in use (if any).
pub fn resolve_command(command: &Command, aur_helper: Option<&str>) -> (r: Result<
    (String, Vec<String>),
    String,
>)
    ensures
        resolution_view(r) == resolved(*command, opt_str_view(aur_helper)),
{
    match command.command_type {
        CommandType::Normal => Ok((command.program.clone(), clone_strings(&command.args))),
        CommandType::Privileged => {
            let mut args: Vec<String> = Vec::new();
            args.push(command.program.clone());
            let mut rest = clone_strings(&command.args);
            args.append(&mut rest);
            assert(strings_view(args@) =~= seq![command.program@] + strings_view(
                command.args@,
            ));
            Ok((CLIENT.to_owned(), args))
        },
        CommandType::Aur => match aur_helper {
            Some(helper) => {
                let mut args: Vec<String> = Vec::new();
                args.push("--sudo".to_owned());
                args.push(CLIENT.to_owned());
                let mut rest = clone_strings(&command.args);
                args.append(&mut rest);
                assert(strings_view(args@) =~= seq!["--sudo"@, CLIENT@] + strings_view(
                    command.args@,
                ));
                Ok((helper.to_owned(), args))
            },
            None => Err(NO_AUR_HELPER_MESSAGE.to_owned()),
        },
    }
}

/// What the runner does when it is about to run step `index` of a run.
#[derive(Debug)]
pub enum NextStep {
    /// The run was cancelled: mark step `mark` (when there is one) cancelled,
    /// and finish unsuccessfully with `CANCELLED_MESSAGE`.
    Cancel { mark: Option<usize> },
    /// Every step has run: finish successfully with `SUCCESS_MESSAGE`.
    Complete,
    /// The step cannot be prepared: mark it failed and finish with `message`.
    Abort { index: usize, message: String },
    /// Mark the step running, show `title`, and start `program` with `args`.
    Launch { index: usize, title: String, program: String, args: Vec<String> },
}

/// `NextStep` by its characters.
pub enum NextStepView {
    Cancel { mark: Option<usize> },
    Complete,
    Abort { index: usize, message: Seq<char> },
    Launch { index: usize, title: Seq<char>, program: Seq<char>, args: Seq<Seq<char>> },
}

impl NextStep {
    /// The step by its characters.
    pub open spec fn view_step(&self) -> NextStepView {
        match self {
            NextStep::Cancel { mark } => NextStepView::Cancel { mark: *mark },
            NextStep::Complete => NextStepView::Complete,
            NextStep::Abort { index, message } => NextStepView::Abort {
                index: *index,
                message: message@,
            },
            NextStep::Launch { index, title, program, args } => NextStepView::Launch {
                index: *index,
                title: title@,
                program: program@,
                args: strings_view(args@),
            },
        }
    }
}

/// The next step of a run over `commands` about to run step `index`.
pub open spec fn next_step_spec(
    commands: Seq<Command>,
    index: int,
    cancelled: bool,
    helper: Option<Seq<char>>,
) -> NextStepView {
    if cancelled {
        NextStepView::Cancel {
            mark: if index < commands.len() {
                Some(index as usize)
            } else {
                None
            },
        }
    } else if index >= commands.len() {
        NextStepView::Complete
    } else {
        match resolved(commands[index], helper) {
            Ok((program, args)) => NextStepView::Launch {
                index: index as usize,
                title: commands[index].description@,
                program,
                args,
            },
            Err(e) => NextStepView::Abort {
                index: index as usize,
                message: "Failed to prepare command: "@ + e,
            },
        }
    }
}

/// Decides the next step of a run (see `next_step_spec`).
pub fn next_step(commands: &Vec<Command>, index: usize, cancelled: bool, aur_helper: Option<&str>) -> (r:
    NextStep)
    ensures
        r.view_step() == next_step_spec(commands@, index as int, cancelled, opt_str_view(aur_helper)),
{
    if cancelled {
        let mark = if index < commands.len() {
            Some(index)
        } else {
            None
        };
        return NextStep::Cancel { mark };
    }
    if index >= commands.len() {
        return NextStep::Complete;
    }
    let cmd = &commands[index];
    match resolve_command(cmd, aur_helper) {
        Ok((program, args)) => NextStep::Launch {
            index,
            title: cmd.description.clone(),
            program,
            args,
        },
        Err(e) => {
            let mut message = "Failed to prepare command: ".to_owned();
            message.append(e.as_str());
            NextStep::Abort { index, message }
        },
    }
}

/// What the runner does when step `index` has ended.
#[derive(Debug)]
pub enum StepEnd {
    /// The run was cancelled meanwhile: mark the step cancelled and finish
    /// unsuccessfully with `CANCELLED_MESSAGE`.
    Cancelled,
    /// The step succeeded: mark it done and go on with step `next`.
    Advance { next: usize },
    /// The step failed: mark it failed and finish with `message`.
    Failed { message: String },
}

/// `StepEnd` by its characters.
pub enum StepEndView {
    Cancelled,
    Advance { next: usize },
    Failed { message: Seq<char> },
}

impl StepEnd {
    /// The outcome by its characters.
    pub open spec fn view_end(&self) -> StepEndView {
        match self {
            StepEnd::Cancelled => StepEndView::Cancelled,
            StepEnd::Advance { next } => StepEndView::Advance { next: *next },
            StepEnd::Failed { message } => StepEndView::Failed { message: message@ },
        }
    }

    /// The status the ended step is shown with.
    pub fn status(&self) -> (s: TaskStatus)
        ensures
            s == (match self {
                StepEnd::Cancelled => TaskStatus::Cancelled,
                StepEnd::Advance { .. } => TaskStatus::Success,
                StepEnd::Failed { .. } => TaskStatus::Failed,
            }),
    {
        match self {
            StepEnd::Cancelled => TaskStatus::Cancelled,
            StepEnd::Advance { .. } => TaskStatus::Success,
            StepEnd::Failed { .. } => TaskStatus::Failed,
        }
    }
}

/// "Operation failed at step {index + 1} of {total}".
pub open spec fn failed_at_message(index: nat, total: nat) -> Seq<char> {
    "Operation failed at step "@ + decimal(index + 1) + " of "@ + decimal(total)
}

/// The outcome of step `index` of `total` that ended with `result`.
pub open spec fn step_end_spec(index: nat, total: nat, cancelled: bool, result: CommandResult) -> StepEndView {
    if cancelled {
        StepEndView::Cancelled
    } else {
        match result {
            CommandResult::Success => StepEndView::Advance { next: (index + 1) as usize },
            CommandResult::Failure { .. } => StepEndView::Failed {
                message: failed_at_message(index, total),
            },
        }
    }
}

/// Decides what follows the end of step `index` of `total` (see `step_end_spec`).
pub fn step_finished(index: usize, total: usize, cancelled: bool, result: &CommandResult) -> (r:
    StepEnd)
    requires
        index < total,
    ensures
        r.view_end() == step_end_spec(index as nat, total as nat, cancelled, *result),
{
    if cancelled {
        return StepEnd::Cancelled;
    }
    match result {
        CommandResult::Success => StepEnd::Advance { next: index + 1 },
        CommandResult::Failure { .. } => {
            let mut message = "Operation failed at step ".to_owned();
            let step = decimal_string((index + 1) as u64);
            message.append(step.as_str());
            message.append(" of ");
            let count = decimal_string(total as u64);
            message.append(count.as_str());
            StepEnd::Failed { message }
        },
    }
}

/// The result of a finished process: success, or a failure with its exit code
/// (output already streamed, so not kept).
pub fn exit_result(success: bool, code: Option<i32>) -> (r: CommandResult)
    ensures
        success ==> r is Success,
        !success ==> r == (CommandResult::Failure { exit_code: code, stdout: None, stderr: None }),
{
    if success {
        CommandResult::Success
    } else {
        CommandResult::Failure { exit_code: code, stdout: None, stderr: None }
    }
}

/// "Failed to start operation: {error}".
pub fn start_failure_message(error: &str) -> (r: String)
    ensures
        r@ == "Failed to start operation: "@ + error@,
{
    let mut m = "Failed to start operation: ".to_owned();
    m.append(error);
    m
}

/// "\n=== {description} ===\n", the header written before a command's output.
pub fn command_header(description: &str) -> (r: String)
    ensures
        r@ == "\n=== "@ + description@ + " ===\n"@,
{
    let mut m = "\n=== ".to_owned();
    m.append(description);
    m.append(" ===\n");
    m
}

/// A run needs the authentication daemon when some command is privileged or
/// goes through the AUR helper.
pub open spec fn needs_daemon_spec(commands: Seq<Command>) -> bool {
    exists|i: int|
        0 <= i < commands.len() && (#[trigger] commands[i].command_type != CommandType::Normal)
}

/// A run needs the authentication daemon exactly when one of its commands is
/// privileged or goes through the AUR helper; a run of normal commands only
/// does not, and a run holding any AUR command does.
pub proof fn law_daemon_for_privileged_or_aur(commands: Seq<Command>, k: int)
    ensures
        needs_daemon_spec(commands) == exists|i: int|
            0 <= i < commands.len() && (commands[i].command_type == CommandType::Privileged
                || commands[i].command_type == CommandType::Aur),
        0 <= k < commands.len() && commands[k].command_type == CommandType::Aur
            ==> needs_daemon_spec(commands),
        0 <= k < commands.len() && commands[k].command_type == CommandType::Privileged
            ==> needs_daemon_spec(commands),
        (forall|i: int| 0 <= i < commands.len() ==> commands[i].command_type == CommandType::Normal)
            ==> !needs_daemon_spec(commands),
{
    if 0 <= k < commands.len() && commands[k].command_type != CommandType::Normal {
        assert(commands[k].command_type != CommandType::Normal);
    }
    if needs_daemon_spec(commands) {
        let i = choose|i: int| 0 <= i < commands.len() && (#[trigger] commands[i].command_type != CommandType::Normal);
        assert(commands[i].command_type == CommandType::Privileged || commands[i].command_type == CommandType::Aur);
    }
    if exists|i: int| 0 <= i < commands.len() && (commands[i].command_type == CommandType::Privileged
        || commands[i].command_type == CommandType::Aur) {
        let i = choose|i: int| 0 <= i < commands.len() && (commands[i].command_type == CommandType::Privileged
            || commands[i].command_type == CommandType::Aur);
        assert(commands[i].command_type != CommandType::Normal);
    }
}

/// Decides `needs_daemon_spec`.
pub fn needs_daemon(commands: &Vec<Command>) -> (r: bool)
    ensures
        r == needs_daemon_spec(commands@),
{
    let mut i: usize = 0;
    while i < commands.len()
        invariant
            i <= commands@.len(),
            forall|k: int| 0 <= k < i ==> #[trigger] commands@[k].command_type == CommandType::Normal,
        decreases commands@.len() - i,
    {
        if commands[i].command_type != CommandType::Normal {
            return true;
        }
        i = i + 1;
    }
    false
}

/// Whether a run may start: it needs at least one command and no other run
/// in progress.
pub fn may_start(command_count: usize, already_running: bool) -> (r: bool)
    ensures
        r == (command_count > 0 && !already_running),
{
    command_count > 0 && !already_running
}

/// A run whose steps all succeed goes on to the next step and, after the
/// last one, completes; a failed step ends the run, reporting its position;
/// a cancelled run never launches another step.
pub proof fn law_run_progress(commands: Seq<Command>, index: nat, helper: Option<Seq<char>>, failure: CommandResult)
    requires
        index < commands.len() <= usize::MAX,
    ensures
        step_end_spec(index, commands.len(), false, CommandResult::Success) == (StepEndView::Advance {
            next: (index + 1) as usize,
        }),
        index + 1 == commands.len() ==> next_step_spec(commands, index + 1 as int, false, helper) is Complete,
        index + 1 < commands.len() && resolved(commands[index + 1 as int], helper) is Ok ==> (
        next_step_spec(commands, index + 1 as int, false, helper) matches NextStepView::Launch {
            index: i,
            ..
        } && i == index + 1),
        forall|k: int| next_step_spec(commands, k, true, helper) is Cancel,
        failure is Failure ==> step_end_spec(index, commands.len(), false, failure) == (
        StepEndView::Failed { message: failed_at_message(index, commands.len()) }),
        step_end_spec(index, commands.len(), true, failure) is Cancelled,
{
}

/// Two decimal digits for `n` below 100, with a leading zero (`{:02}`).
pub open spec fn two_digits(n: nat) -> Seq<char> {
    seq![digit((n / 10) as int), digit((n % 10) as int)]
}

/// The time of day (UTC) of a Unix time, as `HH:MM:SS`.
pub open spec fn clock_time(secs: nat) -> Seq<char> {
    two_digits((secs / 3600) % 24) + seq![':'] + two_digits((secs / 60) % 60) + seq![':']
        + two_digits(secs % 60)
}

fn push_two_digits(s: &mut String, n: u64)
    requires
        n < 100,
    ensures
        final(s)@ == old(s)@ + two_digits(n as nat),
{
    let tens = crate::text::decimal_string(n / 10);
    let ones = crate::text::decimal_string(n % 10);
    assert(tens@ == seq![digit((n / 10) as int)]);
    assert(ones@ == seq![digit((n % 10) as int)]);
    s.append(tens.as_str());
    s.append(ones.as_str());
    assert(s@ =~= old(s)@ + two_digits(n as nat));
}

/// The time stamp written before output lines: `HH:MM:SS` for a Unix time,
/// `??:??:??` when the clock is before the epoch.
pub fn clock_label(secs: Option<u64>) -> (r: String)
    ensures
        r@ == (match secs {
            Some(t) => clock_time(t as nat),
            None => "??:??:??"@,
        }),
{
    match secs {
        Some(t) => {
            let mut s = String::new();
            push_two_digits(&mut s, (t / 3600) % 24);
            crate::text::push_char(&mut s, ':');
            push_two_digits(&mut s, (t / 60) % 60);
            crate::text::push_char(&mut s, ':');
            push_two_digits(&mut s, t % 60);
            assert(s@ =~= clock_time(t as nat));
            s
        },
        None => "??:??:??".to_owned(),
    }
}

/// "[{stamp}] {text}".
pub fn timestamped(stamp: &str, text: &str) -> (r: String)
    ensures
        r@ == seq!['['] + stamp@ + "] "@ + text@,
{
    let mut s = String::new();
    crate::text::push_char(&mut s, '[');
    s.append(stamp);
    s.append("] ");
    s.append(text);
    s
}

/// How a task is drawn: whether the spinner shows, and which status icon
/// (if any) shows.
pub fn status_visuals(status: TaskStatus) -> (r: (bool, Option<&'static str>))
    ensures
        r == (match status {
            TaskStatus::Pending => (false, None),
            TaskStatus::Running => (true, None),
            TaskStatus::Success => (false, Some("circle-check")),
            TaskStatus::Failed => (false, Some("circle-xmark")),
            TaskStatus::Cancelled => (false, Some("circle-stop")),
        }),
{
    match status {
        TaskStatus::Pending => (false, None),
        TaskStatus::Running => (true, None),
        TaskStatus::Success => (false, Some("circle-check")),
        TaskStatus::Failed => (false, Some("circle-xmark")),
        TaskStatus::Cancelled => (false, Some("circle-stop")),
    }
}

/// What `strip_ansi_escapes::strip_str` returns for the characters `s`.
pub uninterp spec fn ansi_stripped(s: Seq<char>) -> Seq<char>;

/// `strip_ansi_escapes::strip_str`: the text without ANSI escape sequences.
///
/// The result is named, not described: the escape-sequence grammar the crate
/// parses is not stated here.
#[verifier::external_body]
fn strip_ansi(text: &str) -> (r: String)
    ensures
        r@ == ansi_stripped(text@),
{
    strip_ansi_escapes::strip_str(text)
}

/// A chunk of command output as it is shown: without ANSI escape sequences.
pub fn clean_output(text: &str) -> (r: String)
    ensures
        r@ == ansi_stripped(text@),
{
    strip_ansi(text)
}

} // verus!
