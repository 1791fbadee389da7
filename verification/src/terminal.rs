//! Command sequences run one after another in an interactive terminal.
//!
//! The terminal itself lives outside the library; here are the commands, the
//! text written around them, the reading of the confirmation answer and the
//! decision of what follows each command's exit.

use vstd::prelude::*;
use crate::command::{strings_view, strs_view, to_strings};
use crate::text::{
    chars_of, decimal, decimal_string, join, join_strings, lowercase, signed_decimal,
    signed_decimal_string, str_is, to_lowercase, trim, trim_str,
};

verus! {

/// A program and its arguments, run in the terminal.
#[derive(Clone)]
pub struct TerminalCommand {
    pub command: String,
    pub args: Vec<String>,
}

impl TerminalCommand {
    /// The command as it is shown: the program, a space, and the arguments
    /// separated by spaces.
    pub open spec fn line(&self) -> Seq<char> {
        self.command@ + " "@ + join(strings_view(self.args@), " "@)
    }

    /// A command running `command` with `args`.
    pub fn new(command: &str, args: &[&str]) -> (c: Self)
        ensures
            c.command@ == command@,
            strings_view(c.args@) == strs_view(args@),
    {
        TerminalCommand { command: command.to_owned(), args: to_strings(args) }
    }

    /// The command as it is shown (see `line`).
    pub fn command_line(&self) -> (r: String)
        ensures
            r@ == self.line(),
    {
        let mut s = self.command.clone();
        s.append(" ");
        let joined = join_strings(&self.args, " ");
        s.append(joined.as_str());
        s
    }
}

/// The characters of each command, in order.
pub open spec fn lines_view(cmds: Seq<TerminalCommand>) -> Seq<Seq<char>> {
    cmds.map_values(|c: TerminalCommand| c.line())
}

// ---------------------------------------------------------------------------
// Text written around a run
// ---------------------------------------------------------------------------

/// Title shown while an action runs.
pub fn running_title(action_name: &str) -> (r: String)
    ensures
        r@ == "Terminal Output - "@ + action_name@,
{
    let mut s = "Terminal Output - ".to_owned();
    s.append(action_name);
    s
}

/// Title shown when no action runs.
pub const IDLE_TITLE: &'static str = "Terminal Output";

/// Written when another action is asked for while one runs.
pub const BUSY_MESSAGE: &'static str =
    "\r\nAnother action is already running. Please wait for it to complete.\r\n";

/// The line of the listing for the command at position `i`.
pub open spec fn plan_item(i: nat, line: Seq<char>) -> Seq<char> {
    "  "@ + decimal(i + 1) + ". "@ + line + "\r\n"@
}

/// The listing of the commands, numbered from 1.
pub open spec fn plan_items(lines: Seq<Seq<char>>) -> Seq<char>
    decreases lines.len(),
{
    if lines.len() == 0 {
        Seq::empty()
    } else {
        plan_items(lines.drop_last()) + plan_item((lines.len() - 1) as nat, lines.last())
    }
}

/// What is written before the user confirms a run: the action's banner, the
/// numbered commands and the question.
pub open spec fn plan_text_spec(lines: Seq<Seq<char>>, action_name: Seq<char>) -> Seq<char> {
    "=== "@ + action_name + " ===\r\n"@ + "The following commands will be executed:\r\n"@
        + plan_items(lines) + "Do you want to proceed? [Y/n]: "@
}

/// The text written before the user confirms a run (see `plan_text_spec`).
pub fn plan_text(commands: &Vec<TerminalCommand>, action_name: &str) -> (r: String)
    ensures
        r@ == plan_text_spec(lines_view(commands@), action_name@),
{
    let ghost lines = lines_view(commands@);
    let mut out = "=== ".to_owned();
    out.append(action_name);
    out.append(" ===\r\n");
    out.append("The following commands will be executed:\r\n");
    let ghost head = out@;
    let mut i: usize = 0;
    while i < commands.len()
        invariant
            i <= commands@.len(),
            lines == lines_view(commands@),
            out@ == head + plan_items(lines.take(i as int)),
        decreases commands@.len() - i,
    {
        assert(lines.take(i + 1).drop_last() =~= lines.take(i as int));
        out.append("  ");
        let number = decimal_string((i + 1) as u64);
        out.append(number.as_str());
        out.append(". ");
        let line = commands[i].command_line();
        out.append(line.as_str());
        out.append("\r\n");
        assert(lines.take(i + 1).last() == commands@[i as int].line());
        assert(out@ =~= head + plan_items(lines.take(i as int)) + plan_item(i as nat, lines.take(
            i + 1,
        ).last()));
        i = i + 1;
    }
    assert(lines.take(commands@.len() as int) =~= lines);
    out.append("Do you want to proceed? [Y/n]: ");
    out
}

/// Written when the user confirms a run.
pub fn starting_text(action_name: &str) -> (r: String)
    ensures
        r@ == "\r\n=== Starting "@ + action_name@ + " ===\r\n"@,
{
    let mut s = "\r\n=== Starting ".to_owned();
    s.append(action_name);
    s.append(" ===\r\n");
    s
}

/// Written when the user declines a run.
pub const CANCELLED_TEXT: &'static str =
    "\r\n========================================\r\nX Operation cancelled by user\r\n========================================\r\n";

/// The banner written before step `index` of `total` starts.
pub fn step_banner(index: usize, total: usize, command: &TerminalCommand) -> (r: String)
    requires
        index < total,
    ensures
        r@ == "\r\n>>> Executing step "@ + decimal((index + 1) as nat) + "/"@ + decimal(total as nat) + ": "@
            + command.line() + "\r\n"@,
{
    let mut s = "\r\n>>> Executing step ".to_owned();
    let step = decimal_string((index + 1) as u64);
    s.append(step.as_str());
    s.append("/");
    let count = decimal_string(total as u64);
    s.append(count.as_str());
    s.append(": ");
    let line = command.command_line();
    s.append(line.as_str());
    s.append("\r\n");
    s
}

/// "{command line} exited with code {status}".
pub open spec fn exit_message(line: Seq<char>, status: i32) -> Seq<char> {
    line + " exited with code "@ + signed_decimal(status as int)
}

/// The report of a command that exited with a non-zero status.
pub fn failure_text(command: &TerminalCommand, status: i32) -> (r: String)
    ensures
        r@ == "\r\n========================================\r\n"@ + "✗ "@ + exit_message(
            command.line(),
            status,
        ) + "\r\n"@ + "========================================\r\n"@
            + "The process encountered an error.\r\n"@ + "Sequence aborted.\r\n"@,
{
    let mut s = "\r\n========================================\r\n".to_owned();
    s.append("✗ ");
    let line = command.command_line();
    s.append(line.as_str());
    s.append(" exited with code ");
    let code = signed_decimal_string(status as i64);
    s.append(code.as_str());
    s.append("\r\n");
    s.append("========================================\r\n");
    s.append("The process encountered an error.\r\n");
    s.append("Sequence aborted.\r\n");
    s
}

/// The report of a run whose commands all succeeded.
pub fn success_text(action_name: &str) -> (r: String)
    ensures
        r@ == "\r\n========================================\r\n"@ + "✓ "@ + action_name@
            + " completed successfully\r\n"@ + "========================================\r\n"@,
{
    let mut s = "\r\n========================================\r\n".to_owned();
    s.append("✓ ");
    s.append(action_name);
    s.append(" completed successfully\r\n");
    s.append("========================================\r\n");
    s
}

// ---------------------------------------------------------------------------
// The confirmation answer
// ---------------------------------------------------------------------------

/// An answer (already trimmed and lowercased) that confirms: `y`, `yes`, or
/// nothing at all.
pub open spec fn is_confirmation_spec(answer: Seq<char>) -> bool {
    answer == "y"@ || answer == "yes"@ || answer.len() == 0
}

/// Whether a trimmed, lowercased answer confirms (see `is_confirmation_spec`).
pub fn is_confirmation(answer: &str) -> (r: bool)
    ensures
        r == is_confirmation_spec(answer@),
{
    str_is(answer, "y") || str_is(answer, "yes") || chars_of(answer).len() == 0
}

/// Whether what the user typed confirms the run: the text, trimmed and
/// lowercased, is a confirmation.
pub fn confirms(input: &str) -> (r: bool)
    ensures
        r == is_confirmation_spec(lowercase(trim(input@))),
{
    let trimmed = trim_str(input);
    let lowered = to_lowercase(trimmed.as_str());
    is_confirmation(lowered.as_str())
}

/// A key that is typed into the answer (and echoed): a printable ASCII
/// character.
pub open spec fn typed_key(c: char) -> bool {
    0x20 <= (c as u32) && (c as u32) < 0x7f
}

/// Takes a key into the answer when it is one that is typed; says whether it
/// was taken.
pub fn type_key(answer: &mut String, c: char) -> (taken: bool)
    ensures
        taken == typed_key(c),
        final(answer)@ == if taken {
            old(answer)@.push(c)
        } else {
            old(answer)@
        },
{
    let u = c as u32;
    if 0x20 <= u && u < 0x7f {
        crate::text::push_char(answer, c);
        true
    } else {
        false
    }
}

/// Erases the last character of the answer, if there is one; says whether
/// one was erased.
pub fn erase_key(answer: &mut String) -> (erased: bool)
    ensures
        erased == (old(answer)@.len() > 0),
        final(answer)@ == if erased {
            old(answer)@.drop_last()
        } else {
            old(answer)@
        },
{
    let v = chars_of(answer.as_str());
    if v.len() == 0 {
        return false;
    }
    let kept = crate::text::sub_chars(v.as_slice(), 0, v.len() - 1);
    assert(kept@ =~= old(answer)@.drop_last());
    *answer = crate::text::string_of(kept.as_slice());
    true
}

/// Erasing right after typing a key gives back the answer as it was: what
/// `type_key` adds, `erase_key` removes.
pub proof fn law_erase_undoes_type(answer: Seq<char>, c: char)
    requires
        typed_key(c),
    ensures
        answer.push(c).len() > 0,
        answer.push(c).drop_last() == answer,
{
    assert(answer.push(c).drop_last() =~= answer);
}

// ---------------------------------------------------------------------------
// The run, step by step
// ---------------------------------------------------------------------------

/// Where a run stands.
#[derive(Debug, Clone, Copy, PartialEq, Eq, Structural)]
pub enum TerminalStep {
    /// The command at `index` is to be started.
    Run { index: usize },
    /// Every command exited with status 0.
    Completed,
    /// The command at `index` exited with the non-zero `status`; the run stops.
    Aborted { index: usize, status: i32 },
}

/// Where a run over `total` commands stands when it reaches `index`.
pub open spec fn step_at_spec(index: nat, total: nat) -> TerminalStep {
    if index >= total {
        TerminalStep::Completed
    } else {
        TerminalStep::Run { index: index as usize }
    }
}

/// Where a run over `total` commands stands when it reaches `index`.
pub fn step_at(index: usize, total: usize) -> (r: TerminalStep)
    ensures
        r == step_at_spec(index as nat, total as nat),
{
    if index >= total {
        TerminalStep::Completed
    } else {
        TerminalStep::Run { index }
    }
}

/// What follows the exit of the command at `index` with `status`: the next
/// command (or completion) on status 0, the end of the run otherwise.
pub open spec fn after_exit_spec(index: nat, total: nat, status: i32) -> TerminalStep {
    if status == 0 {
        step_at_spec(index + 1, total)
    } else {
        TerminalStep::Aborted { index: index as usize, status }
    }
}

/// What follows the exit of the command at `index` (see `after_exit_spec`).
pub fn after_exit(index: usize, total: usize, status: i32) -> (r: TerminalStep)
    requires
        index < total,
    ensures
        r == after_exit_spec(index as nat, total as nat, status),
{
    if status == 0 {
        step_at(index + 1, total)
    } else {
        TerminalStep::Aborted { index, status }
    }
}

/// Where a run stands after `fuel` more exits, the commands exiting with
/// `statuses` (by position), starting from `step`.
pub open spec fn drive(step: TerminalStep, total: nat, statuses: Seq<i32>, fuel: nat) -> TerminalStep
    decreases fuel,
{
    if fuel == 0 {
        step
    } else {
        match step {
            TerminalStep::Run { index } => if index < total && index < statuses.len() {
                drive(
                    after_exit_spec(index as nat, total, statuses[index as int]),
                    total,
                    statuses,
                    (fuel - 1) as nat,
                )
            } else {
                step
            },
            _ => step,
        }
    }
}

proof fn lemma_drive_from(k: nat, total: nat, statuses: Seq<i32>)
    requires
        k <= total,
        total <= usize::MAX,
        statuses.len() >= total,
    ensures
        ({
            let r = drive(step_at_spec(k, total), total, statuses, (total - k) as nat);
            &&& (r == TerminalStep::Completed) == (forall|i: int|
                k <= i < total ==> #[trigger] statuses[i] == 0)
            &&& r !is Run
            &&& r matches TerminalStep::Aborted { index, status } ==> {
                &&& k <= index < total
                &&& status == statuses[index as int]
                &&& status != 0
                &&& forall|j: int| k <= j < index ==> #[trigger] statuses[j] == 0
            }
        }),
    decreases total - k,
{
    if k < total {
        let s = statuses[k as int];
        assert(drive(step_at_spec(k, total), total, statuses, (total - k) as nat) == drive(
            after_exit_spec(k, total, s),
            total,
            statuses,
            (total - k - 1) as nat,
        ));
        if s == 0 {
            lemma_drive_from(k + 1, total, statuses);
        } else {
            assert(drive(TerminalStep::Aborted { index: k as usize, status: s }, total, statuses, (total - k - 1) as nat)
                == TerminalStep::Aborted { index: k as usize, status: s });
        }
    }
}

/// A run over `total` commands, started at the first command and driven by
/// `after_exit`, completes exactly when every command exits with status 0,
/// and otherwise stops at the first command that exits with another status,
/// reporting that status; it never stops half-way.
pub proof fn law_run_stops_at_first_failure(total: nat, statuses: Seq<i32>)
    requires
        total <= usize::MAX,
        statuses.len() >= total,
    ensures
        ({
            let r = drive(step_at_spec(0, total), total, statuses, total);
            &&& (r == TerminalStep::Completed) == (forall|i: int|
                0 <= i < total ==> #[trigger] statuses[i] == 0)
            &&& r !is Run
            &&& r matches TerminalStep::Aborted { index, status } ==> {
                &&& 0 <= index < total
                &&& status == statuses[index as int]
                &&& status != 0
                &&& forall|j: int| 0 <= j < index ==> #[trigger] statuses[j] == 0
            }
        }),
{
    lemma_drive_from(0, total, statuses);
}

} // verus!
