//! Commands executed by the task runner, and their results.

use vstd::prelude::*;
use crate::text::{signed_decimal, signed_decimal_string, trim, trim_str};

verus! {

broadcast use vstd::std_specs::vec::group_vec_axioms;

/// How a command is executed.
#[derive(Clone, Copy, Debug, PartialEq, Eq, Structural)]
pub enum CommandType {
    /// Run as is.
    Normal,
    /// Run with privilege escalation.
    Privileged,
    /// Run through the AUR helper (paru or yay).
    Aur,
}

/// Status of a task shown in the task list.
#[derive(Clone, Copy, Debug, PartialEq, Eq, Structural)]
pub enum TaskStatus {
    /// Not started yet.
    Pending,
    /// Currently running.
    Running,
    /// Completed successfully.
    Success,
    /// Failed.
    Failed,
    /// Cancelled by the user.
    Cancelled,
}

/// Result of running one command.
#[derive(Clone, Debug)]
pub enum CommandResult {
    /// The command succeeded.
    Success,
    /// The command failed, with its exit code and captured output where known.
    Failure { exit_code: Option<i32>, stdout: Option<String>, stderr: Option<String> },
}

/// One step for the task runner: a program, its arguments and a description.
#[derive(Clone, Debug)]
pub struct Command {
    /// How the command is executed.
    pub command_type: CommandType,
    /// The program to run.
    pub program: String,
    /// Its arguments.
    pub args: Vec<String>,
    /// Human-readable description shown to the user.
    pub description: String,
}

/// Builder for `Command`, started from `Command::builder()`.
#[derive(Debug)]
pub struct CommandBuilder {
    command_type: CommandType,
    program: Option<String>,
    args: Vec<String>,
    description: Option<String>,
}

/// Entry point of the builder: chooses the kind of command.
#[derive(Debug)]
pub struct CommandBuilderType;

/// The characters of each string in `v`.
pub open spec fn strings_view(v: Seq<String>) -> Seq<Seq<char>> {
    v.map_values(|s: String| s@)
}

/// The characters of each string slice in `v`.
pub open spec fn strs_view(v: Seq<&str>) -> Seq<Seq<char>> {
    v.map_values(|s: &str| s@)
}

/// Owned copies of the given string slices.
pub fn to_strings(v: &[&str]) -> (r: Vec<String>)
    ensures
        strings_view(r@) == strs_view(v@),
{
    let mut out: Vec<String> = Vec::new();
    let mut i: usize = 0;
    while i < v.len()
        invariant
            i <= v@.len(),
            out@.len() == i,
            forall|k: int| 0 <= k < i ==> #[trigger] out@[k]@ == v@[k]@,
        decreases v@.len() - i,
    {
        out.push(v[i].to_owned());
        i = i + 1;
    }
    assert(strings_view(out@) =~= strs_view(v@));
    out
}

/// A copy of `v`.
pub fn clone_strings(v: &Vec<String>) -> (r: Vec<String>)
    ensures
        strings_view(r@) == strings_view(v@),
{
    let mut out: Vec<String> = Vec::new();
    let mut i: usize = 0;
    while i < v.len()
        invariant
            i <= v@.len(),
            out@.len() == i,
            forall|k: int| 0 <= k < i ==> #[trigger] out@[k]@ == v@[k]@,
        decreases v@.len() - i,
    {
        out.push(v[i].clone());
        i = i + 1;
    }
    assert(strings_view(out@) =~= strings_view(v@));
    out
}

impl CommandBuilder {
    /// The kind of command being built.
    pub closed spec fn kind(&self) -> CommandType {
        self.command_type
    }

    /// The program set so far, if any.
    pub closed spec fn program_view(&self) -> Option<Seq<char>> {
        match self.program {
            Some(p) => Some(p@),
            None => None,
        }
    }

    /// The arguments set so far.
    pub closed spec fn args_view(&self) -> Seq<Seq<char>> {
        strings_view(self.args@)
    }

    /// The description set so far, if any.
    pub closed spec fn description_view(&self) -> Option<Seq<char>> {
        match self.description {
            Some(d) => Some(d@),
            None => None,
        }
    }

    /// `build` needs a description, and a program unless the command goes
    /// through the AUR helper.
    pub open spec fn complete(&self) -> bool {
        &&& self.description_view() is Some
        &&& (self.kind() == CommandType::Aur || self.program_view() is Some)
    }

    /// Sets the program to run (ignored for AUR commands).
    pub fn program(self, program: &str) -> (r: Self)
        ensures
            r.kind() == self.kind(),
            r.program_view() == Some(program@),
            r.args_view() == self.args_view(),
            r.description_view() == self.description_view(),
    {
        let mut b = self;
        b.program = Some(program.to_owned());
        b
    }

    /// Appends one argument.
    pub fn arg(self, arg: &str) -> (r: Self)
        ensures
            r.kind() == self.kind(),
            r.program_view() == self.program_view(),
            r.args_view() == self.args_view().push(arg@),
            r.description_view() == self.description_view(),
    {
        let mut b = self;
        b.args.push(arg.to_owned());
        assert(strings_view(b.args@) =~= strings_view(self.args@).push(arg@));
        b
    }

    /// Replaces all arguments.
    pub fn args(self, args: &[&str]) -> (r: Self)
        ensures
            r.kind() == self.kind(),
            r.program_view() == self.program_view(),
            r.args_view() == strs_view(args@),
            r.description_view() == self.description_view(),
    {
        let mut b = self;
        b.args = to_strings(args);
        b
    }

    /// Sets the description shown to the user.
    pub fn description(self, description: &str) -> (r: Self)
        ensures
            r.kind() == self.kind(),
            r.program_view() == self.program_view(),
            r.args_view() == self.args_view(),
            r.description_view() == Some(description@),
    {
        let mut b = self;
        b.description = Some(description.to_owned());
        b
    }

    /// Whether `build` can be called (see `complete`).
    pub fn is_complete(&self) -> (r: bool)
        ensures
            r == self.complete(),
    {
        self.description.is_some() && (self.command_type == CommandType::Aur
            || self.program.is_some())
    }

    /// Builds the command. AUR commands get the program name `aur`.
    pub fn build(self) -> (c: Command)
        requires
            self.complete(),
        ensures
            c.command_type == self.kind(),
            c.program@ == (if self.kind() == CommandType::Aur {
                "aur"@
            } else {
                self.program_view()->0
            }),
            strings_view(c.args@) == self.args_view(),
            c.description@ == self.description_view()->0,
    {
        let program = match self.command_type {
            CommandType::Aur => "aur".to_owned(),
            _ => self.program.unwrap(),
        };
        let description = self.description.unwrap();
        Command { command_type: self.command_type, program, args: self.args, description }
    }
}

impl CommandBuilderType {
    /// A builder for a command run as is.
    pub fn normal(self) -> (b: CommandBuilder)
        ensures
            b.kind() == CommandType::Normal,
            b.program_view() is None,
            b.args_view() == Seq::<Seq<char>>::empty(),
            b.description_view() is None,
    {
        let b = CommandBuilder {
            command_type: CommandType::Normal,
            program: None,
            args: Vec::new(),
            description: None,
        };
        assert(b.args_view() =~= Seq::<Seq<char>>::empty());
        b
    }

    /// A builder for a command run with privilege escalation.
    pub fn privileged(self) -> (b: CommandBuilder)
        ensures
            b.kind() == CommandType::Privileged,
            b.program_view() is None,
            b.args_view() == Seq::<Seq<char>>::empty(),
            b.description_view() is None,
    {
        let b = CommandBuilder {
            command_type: CommandType::Privileged,
            program: None,
            args: Vec::new(),
            description: None,
        };
        assert(b.args_view() =~= Seq::<Seq<char>>::empty());
        b
    }

    /// A builder for a command run through the AUR helper.
    pub fn aur(self) -> (b: CommandBuilder)
        ensures
            b.kind() == CommandType::Aur,
            b.program_view() is None,
            b.args_view() == Seq::<Seq<char>>::empty(),
            b.description_view() is None,
    {
        let b = CommandBuilder {
            command_type: CommandType::Aur,
            program: None,
            args: Vec::new(),
            description: None,
        };
        assert(b.args_view() =~= Seq::<Seq<char>>::empty());
        b
    }
}

impl Command {
    /// A command with every field given.
    pub fn new(command_type: CommandType, program: &str, args: &[&str], description: &str) -> (c:
        Command)
        ensures
            c.command_type == command_type,
            c.program@ == program@,
            strings_view(c.args@) == strs_view(args@),
            c.description@ == description@,
    {
        Command {
            command_type,
            program: program.to_owned(),
            args: to_strings(args),
            description: description.to_owned(),
        }
    }

    /// Starts building a command.
    pub fn builder() -> CommandBuilderType {
        CommandBuilderType
    }
}

/// The message `CommandResult::error_message` gives for a failure.
pub open spec fn failure_message(
    exit_code: Option<i32>,
    stdout: Option<Seq<char>>,
    stderr: Option<Seq<char>>,
) -> Seq<char> {
    let output = match stderr {
        Some(e) => e,
        None => match stdout {
            Some(o) => o,
            None => "No output captured"@,
        },
    };
    let exit = match exit_code {
        Some(code) => " (exit code: "@ + signed_decimal(code as int) + ")"@,
        None => Seq::<char>::empty(),
    };
    trim(output) + exit
}

/// The characters of an optional string.
pub open spec fn opt_view(s: Option<String>) -> Option<Seq<char>> {
    match s {
        Some(t) => Some(t@),
        None => None,
    }
}

impl CommandResult {
    /// Whether the command succeeded.
    pub fn is_success(&self) -> (r: bool)
        ensures
            r == (self is Success),
    {
        match self {
            CommandResult::Success => true,
            _ => false,
        }
    }

    /// Whether the command failed.
    pub fn is_failure(&self) -> (r: bool)
        ensures
            r == (self is Failure),
    {
        !self.is_success()
    }

    /// The exit code of a failure, when known.
    pub fn exit_code(&self) -> (r: Option<i32>)
        ensures
            r == (match self {
                CommandResult::Failure { exit_code, .. } => *exit_code,
                CommandResult::Success => None,
            }),
    {
        match self {
            CommandResult::Failure { exit_code, .. } => *exit_code,
            _ => None,
        }
    }

    /// The captured output of a failure (stderr, else stdout, else a fixed
    /// text), trimmed, followed by the exit code when known. Empty for success.
    pub fn error_message(&self) -> (r: String)
        ensures
            r@ == (match self {
                CommandResult::Failure { exit_code, stdout, stderr } => failure_message(
                    *exit_code,
                    opt_view(*stdout),
                    opt_view(*stderr),
                ),
                CommandResult::Success => Seq::<char>::empty(),
            }),
    {
        match self {
            CommandResult::Failure { stderr, stdout, exit_code } => {
                let output: &str = match stderr {
                    Some(e) => e.as_str(),
                    None => match stdout {
                        Some(o) => o.as_str(),
                        None => "No output captured",
                    },
                };
                let mut msg = trim_str(output);
                match exit_code {
                    Some(code) => {
                        msg.append(" (exit code: ");
                        let digits = signed_decimal_string(*code as i64);
                        msg.append(digits.as_str());
                        msg.append(")");
                    },
                    None => {},
                }
                msg
            },
            CommandResult::Success => String::new(),
        }
    }
}

/// An ordered list of commands, built with `then_run`.
#[derive(Debug)]
pub struct CommandSequence {
    commands: Vec<Command>,
}

impl CommandSequence {
    /// The commands, in order.
    pub closed spec fn view_commands(&self) -> Seq<Command> {
        self.commands@
    }

    /// An empty sequence.
    pub fn new() -> (s: Self)
        ensures
            s.view_commands() == Seq::<Command>::empty(),
    {
        CommandSequence { commands: Vec::new() }
    }

    /// The sequence with `command` appended.
    pub fn then_run(self, command: Command) -> (s: Self)
        ensures
            s.view_commands() == self.view_commands().push(command),
    {
        let mut s = self;
        s.commands.push(command);
        s
    }

    /// The finished sequence (unchanged).
    pub fn build(self) -> (s: Self)
        ensures
            s.view_commands() == self.view_commands(),
    {
        self
    }

    /// Whether the sequence holds no command.
    pub fn is_empty(&self) -> (r: bool)
        ensures
            r == (self.view_commands().len() == 0),
    {
        self.commands.len() == 0
    }

    /// The commands, in order.
    pub fn commands(&self) -> (r: &Vec<Command>)
        ensures
            r@ == self.view_commands(),
    {
        &self.commands
    }

    /// The commands, consuming the sequence.
    pub fn into_commands(self) -> (r: Vec<Command>)
        ensures
            r@ == self.view_commands(),
    {
        self.commands
    }
}

impl Default for CommandSequence {
    /// An empty sequence.
    fn default() -> (s: Self)
        ensures
            s.view_commands() == Seq::<Command>::empty(),
    {
        CommandSequence::new()
    }
}

/// A command by its characters.
pub struct CommandSpec {
    pub kind: CommandType,
    pub program: Seq<char>,
    pub args: Seq<Seq<char>>,
    pub description: Seq<char>,
}

/// `c` by its characters.
pub open spec fn command_spec(c: Command) -> CommandSpec {
    CommandSpec {
        kind: c.command_type,
        program: c.program@,
        args: strings_view(c.args@),
        description: c.description@,
    }
}

/// The commands of `s` by their characters.
pub open spec fn sequence_spec(s: CommandSequence) -> Seq<CommandSpec> {
    s.view_commands().map_values(|c: Command| command_spec(c))
}

/// An AUR helper command with the given arguments.
pub open spec fn aur_spec(args: Seq<Seq<char>>, description: Seq<char>) -> CommandSpec {
    CommandSpec { kind: CommandType::Aur, program: "aur"@, args, description }
}

/// A command of the given kind running `program`.
pub open spec fn run_spec(
    kind: CommandType,
    program: Seq<char>,
    args: Seq<Seq<char>>,
    description: Seq<char>,
) -> CommandSpec {
    CommandSpec { kind, program, args, description }
}

/// An AUR helper command with the given arguments.
pub fn aur_command(args: &[&str], description: &str) -> (c: Command)
    ensures
        command_spec(c) == aur_spec(strs_view(args@), description@),
{
    Command::builder().aur().args(args).description(description).build()
}

/// A normal command.
pub fn normal_command(program: &str, args: &[&str], description: &str) -> (c: Command)
    ensures
        command_spec(c) == run_spec(CommandType::Normal, program@, strs_view(args@), description@),
{
    Command::builder().normal().program(program).args(args).description(description).build()
}

/// A privileged command.
pub fn privileged_command(program: &str, args: &[&str], description: &str) -> (c: Command)
    ensures
        command_spec(c) == run_spec(
            CommandType::Privileged,
            program@,
            strs_view(args@),
            description@,
        ),
{
    Command::builder().privileged().program(program).args(args).description(description).build()
}

/// `seq![c]` when `cond` holds, else nothing.
pub open spec fn step_if(cond: bool, c: CommandSpec) -> Seq<CommandSpec> {
    if cond {
        seq![c]
    } else {
        Seq::empty()
    }
}

/// Appending a command extends the sequence's characters by its own.
pub proof fn lemma_sequence_push(s: CommandSequence, t: CommandSequence, c: Command)
    requires
        t.view_commands() == s.view_commands().push(c),
    ensures
        sequence_spec(t) == sequence_spec(s).push(command_spec(c)),
{
    assert(sequence_spec(t) =~= sequence_spec(s).push(command_spec(c)));
}

} // verus!
