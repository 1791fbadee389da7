//! Running commands through `pkexec`, with output captured per command.

use vstd::prelude::*;
use crate::command::{clone_strings, strings_view, Command, CommandType};
use crate::task_runner::{opt_str_view, NO_AUR_HELPER_MESSAGE};
use crate::text::{trim, trim_str};

verus! {

/// The program and arguments that run `c`: privileged commands through
/// `pkexec`, AUR commands through the helper with `pkexec` as its `--sudo`
/// program.
pub open spec fn resolved(c: Command, helper: Option<Seq<char>>) -> Result<
    (Seq<char>, Seq<Seq<char>>),
    Seq<char>,
> {
    match c.command_type {
        CommandType::Normal => Ok((c.program@, strings_view(c.args@))),
        CommandType::Privileged => Ok(("pkexec"@, seq![c.program@] + strings_view(c.args@))),
        CommandType::Aur => match helper {
            Some(h) => Ok((h, seq!["--sudo"@, "pkexec"@] + strings_view(c.args@))),
            None => Err(NO_AUR_HELPER_MESSAGE@),
        },
    }
}

/// Resolves a command to the program and arguments to execute, given the AUR
/// helper in use (if any).
pub fn resolve_command(command: &Command, aur_helper: Option<&str>) -> (r: Result<
    (String, Vec<String>),
    String,
>)
    ensures
        crate::task_runner::resolution_view(r) == resolved(*command, opt_str_view(aur_helper)),
{
    match command.command_type {
        CommandType::Normal => Ok((command.program.clone(), clone_strings(&command.args))),
        CommandType::Privileged => {
            let mut args: Vec<String> = Vec::new();
            args.push(command.program.clone());
            let mut rest = clone_strings(&command.args);
            args.append(&mut rest);
            assert(strings_view(args@) =~= seq![command.program@] + strings_view(
                command.args@,
            ));
            Ok(("pkexec".to_owned(), args))
        },
        CommandType::Aur => match aur_helper {
            Some(helper) => {
                let mut args: Vec<String> = Vec::new();
                args.push("--sudo".to_owned());
                args.push("pkexec".to_owned());
                let mut rest = clone_strings(&command.args);
                args.append(&mut rest);
                assert(strings_view(args@) =~= seq!["--sudo"@, "pkexec"@] + strings_view(
                    command.args@,
                ));
                Ok((helper.to_owned(), args))
            },
            None => Err(NO_AUR_HELPER_MESSAGE.to_owned()),
        },
    }
}

/// The section for one captured stream: its label and text, when the text
/// is not blank.
pub open spec fn stream_section(label: Seq<char>, text: Option<Seq<char>>) -> Seq<char> {
    match text {
        Some(t) => if trim(t).len() > 0 {
            label + t + "\n\n"@
        } else {
            Seq::empty()
        },
        None => Seq::empty(),
    }
}

/// The output shown for a finished command: a header with its description,
/// the non-blank streams, or a note when there is none.
pub open spec fn command_output_text(
    description: Seq<char>,
    stdout: Option<Seq<char>>,
    stderr: Option<Seq<char>>,
) -> Seq<char> {
    let body = "=== "@ + description + " ===\n"@ + stream_section("STDOUT:\n"@, stdout)
        + stream_section("STDERR:\n"@, stderr);
    if trim(body) == "=== "@ + description + " ==="@ {
        body + "(No output captured)\n\n"@
    } else {
        body
    }
}

fn append_section(out: &mut String, label: &str, text: Option<&str>)
    ensures
        final(out)@ == old(out)@ + stream_section(label@, match text {
            Some(t) => Some(t@),
            None => None,
        }),
{
    match text {
        Some(t) => {
            let trimmed = trim_str(t);
            if !trimmed.as_str().is_empty() {
                out.append(label);
                out.append(t);
                out.append("\n\n");
            } else {
                assert(out@ =~= out@ + Seq::<char>::empty());
            }
        },
        None => {
            assert(out@ =~= out@ + Seq::<char>::empty());
        },
    }
}

/// Formats a finished command's captured output (see `command_output_text`).
pub fn format_command_output(description: &str, stdout: Option<&str>, stderr: Option<&str>) -> (r:
    String)
    ensures
        r@ == command_output_text(
            description@,
            match stdout {
                Some(t) => Some(t@),
                None => None,
            },
            match stderr {
                Some(t) => Some(t@),
                None => None,
            },
        ),
{
    let mut out = "=== ".to_owned();
    out.append(description);
    out.append(" ===\n");
    append_section(&mut out, "STDOUT:\n", stdout);
    append_section(&mut out, "STDERR:\n", stderr);
    let trimmed = trim_str(out.as_str());
    let mut header = "=== ".to_owned();
    header.append(description);
    header.append(" ===");
    if crate::text::str_is(trimmed.as_str(), header.as_str()) {
        out.append("(No output captured)\n\n");
    }
    out
}

} // verus!
