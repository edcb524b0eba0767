//! The one supported target command line.

use vstd::prelude::*;

use crate::contract::target::{TargetCommand, TargetIntent, TargetLiveStart, TargetSessionId};
use crate::identifier::{display_uuid, uuid_text};
use crate::text::views;

verus! {

/// Whether the target is asked for one review or for a conversation.
#[derive(Clone, Copy, Debug, PartialEq, Eq, Structural)]
pub enum InvocationMode {
    OneShot,
    Live,
}

/// The arguments that depend on the mode.
pub open spec fn mode_arguments(mode: InvocationMode) -> Seq<Seq<char>> {
    match mode {
        InvocationMode::OneShot => seq![
            "--print"@,
            "--verbose"@,
            "--output-format"@,
            "stream-json"@,
        ],
        InvocationMode::Live => seq![
            "--print"@,
            "--input-format"@,
            "stream-json"@,
            "--output-format"@,
            "stream-json"@,
            "--include-partial-messages"@,
            "--replay-user-messages"@,
            "--verbose"@,
        ],
    }
}

/// The arguments that fix the model, its effort, and the read-only tools.
pub open spec fn profile_arguments() -> Seq<Seq<char>> {
    seq![
        "--model"@,
        "opus"@,
        "--effort"@,
        "max"@,
        "--permission-mode"@,
        "dontAsk"@,
        "--restricted"@,
        "--safe-mode"@,
        "--tools"@,
        "Read,Glob,Grep"@,
        "--allowedTools"@,
        "Read,Glob,Grep"@,
    ]
}

/// The arguments that name the session: the intended one for a new session, the exact one for a
/// resumed session.
pub open spec fn session_arguments(intent: TargetIntent, intended: TargetSessionId) -> Seq<
    Seq<char>,
> {
    match intent {
        TargetIntent::New => seq!["--session-id"@, uuid_text(intended.0)],
        TargetIntent::ResumeExact { session_id } => seq!["--resume"@, uuid_text(session_id.0)],
    }
}

/// The whole command line after the executable.
pub open spec fn arguments(
    mode: InvocationMode,
    intent: TargetIntent,
    intended: TargetSessionId,
) -> Seq<Seq<char>> {
    mode_arguments(mode) + profile_arguments() + session_arguments(intent, intended)
}

/// Appends one argument.
fn argument(arguments: &mut Vec<String>, text: &str)
    ensures
        views(final(arguments)@) == views(old(arguments)@).push(text@),
{
    arguments.push(text.to_owned());
    proof {
        assert(views(arguments@) =~= views(old(arguments)@).push(text@));
    }
}

/// Appends the arguments that do not depend on the session.
fn profile(arguments: &mut Vec<String>, mode: InvocationMode)
    ensures
        views(final(arguments)@) == views(old(arguments)@) + mode_arguments(mode)
            + profile_arguments(),
{
    argument(arguments, "--print");
    match mode {
        InvocationMode::OneShot => {
            argument(arguments, "--verbose");
            argument(arguments, "--output-format");
            argument(arguments, "stream-json");
        },
        InvocationMode::Live => {
            argument(arguments, "--input-format");
            argument(arguments, "stream-json");
            argument(arguments, "--output-format");
            argument(arguments, "stream-json");
            argument(arguments, "--include-partial-messages");
            argument(arguments, "--replay-user-messages");
            argument(arguments, "--verbose");
        },
    }
    proof {
        assert(views(arguments@) =~= views(old(arguments)@) + mode_arguments(mode));
    }
    argument(arguments, "--model");
    argument(arguments, "opus");
    argument(arguments, "--effort");
    argument(arguments, "max");
    argument(arguments, "--permission-mode");
    argument(arguments, "dontAsk");
    argument(arguments, "--restricted");
    argument(arguments, "--safe-mode");
    argument(arguments, "--tools");
    argument(arguments, "Read,Glob,Grep");
    argument(arguments, "--allowedTools");
    argument(arguments, "Read,Glob,Grep");
    proof {
        assert(views(arguments@) =~= views(old(arguments)@) + mode_arguments(mode)
            + profile_arguments());
    }
}

/// Appends the arguments that name the session.
fn session(arguments: &mut Vec<String>, intent: TargetIntent, intended: TargetSessionId)
    ensures
        views(final(arguments)@) == views(old(arguments)@) + session_arguments(intent, intended),
{
    match intent {
        TargetIntent::New => {
            argument(arguments, "--session-id");
            argument(arguments, display_uuid(intended.0).as_str());
        },
        TargetIntent::ResumeExact { session_id } => {
            argument(arguments, "--resume");
            argument(arguments, display_uuid(session_id.0).as_str());
        },
    }
    proof {
        assert(views(arguments@) =~= views(old(arguments)@) + session_arguments(intent, intended));
    }
}

/// The arguments of a mode that do not depend on the session.
pub open spec fn fixed_arguments(mode: InvocationMode) -> Seq<Seq<char>> {
    mode_arguments(mode) + profile_arguments()
}

/// Makes the arguments of a mode that do not depend on the session.
pub(crate) fn fixed(mode: InvocationMode) -> (line: Vec<String>)
    ensures
        views(line@) == fixed_arguments(mode),
{
    let mut line: Vec<String> = Vec::new();
    proof {
        assert(views(line@) =~= Seq::<Seq<char>>::empty());
    }
    profile(&mut line, mode);
    proof {
        assert(views(line@) =~= fixed_arguments(mode));
    }
    line
}

/// The command line of one review.
pub fn build(command: &TargetCommand) -> (line: Vec<String>)
    ensures
        views(line@) == arguments(InvocationMode::OneShot, command@.intent, command@.session_id),
{
    let mut line: Vec<String> = Vec::new();
    proof {
        assert(views(line@) =~= Seq::<Seq<char>>::empty());
    }
    profile(&mut line, InvocationMode::OneShot);
    session(&mut line, command.intent, command.session_id);
    proof {
        assert(views(line@) =~= arguments(
            InvocationMode::OneShot,
            command@.intent,
            command@.session_id,
        ));
    }
    line
}

/// The command line of one conversation.
pub fn build_live(start: &TargetLiveStart) -> (line: Vec<String>)
    ensures
        views(line@) == arguments(InvocationMode::Live, start@.intent, start@.session_id),
{
    let mut line: Vec<String> = Vec::new();
    proof {
        assert(views(line@) =~= Seq::<Seq<char>>::empty());
    }
    profile(&mut line, InvocationMode::Live);
    session(&mut line, start.intent, start.session_id);
    proof {
        assert(views(line@) =~= arguments(
            InvocationMode::Live,
            start@.intent,
            start@.session_id,
        ));
    }
    line
}

} // verus!
