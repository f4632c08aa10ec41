//! The desktop widget's control channel: the command-line flags that send
//! a command to a running widget, the one-line messages that carry it, and
//! whether the widget starts its own UI.

use vstd::prelude::*;
use crate::text::{trimmed, trim, same_text, first_non_ws_from, last_non_ws_before, is_white_space,
    is_blank, lemma_trim_surrounded};

verus! {

/// A command for a running widget.
#[derive(Debug, Clone, Copy, PartialEq, Eq, Structural)]
pub enum ControlCommand {
    Toggle,
    Stop,
}

/// Whether some argument is exactly `flag`.
pub open spec fn has_arg(args: Seq<Seq<char>>, flag: Seq<char>) -> bool {
    exists|i: int| 0 <= i < args.len() && args[i] == flag
}

/// The command the arguments ask for: `--toggle` anywhere wins over
/// `--stop` anywhere.
pub open spec fn command_of_args(args: Seq<Seq<char>>) -> Option<ControlCommand> {
    if has_arg(args, "--toggle"@) {
        Some(ControlCommand::Toggle)
    } else if has_arg(args, "--stop"@) {
        Some(ControlCommand::Stop)
    } else {
        None
    }
}

fn find_arg(args: &Vec<String>, flag: &str) -> (r: bool)
    ensures
        r == has_arg(args.deep_view(), flag@),
{
    let mut i: usize = 0;
    while i < args.len()
        invariant
            i <= args.len(),
            forall|k: int| 0 <= k < i ==> args.deep_view()[k] != flag@,
        decreases args.len() - i,
    {
        if same_text(args[i].as_str(), flag) {
            assert(args.deep_view()[i as int] == flag@);
            return true;
        }
        i = i + 1;
    }
    false
}

/// The command that the widget's command-line arguments ask for.
pub fn control_command_from_args(args: &Vec<String>) -> (r: Option<ControlCommand>)
    ensures
        r == command_of_args(args.deep_view()),
{
    if find_arg(args, "--toggle") {
        Some(ControlCommand::Toggle)
    } else if find_arg(args, "--stop") {
        Some(ControlCommand::Stop)
    } else {
        None
    }
}

/// Whether the widget goes on to start its own UI.
#[derive(Debug, Clone, PartialEq)]
pub enum Startup {
    Exit,
    Launch,
}

/// A command that reached a running widget needs nothing more; a `--stop`
/// that found none has nothing to stop; everything else starts the UI.
/// `delivered` tells whether the command (if any) reached a running widget.
pub fn widget_startup(command: Option<ControlCommand>, delivered: bool) -> (r: Startup)
    ensures
        r is Exit <==> (command is Some && delivered) || command == Some(ControlCommand::Stop),
{
    match command {
        Some(ControlCommand::Stop) => Startup::Exit,
        Some(ControlCommand::Toggle) => if delivered {
            Startup::Exit
        } else {
            Startup::Launch
        },
        None => Startup::Launch,
    }
}

/// The flags decide the command wherever they stand among the arguments:
/// an argument that is exactly `--toggle` makes the command a toggle,
/// whatever else is there; an argument that is exactly `--stop`, with no
/// `--toggle` anywhere, makes it a stop; with neither there is no command.
pub proof fn law_flags_pick_the_command(args: Seq<Seq<char>>, i: int)
    requires
        0 <= i < args.len(),
    ensures
        args[i] == "--toggle"@ ==> command_of_args(args) == Some(ControlCommand::Toggle),
        (args[i] == "--stop"@ && (forall|j: int| 0 <= j < args.len() ==> args[j] != "--toggle"@))
            ==> command_of_args(args) == Some(ControlCommand::Stop),
        (forall|j: int| 0 <= j < args.len() ==> args[j] != "--toggle"@ && args[j] != "--stop"@)
            ==> command_of_args(args) is None,
{
    assert(args[i] == args[i]);
}

/// Adding arguments never takes a toggle away: a command line that asks
/// for a toggle still does with more arguments before or after it.
pub proof fn law_toggle_survives_more_arguments(
    before: Seq<Seq<char>>,
    args: Seq<Seq<char>>,
    after: Seq<Seq<char>>,
)
    requires
        command_of_args(args) == Some(ControlCommand::Toggle),
    ensures
        command_of_args(before + args + after) == Some(ControlCommand::Toggle),
{
    if has_arg(args, "--toggle"@) {
        let i = choose|i: int| 0 <= i < args.len() && args[i] == "--toggle"@;
        let all = before + args + after;
        assert(all[before.len() + i] == args[i]);
        law_flags_pick_the_command(all, before.len() + i);
    }
}

/// The word that names a command.
pub open spec fn control_word_text(c: ControlCommand) -> Seq<char> {
    match c {
        ControlCommand::Toggle => "toggle"@,
        ControlCommand::Stop => "stop"@,
    }
}

/// The word that names `c`, as the widget writes it to its command file.
pub fn control_word(c: ControlCommand) -> (r: String)
    ensures
        r@ == control_word_text(c),
{
    match c {
        ControlCommand::Toggle => "toggle".to_string(),
        ControlCommand::Stop => "stop".to_string(),
    }
}

/// The line that carries `c` over the control socket.
pub fn control_message(c: ControlCommand) -> (r: String)
    ensures
        r@ == control_word_text(c) + "\n"@,
{
    let mut r = control_word(c);
    r.append("\n");
    r
}

/// The command that a control line names, once trimmed.
pub open spec fn command_of_line(line: Seq<char>) -> Option<ControlCommand> {
    let t = trimmed(line);
    if t == "toggle"@ {
        Some(ControlCommand::Toggle)
    } else if t == "stop"@ {
        Some(ControlCommand::Stop)
    } else {
        None
    }
}

/// The command that a line read from the control socket names, if any.
pub fn parse_control_line(line: &str) -> (r: Option<ControlCommand>)
    ensures
        r == command_of_line(line@),
{
    let t = trim(line);
    if same_text(t.as_str(), "toggle") {
        Some(ControlCommand::Toggle)
    } else if same_text(t.as_str(), "stop") {
        Some(ControlCommand::Stop)
    } else {
        None
    }
}

/// A control message, read back by the listener, names the command that
/// was sent.
pub proof fn law_control_message_round_trip(c: ControlCommand)
    ensures
        command_of_line(control_word_text(c) + "\n"@) == Some(c),
{
    reveal_strlit("toggle");
    reveal_strlit("stop");
    reveal_strlit("\n");
    let w = control_word_text(c);
    let s = w + "\n"@;
    assert(s.len() == w.len() + 1);
    assert(!is_white_space(s[0]));
    assert(first_non_ws_from(s, 0) == 0);
    assert(is_white_space(s[s.len() - 1]));
    assert(!is_white_space(s[s.len() - 2]));
    assert(last_non_ws_before(s, 0, s.len() - 1) == s.len() - 1);
    assert(last_non_ws_before(s, 0, s.len() as int) == s.len() - 1);
    assert(trimmed(s) =~= w);
    assert("toggle"@ != "stop"@) by {
        assert("toggle"@.len() != "stop"@.len());
    }
}

/// A control line names its command whatever whitespace surrounds the
/// word, and the two words name different commands.
pub proof fn law_control_line_ignores_surrounding_whitespace(
    c: ControlCommand,
    pre: Seq<char>,
    post: Seq<char>,
)
    requires
        is_blank(pre),
        is_blank(post),
    ensures
        command_of_line(pre + control_word_text(c) + post) == Some(c),
{
    reveal_strlit("toggle");
    reveal_strlit("stop");
    let w = control_word_text(c);
    assert(!is_white_space(w[0]));
    assert(!is_white_space(w[w.len() - 1]));
    lemma_trim_surrounded(pre, w, post);
    assert("toggle"@ != "stop"@) by {
        assert("toggle"@.len() != "stop"@.len());
    }
}

} // verus!
