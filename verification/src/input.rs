//! What a user types.

use vstd::prelude::*;
use vstd::string::*;

use crate::text::trim;

verus! {

/// What a typed line asks for.
#[derive(Debug)]
pub enum Command {
    /// Leave the program.
    Quit,
    /// Nothing.
    Blank,
    /// Send a message.
    Message { content: String },
}

/// Whether `command` is what the typed `line` asks for: to leave for the word
/// `quit`, nothing for white space, and else to send the line without the white
/// space around it.
pub open spec fn is_command(line: Seq<char>, command: Command) -> bool {
    let message = crate::text::trimmed(line);
    if message == "quit"@ {
        command == Command::Quit
    } else if message.len() == 0 {
        command == Command::Blank
    } else {
        command matches Command::Message { content } && content@ == message
    }
}

/// Reads a typed line.
pub fn parse_line(line: &str) -> (command: Command)
    ensures
        is_command(line@, command),
        command is Quit <==> crate::text::trimmed(line@) == "quit"@,
        command matches Command::Message { content } ==> content@ == crate::text::trimmed(line@),
{
    let message = trim(line).to_owned();
    if message == "quit".to_owned() {
        Command::Quit
    } else if message.as_str().is_empty() {
        Command::Blank
    } else {
        Command::Message { content: message }
    }
}

/// A message that is sent is never empty, and neither starts nor ends with
/// white space.
pub proof fn law_sent_messages_are_trimmed(line: Seq<char>, content: String)
    requires
        is_command(line, Command::Message { content }),
    ensures
        content@.len() > 0,
        !crate::text::is_white_space(content@.first()),
        !crate::text::is_white_space(content@.last()),
        content@ != "quit"@,
{
    crate::text::law_trimmed_has_no_white_space_at_its_ends(line);
}

/// Whatever white space stands around what is typed, the word `quit` leaves the
/// program, nothing asks for nothing, and anything else is sent as it is, whole
/// and without the white space.
pub proof fn law_typed_text_is_sent_whole(
    left: Seq<char>,
    typed: Seq<char>,
    right: Seq<char>,
    command: Command,
)
    requires
        crate::text::is_blank(left),
        crate::text::is_blank(right),
        typed.len() > 0 ==> !crate::text::is_white_space(typed.first())
            && !crate::text::is_white_space(typed.last()),
        is_command(left + typed + right, command),
    ensures
        command is Quit <==> typed == "quit"@,
        command is Blank <==> typed.len() == 0,
        typed.len() > 0 && typed != "quit"@ ==> (command matches Command::Message { content }
            && content@ == typed),
{
    reveal_strlit("quit");
    crate::text::law_padding_is_trimmed(left, typed, right);
}

} // verus!
