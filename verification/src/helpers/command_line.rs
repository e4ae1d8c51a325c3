use vstd::prelude::*;
use vstd::string::*;

verus! {

/// The kinds of message an agent prints.
#[derive(Debug, Clone, Copy, PartialEq, Eq, Structural)]
pub enum PrintCommand {
    AICall,
    UnitTest,
    Issue,
}

/// The colours in which agent messages are printed.
#[derive(Debug, Clone, Copy, PartialEq, Eq, Structural)]
pub enum MessageColor {
    Green,
    Cyan,
    Magenta,
    Red,
}

/// The colour in which the name of the agent is printed.
pub const AGENT_COLOR: MessageColor = MessageColor::Green;

impl PrintCommand {
    /// The colour of the statement of a message of this kind.
    pub open spec fn color(self) -> MessageColor {
        match self {
            PrintCommand::AICall => MessageColor::Cyan,
            PrintCommand::UnitTest => MessageColor::Magenta,
            PrintCommand::Issue => MessageColor::Red,
        }
    }

    /// Picks the colour in which the statement of a message is printed.
    pub fn statement_color(&self) -> (color: MessageColor)
        ensures
            color == self.color(),
    {
        match self {
            PrintCommand::AICall => MessageColor::Cyan,
            PrintCommand::UnitTest => MessageColor::Magenta,
            PrintCommand::Issue => MessageColor::Red,
        }
    }
}

/// What is printed in front of an agent's statement.
pub open spec fn agent_label_text(agent_pos: Seq<char>) -> Seq<char> {
    "Agent: "@ + agent_pos + ": "@
}

/// Writes what is printed in front of an agent's statement.
pub fn agent_label(agent_pos: &str) -> (label: String)
    ensures
        label@ == agent_label_text(agent_pos@),
{
    let mut label = String::from_str("Agent: ");
    label.append(agent_pos);
    label.append(": ");
    label
}

/// Whether a character is white space: one of the characters that Unicode
/// gives the property `White_Space`.
pub open spec fn is_white_space(c: char) -> bool {
    let code = c as u32;
    ||| 0x09 <= code <= 0x0D
    ||| code == 0x20
    ||| code == 0x85
    ||| code == 0xA0
    ||| code == 0x1680
    ||| 0x2000 <= code <= 0x200A
    ||| code == 0x2028
    ||| code == 0x2029
    ||| code == 0x202F
    ||| code == 0x205F
    ||| code == 0x3000
}

/// A text without the white space at its start.
pub open spec fn trimmed_start(text: Seq<char>) -> Seq<char>
    decreases text.len(),
{
    if text.len() > 0 && is_white_space(text[0]) {
        trimmed_start(text.drop_first())
    } else {
        text
    }
}

/// A text without the white space at its end.
pub open spec fn trimmed_end(text: Seq<char>) -> Seq<char>
    decreases text.len(),
{
    if text.len() > 0 && is_white_space(text.last()) {
        trimmed_end(text.drop_last())
    } else {
        text
    }
}

/// A text without the white space around it.
pub open spec fn trimmed_text(text: Seq<char>) -> Seq<char> {
    trimmed_end(trimmed_start(text))
}

/// Decides whether a character is white space.
pub fn is_space(c: char) -> (space: bool)
    ensures
        space == is_white_space(c),
{
    let code = c as u32;
    (0x09 <= code && code <= 0x0D) || code == 0x20 || code == 0x85 || code == 0xA0 || code
        == 0x1680 || (0x2000 <= code && code <= 0x200A) || code == 0x2028 || code == 0x2029
        || code == 0x202F || code == 0x205F || code == 0x3000
}

/// Removes the white space around a text.
pub fn trim(text: &str) -> (trimmed: String)
    ensures
        trimmed@ == trimmed_text(text@),
{
    let len = text.unicode_len();
    let mut start: usize = 0;
    proof {
        assert(text@.subrange(0, len as int) =~= text@);
    }
    while start < len && is_space(text.get_char(start))
        invariant
            start <= len,
            len == text@.len(),
            trimmed_start(text@) == trimmed_start(text@.subrange(start as int, len as int)),
        decreases len - start,
    {
        proof {
            let rest = text@.subrange(start as int, len as int);
            assert(rest[0] == text@[start as int]);
            assert(rest.drop_first() =~= text@.subrange(start + 1, len as int));
        }
        start = start + 1;
    }
    proof {
        let rest = text@.subrange(start as int, len as int);
        if start < len {
            assert(rest[0] == text@[start as int]);
        }
        assert(trimmed_start(text@) == rest);
    }
    let mut end: usize = len;
    while start < end && is_space(text.get_char(end - 1))
        invariant
            start <= end <= len,
            len == text@.len(),
            trimmed_text(text@) == trimmed_end(text@.subrange(start as int, end as int)),
        decreases end - start,
    {
        proof {
            let rest = text@.subrange(start as int, end as int);
            assert(rest.last() == text@[end - 1]);
            assert(rest.drop_last() =~= text@.subrange(start as int, end - 1));
        }
        end = end - 1;
    }
    proof {
        let rest = text@.subrange(start as int, end as int);
        if start < end {
            assert(rest.last() == text@[end - 1]);
        }
        assert(trimmed_text(text@) == rest);
    }
    String::from_str(text.substring_char(start, end))
}

/// What an answer to the safety confirmation means: `1` allows the generated
/// code to run, `2` forbids it, and anything else is no answer.
pub open spec fn confirmation_of(answer: Seq<char>) -> Option<bool> {
    if answer == "1"@ {
        Some(true)
    } else if answer == "2"@ {
        Some(false)
    } else {
        None
    }
}

/// Reads an answer to the safety confirmation that has no white space
/// around it.
pub fn read_confirmation(answer: &str) -> (decision: Option<bool>)
    ensures
        decision == confirmation_of(answer@),
{
    let given = String::from_str(answer);
    if given == String::from_str("1") {
        Some(true)
    } else if given == String::from_str("2") {
        Some(false)
    } else {
        None
    }
}

/// Reads the line that the operator typed at the safety confirmation. `None`
/// means that the question has to be asked again.
pub fn parse_confirmation(line: &str) -> (decision: Option<bool>)
    ensures
        decision == confirmation_of(trimmed_text(line@)),
{
    let trimmed = trim(line);
    read_confirmation(trimmed.as_str())
}

} // verus!
