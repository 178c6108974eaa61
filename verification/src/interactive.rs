//! The commands of an interactive session: what a line that was typed asks
//! for, and the numbers that the next thought gets.

use crate::text::lowercase;
use crate::text::lowercase_of;
use crate::text::str_eq;
use crate::thinking::ThoughtData;
use crate::thinking::ThoughtDataView;
use vstd::prelude::*;
use vstd::string::StrSliceExecFns;

verus! {

/// The text that `str::trim` leaves of `text`: the text without the white
/// space at its beginning and at its end, white space being what Unicode
/// defines as such.
pub uninterp spec fn trimmed(text: Seq<char>) -> Seq<char>;

/// A text without the white space around it, by `str::trim`.
#[verifier::external_body]
pub(crate) fn trim(text: &str) -> (inner: String)
    ensures
        inner@ == trimmed(text@),
{
    text.trim().to_string()
}

/// The number of characters of a line before its first space, or of the
/// whole line where it holds no space.
pub open spec fn head_length(line: Seq<char>) -> nat
    decreases line.len(),
{
    if line.len() == 0 || line.first() == ' ' {
        0
    } else {
        1 + head_length(line.drop_first())
    }
}

/// The characters before position `n` hold no space, and the line ends at
/// `n` or has a space there: then `n` is the length of the head.
pub proof fn lemma_head_length(line: Seq<char>, n: int)
    requires
        0 <= n <= line.len(),
        forall|j: int| 0 <= j < n ==> line[j] != ' ',
        n == line.len() || line[n] == ' ',
    ensures
        head_length(line) == n,
    decreases n,
{
    if n > 0 {
        let rest = line.drop_first();
        assert(forall|j: int| 0 <= j < n - 1 ==> rest[j] == line[j + 1]);
        lemma_head_length(rest, n - 1);
    }
}

/// The first word of a line: what stands before its first space.
pub open spec fn head_of(line: Seq<char>) -> Seq<char> {
    line.subrange(0, head_length(line) as int)
}

/// What follows the first space of a line, if the line holds a space.
pub open spec fn rest_of(line: Seq<char>) -> Option<Seq<char>> {
    if head_length(line) < line.len() {
        Some(line.subrange(head_length(line) as int + 1, line.len() as int))
    } else {
        None
    }
}

/// The length of the head of a line.
pub fn head_end(line: &str) -> (n: usize)
    ensures
        n == head_length(line@),
        n <= line@.len(),
{
    let length = line.unicode_len();
    let mut i: usize = 0;
    while i < length && line.get_char(i) != ' '
        invariant
            i <= length,
            length == line@.len(),
            forall|j: int| 0 <= j < i ==> line@[j] != ' ',
        decreases length - i,
    {
        i += 1;
    }
    proof {
        lemma_head_length(line@, i as int);
    }
    i
}

/// The commands whose use can be explained.
#[derive(Debug, Clone, Copy, PartialEq, Eq, Structural)]
pub enum UsageOf {
    Think,
    Revise,
    Branch,
}

impl UsageOf {
    /// The line that explains the use of the command.
    pub open spec fn line(self) -> Seq<char> {
        match self {
            UsageOf::Think => "Usage: think <content>"@,
            UsageOf::Revise => "Usage: revise <number> <content>"@,
            UsageOf::Branch => "Usage: branch <from> <id> <content>"@,
        }
    }

    /// The line that explains the use of the command.
    pub fn text(&self) -> (line: &'static str)
        ensures
            line@ == self.line(),
    {
        match self {
            UsageOf::Think => "Usage: think <content>",
            UsageOf::Revise => "Usage: revise <number> <content>",
            UsageOf::Branch => "Usage: branch <from> <id> <content>",
        }
    }
}

/// What a line that was typed asks for.
#[derive(Debug, PartialEq, Eq)]
pub enum Command {
    /// Nothing: the line was blank.
    Nothing,
    /// A thought with this text is to be added.
    Think { content: String },
    /// The use of a command is to be explained.
    Usage { of: UsageOf },
    /// The progress is to be shown.
    Progress,
    /// The counters are to be shown.
    Stats,
    /// The session is to be exported in this format.
    Export { format: String },
    /// The session is to end.
    Quit,
    /// The commands are to be listed.
    Help,
    /// The line begins with a word that is no command.
    Unknown { word: String },
}

/// What a [`Command`] holds, as mathematical values.
pub enum CommandView {
    Nothing,
    Think { content: Seq<char> },
    Usage { of: UsageOf },
    Progress,
    Stats,
    Export { format: Seq<char> },
    Quit,
    Help,
    Unknown { word: Seq<char> },
}

impl View for Command {
    type V = CommandView;

    open spec fn view(&self) -> CommandView {
        match self {
            Command::Nothing => CommandView::Nothing,
            Command::Think { content } => CommandView::Think { content: content@ },
            Command::Usage { of } => CommandView::Usage { of: *of },
            Command::Progress => CommandView::Progress,
            Command::Stats => CommandView::Stats,
            Command::Export { format } => CommandView::Export { format: format@ },
            Command::Quit => CommandView::Quit,
            Command::Help => CommandView::Help,
            Command::Unknown { word } => CommandView::Unknown { word: word@ },
        }
    }
}

/// What the line `line`, which has no white space around it, asks for. Its
/// first word, in lower case, names the command; what follows the first
/// space goes with it. `think` needs a text. `revise` and `branch` are
/// answered with their use: a line has two parts, and they ask for more.
/// `export` takes a format, and `json` where none is given.
pub open spec fn command_of_trimmed(line: Seq<char>) -> CommandView {
    let word = lowercase_of(head_of(line));
    if line.len() == 0 {
        CommandView::Nothing
    } else if word == "think"@ {
        match rest_of(line) {
            Some(content) => CommandView::Think { content },
            None => CommandView::Usage { of: UsageOf::Think },
        }
    } else if word == "revise"@ {
        CommandView::Usage { of: UsageOf::Revise }
    } else if word == "branch"@ {
        CommandView::Usage { of: UsageOf::Branch }
    } else if word == "progress"@ {
        CommandView::Progress
    } else if word == "stats"@ {
        CommandView::Stats
    } else if word == "export"@ {
        CommandView::Export {
            format: match rest_of(line) {
                Some(format) => format,
                None => "json"@,
            },
        }
    } else if word == "quit"@ || word == "exit"@ {
        CommandView::Quit
    } else if word == "help"@ {
        CommandView::Help
    } else {
        CommandView::Unknown { word }
    }
}

/// What the line `input` asks for, as it was typed: the white space around
/// it does not count.
pub open spec fn command_of(input: Seq<char>) -> CommandView {
    command_of_trimmed(trimmed(input))
}

/// What the line `line`, which has no white space around it, asks for.
pub fn parse_trimmed(line: &str) -> (command: Command)
    ensures
        command@ == command_of_trimmed(line@),
{
    let length = line.unicode_len();
    if length == 0 {
        return Command::Nothing;
    }
    let end = head_end(line);
    let word = lowercase(line.substring_char(0, end));
    let rest = if end < length {
        Some(line.substring_char(end + 1, length))
    } else {
        None
    };
    if str_eq(word.as_str(), "think") {
        match rest {
            Some(content) => Command::Think { content: content.to_string() },
            None => Command::Usage { of: UsageOf::Think },
        }
    } else if str_eq(word.as_str(), "revise") {
        Command::Usage { of: UsageOf::Revise }
    } else if str_eq(word.as_str(), "branch") {
        Command::Usage { of: UsageOf::Branch }
    } else if str_eq(word.as_str(), "progress") {
        Command::Progress
    } else if str_eq(word.as_str(), "stats") {
        Command::Stats
    } else if str_eq(word.as_str(), "export") {
        match rest {
            Some(format) => Command::Export { format: format.to_string() },
            None => Command::Export { format: "json".to_string() },
        }
    } else if str_eq(word.as_str(), "quit") || str_eq(word.as_str(), "exit") {
        Command::Quit
    } else if str_eq(word.as_str(), "help") {
        Command::Help
    } else {
        Command::Unknown { word }
    }
}

/// What the line `input` asks for, as it was typed.
pub fn parse_command(input: &str) -> (command: Command)
    ensures
        command@ == command_of(input@),
{
    let line = trim(input);
    parse_trimmed(line.as_str())
}

/// The numbers that the next thought of an interactive session gets.
#[derive(Debug, Clone, Copy, PartialEq, Eq, Structural)]
pub struct Counters {
    /// The number of the next thought.
    pub thought_number: u32,
    /// The total that the next thought declares.
    pub total_thoughts: u32,
}

impl Counters {
    /// The numbers at the start of a session: the first thought of five.
    pub open spec fn initial() -> Counters {
        Counters { thought_number: 1, total_thoughts: 5 }
    }

    /// The numbers after the thought `stored` was taken in: the number of
    /// the next thought is one more, and the total is that of the stored
    /// thought where that is greater.
    pub open spec fn after(self, stored_total: u32) -> Counters {
        Counters {
            thought_number: (self.thought_number + 1) as u32,
            total_thoughts: if stored_total > self.total_thoughts {
                stored_total
            } else {
                self.total_thoughts
            },
        }
    }

    /// The numbers at the start of a session.
    pub fn start() -> (c: Counters)
        ensures
            c == Counters::initial(),
    {
        Counters { thought_number: 1, total_thoughts: 5 }
    }

    /// The thought with the text `content` that is next in the session: a
    /// plain thought with the numbers at hand, stamped with the current
    /// time.
    pub fn next_thought(&self, content: String) -> (thought: ThoughtData)
        ensures
            thought@ == (ThoughtDataView {
                thought: content@,
                thought_number: self.thought_number,
                total_thoughts: self.total_thoughts,
                next_thought_needed: true,
                is_revision: None,
                revises_thought: None,
                branch_from_thought: None,
                branch_id: None,
                needs_more_thoughts: None,
                timestamp: thought@.timestamp,
                metadata: None,
            }),
            thought@.timestamp is Some,
    {
        ThoughtData::new(content, self.thought_number, self.total_thoughts)
    }

    /// Takes note that the thought `stored` was taken in.
    pub fn advance(&mut self, stored: &ThoughtData)
        requires
            old(self).thought_number < u32::MAX,
        ensures
            *final(self) == old(self).after(stored@.total_thoughts),
    {
        self.thought_number = self.thought_number + 1;
        if stored.total_thoughts > self.total_thoughts {
            self.total_thoughts = stored.total_thoughts;
        }
    }
}

} // verus!
