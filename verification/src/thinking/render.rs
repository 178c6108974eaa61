//! The framed rendering of a thought for diagnosis.

use crate::text::decimal;
use crate::text::decimal_text;
use crate::text::repeat;
use crate::text::repeated;
use crate::thinking::ThoughtData;
use crate::thinking::ThoughtDataView;
use vstd::prelude::*;
use vstd::string::StringExecFns;
use vstd::utf8::encode_utf8;

verus! {

/// The length of a text in bytes of UTF-8, held at the largest value that a
/// length can take.
pub open spec fn capped_byte_length(text: Seq<char>) -> usize {
    if encode_utf8(text).len() > usize::MAX {
        usize::MAX
    } else {
        encode_utf8(text).len() as usize
    }
}

/// The sum of two lengths, held at the largest value that a length can take.
pub open spec fn capped_length_sum(a: usize, b: usize) -> usize {
    if a + b > usize::MAX {
        usize::MAX
    } else {
        (a + b) as usize
    }
}

impl ThoughtDataView {
    /// The word that says what kind of thought this is: a revision, else a
    /// branch, else a plain thought.
    pub open spec fn kind_label(self) -> Seq<char> {
        if self.is_revision() {
            "🔄 Revision"@
        } else if self.is_branch() {
            "🌿 Branch"@
        } else {
            "💭 Thought"@
        }
    }

    /// What a revision revises, or where a branch leaves and what it is
    /// called, in brackets; nothing for a plain thought. A number or a name
    /// that is missing is written as `0` or `unknown`.
    pub open spec fn context_note(self) -> Seq<char> {
        if self.is_revision() {
            " (revising thought "@ + decimal_text(
                match self.revises_thought {
                    Some(n) => n as nat,
                    None => 0,
                },
            ) + ")"@
        } else if self.is_branch() {
            " (from thought "@ + decimal_text(
                match self.branch_from_thought {
                    Some(n) => n as nat,
                    None => 0,
                },
            ) + ", ID: "@ + (match self.branch_id {
                Some(id) => id,
                None => "unknown"@,
            }) + ")"@
        } else {
            Seq::empty()
        }
    }

    /// The head line: the kind, then the number of the thought and its
    /// declared total.
    pub open spec fn header(self) -> Seq<char> {
        self.kind_label() + " "@ + decimal_text(self.thought_number as nat) + "/"@ + decimal_text(
            self.total_thoughts as nat,
        )
    }

    /// The width of the frame's bars: four more than the longer of the head
    /// line with its note and the text, each measured in bytes.
    pub open spec fn border_length(self) -> usize {
        let head = capped_length_sum(
            capped_byte_length(self.header()),
            capped_byte_length(self.context_note()),
        );
        let body = capped_byte_length(self.thought);
        capped_length_sum(
            if head >= body {
                head
            } else {
                body
            },
            4,
        )
    }

    /// The frame: a bar, the head line with its note, a bar, the text, and a
    /// bar, each line between corners or edges.
    pub open spec fn framed(self) -> Seq<char> {
        let bar = repeated("─"@, self.border_length() as nat);
        "\n┌"@ + bar + "┐\n│ "@ + self.header() + self.context_note() + " │\n├"@ + bar
            + "┤\n│ "@ + self.thought + " │\n└"@ + bar + "┘"@
    }
}

/// The length of a text in bytes.
fn byte_len(text: &str) -> (n: usize)
    ensures
        n == capped_byte_length(text@),
{
    text.as_bytes().len()
}

/// The note in brackets behind the head line of a thought.
fn context_note(thought: &ThoughtData) -> (note: String)
    ensures
        note@ == thought@.context_note(),
{
    if thought.is_revision() {
        let n: u32 = match thought.revises_thought {
            Some(n) => n,
            None => 0,
        };
        let mut note = " (revising thought ".to_string();
        note.append(decimal(n as u64).as_str());
        note.append(")");
        note
    } else if thought.is_branch() {
        let n: u32 = match thought.branch_from_thought {
            Some(n) => n,
            None => 0,
        };
        let mut note = " (from thought ".to_string();
        note.append(decimal(n as u64).as_str());
        note.append(", ID: ");
        match &thought.branch_id {
            Some(id) => {
                note.append(id.as_str());
            },
            None => {
                note.append("unknown");
            },
        }
        note.append(")");
        note
    } else {
        String::new()
    }
}

/// The head line of a thought.
fn header(thought: &ThoughtData) -> (head: String)
    ensures
        head@ == thought@.header(),
{
    let label = if thought.is_revision() {
        "🔄 Revision"
    } else if thought.is_branch() {
        "🌿 Branch"
    } else {
        "💭 Thought"
    };
    let mut head = label.to_string();
    head.append(" ");
    head.append(decimal(thought.thought_number as u64).as_str());
    head.append("/");
    head.append(decimal(thought.total_thoughts as u64).as_str());
    head
}

/// The rendering of a thought for diagnosis: a frame that holds a head line,
/// which says what kind of thought it is and gives its number and total, and
/// the text.
pub fn render_thought(thought: &ThoughtData) -> (text: String)
    ensures
        text@ == thought@.framed(),
{
    let head = header(thought);
    let note = context_note(thought);
    let head_length = byte_len(head.as_str()).saturating_add(byte_len(note.as_str()));
    let body_length = byte_len(thought.thought.as_str());
    let longer = if head_length >= body_length {
        head_length
    } else {
        body_length
    };
    let bar = repeat("─", longer.saturating_add(4));
    let mut text = "\n┌".to_string();
    text.append(bar.as_str());
    text.append("┐\n│ ");
    text.append(head.as_str());
    text.append(note.as_str());
    text.append(" │\n├");
    text.append(bar.as_str());
    text.append("┤\n│ ");
    text.append(thought.thought.as_str());
    text.append(" │\n└");
    text.append(bar.as_str());
    text.append("┘");
    text
}

} // verus!
