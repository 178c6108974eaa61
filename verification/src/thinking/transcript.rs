//! The Markdown transcript that a server gives of its session, made from
//! the fields of the session's JSON form.

use crate::text::decimal;
use crate::text::decimal_text;
use vstd::prelude::*;
use vstd::string::StringExecFns;

verus! {

/// What the transcript reads of one thought: each field as far as the JSON
/// form holds it with the type that is read.
#[derive(Debug)]
pub struct ThoughtFields {
    /// The number of the thought, if it is there as a number that is not
    /// negative.
    pub thought_number: Option<u64>,
    /// The declared total, if it is there as such a number.
    pub total_thoughts: Option<u64>,
    /// The text, if it is there as a text.
    pub thought: Option<String>,
    /// The revision flag, if it is there as a truth value.
    pub is_revision: Option<bool>,
    /// Whether the branching point is there as a number.
    pub branches_off: bool,
}

/// What [`ThoughtFields`] holds, as mathematical values.
pub struct ThoughtFieldsView {
    pub thought_number: Option<u64>,
    pub total_thoughts: Option<u64>,
    pub thought: Option<Seq<char>>,
    pub is_revision: Option<bool>,
    pub branches_off: bool,
}

impl View for ThoughtFields {
    type V = ThoughtFieldsView;

    open spec fn view(&self) -> ThoughtFieldsView {
        ThoughtFieldsView {
            thought_number: self.thought_number,
            total_thoughts: self.total_thoughts,
            thought: match self.thought {
                Some(t) => Some(t@),
                None => None,
            },
            is_revision: self.is_revision,
            branches_off: self.branches_off,
        }
    }
}

/// A number that may be missing, with zero in its place.
pub open spec fn or_zero(n: Option<u64>) -> nat {
    match n {
        Some(n) => n as nat,
        None => 0,
    }
}

impl ThoughtFieldsView {
    /// The part of the thought in the transcript: a heading with its number
    /// and its total, its text, and a note where it is a revision and
    /// where it branches off. A number that is missing is written as `0`,
    /// and a text that is missing is left empty.
    pub open spec fn part(self) -> Seq<char> {
        "### Thought "@ + decimal_text(or_zero(self.thought_number)) + "/"@ + decimal_text(
            or_zero(self.total_thoughts),
        ) + "\n\n"@ + (match self.thought {
            Some(t) => t,
            None => Seq::empty(),
        }) + "\n\n"@ + (if self.is_revision == Some(true) {
            "*This thought revises a previous thought*\n\n"@
        } else {
            Seq::empty()
        }) + (if self.branches_off {
            "*This thought is a branch*\n\n"@
        } else {
            Seq::empty()
        })
    }
}

/// The views of a list of thoughts' fields.
pub open spec fn field_views(thoughts: Seq<ThoughtFields>) -> Seq<ThoughtFieldsView> {
    Seq::new(thoughts.len(), |i: int| thoughts[i]@)
}

/// The parts of a list of thoughts in the transcript, in the order of the
/// list.
pub open spec fn parts(thoughts: Seq<ThoughtFieldsView>) -> Seq<char>
    decreases thoughts.len(),
{
    if thoughts.len() == 0 {
        Seq::empty()
    } else {
        parts(thoughts.drop_last()) + thoughts.last().part()
    }
}

/// What the transcript reads of the counters: the JSON text of each.
#[derive(Debug)]
pub struct StatsFields {
    /// The number of thoughts.
    pub total_thoughts: String,
    /// The number of revisions.
    pub total_revisions: String,
    /// The number of branching thoughts.
    pub total_branches: String,
    /// The average processing time.
    pub avg_processing_time_ms: String,
}

impl StatsFields {
    /// The lines of the counters in the transcript.
    pub open spec fn lines(self) -> Seq<char> {
        "- Total Thoughts: "@ + self.total_thoughts@ + "\n- Total Revisions: "@
            + self.total_revisions@ + "\n- Total Branches: "@ + self.total_branches@
            + "\n- Average Processing Time: "@ + self.avg_processing_time_ms@ + "ms\n"@
    }
}

/// What the transcript reads of a session.
#[derive(Debug)]
pub struct SessionFields {
    /// The name of the session, if it is there as a text.
    pub session_id: Option<String>,
    /// The thoughts, if they are there as a list.
    pub thoughts: Option<Vec<ThoughtFields>>,
    /// The counters, if they are there.
    pub stats: Option<StatsFields>,
}

/// The transcript of a session: a title; the name of the session, if it
/// has one; the thoughts, if there is a list of them; and the counters, if
/// they are there.
pub open spec fn transcript(session: SessionFields) -> Seq<char> {
    "# Sequential Thinking Session\n\n"@ + (match session.session_id {
        Some(id) => "**Session ID:** "@ + id@ + "\n\n"@,
        None => Seq::empty(),
    }) + "## Thoughts\n\n"@ + (match session.thoughts {
        Some(thoughts) => parts(field_views(thoughts@)),
        None => Seq::empty(),
    }) + "## Statistics\n\n"@ + (match session.stats {
        Some(stats) => stats.lines(),
        None => Seq::empty(),
    })
}

/// The empty text.
fn nothing() -> (text: String)
    ensures
        text@ == Seq::<char>::empty(),
{
    proof {
        reveal_strlit("");
    }
    let text = "".to_string();
    assert(text@ =~= Seq::<char>::empty());
    text
}

/// A number that may be missing, with zero in its place.
fn number_or_zero(n: Option<u64>) -> (m: u64)
    ensures
        m == or_zero(n),
{
    match n {
        Some(n) => n,
        None => 0,
    }
}

/// The part of a thought in the transcript.
pub fn thought_part(thought: &ThoughtFields) -> (text: String)
    ensures
        text@ == thought@.part(),
{
    let mut text = "### Thought ".to_string();
    text.append(decimal(number_or_zero(thought.thought_number)).as_str());
    text.append("/");
    text.append(decimal(number_or_zero(thought.total_thoughts)).as_str());
    text.append("\n\n");
    let content = match &thought.thought {
        Some(t) => t.clone(),
        None => nothing(),
    };
    text.append(content.as_str());
    text.append("\n\n");
    let revision = match thought.is_revision {
        Some(true) => "*This thought revises a previous thought*\n\n".to_string(),
        _ => nothing(),
    };
    text.append(revision.as_str());
    let branch = if thought.branches_off {
        "*This thought is a branch*\n\n".to_string()
    } else {
        nothing()
    };
    text.append(branch.as_str());
    text
}

/// The lines of the counters in the transcript.
pub fn stats_lines(stats: &StatsFields) -> (text: String)
    ensures
        text@ == stats.lines(),
{
    let mut text = "- Total Thoughts: ".to_string();
    text.append(stats.total_thoughts.as_str());
    text.append("\n- Total Revisions: ");
    text.append(stats.total_revisions.as_str());
    text.append("\n- Total Branches: ");
    text.append(stats.total_branches.as_str());
    text.append("\n- Average Processing Time: ");
    text.append(stats.avg_processing_time_ms.as_str());
    text.append("ms\n");
    text
}

/// The transcript of a session.
pub fn session_transcript(session: &SessionFields) -> (text: String)
    ensures
        text@ == transcript(*session),
{
    let name = match &session.session_id {
        Some(id) => {
            let mut line = "**Session ID:** ".to_string();
            line.append(id.as_str());
            line.append("\n\n");
            line
        },
        None => nothing(),
    };
    let thoughts = match &session.thoughts {
        Some(list) => {
            let ghost fields = field_views(list@);
            let mut all = nothing();
            let mut i: usize = 0;
            assert(fields.subrange(0, 0) =~= Seq::<ThoughtFieldsView>::empty());
            while i < list.len()
                invariant
                    i <= list@.len(),
                    fields == field_views(list@),
                    all@ == parts(fields.subrange(0, i as int)),
                decreases list@.len() - i,
            {
                proof {
                    assert(fields.subrange(0, i + 1).drop_last() =~= fields.subrange(0, i as int));
                    assert(fields.subrange(0, i + 1).last() == list@[i as int]@);
                }
                all.append(thought_part(&list[i]).as_str());
                i += 1;
            }
            assert(fields.subrange(0, list@.len() as int) =~= fields);
            all
        },
        None => nothing(),
    };
    let counters = match &session.stats {
        Some(stats) => stats_lines(stats),
        None => nothing(),
    };
    let mut text = "# Sequential Thinking Session\n\n".to_string();
    text.append(name.as_str());
    text.append("## Thoughts\n\n");
    text.append(thoughts.as_str());
    text.append("## Statistics\n\n");
    text.append(counters.as_str());
    text
}

} // verus!
