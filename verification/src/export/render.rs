//! The texts of exports: the rows of the CSV export, the thoughts and the
//! branches of the Markdown export, and the names of export files.

use crate::export::ExportEngine;
use crate::export::ExportFormat;
use crate::text::decimal;
use crate::text::decimal_text;
use crate::text::replace;
use crate::text::replaced;
use crate::thinking::thought_views;
use crate::thinking::ThoughtData;
use crate::thinking::ThoughtDataView;
use crate::time::date_pattern;
use crate::time::date_time_pattern;
use crate::time::stamp_pattern;
use crate::time::time_pattern;
use crate::time::Timestamp;
use vstd::prelude::*;
use vstd::string::StringExecFns;

verus! {

/// The first line of the CSV export: the names of the columns.
pub open spec fn csv_header() -> Seq<char> {
    "Thought Number,Total Thoughts,Content,Is Revision,Revises Thought,Is Branch,Branch ID,Timestamp\n"@
}

/// The word for a truth value.
pub open spec fn truth_text(b: bool) -> Seq<char> {
    if b {
        "true"@
    } else {
        "false"@
    }
}

impl ThoughtDataView {
    /// The row of the thought in the CSV export: its number, its total, its
    /// text with each quotation mark doubled, whether it is a revision, what
    /// it revises, whether it branches off, the name of its branch, and its
    /// time; each in quotation marks, with commas between, and what is
    /// missing left empty.
    pub open spec fn csv_row(self) -> Seq<char> {
        "\""@ + decimal_text(self.thought_number as nat) + "\",\""@ + decimal_text(
            self.total_thoughts as nat,
        ) + "\",\""@ + replaced(self.thought, "\""@, "\"\""@) + "\",\""@ + truth_text(
            self.is_revision(),
        ) + "\",\""@ + (match self.revises_thought {
            Some(n) => decimal_text(n as nat),
            None => Seq::empty(),
        }) + "\",\""@ + truth_text(self.is_branch()) + "\",\""@ + (match self.branch_id {
            Some(id) => id,
            None => Seq::empty(),
        }) + "\",\""@ + (match self.timestamp {
            Some(t) => t.text(date_time_pattern()),
            None => Seq::empty(),
        }) + "\"\n"@
    }

    /// The part of the thought in the Markdown export: a heading with the
    /// kind, the number and the total; the time, if the thought has one; the
    /// text; and a note on what a revision revises and on the branch of a
    /// branching thought.
    pub open spec fn markdown_part(self) -> Seq<char> {
        "### "@ + self.kind_label() + " "@ + decimal_text(self.thought_number as nat) + "/"@
            + decimal_text(self.total_thoughts as nat) + "\n\n"@ + (match self.timestamp {
            Some(t) => "*"@ + t.text(date_time_pattern()) + "*\n\n"@,
            None => Seq::empty(),
        }) + self.thought + "\n\n"@ + (if self.is_revision() && self.revises_thought is Some {
            "*Revises thought "@ + decimal_text(self.revises_thought->0 as nat) + "*\n\n"@
        } else {
            Seq::empty()
        }) + (if self.is_branch() && self.branch_id is Some {
            "*Branch ID: "@ + self.branch_id->0 + "*\n\n"@
        } else {
            Seq::empty()
        })
    }
}

/// The rows of a log in the CSV export, in the order of the log.
pub open spec fn csv_rows(log: Seq<ThoughtDataView>) -> Seq<char>
    decreases log.len(),
{
    if log.len() == 0 {
        Seq::empty()
    } else {
        csv_rows(log.drop_last()) + log.last().csv_row()
    }
}

/// The parts of a log in the Markdown export, in the order of the log.
pub open spec fn markdown_parts(log: Seq<ThoughtDataView>) -> Seq<char>
    decreases log.len(),
{
    if log.len() == 0 {
        Seq::empty()
    } else {
        markdown_parts(log.drop_last()) + log.last().markdown_part()
    }
}

/// The row of a thought in the CSV export.
pub fn csv_row(thought: &ThoughtData) -> (row: String)
    ensures
        row@ == thought@.csv_row(),
{
    proof {
        reveal_strlit("");
        assert(""@ =~= Seq::<char>::empty());
    }
    let mut row = "\"".to_string();
    row.append(decimal(thought.thought_number as u64).as_str());
    row.append("\",\"");
    row.append(decimal(thought.total_thoughts as u64).as_str());
    row.append("\",\"");
    row.append(replace(thought.thought.as_str(), "\"", "\"\"").as_str());
    row.append("\",\"");
    row.append(
        if thought.is_revision() {
            "true"
        } else {
            "false"
        },
    );
    row.append("\",\"");
    match thought.revises_thought {
        Some(n) => {
            row.append(decimal(n as u64).as_str());
        },
        None => {
            row.append("");
        },
    }
    row.append("\",\"");
    row.append(
        if thought.is_branch() {
            "true"
        } else {
            "false"
        },
    );
    row.append("\",\"");
    match &thought.branch_id {
        Some(id) => {
            row.append(id.as_str());
        },
        None => {
            row.append("");
        },
    }
    row.append("\",\"");
    match thought.timestamp {
        Some(t) => {
            row.append(t.date_time_text().as_str());
        },
        None => {
            row.append("");
        },
    }
    row.append("\"\n");
    row
}

/// The CSV export of a log: the names of the columns, then one row for each
/// thought.
pub fn export_to_csv(thoughts: &[ThoughtData]) -> (csv: String)
    ensures
        csv@ == csv_header() + csv_rows(thought_views(thoughts@)),
{
    let ghost log = thought_views(thoughts@);
    let mut rows = String::new();
    let mut i: usize = 0;
    assert(log.subrange(0, 0) =~= Seq::<ThoughtDataView>::empty());
    while i < thoughts.len()
        invariant
            i <= thoughts@.len(),
            log == thought_views(thoughts@),
            rows@ == csv_rows(log.subrange(0, i as int)),
        decreases thoughts@.len() - i,
    {
        proof {
            assert(log.subrange(0, i + 1).drop_last() =~= log.subrange(0, i as int));
            assert(log.subrange(0, i + 1).last() == thoughts@[i as int]@);
        }
        rows.append(csv_row(&thoughts[i]).as_str());
        i += 1;
    }
    assert(log.subrange(0, thoughts@.len() as int) =~= log);
    let mut csv =
    "Thought Number,Total Thoughts,Content,Is Revision,Revises Thought,Is Branch,Branch ID,Timestamp\n".to_string();
    csv.append(rows.as_str());
    csv
}

/// The part of a thought in the Markdown export.
pub fn markdown_part(thought: &ThoughtData) -> (part: String)
    ensures
        part@ == thought@.markdown_part(),
{
    proof {
        reveal_strlit("");
        assert(""@ =~= Seq::<char>::empty());
    }
    let label = if thought.is_revision() {
        "🔄 Revision"
    } else if thought.is_branch() {
        "🌿 Branch"
    } else {
        "💭 Thought"
    };
    let mut part = "### ".to_string();
    part.append(label);
    part.append(" ");
    part.append(decimal(thought.thought_number as u64).as_str());
    part.append("/");
    part.append(decimal(thought.total_thoughts as u64).as_str());
    part.append("\n\n");
    let time = match thought.timestamp {
        Some(t) => {
            let mut line = "*".to_string();
            line.append(t.date_time_text().as_str());
            line.append("*\n\n");
            line
        },
        None => String::new(),
    };
    part.append(time.as_str());
    part.append(thought.thought.as_str());
    part.append("\n\n");
    let revision = match thought.revises_thought {
        Some(n) => {
            if thought.is_revision() {
                let mut line = "*Revises thought ".to_string();
                line.append(decimal(n as u64).as_str());
                line.append("*\n\n");
                line
            } else {
                String::new()
            }
        },
        None => String::new(),
    };
    part.append(revision.as_str());
    let branch = match &thought.branch_id {
        Some(id) => {
            if thought.is_branch() {
                let mut line = "*Branch ID: ".to_string();
                line.append(id.as_str());
                line.append("*\n\n");
                line
            } else {
                String::new()
            }
        },
        None => String::new(),
    };
    part.append(branch.as_str());
    part
}

/// The thoughts of a log as they stand in the Markdown export: a heading,
/// then one part for each thought.
pub fn markdown_thoughts(thoughts: &[ThoughtData]) -> (text: String)
    ensures
        text@ == "## Thoughts\n\n"@ + markdown_parts(thought_views(thoughts@)),
{
    let ghost log = thought_views(thoughts@);
    let mut parts = String::new();
    let mut i: usize = 0;
    assert(log.subrange(0, 0) =~= Seq::<ThoughtDataView>::empty());
    while i < thoughts.len()
        invariant
            i <= thoughts@.len(),
            log == thought_views(thoughts@),
            parts@ == markdown_parts(log.subrange(0, i as int)),
        decreases thoughts@.len() - i,
    {
        proof {
            assert(log.subrange(0, i + 1).drop_last() =~= log.subrange(0, i as int));
            assert(log.subrange(0, i + 1).last() == thoughts@[i as int]@);
        }
        parts.append(markdown_part(&thoughts[i]).as_str());
        i += 1;
    }
    assert(log.subrange(0, thoughts@.len() as int) =~= log);
    let mut text = "## Thoughts\n\n".to_string();
    text.append(parts.as_str());
    text
}

/// The name of the file of an export of the session `session_id` in the
/// format `format` at the instant `now`, under the pattern `template`: the
/// places for the name of the session, for date and time, for the date and
/// for the time are filled in that order, and the extension of the format
/// follows a dot.
pub open spec fn file_name(
    template: Seq<char>,
    session_id: Seq<char>,
    format: ExportFormat,
    now: Timestamp,
) -> Seq<char> {
    replaced(
        replaced(
            replaced(
                replaced(template, "{session_id}"@, session_id),
                "{timestamp}"@,
                now.text(stamp_pattern()),
            ),
            "{date}"@,
            now.text(date_pattern()),
        ),
        "{time}"@,
        now.text(time_pattern()),
    ) + "."@ + format.spec_extension()
}

impl ExportEngine {
    /// The name of the file of an export of the session `session_id` in the
    /// format `format` at the instant `now`, under the pattern of the
    /// engine's settings.
    pub fn generate_filename_at(&self, session_id: &str, format: &ExportFormat, now: Timestamp) -> (name:
        String)
        ensures
            name@ == file_name(self@.config.filename_template, session_id@, *format, now),
    {
        let template = self.config().filename_template.as_str();
        let with_id = replace(template, "{session_id}", session_id);
        let with_stamp = replace(with_id.as_str(), "{timestamp}", now.stamp_text().as_str());
        let with_date = replace(with_stamp.as_str(), "{date}", now.date_text().as_str());
        let mut name = replace(with_date.as_str(), "{time}", now.time_text().as_str());
        name.append(".");
        name.append(format.extension());
        name
    }

    /// The name of the file of an export of the session `session_id` in the
    /// format `format` that is made now.
    pub fn generate_filename(&self, session_id: &str, format: &ExportFormat) -> (name: String)
        ensures
            exists|now: Timestamp|
                name@ == #[trigger] file_name(
                    self@.config.filename_template,
                    session_id@,
                    *format,
                    now,
                ),
    {
        let now = Timestamp::now();
        let name = self.generate_filename_at(session_id, format, now);
        assert(name@ == file_name(self@.config.filename_template, session_id@, *format, now));
        name
    }
}

} // verus!
