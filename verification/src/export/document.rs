//! The documents of exports: the Markdown text and the HTML page of an
//! exported session.

use crate::export::branch_list_views;
use crate::export::render::markdown_part;
use crate::export::render::markdown_parts;
use crate::export::ExportData;
use crate::session::SessionMetadata;
use crate::session::SessionMetadataView;
use crate::session::SessionPriority;
use crate::session::SessionStatus;
use crate::string_map::StringMap;
use crate::text::decimal;
use crate::text::decimal_text;
use crate::thinking::thought_views;
use crate::thinking::ThinkingProgress;
use crate::thinking::ThinkingStats;
use crate::thinking::ThoughtData;
use crate::thinking::ThoughtDataView;
use crate::time::date_time_pattern;
use vstd::prelude::*;
use vstd::string::StringExecFns;

verus! {

/// The name of a status.
pub open spec fn status_name(status: SessionStatus) -> Seq<char> {
    match status {
        SessionStatus::Active => "Active"@,
        SessionStatus::Paused => "Paused"@,
        SessionStatus::Completed => "Completed"@,
        SessionStatus::Cancelled => "Cancelled"@,
        SessionStatus::Expired => "Expired"@,
    }
}

/// The name of a status.
pub fn status_text(status: SessionStatus) -> (name: &'static str)
    ensures
        name@ == status_name(status),
{
    match status {
        SessionStatus::Active => "Active",
        SessionStatus::Paused => "Paused",
        SessionStatus::Completed => "Completed",
        SessionStatus::Cancelled => "Cancelled",
        SessionStatus::Expired => "Expired",
    }
}

/// The name of a priority.
pub open spec fn priority_name(priority: SessionPriority) -> Seq<char> {
    match priority {
        SessionPriority::Low => "Low"@,
        SessionPriority::Normal => "Normal"@,
        SessionPriority::High => "High"@,
        SessionPriority::Critical => "Critical"@,
    }
}

/// The name of a priority.
pub fn priority_text(priority: SessionPriority) -> (name: &'static str)
    ensures
        name@ == priority_name(priority),
{
    match priority {
        SessionPriority::Low => "Low",
        SessionPriority::Normal => "Normal",
        SessionPriority::High => "High",
        SessionPriority::Critical => "Critical",
    }
}

/// A line for a value that may be missing: the value between `head` and
/// `tail`, or nothing.
pub open spec fn optional_line(head: Seq<char>, value: Option<Seq<char>>, tail: Seq<char>) -> Seq<
    char,
> {
    match value {
        Some(v) => head + v + tail,
        None => Seq::empty(),
    }
}

/// A line for a value that may be missing.
fn optional_line_text(head: &str, value: &Option<String>, tail: &str) -> (line: String)
    ensures
        line@ == optional_line(
            head@,
            match value {
                Some(v) => Some(v@),
                None => None,
            },
            tail@,
        ),
{
    match value {
        Some(v) => {
            let mut line = head.to_string();
            line.append(v.as_str());
            line.append(tail);
            line
        },
        None => empty_text(),
    }
}

/// The empty text.
fn empty_text() -> (text: String)
    ensures
        text@ == Seq::<char>::empty(),
{
    proof {
        reveal_strlit("");
    }
    let text = "".to_string();
    assert(text@ =~= Seq::<char>::empty());
    text
}

impl SessionMetadataView {
    /// What the Markdown text says of the session: its title, its
    /// description if it has one, its status, its priority, and when it was
    /// made and changed.
    pub open spec fn markdown_lines(self) -> Seq<char> {
        "**Title:** "@
        + self.title
        + "\n"@
        + optional_line("**Description:** "@, self.description, "\n"@)
        + "**Status:** "@
        + status_name(self.status)
        + "\n**Priority:** "@
        + priority_name(self.priority)
        + "\n**Created:** "@
        + self.created_at.text(date_time_pattern())
        + "\n**Modified:** "@
        + self.last_modified.text(date_time_pattern())
        + "\n\n"@
    }

    /// What the HTML page says of the session: its title, its description
    /// if it has one, its status and its priority.
    pub open spec fn html_lines(self) -> Seq<char> {
        "<p><strong>Title:</strong> "@
        + self.title
        + "</p>\n"@
        + optional_line("<p><strong>Description:</strong> "@, self.description, "</p>\n"@)
        + "<p><strong>Status:</strong> "@
        + status_name(self.status)
        + "</p>\n<p><strong>Priority:</strong> "@
        + priority_name(self.priority)
        + "</p>\n"@
    }
}

/// What the Markdown text says of the session with the metadata `metadata`.
pub fn metadata_markdown(metadata: &SessionMetadata) -> (text: String)
    ensures
        text@ == metadata@.markdown_lines(),
{
    let description = optional_line_text("**Description:** ", &metadata.description, "\n");
    let mut text = "**Title:** ".to_string();
    text.append(metadata.title.as_str());
    text.append("\n");
    text.append(description.as_str());
    text.append("**Status:** ");
    text.append(status_text(metadata.status));
    text.append("\n**Priority:** ");
    text.append(priority_text(metadata.priority));
    text.append("\n**Created:** ");
    text.append(metadata.created_at.date_time_text().as_str());
    text.append("\n**Modified:** ");
    text.append(metadata.last_modified.date_time_text().as_str());
    text.append("\n\n");
    text
}

/// What the HTML page says of the session with the metadata `metadata`.
pub fn metadata_html(metadata: &SessionMetadata) -> (text: String)
    ensures
        text@ == metadata@.html_lines(),
{
    let description = optional_line_text(
        "<p><strong>Description:</strong> ",
        &metadata.description,
        "</p>\n",
    );
    let mut text = "<p><strong>Title:</strong> ".to_string();
    text.append(metadata.title.as_str());
    text.append("</p>\n");
    text.append(description.as_str());
    text.append("<p><strong>Status:</strong> ");
    text.append(status_text(metadata.status));
    text.append("</p>\n<p><strong>Priority:</strong> ");
    text.append(priority_text(metadata.priority));
    text.append("</p>\n");
    text
}

/// The counters in the Markdown text. The average time is written as
/// `average_time` says.
pub open spec fn statistics_section(stats: ThinkingStats, average_time: Seq<char>) -> Seq<char> {
    "## Statistics\n\n- **Total Thoughts:** "@
    + decimal_text(stats.total_thoughts as nat)
    + "\n- **Total Revisions:** "@
    + decimal_text(stats.total_revisions as nat)
    + "\n- **Total Branches:** "@
    + decimal_text(stats.total_branches as nat)
    + "\n- **Average Processing Time:** "@
    + average_time
    + "ms\n- **Total Processing Time:** "@
    + decimal_text(stats.total_processing_time_ms as nat)
    + "ms\n\n"@
}

/// The counters in the Markdown text.
pub fn statistics_markdown(stats: &ThinkingStats, average_time: &str) -> (text: String)
    ensures
        text@ == statistics_section(*stats, average_time@),
{
    let mut text = "## Statistics\n\n- **Total Thoughts:** ".to_string();
    text.append(decimal(stats.total_thoughts).as_str());
    text.append("\n- **Total Revisions:** ");
    text.append(decimal(stats.total_revisions).as_str());
    text.append("\n- **Total Branches:** ");
    text.append(decimal(stats.total_branches).as_str());
    text.append("\n- **Average Processing Time:** ");
    text.append(average_time);
    text.append("ms\n- **Total Processing Time:** ");
    text.append(decimal(stats.total_processing_time_ms).as_str());
    text.append("ms\n\n");
    text
}

/// The progress in the Markdown text. The part that is done is written as
/// `percent` says.
pub open spec fn progress_section(progress: ThinkingProgress, percent: Seq<char>) -> Seq<char> {
    "## Progress\n\n- **Current Thought:** "@
    + decimal_text(progress.current_thought as nat)
    + "/"@
    + decimal_text(progress.total_thoughts as nat)
    + "\n- **Completed Thoughts:** "@
    + decimal_text(progress.completed_thoughts as nat)
    + "\n- **Progress:** "@
    + percent
    + "%\n- **Status:** "@
    + (if progress.complete() {
        "Complete"@
    } else {
        "In Progress"@
    })
    + "\n\n"@
}

/// The progress in the Markdown text.
pub fn progress_markdown(progress: &ThinkingProgress, percent: &str) -> (text: String)
    ensures
        text@ == progress_section(*progress, percent@),
{
    let state = if progress.is_complete() {
        "Complete"
    } else {
        "In Progress"
    };
    let mut text = "## Progress\n\n- **Current Thought:** ".to_string();
    text.append(decimal(progress.current_thought as u64).as_str());
    text.append("/");
    text.append(decimal(progress.total_thoughts as u64).as_str());
    text.append("\n- **Completed Thoughts:** ");
    text.append(decimal(progress.completed_thoughts as u64).as_str());
    text.append("\n- **Progress:** ");
    text.append(percent);
    text.append("%\n- **Status:** ");
    text.append(state);
    text.append("\n\n");
    text
}

/// The thoughts of a branch in the Markdown text: one item for each.
pub open spec fn branch_items(log: Seq<ThoughtDataView>) -> Seq<char>
    decreases log.len(),
{
    if log.len() == 0 {
        Seq::empty()
    } else {
        branch_items(log.drop_last()) + ("- "@ + log.last().thought + "\n"@)
    }
}

/// A branch in the Markdown text: a heading with its name, then its
/// thoughts.
pub open spec fn branch_part(name: Seq<char>, log: Seq<ThoughtDataView>) -> Seq<char> {
    "### Branch: "@ + name + "\n\n"@ + branch_items(log) + "\n"@
}

/// The branches in the Markdown text, in the order of the table.
pub open spec fn branch_parts(branches: Seq<(Seq<char>, Seq<ThoughtDataView>)>) -> Seq<char>
    decreases branches.len(),
{
    if branches.len() == 0 {
        Seq::empty()
    } else {
        branch_parts(branches.drop_last()) + branch_part(branches.last().0, branches.last().1)
    }
}

/// The branches in the Markdown text: nothing where there is no branch,
/// else a heading and the branches.
pub open spec fn branches_section(branches: Seq<(Seq<char>, Seq<ThoughtDataView>)>) -> Seq<char> {
    if branches.len() == 0 {
        Seq::empty()
    } else {
        "## Branches\n\n"@ + branch_parts(branches)
    }
}

/// The thoughts of a branch in the Markdown text.
pub fn branch_items_markdown(thoughts: &[ThoughtData]) -> (text: String)
    ensures
        text@ == branch_items(thought_views(thoughts@)),
{
    let ghost log = thought_views(thoughts@);
    let mut text = empty_text();
    let mut i: usize = 0;
    assert(log.subrange(0, 0) =~= Seq::<ThoughtDataView>::empty());
    while i < thoughts.len()
        invariant
            i <= thoughts@.len(),
            log == thought_views(thoughts@),
            text@ == branch_items(log.subrange(0, i as int)),
        decreases thoughts@.len() - i,
    {
        proof {
            assert(log.subrange(0, i + 1).drop_last() =~= log.subrange(0, i as int));
            assert(log.subrange(0, i + 1).last() == thoughts@[i as int]@);
        }
        let mut item = "- ".to_string();
        item.append(thoughts[i].thought.as_str());
        item.append("\n");
        text.append(item.as_str());
        i += 1;
    }
    assert(log.subrange(0, thoughts@.len() as int) =~= log);
    text
}

/// The branches in the Markdown text.
pub fn branches_markdown(branches: &StringMap<Vec<ThoughtData>>) -> (text: String)
    ensures
        text@ == branches_section(branch_list_views(branches.entries())),
{
    let ghost table = branch_list_views(branches.entries());
    let mut parts = empty_text();
    let mut i: usize = 0;
    assert(table.subrange(0, 0) =~= Seq::<(Seq<char>, Seq<ThoughtDataView>)>::empty());
    while i < branches.len()
        invariant
            i <= branches.entries().len(),
            table == branch_list_views(branches.entries()),
            parts@ == branch_parts(table.subrange(0, i as int)),
        decreases branches.entries().len() - i,
    {
        proof {
            assert(table.subrange(0, i + 1).drop_last() =~= table.subrange(0, i as int));
            assert(table.subrange(0, i + 1).last() == table[i as int]);
        }
        let mut part = "### Branch: ".to_string();
        part.append(branches.key_at(i).as_str());
        part.append("\n\n");
        part.append(branch_items_markdown(branches.value_at(i).as_slice()).as_str());
        part.append("\n");
        parts.append(part.as_str());
        i += 1;
    }
    assert(table.subrange(0, branches.entries().len() as int) =~= table);
    if branches.len() == 0 {
        parts
    } else {
        let mut text = "## Branches\n\n".to_string();
        text.append(parts.as_str());
        text
    }
}

/// The analytics in the Markdown text: the JSON text `analytics` in a
/// fenced block.
pub open spec fn analytics_section(analytics: Seq<char>) -> Seq<char> {
    "## Analytics\n\n```json\n"@
    + analytics
    + "\n```\n\n"@
}

/// The numbers of an export that are written as decimal fractions, and the
/// analytics, as the texts that stand in the document.
#[derive(Debug)]
pub struct RenderedFigures {
    /// The average processing time in milliseconds.
    pub average_processing_time: String,
    /// The part of the thoughts that is done, in percent.
    pub progress_percent: String,
    /// The analytics as JSON text.
    pub analytics: String,
}

/// The Markdown text of an export: a title and the name of the session;
/// what is known of the session, the counters, and the progress, each where
/// the export holds it; the thoughts; the branches, if there are any; the
/// analytics, where the export holds them; and a last line that says when
/// the export was made.
pub open spec fn markdown_text(data: ExportData, figures: RenderedFigures) -> Seq<char> {
    "# Sequential Thinking Session\n\n**Session ID:** "@
    + data.session.session_id@
    + "\n\n"@
    + (match data.session.metadata {
        Some(m) => m@.markdown_lines(),
        None => Seq::empty(),
    })
    + (match data.session.statistics {
        Some(s) => statistics_section(s, figures.average_processing_time@),
        None => Seq::empty(),
    })
    + (match data.session.progress {
        Some(p) => progress_section(p, figures.progress_percent@),
        None => Seq::empty(),
    })
    + "## Thoughts\n\n"@
    + markdown_parts(thought_views(data.session.thoughts@))
    + branches_section(branch_list_views(data.session.branches.entries()))
    + (if data.session.analytics is Some {
        analytics_section(figures.analytics@)
    } else {
        Seq::empty()
    })
    + "---\n\n*Exported on "@
    + data.export_metadata.exported_at.text(date_time_pattern())
    + " using UltraFast MCP Sequential Thinking*\n"@
}

/// The thoughts of a log as they stand in the Markdown text, one part for
/// each.
fn thoughts_markdown(thoughts: &[ThoughtData]) -> (text: String)
    ensures
        text@ == markdown_parts(thought_views(thoughts@)),
{
    let ghost log = thought_views(thoughts@);
    let mut text = empty_text();
    let mut i: usize = 0;
    assert(log.subrange(0, 0) =~= Seq::<ThoughtDataView>::empty());
    while i < thoughts.len()
        invariant
            i <= thoughts@.len(),
            log == thought_views(thoughts@),
            text@ == markdown_parts(log.subrange(0, i as int)),
        decreases thoughts@.len() - i,
    {
        proof {
            assert(log.subrange(0, i + 1).drop_last() =~= log.subrange(0, i as int));
            assert(log.subrange(0, i + 1).last() == thoughts@[i as int]@);
        }
        text.append(markdown_part(&thoughts[i]).as_str());
        i += 1;
    }
    assert(log.subrange(0, thoughts@.len() as int) =~= log);
    text
}

/// The Markdown text of the export `data`, with the numbers that are
/// written as decimal fractions, and the analytics, as `figures` gives them.
pub fn export_to_markdown(data: &ExportData, figures: &RenderedFigures) -> (text: String)
    ensures
        text@ == markdown_text(*data, *figures),
{
    let metadata = match &data.session.metadata {
        Some(m) => metadata_markdown(m),
        None => empty_text(),
    };
    let statistics = match &data.session.statistics {
        Some(s) => statistics_markdown(s, figures.average_processing_time.as_str()),
        None => empty_text(),
    };
    let progress = match &data.session.progress {
        Some(p) => progress_markdown(p, figures.progress_percent.as_str()),
        None => empty_text(),
    };
    let thoughts = thoughts_markdown(data.session.thoughts.as_slice());
    let branches = branches_markdown(&data.session.branches);
    let analytics = if data.session.analytics.is_some() {
        let analytics = figures.analytics.as_str();
        let mut section = "## Analytics\n\n```json\n".to_string();
        section.append(analytics);
        section.append("\n```\n\n");
        section
    } else {
        empty_text()
    };
    let mut text = "# Sequential Thinking Session\n\n**Session ID:** ".to_string();
    text.append(data.session.session_id.as_str());
    text.append("\n\n");
    text.append(metadata.as_str());
    text.append(statistics.as_str());
    text.append(progress.as_str());
    text.append("## Thoughts\n\n");
    text.append(thoughts.as_str());
    text.append(branches.as_str());
    text.append(analytics.as_str());
    text.append("---\n\n*Exported on ");
    text.append(data.export_metadata.exported_at.date_time_text().as_str());
    text.append(" using UltraFast MCP Sequential Thinking*\n");
    text
}

impl ThoughtDataView {
    /// The class of the thought's block on the HTML page, by its kind.
    pub open spec fn html_class(self) -> Seq<char> {
        if self.is_revision() {
            "thought revision"@
        } else if self.is_branch() {
            "thought branch"@
        } else {
            "thought"@
        }
    }

    /// The block of the thought on the HTML page: a heading with its number
    /// and its total; the time, if the thought has one; the text; and a
    /// note on what a revision revises and on the branch of a branching
    /// thought.
    pub open spec fn html_part(self) -> Seq<char> {
        "<div class=\""@
        + self.html_class()
        + "\">\n<h3>Thought "@
        + decimal_text(self.thought_number as nat)
        + "/"@
        + decimal_text(self.total_thoughts as nat)
        + "</h3>\n"@
        + (match self.timestamp {
            Some(t) => "<p class=\"timestamp\">"@ + t.text(date_time_pattern()) + "</p>\n"@,
            None => Seq::empty(),
        })
        + "<p class=\"content\">"@
        + self.thought
        + "</p>\n"@
        + (if self.is_revision() && self.revises_thought is Some {
            "<p class=\"revision-note\">Revises thought "@ + decimal_text(
                self.revises_thought->0 as nat,
            ) + "</p>\n"@
        } else {
            Seq::empty()
        })
        + (if self.is_branch() && self.branch_id is Some {
            "<p class=\"branch-note\">Branch ID: "@ + self.branch_id->0 + "</p>\n"@
        } else {
            Seq::empty()
        })
        + "</div>\n"@
    }
}

/// The blocks of a log on the HTML page, in the order of the log.
pub open spec fn html_parts(log: Seq<ThoughtDataView>) -> Seq<char>
    decreases log.len(),
{
    if log.len() == 0 {
        Seq::empty()
    } else {
        html_parts(log.drop_last()) + log.last().html_part()
    }
}

/// The block of a thought on the HTML page.
pub fn html_part(thought: &ThoughtData) -> (text: String)
    ensures
        text@ == thought@.html_part(),
{
    let class = if thought.is_revision() {
        "thought revision"
    } else if thought.is_branch() {
        "thought branch"
    } else {
        "thought"
    };
    let time = match thought.timestamp {
        Some(t) => {
            let mut line = "<p class=\"timestamp\">".to_string();
            line.append(t.date_time_text().as_str());
            line.append("</p>\n");
            line
        },
        None => empty_text(),
    };
    let revision = match thought.revises_thought {
        Some(n) => {
            if thought.is_revision() {
                let mut line = "<p class=\"revision-note\">Revises thought ".to_string();
                line.append(decimal(n as u64).as_str());
                line.append("</p>\n");
                line
            } else {
                empty_text()
            }
        },
        None => empty_text(),
    };
    let branch = match &thought.branch_id {
        Some(id) => {
            if thought.is_branch() {
                let mut line = "<p class=\"branch-note\">Branch ID: ".to_string();
                line.append(id.as_str());
                line.append("</p>\n");
                line
            } else {
                empty_text()
            }
        },
        None => empty_text(),
    };
    let mut text = "<div class=\"".to_string();
    text.append(class);
    text.append("\">\n<h3>Thought ");
    text.append(decimal(thought.thought_number as u64).as_str());
    text.append("/");
    text.append(decimal(thought.total_thoughts as u64).as_str());
    text.append("</h3>\n");
    text.append(time.as_str());
    text.append("<p class=\"content\">");
    text.append(thought.thought.as_str());
    text.append("</p>\n");
    text.append(revision.as_str());
    text.append(branch.as_str());
    text.append("</div>\n");
    text
}

/// The HTML page of an export, with the style sheet `stylesheet`: the head
/// with the style sheet; the name of the session and what is known of it;
/// one block for each thought; and a last line that says when the export
/// was made.
pub open spec fn html_text(data: ExportData, stylesheet: Seq<char>) -> Seq<char> {
    "<!DOCTYPE html>\n<html lang=\"en\">\n<head>\n"@
    + "<meta charset=\"UTF-8\">\n"@
    + "<meta name=\"viewport\" content=\"width=device-width, initial-scale=1.0\">\n"@
    + "<title>Sequential Thinking Session</title>\n<style>\n"@
    + stylesheet
    + "</style>\n</head>\n<body>\n<div class=\"container\">\n"@
    + "<h1>Sequential Thinking Session</h1>\n"@
    + "<div class=\"session-info\">\n"@
    + "<p><strong>Session ID:</strong> "@
    + data.session.session_id@
    + "</p>\n"@
    + (match data.session.metadata {
        Some(m) => m@.html_lines(),
        None => Seq::empty(),
    })
    + "</div>\n<h2>Thoughts</h2>\n<div class=\"thoughts\">\n"@
    + html_parts(thought_views(data.session.thoughts@))
    + "</div>\n</div>\n<footer>\n<p>Exported on "@
    + data.export_metadata.exported_at.text(date_time_pattern())
    + " using UltraFast MCP Sequential Thinking</p>\n</footer>\n"@
    + "</body>\n</html>"@
}

/// The HTML page of the export `data`, with the style sheet `stylesheet`.
pub fn export_to_html(data: &ExportData, stylesheet: &str) -> (text: String)
    ensures
        text@ == html_text(*data, stylesheet@),
{
    let metadata = match &data.session.metadata {
        Some(m) => metadata_html(m),
        None => empty_text(),
    };
    let ghost log = thought_views(data.session.thoughts@);
    let mut thoughts = empty_text();
    let mut i: usize = 0;
    assert(log.subrange(0, 0) =~= Seq::<ThoughtDataView>::empty());
    while i < data.session.thoughts.len()
        invariant
            i <= data.session.thoughts@.len(),
            log == thought_views(data.session.thoughts@),
            thoughts@ == html_parts(log.subrange(0, i as int)),
        decreases data.session.thoughts@.len() - i,
    {
        proof {
            assert(log.subrange(0, i + 1).drop_last() =~= log.subrange(0, i as int));
            assert(log.subrange(0, i + 1).last() == data.session.thoughts@[i as int]@);
        }
        thoughts.append(html_part(&data.session.thoughts[i]).as_str());
        i += 1;
    }
    assert(log.subrange(0, data.session.thoughts@.len() as int) =~= log);
    let mut text = "<!DOCTYPE html>\n<html lang=\"en\">\n<head>\n".to_string();
    text.append("<meta charset=\"UTF-8\">\n");
    text.append("<meta name=\"viewport\" content=\"width=device-width, initial-scale=1.0\">\n");
    text.append("<title>Sequential Thinking Session</title>\n<style>\n");
    text.append(stylesheet);
    text.append("</style>\n</head>\n<body>\n<div class=\"container\">\n");
    text.append("<h1>Sequential Thinking Session</h1>\n");
    text.append("<div class=\"session-info\">\n");
    text.append("<p><strong>Session ID:</strong> ");
    text.append(data.session.session_id.as_str());
    text.append("</p>\n");
    text.append(metadata.as_str());
    text.append("</div>\n<h2>Thoughts</h2>\n<div class=\"thoughts\">\n");
    text.append(thoughts.as_str());
    text.append("</div>\n</div>\n<footer>\n<p>Exported on ");
    text.append(data.export_metadata.exported_at.date_time_text().as_str());
    text.append(" using UltraFast MCP Sequential Thinking</p>\n</footer>\n");
    text.append("</body>\n</html>");
    text
}

/// The page that stands for the PDF document of the export `data`: its
/// HTML page.
pub fn export_to_pdf(data: &ExportData, stylesheet: &str) -> (text: String)
    ensures
        text@ == html_text(*data, stylesheet@),
{
    export_to_html(data, stylesheet)
}

} // verus!
