//! Exports of sessions: the formats, the options, and the engine that keeps
//! templates and a history of what was exported.

pub mod document;
pub mod render;

use crate::json::clone_value;
use crate::session::clone_thoughts;
use crate::session::SessionMetadata;
use crate::string_map::has_key;
use crate::string_map::lookup;
use crate::string_map::position_of;
use crate::string_map::with_entry;
use crate::string_map::StringMap;
use crate::text::clone_strings;
use crate::text::joined;
use crate::text::lowercase;
use crate::text::lowercase_of;
use crate::text::str_eq;
use crate::text::string_views;
use crate::thinking::thought_views;
use crate::thinking::ThinkingProgress;
use crate::thinking::ThinkingStats;
use crate::thinking::ThoughtData;
use crate::thinking::ThoughtDataView;
use crate::time::Timestamp;
use vstd::prelude::*;

verus! {

/// How an export engine exports.
#[derive(Debug)]
pub struct ExportConfig {
    /// The formats that are offered.
    pub formats: Vec<String>,
    /// Whether sessions are exported without being asked.
    pub auto_export: bool,
    /// The directory that exports are written to.
    pub export_directory: String,
    /// The pattern of the file names.
    pub filename_template: String,
    /// Whether the metadata goes into an export.
    pub include_metadata: bool,
    /// Whether the counters go into an export.
    pub include_statistics: bool,
    /// Whether the analytics go into an export.
    pub include_analytics: bool,
    /// Whether exports are compressed.
    pub compression: bool,
    /// Whether exports are encrypted.
    pub encryption: bool,
}

/// What a [`ExportConfig`] holds, as mathematical values.
pub struct ExportConfigView {
    pub formats: Seq<Seq<char>>,
    pub auto_export: bool,
    pub export_directory: Seq<char>,
    pub filename_template: Seq<char>,
    pub include_metadata: bool,
    pub include_statistics: bool,
    pub include_analytics: bool,
    pub compression: bool,
    pub encryption: bool,
}

impl View for ExportConfig {
    type V = ExportConfigView;

    open spec fn view(&self) -> ExportConfigView {
        ExportConfigView {
            formats: string_views(self.formats@),
            auto_export: self.auto_export,
            export_directory: self.export_directory@,
            filename_template: self.filename_template@,
            include_metadata: self.include_metadata,
            include_statistics: self.include_statistics,
            include_analytics: self.include_analytics,
            compression: self.compression,
            encryption: self.encryption,
        }
    }
}

impl ExportConfigView {
    /// Exports on request, as JSON, Markdown or PDF, into `./exports`, neither compressed nor encrypted.
    pub open spec fn standard() -> ExportConfigView {
        ExportConfigView {
            formats: seq!["json"@, "markdown"@, "pdf"@],
            auto_export: false,
            export_directory: "./exports"@,
            filename_template: "session_{session_id}_{timestamp}"@,
            include_metadata: true,
            include_statistics: true,
            include_analytics: false,
            compression: false,
            encryption: false,
        }
    }
}

impl Default for ExportConfig {
    /// Exports on request, as JSON, Markdown or PDF, into `./exports`, neither compressed nor encrypted.
    fn default() -> (c: Self)
        ensures
            c@ == ExportConfigView::standard(),
    {
        let mut formats: Vec<String> = Vec::new();
        formats.push("json".to_string());
        formats.push("markdown".to_string());
        formats.push("pdf".to_string());
        assert(string_views(formats@) =~= seq!["json"@, "markdown"@, "pdf"@]);
        ExportConfig {
            formats,
            auto_export: false,
            export_directory: "./exports".to_string(),
            filename_template: "session_{session_id}_{timestamp}".to_string(),
            include_metadata: true,
            include_statistics: true,
            include_analytics: false,
            compression: false,
            encryption: false,
        }
    }
}

impl Clone for ExportConfig {
    /// A copy that holds what `self` holds.
    fn clone(&self) -> (copy: Self)
        ensures
            copy@ == self@,
    {
        ExportConfig {
            formats: clone_strings(&self.formats),
            auto_export: self.auto_export,
            export_directory: self.export_directory.clone(),
            filename_template: self.filename_template.clone(),
            include_metadata: self.include_metadata,
            include_statistics: self.include_statistics,
            include_analytics: self.include_analytics,
            compression: self.compression,
            encryption: self.encryption,
        }
    }
}

/// A format in which a session can be exported.
#[derive(Debug, Clone, Copy, PartialEq, Eq, Structural)]
pub enum ExportFormat {
    Json,
    Markdown,
    Pdf,
    Html,
    Csv,
    Yaml,
    Toml,
}

impl ExportFormat {
    /// The extension of a file in the format.
    pub open spec fn spec_extension(self) -> Seq<char> {
        match self {
            ExportFormat::Json => "json"@,
            ExportFormat::Markdown => "md"@,
            ExportFormat::Pdf => "pdf"@,
            ExportFormat::Html => "html"@,
            ExportFormat::Csv => "csv"@,
            ExportFormat::Yaml => "yml"@,
            ExportFormat::Toml => "toml"@,
        }
    }

    /// The media type of the format.
    pub open spec fn spec_mime_type(self) -> Seq<char> {
        match self {
            ExportFormat::Json => "application/json"@,
            ExportFormat::Markdown => "text/markdown"@,
            ExportFormat::Pdf => "application/pdf"@,
            ExportFormat::Html => "text/html"@,
            ExportFormat::Csv => "text/csv"@,
            ExportFormat::Yaml => "application/x-yaml"@,
            ExportFormat::Toml => "application/toml"@,
        }
    }

    /// The name of the format as it is shown.
    pub open spec fn spec_name(self) -> Seq<char> {
        match self {
            ExportFormat::Json => "JSON"@,
            ExportFormat::Markdown => "Markdown"@,
            ExportFormat::Pdf => "PDF"@,
            ExportFormat::Html => "HTML"@,
            ExportFormat::Csv => "CSV"@,
            ExportFormat::Yaml => "YAML"@,
            ExportFormat::Toml => "TOML"@,
        }
    }

    /// The format that a name in lower case stands for: the extension of
    /// each format is one of its names, `markdown` and `yaml` are two more.
    pub open spec fn of_lowercase(name: Seq<char>) -> Option<ExportFormat> {
        if name == "json"@ {
            Some(ExportFormat::Json)
        } else if name == "markdown"@ || name == "md"@ {
            Some(ExportFormat::Markdown)
        } else if name == "pdf"@ {
            Some(ExportFormat::Pdf)
        } else if name == "html"@ {
            Some(ExportFormat::Html)
        } else if name == "csv"@ {
            Some(ExportFormat::Csv)
        } else if name == "yaml"@ || name == "yml"@ {
            Some(ExportFormat::Yaml)
        } else if name == "toml"@ {
            Some(ExportFormat::Toml)
        } else {
            None
        }
    }

    /// The extension of a file in the format.
    pub fn extension(&self) -> (e: &'static str)
        ensures
            e@ == self.spec_extension(),
    {
        match self {
            ExportFormat::Json => "json",
            ExportFormat::Markdown => "md",
            ExportFormat::Pdf => "pdf",
            ExportFormat::Html => "html",
            ExportFormat::Csv => "csv",
            ExportFormat::Yaml => "yml",
            ExportFormat::Toml => "toml",
        }
    }

    /// The media type of the format.
    pub fn mime_type(&self) -> (m: &'static str)
        ensures
            m@ == self.spec_mime_type(),
    {
        match self {
            ExportFormat::Json => "application/json",
            ExportFormat::Markdown => "text/markdown",
            ExportFormat::Pdf => "application/pdf",
            ExportFormat::Html => "text/html",
            ExportFormat::Csv => "text/csv",
            ExportFormat::Yaml => "application/x-yaml",
            ExportFormat::Toml => "application/toml",
        }
    }

    /// The name of the format as it is shown.
    pub fn to_string(&self) -> (name: String)
        ensures
            name@ == self.spec_name(),
    {
        match self {
            ExportFormat::Json => "JSON".to_string(),
            ExportFormat::Markdown => "Markdown".to_string(),
            ExportFormat::Pdf => "PDF".to_string(),
            ExportFormat::Html => "HTML".to_string(),
            ExportFormat::Csv => "CSV".to_string(),
            ExportFormat::Yaml => "YAML".to_string(),
            ExportFormat::Toml => "TOML".to_string(),
        }
    }

    /// The format that the name `lower`, which is in lower case, stands for.
    pub fn from_lowercase(lower: &str) -> (f: Option<ExportFormat>)
        ensures
            f == Self::of_lowercase(lower@),
    {
        if str_eq(lower, "json") {
            Some(ExportFormat::Json)
        } else if str_eq(lower, "markdown") || str_eq(lower, "md") {
            Some(ExportFormat::Markdown)
        } else if str_eq(lower, "pdf") {
            Some(ExportFormat::Pdf)
        } else if str_eq(lower, "html") {
            Some(ExportFormat::Html)
        } else if str_eq(lower, "csv") {
            Some(ExportFormat::Csv)
        } else if str_eq(lower, "yaml") || str_eq(lower, "yml") {
            Some(ExportFormat::Yaml)
        } else if str_eq(lower, "toml") {
            Some(ExportFormat::Toml)
        } else {
            None
        }
    }

    /// The format that `name` stands for, whatever the case of its letters.
    /// A name that stands for none is refused, and the error quotes it.
    pub fn parse(name: &str) -> (r: Result<ExportFormat, String>)
        ensures
            match r {
                Ok(format) => Self::of_lowercase(lowercase_of(name@)) == Some(format),
                Err(message) => Self::of_lowercase(lowercase_of(name@)) is None && message@
                    == "Unknown export format: "@ + name@,
            },
    {
        let lower = lowercase(name);
        match ExportFormat::from_lowercase(lower.as_str()) {
            Some(format) => Ok(format),
            None => Err(joined("Unknown export format: ", name)),
        }
    }
}

impl std::str::FromStr for ExportFormat {
    type Err = String;

    /// The format that `s` stands for, as [`ExportFormat::parse`] reads it.
    fn from_str(s: &str) -> (r: Result<ExportFormat, String>)
        ensures
            match r {
                Ok(format) => Self::of_lowercase(lowercase_of(s@)) == Some(format),
                Err(message) => Self::of_lowercase(lowercase_of(s@)) is None && message@
                    == "Unknown export format: "@ + s@,
            },
    {
        ExportFormat::parse(s)
    }
}

/// What goes into one export.
#[derive(Debug)]
pub struct ExportOptions {
    /// The format.
    pub format: ExportFormat,
    /// Whether the metadata goes in.
    pub include_metadata: bool,
    /// Whether the counters go in.
    pub include_statistics: bool,
    /// Whether the analytics go in.
    pub include_analytics: bool,
    /// Whether the progress goes in.
    pub include_progress: bool,
    /// Whether the branches go in.
    pub include_branches: bool,
    /// Whether the times go in.
    pub include_timestamps: bool,
    /// Whether the text is laid out for reading.
    pub pretty_print: bool,
    /// A style sheet for HTML and PDF.
    pub custom_styling: Option<String>,
    /// The name of a template.
    pub template: Option<String>,
}

/// What an [`ExportOptions`] holds, as mathematical values.
pub struct ExportOptionsView {
    pub format: ExportFormat,
    pub include_metadata: bool,
    pub include_statistics: bool,
    pub include_analytics: bool,
    pub include_progress: bool,
    pub include_branches: bool,
    pub include_timestamps: bool,
    pub pretty_print: bool,
    pub custom_styling: Option<Seq<char>>,
    pub template: Option<Seq<char>>,
}

impl View for ExportOptions {
    type V = ExportOptionsView;

    open spec fn view(&self) -> ExportOptionsView {
        ExportOptionsView {
            format: self.format,
            include_metadata: self.include_metadata,
            include_statistics: self.include_statistics,
            include_analytics: self.include_analytics,
            include_progress: self.include_progress,
            include_branches: self.include_branches,
            include_timestamps: self.include_timestamps,
            pretty_print: self.pretty_print,
            custom_styling: match self.custom_styling {
                Some(text) => Some(text@),
                None => None,
            },
            template: match self.template {
                Some(text) => Some(text@),
                None => None,
            },
        }
    }
}

impl ExportOptionsView {
    /// JSON, laid out for reading, with everything but the analytics.
    pub open spec fn standard() -> ExportOptionsView {
        ExportOptionsView {
            format: ExportFormat::Json,
            include_metadata: true,
            include_statistics: true,
            include_analytics: false,
            include_progress: true,
            include_branches: true,
            include_timestamps: true,
            pretty_print: true,
            custom_styling: None,
            template: None,
        }
    }
}

impl Default for ExportOptions {
    /// JSON, laid out for reading, with everything but the analytics.
    fn default() -> (o: Self)
        ensures
            o@ == ExportOptionsView::standard(),
    {
        ExportOptions {
            format: ExportFormat::Json,
            include_metadata: true,
            include_statistics: true,
            include_analytics: false,
            include_progress: true,
            include_branches: true,
            include_timestamps: true,
            pretty_print: true,
            custom_styling: None,
            template: None,
        }
    }
}

impl Clone for ExportOptions {
    /// A copy that holds what `self` holds.
    fn clone(&self) -> (copy: Self)
        ensures
            copy@ == self@,
    {
        ExportOptions {
            format: self.format,
            include_metadata: self.include_metadata,
            include_statistics: self.include_statistics,
            include_analytics: self.include_analytics,
            include_progress: self.include_progress,
            include_branches: self.include_branches,
            include_timestamps: self.include_timestamps,
            pretty_print: self.pretty_print,
            custom_styling: match &self.custom_styling {
                Some(text) => Some(text.clone()),
                None => None,
            },
            template: match &self.template {
                Some(text) => Some(text.clone()),
                None => None,
            },
        }
    }
}

/// The note of one export in the history.
#[derive(Debug)]
pub struct ExportRecord {
    /// The session that was exported.
    pub session_id: String,
    /// The format of the export.
    pub format: ExportFormat,
    /// When the export was made.
    pub exported_at: Timestamp,
    /// The file that was written, if one was.
    pub file_path: Option<String>,
    /// The size of that file in bytes, where it is known.
    pub file_size: Option<u64>,
    /// Whether the export went well.
    pub success: bool,
    /// What went wrong, if something did.
    pub error_message: Option<String>,
}

/// What an [`ExportRecord`] holds, as mathematical values.
pub struct ExportRecordView {
    pub session_id: Seq<char>,
    pub format: ExportFormat,
    pub exported_at: Timestamp,
    pub file_path: Option<Seq<char>>,
    pub file_size: Option<u64>,
    pub success: bool,
    pub error_message: Option<Seq<char>>,
}

impl View for ExportRecord {
    type V = ExportRecordView;

    open spec fn view(&self) -> ExportRecordView {
        ExportRecordView {
            session_id: self.session_id@,
            format: self.format,
            exported_at: self.exported_at,
            file_path: match self.file_path {
                Some(text) => Some(text@),
                None => None,
            },
            file_size: self.file_size,
            success: self.success,
            error_message: match self.error_message {
                Some(text) => Some(text@),
                None => None,
            },
        }
    }
}

/// The views of a history of exports.
pub open spec fn record_views(records: Seq<ExportRecord>) -> Seq<ExportRecordView> {
    Seq::new(records.len(), |i: int| records[i]@)
}

/// The characters of each template, under its name.
pub open spec fn template_texts(entries: Seq<(Seq<char>, String)>) -> Seq<(Seq<char>, Seq<char>)> {
    Seq::new(entries.len(), |i: int| (entries[i].0, entries[i].1@))
}

/// The engine that exports sessions: its settings, its templates by name,
/// and the history of what it exported.
#[derive(Debug)]
pub struct ExportEngine {
    config: ExportConfig,
    templates: StringMap<String>,
    export_history: Vec<ExportRecord>,
}

/// The state of an [`ExportEngine`], as mathematical values.
pub struct ExportEngineView {
    /// The settings.
    pub config: ExportConfigView,
    /// The templates under their names, oldest name first.
    pub templates: Seq<(Seq<char>, Seq<char>)>,
    /// The history, oldest export first.
    pub export_history: Seq<ExportRecordView>,
}

impl View for ExportEngine {
    type V = ExportEngineView;

    closed spec fn view(&self) -> ExportEngineView {
        ExportEngineView {
            config: self.config@,
            templates: template_texts(self.templates.entries()),
            export_history: record_views(self.export_history@),
        }
    }
}

impl ExportEngine {
    /// An engine with the standard settings, no template and no history.
    pub fn new() -> (e: Self)
        ensures
            e@ == (ExportEngineView {
                config: ExportConfigView::standard(),
                templates: Seq::empty(),
                export_history: Seq::empty(),
            }),
    {
        ExportEngine::with_config(ExportConfig::default())
    }

    /// An engine with the given settings, no template and no history.
    pub fn with_config(config: ExportConfig) -> (e: Self)
        ensures
            e@ == (ExportEngineView {
                config: config@,
                templates: Seq::empty(),
                export_history: Seq::empty(),
            }),
    {
        let templates: StringMap<String> = StringMap::new();
        let export_history: Vec<ExportRecord> = Vec::new();
        assert(template_texts(templates.entries()) =~= Seq::<(Seq<char>, Seq<char>)>::empty());
        assert(record_views(export_history@) =~= Seq::<ExportRecordView>::empty());
        ExportEngine { config, templates, export_history }
    }

    /// The settings.
    pub fn config(&self) -> (c: &ExportConfig)
        ensures
            c@ == self@.config,
    {
        &self.config
    }

    /// The history of exports, oldest first.
    pub fn get_export_history(&self) -> (history: &[ExportRecord])
        ensures
            record_views(history@) == self@.export_history,
    {
        self.export_history.as_slice()
    }

    /// Forgets the history of exports.
    pub fn clear_export_history(&mut self)
        ensures
            final(self)@ == (ExportEngineView { export_history: Seq::empty(), ..old(self)@ }),
    {
        self.export_history.clear();
        assert(record_views(self.export_history@) =~= Seq::<ExportRecordView>::empty());
    }

    /// Notes an export at the end of the history.
    pub fn record_export(&mut self, record: ExportRecord)
        ensures
            final(self)@ == (ExportEngineView {
                export_history: old(self)@.export_history.push(record@),
                ..old(self)@
            }),
    {
        self.export_history.push(record);
        assert(record_views(self.export_history@) =~= record_views(old(self).export_history@).push(
            record@,
        ));
    }

    /// Stores the template `template` under the name `name`, in the place of
    /// the template of that name if there is one.
    pub fn add_template(&mut self, name: String, template: String)
        ensures
            final(self)@ == (ExportEngineView {
                templates: with_entry(old(self)@.templates, name@, template@),
                ..old(self)@
            }),
    {
        proof {
            use_type_invariant(&self.templates);
            crate::thinking::error::lemma_text_entries_with_entry(
                self.templates.entries(),
                name@,
                template,
            );
            assert(template_texts(self.templates.entries())
                =~= crate::thinking::error::text_entries(self.templates.entries()));
            assert(template_texts(with_entry(self.templates.entries(), name@, template))
                =~= crate::thinking::error::text_entries(
                with_entry(self.templates.entries(), name@, template),
            ));
        }
        self.templates.insert(name, template);
    }

    /// The template of the name `name`, if there is one.
    pub fn get_template(&self, name: &str) -> (template: Option<&String>)
        ensures
            match template {
                Some(text) => lookup(self@.templates, name@) == Some(text@),
                None => lookup(self@.templates, name@) is None,
            },
    {
        proof {
            use_type_invariant(&self.templates);
            let entries = self.templates.entries();
            let texts = template_texts(entries);
            assert forall|i: int, j: int| 0 <= i < j < texts.len() implies (#[trigger] texts[i]).0
                != (#[trigger] texts[j]).0 by {
                assert(entries[i].0 != entries[j].0);
            }
            if crate::string_map::has_key(entries, name@) {
                let p = crate::string_map::position_of(entries, name@);
                assert(texts[p].0 == name@);
                crate::string_map::lemma_position_unique(texts, p);
            } else {
                if crate::string_map::has_key(texts, name@) {
                    let q = crate::string_map::position_of(texts, name@);
                    assert(entries[q].0 == name@);
                }
            }
        }
        self.templates.get(name)
    }
}

impl Default for ExportEngine {
    /// An engine with the standard settings, no template and no history.
    fn default() -> (e: Self)
        ensures
            e@ == (ExportEngineView {
                config: ExportConfigView::standard(),
                templates: Seq::empty(),
                export_history: Seq::empty(),
            }),
    {
        ExportEngine::new()
    }
}

/// What is exported of a session.
#[derive(Debug)]
pub struct SessionExportData {
    /// The name of the session.
    pub session_id: String,
    /// The metadata, where the options ask for it.
    pub metadata: Option<SessionMetadata>,
    /// The log.
    pub thoughts: Vec<ThoughtData>,
    /// The counters, where the options ask for them.
    pub statistics: Option<ThinkingStats>,
    /// The progress, where the options ask for it.
    pub progress: Option<ThinkingProgress>,
    /// The thoughts of each branch, where the options ask for the branches.
    pub branches: StringMap<Vec<ThoughtData>>,
    /// The analytics, where the options ask for them.
    pub analytics: Option<serde_json::Value>,
}

/// What an export says about itself.
#[derive(Debug)]
pub struct ExportMetadata {
    /// When the export was made.
    pub exported_at: Timestamp,
    /// The name of the format.
    pub format: String,
    /// The version of the tool that made the export.
    pub version: String,
    /// The tool that made the export.
    pub tool: String,
    /// The options of the export.
    pub options: ExportOptions,
}

/// An export: the session, and what the export says about itself.
#[derive(Debug)]
pub struct ExportData {
    /// The session.
    pub session: SessionExportData,
    /// What the export says about itself.
    pub export_metadata: ExportMetadata,
    /// Free-form data.
    pub custom_data: StringMap<serde_json::Value>,
}

/// The thoughts of each branch of a table, as views.
pub open spec fn branch_list_views(entries: Seq<(Seq<char>, Vec<ThoughtData>)>) -> Seq<
    (Seq<char>, Seq<ThoughtDataView>),
> {
    Seq::new(entries.len(), |i: int| (entries[i].0, thought_views(entries[i].1@)))
}

/// A copy of a table of branches: the same names with copies of the same
/// thoughts, in the same order.
pub fn clone_branches(branches: &StringMap<Vec<ThoughtData>>) -> (copy: StringMap<Vec<ThoughtData>>)
    ensures
        branch_list_views(copy.entries()) == branch_list_views(branches.entries()),
{
    proof {
        use_type_invariant(branches);
    }
    let mut copy: StringMap<Vec<ThoughtData>> = StringMap::new();
    let mut i: usize = 0;
    while i < branches.len()
        invariant
            branches.inv(),
            i <= branches.entries().len(),
            copy.entries().len() == i,
            forall|j: int|
                0 <= j < i ==> (#[trigger] copy.entries()[j]).0 == branches.entries()[j].0
                    && thought_views(copy.entries()[j].1@) == thought_views(
                    branches.entries()[j].1@,
                ),
        decreases branches.entries().len() - i,
    {
        let key = branches.key_at(i).clone();
        let thoughts = clone_thoughts(branches.value_at(i).as_slice());
        proof {
            if has_key(copy.entries(), key@) {
                let p = position_of(copy.entries(), key@);
                assert(copy.entries()[p].0 == branches.entries()[p].0);
                assert(branches.entries()[p].0 != branches.entries()[i as int].0);
            }
        }
        copy.insert_new(key, thoughts);
        i += 1;
    }
    assert(branch_list_views(copy.entries()) =~= branch_list_views(branches.entries()));
    copy
}

impl ExportEngine {
    /// Puts together what an export at the instant `now` holds: the name of
    /// the session and its log in any case; the metadata, the counters, the
    /// progress, the branches and the analytics where they are given and the
    /// options ask for them; and what the export says about itself.
    pub fn prepare_export_data_at(
        &self,
        session_id: &str,
        session_metadata: Option<&SessionMetadata>,
        thoughts: &[ThoughtData],
        stats: Option<&ThinkingStats>,
        progress: Option<&ThinkingProgress>,
        branches: Option<&StringMap<Vec<ThoughtData>>>,
        analytics: Option<&serde_json::Value>,
        options: &ExportOptions,
        now: Timestamp,
    ) -> (data: ExportData)
        ensures
            data.session.session_id@ == session_id@,
            match data.session.metadata {
                Some(m) => options.include_metadata && (session_metadata matches Some(given) && m@
                    == given@),
                None => !options.include_metadata || session_metadata is None,
            },
            thought_views(data.session.thoughts@) == thought_views(thoughts@),
            data.session.statistics == (if options.include_statistics {
                match stats {
                    Some(s) => Some(*s),
                    None => None,
                }
            } else {
                None
            }),
            data.session.progress == (if options.include_progress {
                match progress {
                    Some(p) => Some(*p),
                    None => None,
                }
            } else {
                None
            }),
            branch_list_views(data.session.branches.entries()) == (if options.include_branches {
                match branches {
                    Some(b) => branch_list_views(b.entries()),
                    None => Seq::empty(),
                }
            } else {
                Seq::empty()
            }),
            data.session.analytics == (if options.include_analytics {
                match analytics {
                    Some(a) => Some(*a),
                    None => None,
                }
            } else {
                None
            }),
            data.export_metadata.exported_at == now,
            data.export_metadata.format@ == options.format.spec_name(),
            data.export_metadata.version@ == "0.1.0"@,
            data.export_metadata.tool@ == "ultrafast-mcp-sequential-thinking"@,
            data.export_metadata.options@ == options@,
            data.custom_data.entries() == Seq::<(Seq<char>, serde_json::Value)>::empty(),
    {
        let metadata = if options.include_metadata {
            match session_metadata {
                Some(m) => Some(m.clone()),
                None => None,
            }
        } else {
            None
        };
        let statistics = if options.include_statistics {
            match stats {
                Some(s) => Some(*s),
                None => None,
            }
        } else {
            None
        };
        let kept_progress = if options.include_progress {
            match progress {
                Some(p) => Some(*p),
                None => None,
            }
        } else {
            None
        };
        let kept_branches = if options.include_branches {
            match branches {
                Some(b) => clone_branches(b),
                None => StringMap::new(),
            }
        } else {
            StringMap::new()
        };
        let kept_analytics = if options.include_analytics {
            match analytics {
                Some(a) => Some(clone_value(a)),
                None => None,
            }
        } else {
            None
        };
        assert(branch_list_views(kept_branches.entries()) =~= (if options.include_branches {
            match branches {
                Some(b) => branch_list_views(b.entries()),
                None => Seq::empty(),
            }
        } else {
            Seq::empty()
        }));
        ExportData {
            session: SessionExportData {
                session_id: session_id.to_string(),
                metadata,
                thoughts: clone_thoughts(thoughts),
                statistics,
                progress: kept_progress,
                branches: kept_branches,
                analytics: kept_analytics,
            },
            export_metadata: ExportMetadata {
                exported_at: now,
                format: options.format.to_string(),
                version: "0.1.0".to_string(),
                tool: "ultrafast-mcp-sequential-thinking".to_string(),
                options: options.clone(),
            },
            custom_data: StringMap::new(),
        }
    }
}

} // verus!
