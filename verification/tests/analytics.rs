use ultrafast_mcp_sequential_thinking::analytics::classify_thinking_style;
use ultrafast_mcp_sequential_thinking::analytics::count_kinds;
use ultrafast_mcp_sequential_thinking::analytics::identify_patterns;
use ultrafast_mcp_sequential_thinking::analytics::identify_quality_issues;
use ultrafast_mcp_sequential_thinking::analytics::AnalyticsConfig;
use ultrafast_mcp_sequential_thinking::analytics::Severity;
use ultrafast_mcp_sequential_thinking::analytics::ThinkingStyle;
use ultrafast_mcp_sequential_thinking::export::render::export_to_csv;
use ultrafast_mcp_sequential_thinking::export::render::markdown_thoughts;
use ultrafast_mcp_sequential_thinking::export::ExportEngine;
use ultrafast_mcp_sequential_thinking::export::ExportFormat;
use ultrafast_mcp_sequential_thinking::export::ExportOptions;
use ultrafast_mcp_sequential_thinking::ratio::Ratio;
use ultrafast_mcp_sequential_thinking::session::SessionMetadata;
use ultrafast_mcp_sequential_thinking::string_map::StringMap;
use ultrafast_mcp_sequential_thinking::thinking::ThinkingProgress;
use ultrafast_mcp_sequential_thinking::thinking::ThinkingStats;
use ultrafast_mcp_sequential_thinking::thinking::ThoughtData;
use ultrafast_mcp_sequential_thinking::time::Timestamp;

fn plain(n: u32) -> ThoughtData {
    ThoughtData::new(format!("thought number {n}"), n, 20)
}

#[test]
fn test_analytics_engine_creation() {
    let config = AnalyticsConfig::default();
    assert!(!config.enabled);
    assert_eq!(config.endpoint, "http://localhost:9090");
}

#[test]
fn analytics_settings() {
    let config = AnalyticsConfig::default();
    assert_eq!(config.api_key, None);
    assert_eq!(config.collection_interval, 60);
    assert!(config.detailed_metrics);
    assert_eq!(config.retention_days, 30);
    assert!(!config.anonymize_data && !config.export_analytics);
}

#[test]
fn styles_of_thinking() {
    let linear: Vec<ThoughtData> = (1..=4).map(plain).collect();
    assert_eq!(classify_thinking_style(&linear), ThinkingStyle::Linear);
    assert_eq!(classify_thinking_style(&[]), ThinkingStyle::Linear);
    let mut iterative = linear.clone();
    iterative.push(ThoughtData::revision("r".to_string(), 5, 1));
    iterative.push(ThoughtData::revision("r".to_string(), 6, 2));
    iterative.push(ThoughtData::revision("r".to_string(), 7, 3));
    assert_eq!(count_kinds(&iterative), (3, 0));
    assert_eq!(classify_thinking_style(&iterative), ThinkingStyle::Iterative);
    let mut exploratory: Vec<ThoughtData> = (1..=6).map(plain).collect();
    exploratory.push(ThoughtData::branch("b".to_string(), 7, 1, "x".to_string()));
    exploratory.push(ThoughtData::branch("b".to_string(), 8, 1, "y".to_string()));
    exploratory.push(ThoughtData::branch("b".to_string(), 9, 1, "y".to_string()));
    assert_eq!(classify_thinking_style(&exploratory), ThinkingStyle::Exploratory);
    let mut mixed: Vec<ThoughtData> = (1..=9).map(plain).collect();
    mixed.push(ThoughtData::revision("r".to_string(), 10, 1));
    assert_eq!(classify_thinking_style(&mixed), ThinkingStyle::Mixed);
    mixed.push(plain(11));
    assert_eq!(classify_thinking_style(&mixed), ThinkingStyle::Analytical);
}

#[test]
fn patterns_of_a_session() {
    let linear: Vec<ThoughtData> = (1..=4).map(plain).collect();
    let patterns = identify_patterns(&linear);
    assert_eq!(patterns.len(), 1);
    assert_eq!(patterns[0].pattern_type, "linear_progression");
    assert_eq!(patterns[0].description, "Straightforward linear thinking process");
    assert_eq!(patterns[0].frequency, 4);
    assert_eq!(patterns[0].confidence, Ratio::new(9, 10));
    assert!(identify_patterns(&linear[..3]).is_empty());
    let both = vec![
        plain(1),
        ThoughtData::revision("r".to_string(), 2, 1),
        ThoughtData::branch("b".to_string(), 3, 1, "x".to_string()),
        ThoughtData::revision("r".to_string(), 4, 1),
    ];
    let patterns = identify_patterns(&both);
    assert_eq!(patterns.len(), 2);
    assert_eq!(patterns[0].pattern_type, "frequent_revisions");
    assert_eq!(patterns[0].description, "High frequency of thought revisions");
    assert_eq!(patterns[0].frequency, 2);
    assert_eq!(patterns[0].confidence, Ratio::new(8, 10));
    assert_eq!(patterns[1].pattern_type, "branching_exploration");
    assert_eq!(patterns[1].description, "Exploratory thinking with multiple branches");
    assert_eq!(patterns[1].frequency, 1);
    assert_eq!(patterns[1].confidence, Ratio::new(7, 10));
}

#[test]
fn lengths_that_stand_out() {
    let thoughts = vec![
        ThoughtData::new("123456789".to_string(), 1, 3),
        ThoughtData::new("1234567890".to_string(), 2, 3),
        ThoughtData::new("x".repeat(1001), 3, 3),
        ThoughtData::new("x".repeat(1000), 4, 4),
        ThoughtData::new("ééééé".to_string(), 5, 5),
    ];
    let issues = identify_quality_issues(&thoughts);
    assert_eq!(issues.len(), 2);
    assert_eq!(issues[0].issue_type, "short_thought");
    assert_eq!(issues[0].description, "Thought is too short");
    assert_eq!(issues[0].severity, Severity::Minor);
    assert_eq!(issues[0].affected_thoughts, vec![1]);
    assert_eq!(issues[1].issue_type, "long_thought");
    assert_eq!(issues[1].description, "Thought is too long");
    assert_eq!(issues[1].severity, Severity::Moderate);
    assert_eq!(issues[1].affected_thoughts, vec![3]);
}

#[test]
fn csv_export() {
    let mut first = ThoughtData::new("say \"hi\", then go".to_string(), 1, 3);
    first.timestamp = Some(Timestamp::new(1431648000, 0));
    let mut second = ThoughtData::revision("again".to_string(), 2, 1);
    second.timestamp = None;
    let mut third = ThoughtData::branch("side".to_string(), 3, 2, "b1".to_string());
    third.timestamp = Some(Timestamp::new(0, 999));
    let csv = export_to_csv(&[first, second, third]);
    assert_eq!(
        csv,
        "Thought Number,Total Thoughts,Content,Is Revision,Revises Thought,Is Branch,Branch ID,Timestamp\n\
         \"1\",\"3\",\"say \"\"hi\"\", then go\",\"false\",\"\",\"false\",\"\",\"2015-05-15 00:00:00 UTC\"\n\
         \"2\",\"2\",\"again\",\"true\",\"1\",\"false\",\"\",\"\"\n\
         \"3\",\"3\",\"side\",\"false\",\"\",\"true\",\"b1\",\"1970-01-01 00:00:00 UTC\"\n"
    );
    assert_eq!(
        export_to_csv(&[]),
        "Thought Number,Total Thoughts,Content,Is Revision,Revises Thought,Is Branch,Branch ID,Timestamp\n"
    );
}

#[test]
fn markdown_export_holds_the_thoughts() {
    let thoughts = vec![
        ThoughtData::new("First thought".to_string(), 1, 3),
        ThoughtData::new("Second thought".to_string(), 2, 3),
    ];
    let markdown = markdown_thoughts(&thoughts);
    assert!(markdown.contains("First thought"));
    assert!(markdown.contains("Second thought"));
}

#[test]
fn markdown_thoughts_exactly() {
    let mut first = ThoughtData::new("First".to_string(), 1, 3);
    first.timestamp = Some(Timestamp::new(1431648000, 0));
    let mut second = ThoughtData::revision("Second".to_string(), 2, 1);
    second.timestamp = None;
    let mut third = ThoughtData::branch("Third".to_string(), 3, 2, "b1".to_string());
    third.timestamp = None;
    let mut fourth = ThoughtData::new("Fourth".to_string(), 4, 4);
    fourth.timestamp = None;
    fourth.revises_thought = Some(1);
    fourth.branch_id = Some("ignored".to_string());
    assert_eq!(
        markdown_thoughts(&[first, second, third, fourth]),
        "## Thoughts\n\n\
         ### 💭 Thought 1/3\n\n*2015-05-15 00:00:00 UTC*\n\nFirst\n\n\
         ### 🔄 Revision 2/2\n\nSecond\n\n*Revises thought 1*\n\n\
         ### 🌿 Branch 3/3\n\nThird\n\n*Branch ID: b1*\n\n\
         ### 💭 Thought 4/4\n\nFourth\n\n"
    );
}

#[test]
fn test_filename_generation() {
    let engine = ExportEngine::new();
    let filename = engine.generate_filename("test-session", &ExportFormat::Json);
    assert!(filename.contains("test-session"));
    assert!(filename.ends_with(".json"));
}

#[test]
fn file_names_fill_every_place() {
    let mut config = ultrafast_mcp_sequential_thinking::export::ExportConfig::default();
    config.filename_template = "{date}-{time}-{session_id}-{timestamp}-{session_id}".to_string();
    let engine = ExportEngine::with_config(config);
    let now = Timestamp::new(1431648000 + 3661, 5);
    assert_eq!(
        engine.generate_filename_at("s1", &ExportFormat::Markdown, now),
        "20150515-010101-s1-20150515_010101-s1.md"
    );
    assert_eq!(
        ExportEngine::new().generate_filename_at("abc", &ExportFormat::Yaml, now),
        "session_abc_20150515_010101.yml"
    );
}

#[test]
fn export_data_follows_the_options() {
    let engine = ExportEngine::new();
    let metadata = SessionMetadata::default();
    let thoughts = vec![ThoughtData::new("t".to_string(), 1, 1)];
    let stats = ThinkingStats::default();
    let progress = ThinkingProgress::new(1, 1);
    let mut branches: StringMap<Vec<ThoughtData>> = StringMap::new();
    branches.insert("b".to_string(), vec![ThoughtData::branch("x".to_string(), 2, 1, "b".to_string())]);
    let analytics = serde_json::Value::from(5);
    let now = Timestamp::new(3, 0);
    let options = ExportOptions::default();
    let data = engine.prepare_export_data_at(
        "s",
        Some(&metadata),
        &thoughts,
        Some(&stats),
        Some(&progress),
        Some(&branches),
        Some(&analytics),
        &options,
        now,
    );
    assert_eq!(data.session.session_id, "s");
    assert!(data.session.metadata.is_some());
    assert_eq!(data.session.thoughts.len(), 1);
    assert_eq!(data.session.statistics, Some(stats));
    assert_eq!(data.session.progress, Some(progress));
    assert_eq!(data.session.branches.keys(), vec!["b".to_string()]);
    assert_eq!(data.session.branches.get("b").unwrap()[0].thought, "x");
    assert_eq!(data.session.analytics, None);
    assert_eq!(data.export_metadata.exported_at, now);
    assert_eq!(data.export_metadata.format, "JSON");
    assert_eq!(data.export_metadata.version, "0.1.0");
    assert_eq!(data.export_metadata.tool, "ultrafast-mcp-sequential-thinking");
    assert!(data.custom_data.is_empty());
    let options = ExportOptions {
        format: ExportFormat::Csv,
        include_metadata: false,
        include_statistics: false,
        include_analytics: true,
        include_progress: false,
        include_branches: false,
        ..Default::default()
    };
    let data = engine.prepare_export_data_at(
        "s",
        Some(&metadata),
        &thoughts,
        Some(&stats),
        Some(&progress),
        Some(&branches),
        Some(&analytics),
        &options,
        now,
    );
    assert!(data.session.metadata.is_none());
    assert_eq!(data.session.statistics, None);
    assert_eq!(data.session.progress, None);
    assert!(data.session.branches.is_empty());
    assert_eq!(data.session.analytics, Some(serde_json::Value::from(5)));
    assert_eq!(data.export_metadata.format, "CSV");
    assert_eq!(data.export_metadata.options.format, ExportFormat::Csv);
    let data = engine.prepare_export_data_at("s", None, &[], None, None, None, None, &ExportOptions::default(), now);
    assert!(data.session.metadata.is_none());
    assert!(data.session.thoughts.is_empty());
    assert!(data.session.branches.is_empty());
}
