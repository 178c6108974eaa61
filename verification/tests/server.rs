use ultrafast_mcp_sequential_thinking::ratio::Ratio;
use ultrafast_mcp_sequential_thinking::thinking::error::SequentialThinkingError;
use ultrafast_mcp_sequential_thinking::thinking::render::render_thought;
use ultrafast_mcp_sequential_thinking::thinking::server::analyze_thinking_session;
use ultrafast_mcp_sequential_thinking::thinking::server::extract_thought_data;
use ultrafast_mcp_sequential_thinking::thinking::server::extract_thought_data_at;
use ultrafast_mcp_sequential_thinking::thinking::server::logging_disabled_by;
use ultrafast_mcp_sequential_thinking::thinking::server::MergeSummary;
use ultrafast_mcp_sequential_thinking::thinking::server::SequentialThinkingServer;
use ultrafast_mcp_sequential_thinking::thinking::server::ServerStats;
use ultrafast_mcp_sequential_thinking::thinking::server::SessionExportFormat;
use ultrafast_mcp_sequential_thinking::thinking::server::ThoughtArguments;
use ultrafast_mcp_sequential_thinking::thinking::server::ToolKind;
use ultrafast_mcp_sequential_thinking::thinking::ThinkingStats;
use ultrafast_mcp_sequential_thinking::thinking::ThoughtData;
use ultrafast_mcp_sequential_thinking::time::Timestamp;

fn arguments() -> ThoughtArguments {
    ThoughtArguments {
        thought: Some("a thought".to_string()),
        thought_number: Some(2),
        total_thoughts: Some(5),
        next_thought_needed: None,
        is_revision: None,
        revises_thought: None,
        branch_from_thought: None,
        branch_id: None,
        needs_more_thoughts: None,
    }
}

#[test]
fn test_thought_processing() {
    let mut server = SequentialThinkingServer::with_logging(false);
    let thought = ThoughtData::new("Test thought".to_string(), 1, 3);

    let result = server.process_thought(thought);
    assert!(result.is_ok());

    let stats = server.get_stats();
    assert_eq!(stats.total_requests, 1);
    assert_eq!(stats.total_thoughts, 1);
}

#[test]
fn server_counts_requests_and_errors() {
    let mut server = SequentialThinkingServer::with_logging(true);
    assert_eq!(server.get_stats(), ServerStats::default());
    assert!(server.engine().logging_disabled());
    let now = Timestamp::new(1, 0);
    server.process_thought_at(ThoughtData::new("one".to_string(), 1, 2), now, 3, 10).unwrap();
    let refused = server.process_thought_at(ThoughtData::new(String::new(), 2, 2), now, 3, 5);
    let error = refused.unwrap_err();
    assert!(matches!(error, SequentialThinkingError::ProcessingError { .. }));
    assert_eq!(error.detail_text(), "Thought content cannot be empty");
    assert_eq!(error.to_string(), "Thought processing error: Thought content cannot be empty");
    let stats = server.get_stats();
    assert_eq!(stats.total_requests, 2);
    assert_eq!(stats.total_thoughts, 1);
    assert_eq!(stats.error_count, 1);
    assert_eq!(stats.total_response_time_ms, 15);
    assert_eq!(stats.avg_response_time_ms, Ratio::new(15, 2));
    assert_eq!(stats.total_sessions, 0);
    assert_eq!(server.engine().get_thoughts().len(), 1);
    assert_eq!(server.engine().get_stats().total_processing_time_ms, 3);
    server.process_thought_at(ThoughtData::new("x".to_string(), 2, 2), now, 0, u64::MAX).unwrap();
    assert_eq!(server.get_stats().total_response_time_ms, u64::MAX);
}

#[test]
fn server_sessions() {
    let mut server = SequentialThinkingServer::with_logging(false);
    assert!(server.get_session("a").is_none());
    server.create_session("a".to_string());
    server.create_session("b".to_string());
    server.create_session("a".to_string());
    assert_eq!(server.get_stats().total_sessions, 3);
    assert_eq!(server.get_session_ids(), vec!["a".to_string(), "b".to_string()]);
    assert!(server.get_session("a").is_some());
    assert!(server.remove_session("a"));
    assert!(!server.remove_session("a"));
    assert_eq!(server.get_session_ids(), vec!["b".to_string()]);
    let summary = server.merge_sessions(&vec![Some("b".to_string()), None, Some("zz".to_string())]);
    assert_eq!(summary, MergeSummary { merged_thoughts: 0, merged_stats: ThinkingStats::default() });
}

#[test]
fn thought_response_reports_the_engine() {
    let mut server = SequentialThinkingServer::with_logging(false);
    server.process_thought(ThoughtData::new("one".to_string(), 1, 3)).unwrap();
    let stored = server
        .process_thought(ThoughtData::branch("two".to_string(), 5, 1, "side".to_string()))
        .unwrap();
    let response = server.thought_response(&stored, 42);
    assert_eq!(response.thought_number, 5);
    assert_eq!(response.total_thoughts, 5);
    assert!(response.next_thought_needed);
    assert_eq!(response.branches, vec!["side".to_string()]);
    assert_eq!(response.thought_history_length, 2);
    assert_eq!(response.progress.current_thought, 5);
    assert_eq!(response.progress.completed_thoughts, 4);
    assert_eq!(response.progress.progress_percentage, Ratio::new(4, 5));
    assert!(!response.is_complete);
    assert_eq!(response.stats.total_thoughts, 2);
    assert_eq!(response.stats.total_branches, 1);
    assert_eq!(response.processing_time_ms, 42);
}

#[test]
fn analysis_counts_and_rates() {
    let thoughts = vec![
        ThoughtData::new("abcd".to_string(), 1, 3),
        ThoughtData::revision("héllo".to_string(), 2, 1),
        ThoughtData::branch("xy".to_string(), 3, 1, "b".to_string()),
        ThoughtData::revision("z".to_string(), 4, 2),
    ];
    let stats = ThinkingStats::default();
    let analysis = analyze_thinking_session(&thoughts, 1, &stats);
    assert_eq!(analysis.total_thoughts, 4);
    assert_eq!(analysis.revisions, 2);
    assert_eq!(analysis.branch_thoughts, 1);
    assert_eq!(analysis.active_branches, 1);
    assert_eq!(analysis.avg_thought_length, Ratio::new(13, 4));
    assert_eq!(analysis.revision_rate, Ratio::new(2, 4));
    assert_eq!(analysis.branch_rate, Ratio::new(1, 4));
    assert_eq!(analysis.processing_stats, stats);
    let empty = analyze_thinking_session(&[], 0, &stats);
    assert_eq!(empty.avg_thought_length, Ratio::new(0, 0));
    assert!(empty.revision_rate.zero());
    let mut server = SequentialThinkingServer::with_logging(false);
    server.process_thought(ThoughtData::branch("two".to_string(), 1, 1, "s".to_string())).unwrap();
    let analysis = server.analyze_session();
    assert_eq!(analysis.total_thoughts, 1);
    assert_eq!(analysis.active_branches, 1);
    assert_eq!(analysis.processing_stats.total_branches, 1);
}

#[test]
fn tools_and_formats_by_name() {
    assert_eq!(ToolKind::from_name("sequential_thinking"), Ok(ToolKind::SequentialThinking));
    assert_eq!(ToolKind::from_name("export_session"), Ok(ToolKind::ExportSession));
    assert_eq!(ToolKind::from_name("analyze_session"), Ok(ToolKind::AnalyzeSession));
    assert_eq!(ToolKind::from_name("merge_sessions"), Ok(ToolKind::MergeSessions));
    assert_eq!(ToolKind::from_name("other"), Err("Unknown tool: other".to_string()));
    let names: Vec<&str> = ToolKind::all().iter().map(|t| t.name()).collect();
    assert_eq!(names, vec!["sequential_thinking", "export_session", "analyze_session", "merge_sessions"]);
    assert_eq!(SessionExportFormat::from_argument(None), Ok(SessionExportFormat::Json));
    assert_eq!(SessionExportFormat::from_argument(Some("json")), Ok(SessionExportFormat::Json));
    assert_eq!(SessionExportFormat::from_argument(Some("markdown")), Ok(SessionExportFormat::Markdown));
    assert_eq!(
        SessionExportFormat::from_argument(Some("pdf")),
        Err("Unsupported format: pdf".to_string())
    );
    assert!(logging_disabled_by(Some("true")));
    assert!(logging_disabled_by(Some("TRUE")));
    assert!(!logging_disabled_by(Some("1")));
    assert!(!logging_disabled_by(Some("")));
    assert!(!logging_disabled_by(None));
}

#[test]
fn arguments_become_a_thought() {
    let now = Timestamp::new(77, 1);
    let thought = extract_thought_data_at(arguments(), now).unwrap();
    assert_eq!(thought.thought, "a thought");
    assert_eq!(thought.thought_number, 2);
    assert_eq!(thought.total_thoughts, 5);
    assert!(thought.next_thought_needed);
    assert_eq!(thought.is_revision, None);
    assert_eq!(thought.timestamp, Some(now));
    assert!(thought.metadata.is_none());
    let mut args = arguments();
    args.thought_number = Some(0x1_0000_0003);
    args.next_thought_needed = Some(false);
    args.is_revision = Some(true);
    args.revises_thought = Some(0xFFFF_FFFF);
    args.branch_from_thought = Some(0x2_0000_0000);
    args.branch_id = Some("b".to_string());
    args.needs_more_thoughts = Some(true);
    let thought = extract_thought_data_at(args, now).unwrap();
    assert_eq!(thought.thought_number, 3);
    assert!(!thought.next_thought_needed);
    assert_eq!(thought.is_revision, Some(true));
    assert_eq!(thought.revises_thought, Some(u32::MAX));
    assert_eq!(thought.branch_from_thought, Some(0));
    assert_eq!(thought.branch_id, Some("b".to_string()));
    assert_eq!(thought.needs_more_thoughts, Some(true));
    let mut args = arguments();
    args.total_thoughts = None;
    assert_eq!(extract_thought_data_at(args, now).err(), Some("Missing 'totalThoughts' field".to_string()));
    let mut args = arguments();
    args.thought_number = None;
    args.total_thoughts = None;
    assert_eq!(extract_thought_data_at(args, now).err(), Some("Missing 'thoughtNumber' field".to_string()));
    let mut args = arguments();
    args.thought = None;
    args.thought_number = None;
    assert_eq!(extract_thought_data(args).err(), Some("Missing 'thought' field".to_string()));
    assert!(extract_thought_data(arguments()).unwrap().timestamp.is_some());
}

#[test]
fn thoughts_are_framed() {
    let thought = ThoughtData::new("Hello".to_string(), 1, 3);
    let bar = "─".repeat(20);
    assert_eq!(
        render_thought(&thought),
        format!("\n┌{bar}┐\n│ 💭 Thought 1/3 │\n├{bar}┤\n│ Hello │\n└{bar}┘")
    );
    let thought = ThoughtData::revision("A much longer text than the head line holds".to_string(), 12, 4);
    let bar = "─".repeat(47);
    assert_eq!(
        render_thought(&thought),
        format!(
            "\n┌{bar}┐\n│ 🔄 Revision 12/12 (revising thought 4) │\n├{bar}┤\n│ A much longer text than the head line holds │\n└{bar}┘"
        )
    );
    let mut thought = ThoughtData::branch("x".to_string(), 2, 1, "alt".to_string());
    thought.total_thoughts = 9;
    let bar = "─".repeat("🌿 Branch 2/9 (from thought 1, ID: alt)".len() + 4);
    assert_eq!(
        render_thought(&thought),
        format!("\n┌{bar}┐\n│ 🌿 Branch 2/9 (from thought 1, ID: alt) │\n├{bar}┤\n│ x │\n└{bar}┘")
    );
    thought.branch_id = None;
    thought.is_revision = Some(true);
    assert!(render_thought(&thought).contains("🔄 Revision 2/9 (revising thought 0) │"));
    thought.is_revision = Some(false);
    assert!(render_thought(&thought).contains("🌿 Branch 2/9 (from thought 1, ID: unknown) │"));
}
