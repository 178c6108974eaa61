use ultrafast_mcp_sequential_thinking::ratio::Ratio;
use ultrafast_mcp_sequential_thinking::thinking::ThinkingEngine;
use ultrafast_mcp_sequential_thinking::thinking::ThinkingProgress;
use ultrafast_mcp_sequential_thinking::thinking::ThinkingStats;
use ultrafast_mcp_sequential_thinking::thinking::ThoughtBranch;
use ultrafast_mcp_sequential_thinking::thinking::ThoughtData;
use ultrafast_mcp_sequential_thinking::time::Timestamp;

fn quotient(r: Ratio) -> f64 {
    if r.denominator > 0 {
        r.numerator as f64 / r.denominator as f64
    } else {
        0.0
    }
}

#[test]
fn test_thought_data_creation() {
    let thought = ThoughtData::new("Test thought".to_string(), 1, 5);
    assert_eq!(thought.thought, "Test thought");
    assert_eq!(thought.thought_number, 1);
    assert_eq!(thought.total_thoughts, 5);
    assert!(thought.next_thought_needed);
    assert!(!thought.is_revision());
    assert!(!thought.is_branch());
}

#[test]
fn test_revision_thought() {
    let thought = ThoughtData::revision("Revised thought".to_string(), 3, 1);
    assert!(thought.is_revision());
    assert_eq!(thought.get_revised_thought(), Some(1));
    assert_eq!(thought.revises_thought, Some(1));
}

#[test]
fn test_branch_thought() {
    let thought = ThoughtData::branch("Branch thought".to_string(), 4, 2, "branch-1".to_string());
    assert!(thought.is_branch());
    assert_eq!(thought.get_branch_id(), Some("branch-1"));
    assert_eq!(thought.branch_from_thought, Some(2));
}

#[test]
fn test_thought_validation() {
    let valid_thought = ThoughtData::new("Valid thought".to_string(), 1, 5);
    assert!(valid_thought.validate().is_ok());

    let invalid_thought = ThoughtData {
        thought: String::new(),
        thought_number: 1,
        total_thoughts: 5,
        next_thought_needed: true,
        ..Default::default()
    };
    assert!(invalid_thought.validate().is_err());
}

#[test]
fn test_thinking_engine() {
    let mut engine = ThinkingEngine::new();
    engine.start_session("test-session".to_string());

    let thought = ThoughtData::new("First thought".to_string(), 1, 3);
    let processed = engine.process_thought(thought).unwrap();

    assert_eq!(processed.thought, "First thought");
    assert_eq!(engine.get_thoughts().len(), 1);
    assert!(!engine.is_complete());
}

#[test]
fn test_thinking_progress() {
    let mut progress = ThinkingProgress::new(1, 5);
    assert_eq!(progress.current_thought, 1);
    assert_eq!(progress.total_thoughts, 5);
    assert_eq!(quotient(progress.progress_percentage), 0.0);

    let thought = ThoughtData::new("Test".to_string(), 3, 5);
    progress.update(&thought);
    assert_eq!(progress.current_thought, 3);
    assert_eq!(progress.completed_thoughts, 2);
    assert_eq!(quotient(progress.progress_percentage), 0.4);
}

#[test]
fn validation_reports_the_first_broken_rule() {
    let mut thought = ThoughtData::new(String::new(), 0, 0);
    assert_eq!(thought.validate(), Err("Thought content cannot be empty".to_string()));
    thought.thought = "text".to_string();
    assert_eq!(thought.validate(), Err("Thought number must be greater than 0".to_string()));
    thought.thought_number = 2;
    assert_eq!(thought.validate(), Err("Total thoughts must be greater than 0".to_string()));
    thought.total_thoughts = 1;
    assert_eq!(thought.validate(), Ok(()));
    thought.is_revision = Some(true);
    assert_eq!(
        thought.validate(),
        Err("Revision thoughts must specify which thought is being revised".to_string())
    );
    thought.revises_thought = Some(1);
    thought.branch_from_thought = Some(1);
    assert_eq!(thought.validate(), Err("Branch thoughts must have a branch ID".to_string()));
    thought.branch_id = Some("b".to_string());
    assert_eq!(thought.validate(), Ok(()));
}

#[test]
fn revision_flag_false_needs_no_target() {
    let mut thought = ThoughtData::new("text".to_string(), 1, 1);
    thought.is_revision = Some(false);
    assert!(!thought.is_revision());
    assert!(thought.validate().is_ok());
}

#[test]
fn branch_id_without_origin_is_no_branch() {
    let mut engine = ThinkingEngine::new();
    let mut thought = ThoughtData::new("text".to_string(), 1, 1);
    thought.branch_id = Some("b1".to_string());
    assert!(!thought.is_branch());
    engine.process_thought(thought).unwrap();
    assert_eq!(engine.get_thoughts().len(), 1);
    assert!(engine.get_branches().is_empty());
    assert_eq!(engine.get_stats().total_branches, 0);
}

#[test]
fn with_metadata_stores_and_replaces() {
    let thought = ThoughtData::new("text".to_string(), 1, 1)
        .with_metadata("a".to_string(), serde_json::Value::from(1))
        .with_metadata("b".to_string(), serde_json::Value::from("two"))
        .with_metadata("a".to_string(), serde_json::Value::Bool(true));
    let metadata = thought.metadata.as_ref().unwrap();
    assert_eq!(metadata.len(), 2);
    assert_eq!(metadata.get("a"), Some(&serde_json::Value::Bool(true)));
    assert_eq!(metadata.get("b"), Some(&serde_json::Value::from("two")));
    assert_eq!(metadata.get("c"), None);
    let copy = thought.clone();
    let copied = copy.metadata.as_ref().unwrap();
    assert_eq!(copied.keys(), vec!["a".to_string(), "b".to_string()]);
    assert_eq!(copied.get("b"), Some(&serde_json::Value::from("two")));
    assert_eq!(copy.timestamp, thought.timestamp);
}

#[test]
fn new_thought_is_stamped_with_the_current_time() {
    let before = chrono::Utc::now();
    let thought = ThoughtData::new("text".to_string(), 1, 1);
    let after = chrono::Utc::now();
    let stamp = thought.timestamp.unwrap();
    let lower = Timestamp::new(before.timestamp(), before.timestamp_subsec_nanos());
    let upper = Timestamp::new(after.timestamp(), after.timestamp_subsec_nanos());
    assert!(!lower.after(&stamp));
    assert!(!stamp.after(&upper));
}

#[test]
fn scenario_three_thoughts_with_revision() {
    let mut engine = ThinkingEngine::new();
    engine.start_session("s1".to_string());
    assert_eq!(engine.session_id(), Some("s1"));

    engine.process_thought(ThoughtData::new("one".to_string(), 1, 3)).unwrap();
    let progress = *engine.get_progress();
    assert_eq!(progress.current_thought, 1);
    assert_eq!(progress.total_thoughts, 3);
    assert_eq!(progress.completed_thoughts, 0);
    assert_eq!(quotient(progress.progress_percentage), 0.0);

    engine.process_thought(ThoughtData::new("two".to_string(), 2, 3)).unwrap();
    let progress = *engine.get_progress();
    assert_eq!(progress.completed_thoughts, 1);
    assert_eq!(progress.progress_percentage, Ratio::new(1, 3));
    assert!((quotient(progress.progress_percentage) - 0.333).abs() < 0.001);

    engine.process_thought(ThoughtData::revision("three".to_string(), 3, 1)).unwrap();
    assert_eq!(engine.get_stats().total_revisions, 1);
    assert_eq!(engine.get_thoughts().len(), 3);
}

#[test]
fn incomplete_after_every_thought() {
    let mut engine = ThinkingEngine::new();
    assert!(!engine.is_complete());
    let mut first = ThoughtData::new("one".to_string(), 1, 2);
    first.next_thought_needed = true;
    engine.process_thought(first).unwrap();
    assert!(!engine.is_complete());
    let mut last = ThoughtData::new("two".to_string(), 2, 2);
    last.next_thought_needed = false;
    engine.process_thought(last).unwrap();
    assert_eq!(engine.get_progress().completed_thoughts, 1);
    assert_eq!(engine.get_progress().total_thoughts, 2);
    assert!(!engine.get_progress().needs_more_thoughts);
    assert!(!engine.is_complete());
}

#[test]
fn progress_is_complete_when_completed_reaches_total() {
    let mut progress = ThinkingProgress::new(4, 3);
    assert_eq!(progress.completed_thoughts, 3);
    assert!(!progress.is_complete());
    progress.needs_more_thoughts = false;
    assert!(progress.is_complete());
    progress.total_thoughts = 4;
    assert!(!progress.is_complete());
}

#[test]
fn progress_of_thought_zero_and_total_zero() {
    let progress = ThinkingProgress::new(0, 0);
    assert_eq!(progress.completed_thoughts, 0);
    assert_eq!(progress.progress_percentage, Ratio::new(0, 0));
    assert_eq!(quotient(progress.progress_percentage), 0.0);
    assert_eq!(progress.active_branches, 0);
    assert!(progress.needs_more_thoughts);
    assert_eq!(progress.estimated_time_remaining, None);
}

#[test]
fn number_above_total_raises_the_total() {
    let mut engine = ThinkingEngine::new();
    let stored = engine.process_thought(ThoughtData::new("far".to_string(), 7, 3)).unwrap();
    assert_eq!(stored.thought_number, 7);
    assert_eq!(stored.total_thoughts, 7);
    assert_eq!(engine.get_thoughts()[0].total_thoughts, 7);
    assert_eq!(engine.get_progress().total_thoughts, 7);
    assert_eq!(engine.get_progress().current_thought, 7);
    assert_eq!(engine.get_progress().completed_thoughts, 6);
    assert_eq!(engine.get_progress().progress_percentage, Ratio::new(6, 7));
}

#[test]
fn revision_without_target_is_rejected_and_log_unchanged() {
    let mut engine = ThinkingEngine::new();
    engine.process_thought(ThoughtData::new("one".to_string(), 1, 3)).unwrap();
    let mut bad = ThoughtData::new("two".to_string(), 2, 3);
    bad.is_revision = Some(true);
    let result = engine.process_thought(bad);
    assert_eq!(
        result.err(),
        Some("Revision thoughts must specify which thought is being revised".to_string())
    );
    assert_eq!(engine.get_thoughts().len(), 1);
    assert_eq!(engine.get_stats().total_thoughts, 1);
    assert_eq!(engine.get_progress().current_thought, 1);
}

#[test]
fn branch_without_id_is_rejected_and_valid_branch_is_logged_twice() {
    let mut engine = ThinkingEngine::new();
    let mut bad = ThoughtData::new("one".to_string(), 1, 3);
    bad.branch_from_thought = Some(1);
    let result = engine.process_thought(bad);
    assert_eq!(result.err(), Some("Branch thoughts must have a branch ID".to_string()));
    assert_eq!(engine.get_thoughts().len(), 0);
    assert!(engine.get_branches().is_empty());

    engine.process_thought(ThoughtData::new("one".to_string(), 1, 3)).unwrap();
    engine
        .process_thought(ThoughtData::branch("alt".to_string(), 2, 1, "b1".to_string()))
        .unwrap();
    engine
        .process_thought(ThoughtData::branch("other".to_string(), 3, 2, "b2".to_string()))
        .unwrap();
    engine
        .process_thought(ThoughtData::branch("alt two".to_string(), 4, 3, "b1".to_string()))
        .unwrap();
    assert_eq!(engine.get_thoughts().len(), 4);
    assert_eq!(engine.get_thoughts()[1].thought, "alt");
    let branches = engine.get_branches();
    assert_eq!(branches.keys(), vec!["b1".to_string(), "b2".to_string()]);
    let b1 = branches.get("b1").unwrap();
    assert_eq!(b1.branch_id, "b1");
    assert_eq!(b1.parent_thought, 1);
    assert_eq!(b1.thought_count(), 2);
    assert_eq!(b1.thoughts[0].thought, "alt");
    assert_eq!(b1.latest_thought().unwrap().thought, "alt two");
    let b2 = branches.get("b2").unwrap();
    assert_eq!(b2.parent_thought, 2);
    assert_eq!(b2.thought_count(), 1);
    assert_eq!(engine.get_stats().total_branches, 3);
    assert_eq!(engine.get_stats().total_thoughts, 4);
}

#[test]
fn stats_count_and_average() {
    let mut engine = ThinkingEngine::new();
    let now = Timestamp::new(10, 0);
    engine.process_thought_at(ThoughtData::new("one".to_string(), 1, 3), now, 5).unwrap();
    engine.process_thought_at(ThoughtData::revision("two".to_string(), 2, 1), now, 8).unwrap();
    let rejected = engine.process_thought_at(ThoughtData::new(String::new(), 3, 3), now, 100);
    assert!(rejected.is_err());
    let stats: ThinkingStats = *engine.get_stats();
    assert_eq!(stats.total_thoughts, 2);
    assert_eq!(stats.total_revisions, 1);
    assert_eq!(stats.total_branches, 0);
    assert_eq!(stats.total_processing_time_ms, 13);
    assert_eq!(stats.avg_processing_time_ms, Ratio::new(13, 2));
    assert_eq!(quotient(stats.avg_processing_time_ms), 6.5);
    assert_eq!(stats.avg_processing_time_ms.floor(), 6);
    engine.process_thought_at(ThoughtData::new("three".to_string(), 3, 3), now, u64::MAX).unwrap();
    assert_eq!(engine.get_stats().total_processing_time_ms, u64::MAX);
    assert_eq!(engine.get_stats().avg_processing_time_ms, Ratio::new(u64::MAX, 3));
}

#[test]
fn stats_after_clocked_processing() {
    let mut engine = ThinkingEngine::new();
    let mut last_count = 0;
    for n in 1..=4 {
        engine.process_thought(ThoughtData::new("t".to_string(), n, 4)).unwrap();
        let stats = *engine.get_stats();
        assert!(stats.total_thoughts > last_count);
        last_count = stats.total_thoughts;
        assert_eq!(
            stats.avg_processing_time_ms,
            Ratio::new(stats.total_processing_time_ms, stats.total_thoughts)
        );
    }
    assert_eq!(last_count, 4);
}

#[test]
fn branch_created_at_is_the_given_instant() {
    let mut engine = ThinkingEngine::new();
    let first = Timestamp::new(100, 7);
    let second = Timestamp::new(200, 9);
    engine
        .process_thought_at(ThoughtData::branch("a".to_string(), 1, 1, "x".to_string()), first, 0)
        .unwrap();
    engine
        .process_thought_at(ThoughtData::branch("b".to_string(), 2, 5, "x".to_string()), second, 0)
        .unwrap();
    let branch = engine.get_branches().get("x").unwrap();
    assert_eq!(branch.created_at, first);
    assert_eq!(branch.parent_thought, 1);
    assert_eq!(branch.thought_count(), 2);
    assert!(branch.metadata.is_empty());
}

#[test]
fn start_session_discards_history() {
    let mut engine = ThinkingEngine::with_logging(true);
    let id = engine.engine_id();
    assert_eq!(engine.session_id(), None);
    engine.process_thought(ThoughtData::branch("a".to_string(), 3, 1, "x".to_string())).unwrap();
    engine.start_session("again".to_string());
    assert_eq!(engine.session_id(), Some("again"));
    assert_eq!(engine.get_thoughts().len(), 0);
    assert!(engine.get_branches().is_empty());
    assert_eq!(*engine.get_progress(), ThinkingProgress::new(1, 1));
    assert_eq!(*engine.get_stats(), ThinkingStats::default());
    assert_eq!(engine.engine_id(), id);
    assert!(engine.logging_disabled());
}

#[test]
fn copy_of_an_engine_is_a_new_engine() {
    let mut engine = ThinkingEngine::with_logging(true);
    engine.start_session("s".to_string());
    engine.process_thought(ThoughtData::new("one".to_string(), 1, 1)).unwrap();
    let copy = engine.clone();
    assert_eq!(copy.get_thoughts().len(), 0);
    assert_eq!(copy.session_id(), None);
    assert!(!copy.logging_disabled());
    assert_ne!(copy.engine_id(), engine.engine_id());
    let other = ThinkingEngine::default();
    assert_eq!(other.get_thoughts().len(), 0);
}

#[test]
fn thought_branch_collects_thoughts() {
    let mut branch = ThoughtBranch::new("side".to_string(), 2);
    assert_eq!(branch.thought_count(), 0);
    assert!(branch.latest_thought().is_none());
    branch.add_thought(ThoughtData::new("a".to_string(), 3, 4));
    branch.add_thought(ThoughtData::new("b".to_string(), 4, 4));
    assert_eq!(branch.thought_count(), 2);
    assert_eq!(branch.latest_thought().unwrap().thought, "b");
    assert_eq!(branch.branch_id, "side");
    assert_eq!(branch.parent_thought, 2);
}

#[test]
fn out_of_order_numbers_are_accepted() {
    let mut engine = ThinkingEngine::new();
    engine.process_thought(ThoughtData::new("c".to_string(), 3, 3)).unwrap();
    engine.process_thought(ThoughtData::new("a".to_string(), 1, 3)).unwrap();
    assert_eq!(engine.get_thoughts()[0].thought_number, 3);
    assert_eq!(engine.get_thoughts()[1].thought_number, 1);
    assert_eq!(engine.get_progress().current_thought, 1);
    assert_eq!(engine.get_progress().completed_thoughts, 0);
}
