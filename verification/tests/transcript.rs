use ultrafast_mcp_sequential_thinking::thinking::transcript::session_transcript;
use ultrafast_mcp_sequential_thinking::thinking::transcript::stats_lines;
use ultrafast_mcp_sequential_thinking::thinking::transcript::thought_part;
use ultrafast_mcp_sequential_thinking::thinking::transcript::SessionFields;
use ultrafast_mcp_sequential_thinking::thinking::transcript::StatsFields;
use ultrafast_mcp_sequential_thinking::thinking::transcript::ThoughtFields;

fn counters() -> StatsFields {
    StatsFields {
        total_thoughts: "3".to_string(),
        total_revisions: "1".to_string(),
        total_branches: "null".to_string(),
        avg_processing_time_ms: "0.5".to_string(),
    }
}

#[test]
fn a_thought_with_all_fields() {
    let thought = ThoughtFields {
        thought_number: Some(2),
        total_thoughts: Some(5),
        thought: Some("Look again".to_string()),
        is_revision: Some(true),
        branches_off: true,
    };
    assert_eq!(
        thought_part(&thought),
        "### Thought 2/5\n\nLook again\n\n\
         *This thought revises a previous thought*\n\n*This thought is a branch*\n\n"
    );
}

#[test]
fn a_thought_without_fields() {
    let thought = ThoughtFields {
        thought_number: None,
        total_thoughts: None,
        thought: None,
        is_revision: None,
        branches_off: false,
    };
    assert_eq!(thought_part(&thought), "### Thought 0/0\n\n\n\n");

    let unflagged = ThoughtFields {
        thought_number: Some(18446744073709551615),
        total_thoughts: Some(1),
        thought: Some("x".to_string()),
        is_revision: Some(false),
        branches_off: false,
    };
    assert_eq!(thought_part(&unflagged), "### Thought 18446744073709551615/1\n\nx\n\n");
}

#[test]
fn the_lines_of_the_counters() {
    assert_eq!(
        stats_lines(&counters()),
        "- Total Thoughts: 3\n- Total Revisions: 1\n- Total Branches: null\n\
         - Average Processing Time: 0.5ms\n"
    );
}

#[test]
fn a_whole_transcript() {
    let session = SessionFields {
        session_id: Some("s1".to_string()),
        thoughts: Some(vec![
            ThoughtFields {
                thought_number: Some(1),
                total_thoughts: Some(2),
                thought: Some("First".to_string()),
                is_revision: None,
                branches_off: false,
            },
            ThoughtFields {
                thought_number: Some(2),
                total_thoughts: Some(2),
                thought: Some("Second".to_string()),
                is_revision: None,
                branches_off: true,
            },
        ]),
        stats: Some(counters()),
    };
    assert_eq!(
        session_transcript(&session),
        "# Sequential Thinking Session\n\n**Session ID:** s1\n\n## Thoughts\n\n\
         ### Thought 1/2\n\nFirst\n\n### Thought 2/2\n\nSecond\n\n*This thought is a branch*\n\n\
         ## Statistics\n\n- Total Thoughts: 3\n- Total Revisions: 1\n- Total Branches: null\n\
         - Average Processing Time: 0.5ms\n"
    );
}

#[test]
fn a_transcript_of_nothing() {
    let session = SessionFields { session_id: None, thoughts: None, stats: None };
    assert_eq!(
        session_transcript(&session),
        "# Sequential Thinking Session\n\n## Thoughts\n\n## Statistics\n\n"
    );
    let empty = SessionFields { session_id: None, thoughts: Some(Vec::new()), stats: None };
    assert_eq!(session_transcript(&empty), session_transcript(&session));
}
