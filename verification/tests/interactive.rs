use ultrafast_mcp_sequential_thinking::interactive::head_end;
use ultrafast_mcp_sequential_thinking::interactive::parse_command;
use ultrafast_mcp_sequential_thinking::interactive::parse_trimmed;
use ultrafast_mcp_sequential_thinking::interactive::Command;
use ultrafast_mcp_sequential_thinking::interactive::Counters;
use ultrafast_mcp_sequential_thinking::interactive::UsageOf;
use ultrafast_mcp_sequential_thinking::thinking::ThoughtData;

#[test]
fn a_blank_line_asks_for_nothing() {
    assert_eq!(parse_command(""), Command::Nothing);
    assert_eq!(parse_command("  \t \n"), Command::Nothing);
    assert_eq!(parse_trimmed(""), Command::Nothing);
}

#[test]
fn think_takes_what_follows_the_first_space() {
    assert_eq!(
        parse_command("think a first idea\n"),
        Command::Think { content: "a first idea".to_string() }
    );
    assert_eq!(
        parse_command("  THINK   spaced out  "),
        Command::Think { content: "  spaced out".to_string() }
    );
    assert_eq!(parse_command("think"), Command::Usage { of: UsageOf::Think });
    assert_eq!(parse_command("think\n"), Command::Usage { of: UsageOf::Think });
}

#[test]
fn revise_and_branch_explain_their_use() {
    assert_eq!(parse_command("revise 1 better"), Command::Usage { of: UsageOf::Revise });
    assert_eq!(parse_command("revise"), Command::Usage { of: UsageOf::Revise });
    assert_eq!(parse_command("branch 1 alt other way"), Command::Usage { of: UsageOf::Branch });
    assert_eq!(UsageOf::Think.text(), "Usage: think <content>");
    assert_eq!(UsageOf::Revise.text(), "Usage: revise <number> <content>");
    assert_eq!(UsageOf::Branch.text(), "Usage: branch <from> <id> <content>");
}

#[test]
fn the_other_commands() {
    assert_eq!(parse_command("progress"), Command::Progress);
    assert_eq!(parse_command("Stats now"), Command::Stats);
    assert_eq!(parse_command("export"), Command::Export { format: "json".to_string() });
    assert_eq!(
        parse_command("export markdown"),
        Command::Export { format: "markdown".to_string() }
    );
    assert_eq!(parse_command("quit"), Command::Quit);
    assert_eq!(parse_command("EXIT"), Command::Quit);
    assert_eq!(parse_command("help me"), Command::Help);
    assert_eq!(parse_command("Dance now"), Command::Unknown { word: "dance".to_string() });
    assert_eq!(
        parse_command("think\tnot a space"),
        Command::Unknown { word: "think\tnot".to_string() }
    );
    assert_eq!(parse_command("é è"), Command::Unknown { word: "é".to_string() });
}

#[test]
fn the_head_ends_at_the_first_space() {
    assert_eq!(head_end(""), 0);
    assert_eq!(head_end("word"), 4);
    assert_eq!(head_end("two words"), 3);
    assert_eq!(head_end(" lead"), 0);
    assert_eq!(head_end("héé x"), 3);
}

#[test]
fn counters_follow_the_thoughts() {
    let mut counters = Counters::start();
    assert_eq!(counters, Counters { thought_number: 1, total_thoughts: 5 });

    let thought = counters.next_thought("One".to_string());
    assert_eq!(thought.thought, "One");
    assert_eq!(thought.thought_number, 1);
    assert_eq!(thought.total_thoughts, 5);
    assert!(thought.next_thought_needed);
    assert!(thought.timestamp.is_some());
    assert!(!thought.is_revision());
    assert!(!thought.is_branch());

    counters.advance(&thought);
    assert_eq!(counters, Counters { thought_number: 2, total_thoughts: 5 });

    let larger = ThoughtData::new("Seven".to_string(), 7, 7);
    counters.advance(&larger);
    assert_eq!(counters, Counters { thought_number: 3, total_thoughts: 7 });

    let smaller = ThoughtData::new("Small".to_string(), 1, 2);
    counters.advance(&smaller);
    assert_eq!(counters, Counters { thought_number: 4, total_thoughts: 7 });
}
