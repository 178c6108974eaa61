//! The counting part of the analysis of sessions: the style of thinking,
//! the patterns, and the thoughts whose length stands out.

use crate::ratio::Ratio;
use crate::thinking::engine::count_branching;
use crate::thinking::engine::count_revisions;
use crate::thinking::engine::lemma_count_branching_bound;
use crate::thinking::engine::lemma_count_revisions_bound;
use crate::thinking::render::capped_byte_length;
use crate::thinking::thought_views;
use crate::thinking::ThoughtData;
use crate::thinking::ThoughtDataView;
use vstd::prelude::*;

verus! {

/// How an analytics engine works.
#[derive(Debug)]
pub struct AnalyticsConfig {
    /// Whether analytics are sent.
    pub enabled: bool,
    /// Where analytics are sent.
    pub endpoint: String,
    /// The key for that place.
    pub api_key: Option<String>,
    /// The time between two collections, in seconds.
    pub collection_interval: u64,
    /// Whether detailed metrics are collected.
    pub detailed_metrics: bool,
    /// How long metrics are kept, in days.
    pub retention_days: u32,
    /// Whether names are taken out of the data.
    pub anonymize_data: bool,
    /// Whether the analytics are exported.
    pub export_analytics: bool,
}

/// What a [`AnalyticsConfig`] holds, as mathematical values.
pub struct AnalyticsConfigView {
    pub enabled: bool,
    pub endpoint: Seq<char>,
    pub api_key: Option<Seq<char>>,
    pub collection_interval: u64,
    pub detailed_metrics: bool,
    pub retention_days: u32,
    pub anonymize_data: bool,
    pub export_analytics: bool,
}

impl View for AnalyticsConfig {
    type V = AnalyticsConfigView;

    open spec fn view(&self) -> AnalyticsConfigView {
        AnalyticsConfigView {
            enabled: self.enabled,
            endpoint: self.endpoint@,
            api_key: match self.api_key {
                Some(text) => Some(text@),
                None => None,
            },
            collection_interval: self.collection_interval,
            detailed_metrics: self.detailed_metrics,
            retention_days: self.retention_days,
            anonymize_data: self.anonymize_data,
            export_analytics: self.export_analytics,
        }
    }
}

impl AnalyticsConfigView {
    /// No analytics are sent, nothing is taken out, nothing is exported.
    pub open spec fn standard() -> AnalyticsConfigView {
        AnalyticsConfigView {
            enabled: false,
            endpoint: "http://localhost:9090"@,
            api_key: None,
            collection_interval: 60,
            detailed_metrics: true,
            retention_days: 30,
            anonymize_data: false,
            export_analytics: false,
        }
    }
}

impl Default for AnalyticsConfig {
    /// No analytics are sent, nothing is taken out, nothing is exported.
    fn default() -> (c: Self)
        ensures
            c@ == AnalyticsConfigView::standard(),
    {
        AnalyticsConfig {
            enabled: false,
            endpoint: "http://localhost:9090".to_string(),
            api_key: None,
            collection_interval: 60,
            detailed_metrics: true,
            retention_days: 30,
            anonymize_data: false,
            export_analytics: false,
        }
    }
}

impl Clone for AnalyticsConfig {
    /// A copy that holds what `self` holds.
    fn clone(&self) -> (copy: Self)
        ensures
            copy@ == self@,
    {
        AnalyticsConfig {
            enabled: self.enabled,
            endpoint: self.endpoint.clone(),
            api_key: match &self.api_key {
                Some(text) => Some(text.clone()),
                None => None,
            },
            collection_interval: self.collection_interval,
            detailed_metrics: self.detailed_metrics,
            retention_days: self.retention_days,
            anonymize_data: self.anonymize_data,
            export_analytics: self.export_analytics,
        }
    }
}

/// How the length of the thoughts changes over a session.
#[derive(Debug, Clone, Copy, PartialEq, Eq, Structural)]
pub enum ComplexityTrend {
    Increasing,
    Decreasing,
    Stable,
    Variable,
}

/// The style of thinking that a session shows.
#[derive(Debug, Clone, Copy, PartialEq, Eq, Structural)]
pub enum ThinkingStyle {
    Linear,
    Iterative,
    Exploratory,
    Analytical,
    Creative,
    Mixed,
}

/// How much a bottleneck weighs.
#[derive(Debug, Clone, Copy, PartialEq, Eq, Structural)]
pub enum ImpactLevel {
    Low,
    Medium,
    High,
    Critical,
}

/// How much an issue weighs.
#[derive(Debug, Clone, Copy, PartialEq, Eq, Structural)]
pub enum Severity {
    Minor,
    Moderate,
    Major,
    Critical,
}

/// How urgent a recommendation is.
#[derive(Debug, Clone, Copy, PartialEq, Eq, Structural)]
pub enum Priority {
    Low,
    Medium,
    High,
    Critical,
}

/// How hard a recommendation is to follow.
#[derive(Debug, Clone, Copy, PartialEq, Eq, Structural)]
pub enum Difficulty {
    Easy,
    Medium,
    Hard,
    VeryHard,
}

/// Something that slows a session down.
#[derive(Debug)]
pub struct Bottleneck {
    /// The kind of bottleneck.
    pub bottleneck_type: String,
    /// What it is.
    pub description: String,
    /// How much it weighs.
    pub impact_level: ImpactLevel,
    /// What may help.
    pub suggested_solution: String,
}

/// Something that is wrong with thoughts of a session.
#[derive(Debug)]
pub struct QualityIssue {
    /// The kind of issue.
    pub issue_type: String,
    /// What it is.
    pub description: String,
    /// How much it weighs.
    pub severity: Severity,
    /// The places of the thoughts in the log, counted from one.
    pub affected_thoughts: Vec<u32>,
}

/// What a [`QualityIssue`] holds, as mathematical values.
pub struct QualityIssueView {
    pub issue_type: Seq<char>,
    pub description: Seq<char>,
    pub severity: Severity,
    pub affected_thoughts: Seq<u32>,
}

impl View for QualityIssue {
    type V = QualityIssueView;

    open spec fn view(&self) -> QualityIssueView {
        QualityIssueView {
            issue_type: self.issue_type@,
            description: self.description@,
            severity: self.severity,
            affected_thoughts: self.affected_thoughts@,
        }
    }
}

/// Something that may make sessions better.
#[derive(Debug)]
pub struct Recommendation {
    /// The kind of recommendation.
    pub recommendation_type: String,
    /// What it is.
    pub description: String,
    /// How urgent it is.
    pub priority: Priority,
    /// What it is expected to bring.
    pub expected_impact: String,
    /// How hard it is to follow.
    pub implementation_difficulty: Difficulty,
}

/// A pattern that a session shows.
#[derive(Debug)]
pub struct Pattern {
    /// The kind of pattern.
    pub pattern_type: String,
    /// What it is.
    pub description: String,
    /// How often it shows, cut to its low 32 bits.
    pub frequency: u32,
    /// How sure the finding is, as a part of one.
    pub confidence: Ratio,
}

/// What a [`Pattern`] holds, as mathematical values.
pub struct PatternView {
    pub pattern_type: Seq<char>,
    pub description: Seq<char>,
    pub frequency: u32,
    pub confidence: Ratio,
}

impl View for Pattern {
    type V = PatternView;

    open spec fn view(&self) -> PatternView {
        PatternView {
            pattern_type: self.pattern_type@,
            description: self.description@,
            frequency: self.frequency,
            confidence: self.confidence,
        }
    }
}

/// The views of a list of patterns.
pub open spec fn pattern_views(patterns: Seq<Pattern>) -> Seq<PatternView> {
    Seq::new(patterns.len(), |i: int| patterns[i]@)
}

/// The views of a list of issues.
pub open spec fn issue_views(issues: Seq<QualityIssue>) -> Seq<QualityIssueView> {
    Seq::new(issues.len(), |i: int| issues[i]@)
}

/// The style of thinking of a log with `total` thoughts, of which
/// `revisions` are revisions and `branches` branch off: iterative where more
/// than a third are revisions, else exploratory where more than a fourth
/// branch off, else linear where there is neither, else analytical where the
/// log holds more than ten thoughts, else mixed. The parts are whole
/// quotients.
pub open spec fn style_of(total: nat, revisions: nat, branches: nat) -> ThinkingStyle {
    if revisions > total / 3 {
        ThinkingStyle::Iterative
    } else if branches > total / 4 {
        ThinkingStyle::Exploratory
    } else if revisions == 0 && branches == 0 {
        ThinkingStyle::Linear
    } else if total > 10 {
        ThinkingStyle::Analytical
    } else {
        ThinkingStyle::Mixed
    }
}

/// The numbers of revisions and of branching thoughts in a log.
pub fn count_kinds(thoughts: &[ThoughtData]) -> (counts: (usize, usize))
    ensures
        counts.0 == count_revisions(thought_views(thoughts@)),
        counts.1 == count_branching(thought_views(thoughts@)),
{
    let ghost log = thought_views(thoughts@);
    let mut revisions: usize = 0;
    let mut branches: usize = 0;
    let mut i: usize = 0;
    assert(log.subrange(0, 0) =~= Seq::<ThoughtDataView>::empty());
    while i < thoughts.len()
        invariant
            i <= thoughts@.len(),
            log == thought_views(thoughts@),
            revisions == count_revisions(log.subrange(0, i as int)),
            branches == count_branching(log.subrange(0, i as int)),
        decreases thoughts@.len() - i,
    {
        proof {
            assert(log.subrange(0, i + 1).drop_last() =~= log.subrange(0, i as int));
            assert(log.subrange(0, i + 1).last() == thoughts@[i as int]@);
            lemma_count_revisions_bound(log.subrange(0, i as int));
            lemma_count_branching_bound(log.subrange(0, i as int));
        }
        if thoughts[i].is_revision() {
            revisions = revisions + 1;
        }
        if thoughts[i].is_branch() {
            branches = branches + 1;
        }
        i += 1;
    }
    assert(log.subrange(0, thoughts@.len() as int) =~= log);
    (revisions, branches)
}

/// The style of thinking that a log shows.
pub fn classify_thinking_style(thoughts: &[ThoughtData]) -> (style: ThinkingStyle)
    ensures
        style == style_of(
            thoughts@.len(),
            count_revisions(thought_views(thoughts@)),
            count_branching(thought_views(thoughts@)),
        ),
{
    let counts = count_kinds(thoughts);
    let revisions = counts.0;
    let branches = counts.1;
    let total = thoughts.len();
    if revisions > total / 3 {
        ThinkingStyle::Iterative
    } else if branches > total / 4 {
        ThinkingStyle::Exploratory
    } else if revisions == 0 && branches == 0 {
        ThinkingStyle::Linear
    } else if total > 10 {
        ThinkingStyle::Analytical
    } else {
        ThinkingStyle::Mixed
    }
}

/// The low 32 bits of a count.
pub open spec fn low_count(n: nat) -> u32 {
    (n % 0x1_0000_0000) as u32
}

/// The pattern of frequent revisions, which a log shows where more than a
/// fourth of its thoughts are revisions.
pub open spec fn frequent_revisions(revisions: nat) -> PatternView {
    PatternView {
        pattern_type: "frequent_revisions"@,
        description: "High frequency of thought revisions"@,
        frequency: low_count(revisions),
        confidence: Ratio { numerator: 8, denominator: 10 },
    }
}

/// The pattern of exploration by branches, which a log shows where more
/// than a fifth of its thoughts branch off.
pub open spec fn branching_exploration(branches: nat) -> PatternView {
    PatternView {
        pattern_type: "branching_exploration"@,
        description: "Exploratory thinking with multiple branches"@,
        frequency: low_count(branches),
        confidence: Ratio { numerator: 7, denominator: 10 },
    }
}

/// The pattern of linear progress, which a log of more than three thoughts
/// shows where it holds neither revisions nor branching thoughts.
pub open spec fn linear_progression(total: nat) -> PatternView {
    PatternView {
        pattern_type: "linear_progression"@,
        description: "Straightforward linear thinking process"@,
        frequency: low_count(total),
        confidence: Ratio { numerator: 9, denominator: 10 },
    }
}

/// The patterns of a log with `total` thoughts, of which `revisions` are
/// revisions and `branches` branch off, in the order in which they are
/// looked for.
pub open spec fn patterns_of(total: nat, revisions: nat, branches: nat) -> Seq<PatternView> {
    (if revisions > total / 4 {
        seq![frequent_revisions(revisions)]
    } else {
        Seq::empty()
    }) + (if branches > total / 5 {
        seq![branching_exploration(branches)]
    } else {
        Seq::empty()
    }) + (if revisions == 0 && branches == 0 && total > 3 {
        seq![linear_progression(total)]
    } else {
        Seq::empty()
    })
}

/// The low 32 bits of a count.
fn low(n: usize) -> (r: u32)
    ensures
        r == low_count(n as nat),
{
    ((n as u64) % 0x1_0000_0000) as u32
}

/// The patterns that a log shows.
pub fn identify_patterns(thoughts: &[ThoughtData]) -> (patterns: Vec<Pattern>)
    ensures
        pattern_views(patterns@) == patterns_of(
            thoughts@.len(),
            count_revisions(thought_views(thoughts@)),
            count_branching(thought_views(thoughts@)),
        ),
{
    let counts = count_kinds(thoughts);
    let revisions = counts.0;
    let branches = counts.1;
    let total = thoughts.len();
    let mut patterns: Vec<Pattern> = Vec::new();
    assert(pattern_views(patterns@) =~= Seq::<PatternView>::empty());
    if revisions > total / 4 {
        let ghost before = pattern_views(patterns@);
        patterns.push(
            Pattern {
                pattern_type: "frequent_revisions".to_string(),
                description: "High frequency of thought revisions".to_string(),
                frequency: low(revisions),
                confidence: Ratio::new(8, 10),
            },
        );
        assert(pattern_views(patterns@) =~= before + seq![frequent_revisions(revisions as nat)]);
    }
    if branches > total / 5 {
        let ghost before = pattern_views(patterns@);
        patterns.push(
            Pattern {
                pattern_type: "branching_exploration".to_string(),
                description: "Exploratory thinking with multiple branches".to_string(),
                frequency: low(branches),
                confidence: Ratio::new(7, 10),
            },
        );
        assert(pattern_views(patterns@) =~= before + seq![branching_exploration(branches as nat)]);
    }
    if revisions == 0 && branches == 0 && total > 3 {
        let ghost before = pattern_views(patterns@);
        patterns.push(
            Pattern {
                pattern_type: "linear_progression".to_string(),
                description: "Straightforward linear thinking process".to_string(),
                frequency: low(total),
                confidence: Ratio::new(9, 10),
            },
        );
        assert(pattern_views(patterns@) =~= before + seq![linear_progression(total as nat)]);
    }
    assert(pattern_views(patterns@) =~= patterns_of(
        total as nat,
        revisions as nat,
        branches as nat,
    ));
    patterns
}

/// The issue of a thought that is too short, at the place `place` of the
/// log.
pub open spec fn short_thought(place: u32) -> QualityIssueView {
    QualityIssueView {
        issue_type: "short_thought"@,
        description: "Thought is too short"@,
        severity: Severity::Minor,
        affected_thoughts: seq![place],
    }
}

/// The issue of a thought that is too long, at the place `place` of the
/// log.
pub open spec fn long_thought(place: u32) -> QualityIssueView {
    QualityIssueView {
        issue_type: "long_thought"@,
        description: "Thought is too long"@,
        severity: Severity::Moderate,
        affected_thoughts: seq![place],
    }
}

/// The issues of the lengths of a log, in the order of the log: a thought
/// of fewer than ten bytes is too short, one of more than a thousand is too
/// long. Places are counted from one.
pub open spec fn length_issues(log: Seq<ThoughtDataView>) -> Seq<QualityIssueView>
    decreases log.len(),
{
    if log.len() == 0 {
        Seq::empty()
    } else {
        let length = capped_byte_length(log.last().thought);
        let place = log.len() as u32;
        length_issues(log.drop_last()) + (if length < 10 {
            seq![short_thought(place)]
        } else {
            Seq::empty()
        }) + (if length > 1000 {
            seq![long_thought(place)]
        } else {
            Seq::empty()
        })
    }
}

/// The thoughts of a log whose length stands out. The places of a log fit
/// in 32 bits.
pub fn identify_quality_issues(thoughts: &[ThoughtData]) -> (issues: Vec<QualityIssue>)
    requires
        thoughts@.len() <= u32::MAX,
    ensures
        issue_views(issues@) == length_issues(thought_views(thoughts@)),
{
    let ghost log = thought_views(thoughts@);
    let mut issues: Vec<QualityIssue> = Vec::new();
    let mut i: usize = 0;
    assert(log.subrange(0, 0) =~= Seq::<ThoughtDataView>::empty());
    assert(issue_views(issues@) =~= Seq::<QualityIssueView>::empty());
    while i < thoughts.len()
        invariant
            i <= thoughts@.len(),
            thoughts@.len() <= u32::MAX,
            log == thought_views(thoughts@),
            issue_views(issues@) == length_issues(log.subrange(0, i as int)),
        decreases thoughts@.len() - i,
    {
        proof {
            assert(log.subrange(0, i + 1).drop_last() =~= log.subrange(0, i as int));
            assert(log.subrange(0, i + 1).last() == thoughts@[i as int]@);
        }
        let ghost earlier = issue_views(issues@);
        let length = thoughts[i].thought.as_str().as_bytes().len();
        let place: u32 = (i + 1) as u32;
        if length < 10 {
            let mut affected: Vec<u32> = Vec::new();
            affected.push(place);
            let ghost before = issue_views(issues@);
            issues.push(
                QualityIssue {
                    issue_type: "short_thought".to_string(),
                    description: "Thought is too short".to_string(),
                    severity: Severity::Minor,
                    affected_thoughts: affected,
                },
            );
            assert(affected@ =~= seq![place]);
            assert(issue_views(issues@) =~= before + seq![short_thought(place)]);
        }
        if length > 1000 {
            let mut affected: Vec<u32> = Vec::new();
            affected.push(place);
            let ghost before = issue_views(issues@);
            issues.push(
                QualityIssue {
                    issue_type: "long_thought".to_string(),
                    description: "Thought is too long".to_string(),
                    severity: Severity::Moderate,
                    affected_thoughts: affected,
                },
            );
            assert(affected@ =~= seq![place]);
            assert(issue_views(issues@) =~= before + seq![long_thought(place)]);
        }
        assert(issue_views(issues@) =~= length_issues(log.subrange(0, i + 1)));
        i += 1;
    }
    assert(log.subrange(0, thoughts@.len() as int) =~= log);
    issues
}

} // verus!
