//! Shared vocabulary of the operator: modes, roles, directions, actions,
//! decision states and connector capabilities.
use vstd::prelude::*;

verus! {

/// The mode an operator request runs in.
#[derive(Debug, Clone, Copy, PartialEq, Eq, Structural)]
pub enum OperationalMode {
    Research,
    Backtest,
    Paper,
    Live,
}

/// How far a source is trusted.
#[derive(Debug, Clone, Copy, PartialEq, Eq, PartialOrd, Ord, Structural)]
pub enum TrustLevel {
    Low,
    Medium,
    High,
    Verified,
}

/// How a source record entered the system.
#[derive(Debug, Clone, Copy, PartialEq, Eq, Structural)]
pub enum IngestionMethod {
    Polling,
    Streaming,
    ScheduledCrawl,
    EventTrigger,
    BrowserAutomation,
    McpConnector,
    LocalImport,
}

/// The direction a view leans.
#[derive(Debug, Clone, Copy, PartialEq, Eq, Structural)]
pub enum Direction {
    Long,
    Short,
    Neutral,
}

/// The signed score of a direction: +1 long, -1 short, 0 neutral.
pub open spec fn direction_score(direction: Direction) -> int {
    match direction {
        Direction::Long => 1,
        Direction::Short => -1,
        Direction::Neutral => 0,
    }
}

impl Direction {
    /// The signed score of the direction (+1, -1 or 0); callers that weigh
    /// it in floating point use it as a whole number.
    pub fn score(&self) -> (s: i8)
        ensures
            s as int == direction_score(*self),
    {
        match self {
            Direction::Long => 1,
            Direction::Short => -1,
            Direction::Neutral => 0,
        }
    }
}

/// The name of a direction, as `{:?}` renders it.
pub open spec fn direction_name(direction: Direction) -> Seq<char> {
    match direction {
        Direction::Long => "Long"@,
        Direction::Short => "Short"@,
        Direction::Neutral => "Neutral"@,
    }
}

/// The name of a direction, as `{:?}` renders it.
pub fn direction_label(direction: Direction) -> (name: String)
    ensures
        name@ == direction_name(direction),
{
    match direction {
        Direction::Long => String::from_str("Long"),
        Direction::Short => String::from_str("Short"),
        Direction::Neutral => String::from_str("Neutral"),
    }
}

/// The name of a mode, as `{:?}` renders it.
pub open spec fn mode_name(mode: OperationalMode) -> Seq<char> {
    match mode {
        OperationalMode::Research => "Research"@,
        OperationalMode::Backtest => "Backtest"@,
        OperationalMode::Paper => "Paper"@,
        OperationalMode::Live => "Live"@,
    }
}

/// The name of a mode, as `{:?}` renders it.
pub fn mode_label(mode: OperationalMode) -> (name: String)
    ensures
        name@ == mode_name(mode),
{
    match mode {
        OperationalMode::Research => String::from_str("Research"),
        OperationalMode::Backtest => String::from_str("Backtest"),
        OperationalMode::Paper => String::from_str("Paper"),
        OperationalMode::Live => String::from_str("Live"),
    }
}

/// Each direction and each mode is named by its variant, as `{:?}` writes it.
pub proof fn lemma_names_are_variant_names()
    ensures
        direction_name(Direction::Long) == "Long"@,
        direction_name(Direction::Short) == "Short"@,
        direction_name(Direction::Neutral) == "Neutral"@,
        mode_name(OperationalMode::Research) == "Research"@,
        mode_name(OperationalMode::Backtest) == "Backtest"@,
        mode_name(OperationalMode::Paper) == "Paper"@,
        mode_name(OperationalMode::Live) == "Live"@,
{
}

/// The score of a direction: +1 for long, -1 for short, 0 for neutral.
pub proof fn lemma_direction_scores()
    ensures
        direction_score(Direction::Long) == 1,
        direction_score(Direction::Short) == -1,
        direction_score(Direction::Neutral) == 0,
{
}

/// The specialty of a model.
#[derive(Debug, Clone, Copy, PartialEq, Eq, PartialOrd, Ord, Structural)]
pub enum ModelRole {
    Reasoning,
    MarketStructure,
    SentimentNews,
    QuantPredictive,
    Risk,
    Fusion,
}

/// What a thesis recommends doing.
#[derive(Debug, Clone, Copy, PartialEq, Eq, Structural)]
pub enum ActionKind {
    Hold,
    Watch,
    OpenLong,
    OpenShort,
    Reduce,
    Close,
    Hedge,
}

/// The outcome of a risk evaluation.
#[derive(Debug, Clone, Copy, PartialEq, Eq, Structural)]
pub enum DecisionStatus {
    Approved,
    Rejected,
    RequiresHumanApproval,
    Staged,
}

/// How urgent an alert is.
#[derive(Debug, Clone, Copy, PartialEq, Eq, Structural)]
pub enum AlertSeverity {
    Info,
    Warning,
    Critical,
}

/// What a connector may do.
#[derive(Debug, Clone, Copy, PartialEq, Eq, Structural)]
pub enum ConnectorClass {
    ReadOnlyResearch,
    ExternalAction,
    TradingExecution,
    Admin,
}

/// The scopes, limits and isolation of one connector.
#[derive(Debug, Clone)]
pub struct ConnectorCapability {
    pub connector_id: String,
    pub class: ConnectorClass,
    pub scopes: Vec<String>,
    pub rate_limit_per_minute: u32,
    pub dry_run_supported: bool,
    pub session_isolation: String,
}

/// A chat message from the operator.
#[derive(Debug, Clone)]
pub struct ChatRequest {
    pub actor: String,
    pub mode: OperationalMode,
    pub market: String,
    pub message: String,
    pub watchlist: Vec<String>,
}

} // verus!
