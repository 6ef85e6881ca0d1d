//! Verified core of the trading operator: the risk gate, model fusion
//! decisions, heuristic model views, approved-source connectors, the
//! tamper-evident audit chain, execution staging and the orchestrator's
//! request decisions.
pub mod audit;
pub mod connectors;
pub mod desktop;
pub mod digest;
pub mod domain;
pub mod execution;
pub mod fusion;
pub mod model_router;
pub mod orchestrator;
pub mod risk;
pub mod text;

pub use audit::AuditChain;
pub use connectors::{ConnectorCapabilityRegistry, StaticSourceCrawler};
pub use domain::{
    ActionKind, AlertSeverity, ChatRequest, ConnectorCapability, ConnectorClass, DecisionStatus,
    Direction, IngestionMethod, ModelRole, OperationalMode, TrustLevel,
};
pub use fusion::FusionEngine;
pub use model_router::{AnalysisRequest, HeuristicModelAdapter};
pub use risk::{RiskEngine, RiskPolicyConfig};
