//! The configuration record of the node, and its defaults.

use vstd::prelude::*;

verus! {

/// Prices asked for the node's resources, in cents.
#[derive(Debug, Clone, Copy, PartialEq, Eq)]
pub struct PricingConfig {
    pub gpu_hour_cents: u32,
    pub cpu_core_hour_cents: u32,
    pub memory_gb_hour_cents: u32,
    pub minimum_cents: u32,
}

/// The operator's configuration of the node. It is stored and replaced as a
/// whole; the resource caps are handed on to the node and not enforced here.
#[derive(Debug, Clone, PartialEq, Eq)]
pub struct NodeSettings {
    /// Endpoint the node-agent reports to.
    pub orchestrator_url: String,
    pub auto_start: bool,
    pub start_minimized: bool,
    /// Payout identity; any text is accepted.
    pub wallet_address: String,
    pub max_concurrent_jobs: u32,
    pub max_memory_percent: u32,
    pub pricing: PricingConfig,
}

/// Mathematical value of a [`NodeSettings`] record.
pub struct NodeSettingsView {
    pub orchestrator_url: Seq<char>,
    pub auto_start: bool,
    pub start_minimized: bool,
    pub wallet_address: Seq<char>,
    pub max_concurrent_jobs: u32,
    pub max_memory_percent: u32,
    pub pricing: PricingConfig,
}

impl View for NodeSettings {
    type V = NodeSettingsView;

    open spec fn view(&self) -> NodeSettingsView {
        NodeSettingsView {
            orchestrator_url: self.orchestrator_url@,
            auto_start: self.auto_start,
            start_minimized: self.start_minimized,
            wallet_address: self.wallet_address@,
            max_concurrent_jobs: self.max_concurrent_jobs,
            max_memory_percent: self.max_memory_percent,
            pricing: self.pricing,
        }
    }
}

impl DeepView for NodeSettings {
    type V = NodeSettingsView;

    open spec fn deep_view(&self) -> NodeSettingsView {
        self@
    }
}

impl PricingConfig {
    /// The prices of a fresh installation.
    pub open spec fn initial() -> PricingConfig {
        PricingConfig {
            gpu_hour_cents: 50,
            cpu_core_hour_cents: 1,
            memory_gb_hour_cents: 1,
            minimum_cents: 1,
        }
    }
}

impl NodeSettingsView {
    /// The record of a fresh installation: a local orchestrator, no wallet,
    /// four concurrent jobs, 80 percent of memory, the initial prices.
    pub open spec fn initial() -> NodeSettingsView {
        NodeSettingsView {
            orchestrator_url: "http://localhost:8080"@,
            auto_start: false,
            start_minimized: false,
            wallet_address: Seq::<char>::empty(),
            max_concurrent_jobs: 4,
            max_memory_percent: 80,
            pricing: PricingConfig::initial(),
        }
    }
}

impl Default for NodeSettings {
    fn default() -> (settings: NodeSettings)
        ensures
            settings@ == NodeSettingsView::initial(),
    {
        NodeSettings {
            orchestrator_url: "http://localhost:8080".to_owned(),
            auto_start: false,
            start_minimized: false,
            wallet_address: String::new(),
            max_concurrent_jobs: 4,
            max_memory_percent: 80,
            pricing: PricingConfig {
                gpu_hour_cents: 50,
                cpu_core_hour_cents: 1,
                memory_gb_hour_cents: 1,
                minimum_cents: 1,
            },
        }
    }
}

} // verus!
