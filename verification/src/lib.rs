//! Contract logic of the PulsarTrack advertising platform: each module holds
//! the state of one contract and the operations that change it.
pub mod common;
pub mod admin;
pub mod subscription_manager;
pub mod campaign_lifecycle;
pub mod liquidity_pool;
pub mod campaign_orchestrator;
pub mod fraud_prevention;
pub mod anomaly_detector;
pub mod rewards_distributor;
pub mod wrapped_token;
pub mod token_bridge;
pub mod creative_marketplace;
pub mod recurring_payment;
pub mod performance_oracle;
pub mod publisher_verification;
pub mod audience_segments;
pub mod targeting_engine;
pub mod oracle_integration;
pub mod campaign_analytics;
