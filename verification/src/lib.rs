//! Verified core of the Jarvis runtime: routing rules, sandbox policy,
//! orchestration state machines and the pure decision logic behind them.

pub mod text;
pub mod sandbox;
pub mod tools;
pub mod agents;
pub mod registry;
pub mod sub_task;
pub mod synthesizer;
pub mod walkthrough;
pub mod task_tree;
pub mod workspace;
pub mod commands;
pub mod steer;
pub mod conversation;
pub mod tentacle;
pub mod activity;
pub mod artifact;
pub mod checkpoint;
pub mod interrupt;
pub mod verification;
pub mod regression;
pub mod handoff;
pub mod dispatch;
pub mod worker;
pub mod plugin;
pub mod mention;
pub mod intent;
pub mod session;
pub mod routing;
pub mod judge;
pub mod prompt;
