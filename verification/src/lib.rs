//! Netbench orchestration: the Russula coordination protocols between a
//! coordinator and its workers, the wire format they speak, and the command
//! and configuration logic that drives netbench runs on remote hosts.

pub mod cli;
pub mod coordination_utils;
pub mod dashboard;
pub mod duration;
pub mod ec2_utils;
pub mod error;
pub mod report;
pub mod russula;
pub mod ssm_utils;
pub mod state;
pub mod text;
