//! Verified core of the xedio data plane and the kuberic operator: the node
//! maintenance phase rules and status model, the maintenance controller's
//! decisions, replica-set configuration tracking, leader election decisions
//! and the request handling rules of the data application.
pub mod maintenance_api;
pub mod maintenance_status;
pub mod maintenance_controller;
pub mod maintenance_requests;
pub mod replication;
pub mod greeter;
pub mod leader;
pub mod storage;
pub mod primary;
pub mod repl_mgr;
