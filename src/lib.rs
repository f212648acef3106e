//! Logic of a bridge that republishes numeric NetworkTables entries as
//! retained MQTT messages, and keeps the table connection alive.

pub mod cli;
pub mod entry;
pub mod link;
pub mod mailbox;
pub mod publish;
pub mod topic;
