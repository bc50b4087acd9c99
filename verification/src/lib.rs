//! Scheduled synchronisation of vulnerability feeds: validated task models,
//! a plugin registry, the Wiz feed's request and record mapping, and the
//! decision logic of the synchronisation scheduler.

pub mod text;
pub mod vuln_information;
pub mod sync_data_task;
pub mod vuln_plugin;
pub mod wiz;
pub mod scheduler;
