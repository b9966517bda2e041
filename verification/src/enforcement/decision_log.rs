//! How enforcement decisions are logged.

use vstd::prelude::*;
use vstd::string::*;

verus! {

/// The settings of the log of enforcement decisions.
#[derive(Debug)]
pub struct DecisionLogger {
    /// Whether decisions are only reported and not enforced.
    pub dry_run_mode: bool,
    /// Whether decisions are written to the log.
    pub log_enforcement_decisions: bool,
    /// The file that decisions are written to.
    pub enforcement_log_path: Option<String>,
}

impl DecisionLogger {
    /// A logger with the given settings.
    pub fn new(
        dry_run_mode: bool,
        log_enforcement_decisions: bool,
        enforcement_log_path: Option<String>,
    ) -> (logger: DecisionLogger)
        ensures
            logger.dry_run_mode == dry_run_mode,
            logger.log_enforcement_decisions == log_enforcement_decisions,
            logger.enforcement_log_path == enforcement_log_path,
    {
        DecisionLogger { dry_run_mode, log_enforcement_decisions, enforcement_log_path }
    }
}

} // verus!
