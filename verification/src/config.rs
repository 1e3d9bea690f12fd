//! Capture settings.

use vstd::prelude::*;

verus! {

/// Settings of the capture facility, fixed for the duration of one capture.
pub struct DebugLoggingConfig {
    /// Whether captures are taken at all.
    pub enabled: bool,
    /// Directory that receives the capture files, if one is configured.
    pub output_dir: Option<String>,
}

/// Whether captures are switched on.
pub fn is_enabled(cfg: &DebugLoggingConfig) -> (enabled: bool)
    ensures
        enabled == cfg.enabled,
{
    cfg.enabled
}

} // verus!
