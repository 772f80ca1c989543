use vstd::prelude::*;

verus! {

/// Platform reported in every payload of a tracker.
pub const TRACKER_PLATFORM: &'static str = "pc";

/// Tracker version reported in every payload.
pub const TRACKER_VERSION: &'static str = "rust-0.1.0";

/// Fixed settings of a tracker.
#[derive(Debug, Clone)]
pub struct TrackerConfig {
    pub platform: String,
    pub version: String,
    pub encode_base_64: bool,
}

impl TrackerConfig {
    /// The settings every tracker starts with: platform `pc`, this
    /// version, no base64 encoding.
    pub fn standard() -> (r: TrackerConfig)
        ensures
            r.platform@ == TRACKER_PLATFORM@,
            r.version@ == TRACKER_VERSION@,
            !r.encode_base_64,
    {
        TrackerConfig {
            platform: TRACKER_PLATFORM.to_owned(),
            version: TRACKER_VERSION.to_owned(),
            encode_base_64: false,
        }
    }
}

/// No tracker is registered under this app id and namespace.
#[derive(Debug, Clone)]
pub struct NoSuchTracker {
    pub app_id: String,
    pub namespace: String,
}

} // verus!
