//! Device and tenant identity for sync.
//!
//! The device id is generated once per install and persisted, so it stays
//! the same across restarts; the tenant comes from the configuration. Both
//! are stamped onto every record and every queue row.

use crate::config::AppConfig;
use crate::sync::ids::{hyphenated_hex, is_v4_uuid, new_uuid};
use vstd::prelude::*;

verus! {

/// Who this install is, as the server sees it.
#[derive(Debug, Clone)]
pub struct Identity {
    pub device_id: String,
    pub tenant_id: String,
    pub device_token: String,
}

impl Identity {
    /// The identity of a device with the given id under `config`.
    pub fn from_config(device_id: String, config: &AppConfig) -> (r: Self)
        ensures
            r.device_id == device_id,
            r.tenant_id == config.tenant_id,
            r.device_token == config.device_token,
    {
        Identity {
            device_id,
            tenant_id: config.tenant_id.clone(),
            device_token: config.device_token.clone(),
        }
    }
}

/// Where the device id comes from.
#[derive(Debug, Clone)]
pub enum DeviceIdPlan {
    /// An id is already stored: use it.
    Stored(String),
    /// None is stored: store this fresh one if no other writer stored one
    /// first, then read back whichever is stored.
    Fresh(String),
}

/// Decides the device id from the stored one, if any: a stored id is kept
/// for good; only when none is stored is a fresh random one proposed.
pub fn plan_device_id(stored: Option<String>) -> (r: DeviceIdPlan)
    ensures
        stored matches Some(s) ==> r == DeviceIdPlan::Stored(s),
        stored is None ==> (r matches DeviceIdPlan::Fresh(id) && exists|b: Seq<u8>|
            is_v4_uuid(b) && #[trigger] hyphenated_hex(b) == id@),
{
    match stored {
        Some(s) => DeviceIdPlan::Stored(s),
        None => DeviceIdPlan::Fresh(new_uuid()),
    }
}

} // verus!
