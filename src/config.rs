use vstd::prelude::*;
use crate::storage::StorageConfig;

verus! {

/// Identification of the keyboard on the remote configuration channel.
#[derive(Clone, Copy, Debug)]
pub struct VialConfig {
    pub vial_keyboard_id: &'static [u8],
    pub vial_keyboard_def: &'static [u8],
}

impl VialConfig {
    pub fn new(vial_keyboard_id: &'static [u8], vial_keyboard_def: &'static [u8]) -> (r: VialConfig)
        ensures
            r.vial_keyboard_id@ == vial_keyboard_id@,
            r.vial_keyboard_def@ == vial_keyboard_def@,
    {
        VialConfig { vial_keyboard_id, vial_keyboard_def }
    }
}

/// The configuration groups of the keyboard: transport settings `U`, status
/// settings `L`, the configuration channel's identification and the
/// persistence parameters.
pub struct RmkConfig<U, L> {
    pub usb_config: U,
    pub light_config: L,
    pub vial_config: VialConfig,
    pub storage_config: StorageConfig,
}

impl<U, L> RmkConfig<U, L> {
    /// The configuration of the minimal entry point: the given identification,
    /// the given transport and status groups, the default persistence
    /// parameters.
    pub fn with_vial(usb_config: U, light_config: L, vial_config: VialConfig) -> (r: RmkConfig<U, L>)
        ensures
            r.usb_config == usb_config,
            r.light_config == light_config,
            r.vial_config == vial_config,
            r.storage_config == (StorageConfig { start_addr: 0, num_sectors: 2 }),
    {
        RmkConfig { usb_config, light_config, vial_config, storage_config: StorageConfig::new() }
    }
}

} // verus!
