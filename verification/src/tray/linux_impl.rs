use vstd::prelude::*;

verus! {

use crate::config::AppConfig;
use crate::error::TrayError;

/// Stub of the direct X11 tray backend: it records the configuration and
/// accepts every request without touching the display.
pub struct LinuxTrayIcon {
    pub config: AppConfig,
}

impl LinuxTrayIcon {
    pub fn new(config: AppConfig) -> (r: Result<LinuxTrayIcon, TrayError>)
        ensures
            (r matches Ok(tray) && tray.config == config),
    {
        Ok(LinuxTrayIcon { config })
    }

    pub fn set_icon(&mut self, icon_data: &[u8]) -> (r: Result<(), TrayError>)
        ensures
            r is Ok,
            *final(self) == *old(self),
    {
        Ok(())
    }

    pub fn set_tooltip(&mut self, tooltip: &str) -> (r: Result<(), TrayError>)
        ensures
            r is Ok,
            *final(self) == *old(self),
    {
        Ok(())
    }

    pub fn show_menu(&mut self) -> (r: Result<(), TrayError>)
        ensures
            r is Ok,
            *final(self) == *old(self),
    {
        Ok(())
    }
}

} // verus!
