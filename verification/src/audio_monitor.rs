use vstd::prelude::*;

verus! {

/// Whether audio level monitoring is switched on.
pub struct LevelMonitor {
    active: bool,
}

impl View for LevelMonitor {
    type V = bool;

    closed spec fn view(&self) -> bool {
        self.active
    }
}

impl LevelMonitor {
    /// A monitor that starts switched off.
    pub fn new() -> (m: Self)
        ensures
            m@ == false,
    {
        LevelMonitor { active: false }
    }
}

/// Switch audio level monitoring on.
pub fn start_level_monitoring(monitor: &mut LevelMonitor)
    ensures
        final(monitor)@ == true,
{
    monitor.active = true;
}

/// Switch audio level monitoring off.
pub fn stop_level_monitoring(monitor: &mut LevelMonitor)
    ensures
        final(monitor)@ == false,
{
    monitor.active = false;
}

/// Whether audio level monitoring is on.
pub fn is_monitoring_active(monitor: &LevelMonitor) -> (active: bool)
    ensures
        active == monitor@,
{
    monitor.active
}

} // verus!
