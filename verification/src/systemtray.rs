//! Identity keys of the system-tray menu entries.
//!
//! Rendering the tray — menus, tooltips, live hashrate figures — is the
//! shell's work and stays with the runtime; the stable identity key of each
//! entry is decided here.

use vstd::prelude::*;

verus! {

/// The entries of the system-tray menu.
#[derive(Clone, Copy, PartialEq, Eq, Structural, Debug)]
pub enum SystrayItemId {
    CpuHashrate,
    GpuHashrate,
    CpuUsage,
    GpuUsage,
    EstimatedEarning,
    Show,
    Hide,
    Minimize,
    UnMinimize,
}

/// The stable identity key of a tray entry.
pub open spec fn systray_item_key(item: SystrayItemId) -> Seq<char> {
    match item {
        SystrayItemId::CpuHashrate => "cpu_hashrate"@,
        SystrayItemId::GpuHashrate => "gpu_hashrate"@,
        SystrayItemId::CpuUsage => "cpu_usage"@,
        SystrayItemId::GpuUsage => "gpu_usage"@,
        SystrayItemId::EstimatedEarning => "estimated_earning"@,
        SystrayItemId::Show => "show"@,
        SystrayItemId::Hide => "hide"@,
        SystrayItemId::Minimize => "minimize"@,
        SystrayItemId::UnMinimize => "unminimize"@,
    }
}

impl SystrayItemId {
    /// The stable identity key of this entry, used to address it in the
    /// shell's tray handle.
    pub fn to_str(&self) -> (key: &'static str)
        ensures
            key@ == systray_item_key(*self),
    {
        match self {
            SystrayItemId::CpuHashrate => "cpu_hashrate",
            SystrayItemId::GpuHashrate => "gpu_hashrate",
            SystrayItemId::CpuUsage => "cpu_usage",
            SystrayItemId::GpuUsage => "gpu_usage",
            SystrayItemId::EstimatedEarning => "estimated_earning",
            SystrayItemId::Show => "show",
            SystrayItemId::Hide => "hide",
            SystrayItemId::Minimize => "minimize",
            SystrayItemId::UnMinimize => "unminimize",
        }
    }
}

} // verus!
