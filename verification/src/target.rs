//! Types to ease integration of windowing libraries with rovr.

use crate::ffi::dynamic_lib::Platform;
use crate::shim::{HmdDisplay, HmdDisplayId};
use crate::RenderTarget;
use vstd::prelude::*;

verus! {

/// How a windowing library identifies one of its monitors.
#[derive(Clone, Debug, PartialEq, Eq)]
pub enum MonitorId {
    /// A number, on platforms that number their monitors.
    Numeric(u32),
    /// A device name, on platforms that name their monitors.
    Name(String),
    /// The platform gives monitors no identity.
    Unavailable,
}

/// A window of a windowing library as a render target: the address of its
/// native handle, and the sample count it was created with.
#[derive(Clone, Copy, Debug, PartialEq, Eq, Structural)]
pub struct GlutinRenderTarget {
    pub native_window: usize,
    pub multisample: u32,
}

impl GlutinRenderTarget {
    /// Create a render target from the native handle of a window.
    /// `multisample` should match the multisampling level used when
    /// creating the window. The handle is kept on Windows only: no other
    /// platform's runtime takes one, so there the target reports none.
    pub fn new(platform_window: usize, multisample: u32, platform: Platform) -> (target:
        GlutinRenderTarget)
        ensures
            target.multisample == multisample,
            target.native_window == if platform == Platform::Windows {
                platform_window
            } else {
                0
            },
    {
        let native_window = match platform {
            Platform::Windows => platform_window,
            _ => 0,
        };
        GlutinRenderTarget { native_window, multisample }
    }
}

impl RenderTarget for GlutinRenderTarget {
    fn get_multisample(&self) -> (multisample: u32)
        ensures
            multisample == self.multisample,
    {
        self.multisample
    }

    fn get_native_window(&self) -> (window: usize)
        ensures
            window == self.native_window,
    {
        self.native_window
    }
}

/// Whether a headset's display and a monitor are the same device: both are
/// known by number and the numbers are equal, or both by name and the names
/// are equal. A display or a monitor without identity is the same as none.
pub open spec fn same_device(display: HmdDisplayId, monitor: MonitorId) -> bool {
    match (display, monitor) {
        (HmdDisplayId::Numeric(s), MonitorId::Numeric(o)) => s == o,
        (HmdDisplayId::Name(s), MonitorId::Name(o)) => s@ == o@,
        _ => false,
    }
}

impl HmdDisplayId {
    /// Whether this display is the given monitor.
    pub fn is_monitor(&self, other: &MonitorId) -> (same: bool)
        ensures
            same == same_device(*self, *other),
    {
        match (self, other) {
            (HmdDisplayId::Numeric(s), MonitorId::Numeric(o)) => *s == *o,
            (HmdDisplayId::Name(s), MonitorId::Name(o)) => *s == *o,
            _ => false,
        }
    }
}

impl MonitorId {
    /// Whether this monitor is the given display.
    pub fn is_display(&self, other: &HmdDisplayId) -> (same: bool)
        ensures
            same == same_device(*other, *self),
    {
        other.is_monitor(self)
    }
}

/// Find the monitor that matches the display of a headset: the position of
/// the first of the given monitors that is the same device, if there is
/// one.
pub fn find_glutin_monitor(display: &HmdDisplay, monitors: &Vec<MonitorId>) -> (found: Option<usize>)
    ensures
        match found {
            Some(position) => position < monitors@.len() && same_device(
                display.id,
                monitors@[position as int],
            ) && forall|i: int| 0 <= i < position ==> !same_device(display.id, monitors@[i]),
            None => forall|i: int| 0 <= i < monitors@.len() ==> !same_device(display.id, monitors@[i]),
        },
{
    let mut i: usize = 0;
    while i < monitors.len()
        invariant
            i <= monitors@.len(),
            forall|k: int| 0 <= k < i ==> !same_device(display.id, monitors@[k]),
        decreases monitors@.len() - i,
    {
        if monitors[i].is_display(&display.id) {
            return Some(i);
        }
        i += 1;
    }
    None
}

} // verus!
