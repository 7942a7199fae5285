use vstd::prelude::*;

verus! {

/// A native call, or a host-side step, that this library asks its host to perform.
///
/// Handles to kernel objects are `u32` (mach port names); references to
/// CoreFoundation-style objects (ports, run loops, sources, modes, devices)
/// are carried as their addresses.
#[derive(Debug, Clone, Copy, PartialEq, Eq, Structural)]
pub enum HostAction {
    /// Give back one reference to a kernel object (`IOObjectRelease`).
    ObjectRelease { object: u32 },
    /// Unregister an event source from a run loop under the common modes.
    RunLoopRemoveSource { run_loop: usize, source: usize },
    /// Destroy a notification port (`IONotificationPortDestroy`).
    NotificationPortDestroy { port: usize },
    /// Free the boxed user callback of a registration.
    DropCallback,
    /// Close a device with the options it was opened with (`IOHIDDeviceClose`).
    DeviceClose { device: usize, options: u32 },
    /// Unschedule a device from a run loop and mode (`IOHIDDeviceUnscheduleFromRunLoop`).
    DeviceUnschedule { device: usize, run_loop: usize, mode: usize },
    /// Give back one reference to a retained object (`CFRelease`).
    TypeRelease { reference: usize },
}

/// How many times `a` occurs in `s`.
pub open spec fn count_of(s: Seq<HostAction>, a: HostAction) -> nat
    decreases s.len(),
{
    if s.len() == 0 {
        0
    } else {
        (if s.last() == a { 1nat } else { 0nat }) + count_of(s.drop_last(), a)
    }
}

} // verus!
