use vstd::prelude::*;

use crate::action::{count_of, HostAction};
use crate::status::{check_status, native_bool};

verus! {

/// An owned reference to a HID device object.
pub struct IOHIDDevice {
    raw: usize,
}

/// What ends the life of an open guard: the device is closed with the
/// options it was opened with, then the guard's own reference is released.
pub open spec fn close_steps(device: usize, options: u32) -> Seq<HostAction> {
    seq![
        HostAction::DeviceClose { device, options },
        HostAction::TypeRelease { reference: device },
    ]
}

/// What ends the life of a schedule guard: the device leaves the run loop and
/// mode it was scheduled with, then the guard's own reference is released.
pub open spec fn unschedule_steps(device: usize, run_loop: usize, mode: usize) -> Seq<HostAction> {
    seq![
        HostAction::DeviceUnschedule { device, run_loop, mode },
        HostAction::TypeRelease { reference: device },
        HostAction::TypeRelease { reference: run_loop },
        HostAction::TypeRelease { reference: mode },
    ]
}

impl IOHIDDevice {
    /// The address of the native device.
    pub closed spec fn handle(&self) -> usize {
        self.raw
    }

    /// Takes the device that the native create call returned; null means none.
    pub fn create(raw: usize) -> (r: Option<IOHIDDevice>)
        ensures
            r is Some <==> raw != 0,
            r is Some ==> r->0.handle() == raw,
    {
        if raw == 0 {
            None
        } else {
            Some(IOHIDDevice { raw })
        }
    }

    /// The address of the native device, still owned by `self`.
    pub fn as_raw(&self) -> (r: usize)
        ensures
            r == self.handle(),
    {
        self.raw
    }

    /// The outcome of opening the device with `options`, from the native
    /// status: a guard that will close it with the same options, or the status.
    /// The guard holds a reference of its own, retained by the caller.
    pub fn open(&mut self, status: i32, options: u32) -> (r: Result<IOHIDDeviceOpenGuard, i32>)
        ensures
            *final(self) == *old(self),
            r is Ok <==> status == 0,
            r is Err ==> r == Err::<IOHIDDeviceOpenGuard, i32>(status),
            r is Ok ==> r->Ok_0.device() == old(self).handle() && r->Ok_0.options() == options,
    {
        match check_status(status) {
            Ok(()) => Ok(IOHIDDeviceOpenGuard { device: self.raw, options }),
            Err(code) => Err(code),
        }
    }

    /// Schedules the device with a run loop and mode: a guard that will
    /// unschedule it from the same pair. The guard holds references of its
    /// own to the device, the run loop and the mode, retained by the caller.
    pub fn schedule_with_run_loop(&mut self, run_loop: usize, mode: usize) -> (r: IOHIDDeviceScheduleGuard)
        ensures
            *final(self) == *old(self),
            r.device() == old(self).handle(),
            r.run_loop() == run_loop,
            r.mode() == mode,
    {
        IOHIDDeviceScheduleGuard { device: self.raw, run_loop, mode }
    }

    /// Whether the device conforms to a usage page and usage, from the native answer.
    pub fn conforms_to(&self, native: u32) -> (r: bool)
        ensures
            r <==> native != 0,
    {
        native_bool(native)
    }

    /// A property value, from the reference that the native lookup returned:
    /// null means that the device has no such property.
    pub fn get_property(&self, native: usize) -> (r: Option<usize>)
        ensures
            native == 0 ==> r is None,
            native != 0 ==> r == Some(native),
    {
        if native == 0 {
            None
        } else {
            Some(native)
        }
    }

    /// Ends the life of this reference: the one release that it owes.
    pub fn release_call(self) -> (r: HostAction)
        ensures
            r == (HostAction::TypeRelease { reference: self.handle() }),
    {
        HostAction::TypeRelease { reference: self.raw }
    }
}

/// Proof that a device is open; ending it closes the device.
pub struct IOHIDDeviceOpenGuard {
    device: usize,
    options: u32,
}

impl IOHIDDeviceOpenGuard {
    pub closed spec fn device(&self) -> usize {
        self.device
    }

    pub closed spec fn options(&self) -> u32 {
        self.options
    }

    /// Ends the guard: the steps to perform, in order.
    pub fn close(self) -> (r: Vec<HostAction>)
        ensures
            r@ == close_steps(self.device(), self.options()),
    {
        let mut steps: Vec<HostAction> = Vec::new();
        steps.push(HostAction::DeviceClose { device: self.device, options: self.options });
        steps.push(HostAction::TypeRelease { reference: self.device });
        proof {
            assert(steps@ =~= close_steps(self.device(), self.options()));
        }
        steps
    }
}

/// Proof that a device is scheduled with a run loop; ending it unschedules the device.
pub struct IOHIDDeviceScheduleGuard {
    device: usize,
    run_loop: usize,
    mode: usize,
}

impl IOHIDDeviceScheduleGuard {
    pub closed spec fn device(&self) -> usize {
        self.device
    }

    pub closed spec fn run_loop(&self) -> usize {
        self.run_loop
    }

    pub closed spec fn mode(&self) -> usize {
        self.mode
    }

    /// Ends the guard: the steps to perform, in order.
    pub fn unschedule(self) -> (r: Vec<HostAction>)
        ensures
            r@ == unschedule_steps(self.device(), self.run_loop(), self.mode()),
    {
        let mut steps: Vec<HostAction> = Vec::new();
        steps.push(HostAction::DeviceUnschedule { device: self.device, run_loop: self.run_loop, mode: self.mode });
        steps.push(HostAction::TypeRelease { reference: self.device });
        steps.push(HostAction::TypeRelease { reference: self.run_loop });
        steps.push(HostAction::TypeRelease { reference: self.mode });
        proof {
            assert(steps@ =~= unschedule_steps(self.device(), self.run_loop(), self.mode()));
        }
        steps
    }
}

/// Scheduling and then ending the guard unschedules the device exactly once,
/// from the very run loop and mode it was scheduled with, and issues no other
/// unschedule.
pub proof fn lemma_schedule_round_trip(device: usize, run_loop: usize, mode: usize)
    ensures
        count_of(
            unschedule_steps(device, run_loop, mode),
            HostAction::DeviceUnschedule { device, run_loop, mode },
        ) == 1,
        forall|i: int|
            0 <= i < unschedule_steps(device, run_loop, mode).len()
                && unschedule_steps(device, run_loop, mode)[i] is DeviceUnschedule
                ==> unschedule_steps(device, run_loop, mode)[i] == (HostAction::DeviceUnschedule {
                device,
                run_loop,
                mode,
            }),
{
    let s = unschedule_steps(device, run_loop, mode);
    let a = HostAction::DeviceUnschedule { device, run_loop, mode };
    assert(s.drop_last().drop_last().drop_last().drop_last() =~= Seq::<HostAction>::empty());
    assert(s.drop_last().drop_last().drop_last() =~= seq![a]);
    reveal_with_fuel(count_of, 5);
}

/// Ending an open guard closes the device exactly once, with the options it
/// was opened with, and releases the guard's reference exactly once.
pub proof fn lemma_open_guard_closes_once(device: usize, options: u32)
    ensures
        count_of(close_steps(device, options), HostAction::DeviceClose { device, options }) == 1,
        count_of(close_steps(device, options), HostAction::TypeRelease { reference: device }) == 1,
{
    let s = close_steps(device, options);
    assert(s.drop_last().drop_last() =~= Seq::<HostAction>::empty());
    assert(s.drop_last() =~= seq![HostAction::DeviceClose { device, options }]);
    reveal_with_fuel(count_of, 3);
}

} // verus!
