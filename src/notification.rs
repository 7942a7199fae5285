use vstd::prelude::*;

use crate::action::{count_of, HostAction};
use crate::base::{drained, make_services, service_handles, IOIterator, IOService};
use crate::status::check_status;

verus! {

/// A native notification port: the channel through which the registry
/// delivers asynchronous matches.
pub struct IONotificationPort {
    raw: usize,
}

impl IONotificationPort {
    /// The address of the native port.
    pub closed spec fn handle(&self) -> usize {
        self.raw
    }

    /// Takes the port that the native create call returned; a null port means
    /// that the default port was unusable.
    pub fn new(raw: usize) -> (r: Result<IONotificationPort, ()>)
        ensures
            r is Ok <==> raw != 0,
            r is Ok ==> r->Ok_0.handle() == raw,
    {
        if raw == 0 {
            Err(())
        } else {
            Ok(IONotificationPort { raw })
        }
    }

    /// The address of the native port, for the calls that need it.
    pub fn as_raw(&self) -> (r: usize)
        ensures
            r == self.handle(),
    {
        self.raw
    }
}

/// A registration whose port exists and whose run-loop source has been added,
/// waiting for the answer of the native subscribe call.
pub struct PendingRegistration {
    port: IONotificationPort,
    run_loop: usize,
    source: usize,
}

/// The steps that undo a registration that never came to be: the source leaves
/// the run loop, then the port is destroyed.
pub open spec fn abandon_steps(run_loop: usize, source: usize, port: usize) -> Seq<HostAction> {
    seq![
        HostAction::RunLoopRemoveSource { run_loop, source },
        HostAction::NotificationPortDestroy { port },
    ]
}

/// The steps that end a live registration, in this order: the source leaves
/// the run loop, the port is destroyed, the cursor is released, the callback
/// is freed.
pub open spec fn teardown_steps(run_loop: usize, source: usize, port: usize, iterator: u32) -> Seq<HostAction> {
    seq![
        HostAction::RunLoopRemoveSource { run_loop, source },
        HostAction::NotificationPortDestroy { port },
        HostAction::ObjectRelease { object: iterator },
        HostAction::DropCallback,
    ]
}

impl PendingRegistration {
    pub closed spec fn port_handle(&self) -> usize {
        self.port.handle()
    }

    pub closed spec fn run_loop(&self) -> usize {
        self.run_loop
    }

    pub closed spec fn source(&self) -> usize {
        self.source
    }

    /// Records a port together with the run loop and source that were added for it.
    pub fn new(port: IONotificationPort, run_loop: usize, source: usize) -> (r: PendingRegistration)
        ensures
            r.port_handle() == port.handle(),
            r.run_loop() == run_loop,
            r.source() == source,
    {
        PendingRegistration { port, run_loop, source }
    }

    /// Completes the registration from the native subscribe call's status, the
    /// cursor it returned and what that cursor then handed out in turn.
    ///
    /// On success: the registration, and the initial match set, which the
    /// caller hands to the callback before it returns. On failure: the status,
    /// and the steps that undo what was set up.
    pub fn complete(self, status: i32, iterator: u32, natives: &Vec<u32>) -> (r: Result<
        (IOServiceMatchingNotification, Vec<IOService>),
        (i32, Vec<HostAction>),
    >)
        ensures
            r is Ok <==> status == 0,
            r is Ok ==> ({
                let (reg, initial) = r->Ok_0;
                &&& reg.port_handle() == self.port_handle()
                &&& reg.run_loop() == self.run_loop()
                &&& reg.source() == self.source()
                &&& reg.iterator_handle() == iterator
                &&& service_handles(initial@) == drained(natives@)
            }),
            r is Err ==> ({
                let (code, steps) = r->Err_0;
                &&& code == status
                &&& steps@ == abandon_steps(self.run_loop(), self.source(), self.port_handle())
            }),
    {
        match check_status(status) {
            Ok(()) => {
                let mut cursor = IOIterator::from_raw(iterator);
                let initial = make_services(&mut cursor, natives);
                let reg = IOServiceMatchingNotification {
                    port: self.port,
                    run_loop: self.run_loop,
                    source: self.source,
                    iterator: cursor,
                };
                Ok((reg, initial))
            },
            Err(code) => {
                let mut steps: Vec<HostAction> = Vec::new();
                steps.push(HostAction::RunLoopRemoveSource { run_loop: self.run_loop, source: self.source });
                steps.push(HostAction::NotificationPortDestroy { port: self.port.raw });
                proof {
                    assert(steps@ =~= abandon_steps(self.run_loop(), self.source(), self.port_handle()));
                }
                Err((code, steps))
            },
        }
    }
}

/// A live subscription to matching services: it owns the port, the run-loop
/// source registration and the cursor, and ends them in a fixed order.
pub struct IOServiceMatchingNotification {
    port: IONotificationPort,
    run_loop: usize,
    source: usize,
    iterator: IOIterator,
}

impl IOServiceMatchingNotification {
    pub closed spec fn port_handle(&self) -> usize {
        self.port.handle()
    }

    pub closed spec fn run_loop(&self) -> usize {
        self.run_loop
    }

    pub closed spec fn source(&self) -> usize {
        self.source
    }

    pub closed spec fn iterator_handle(&self) -> u32 {
        self.iterator.handle()
    }

    /// Ends the registration: the steps to perform, in order.
    pub fn teardown(self) -> (r: Vec<HostAction>)
        ensures
            r@ == teardown_steps(self.run_loop(), self.source(), self.port_handle(), self.iterator_handle()),
    {
        let ghost it = self.iterator_handle();
        let mut steps: Vec<HostAction> = Vec::new();
        steps.push(HostAction::RunLoopRemoveSource { run_loop: self.run_loop, source: self.source });
        steps.push(HostAction::NotificationPortDestroy { port: self.port.raw });
        steps.push(self.iterator.release_call());
        steps.push(HostAction::DropCallback);
        proof {
            assert(steps@ =~= teardown_steps(self.run_loop(), self.source(), self.port_handle(), it));
        }
        steps
    }
}

/// What a callback receives when the registry reports matches: the services
/// that the cursor it was handed yields in turn, up to the first zero. The
/// cursor is only borrowed: nothing here releases it.
pub fn service_matching_callback_internal(iterator: u32, natives: &Vec<u32>) -> (r: Vec<IOService>)
    ensures
        service_handles(r@) == drained(natives@),
{
    let mut cursor = IOIterator::from_raw(iterator);
    make_services(&mut cursor, natives)
}

/// Ending a registration takes its source off the run loop before its port is
/// destroyed, whether it ends after it was established or because the
/// subscribe call failed; the port is destroyed exactly once.
pub proof fn lemma_source_removed_before_port(run_loop: usize, source: usize, port: usize, iterator: u32)
    ensures
        forall|i: int, j: int|
            0 <= i < teardown_steps(run_loop, source, port, iterator).len()
                && 0 <= j < teardown_steps(run_loop, source, port, iterator).len()
                && teardown_steps(run_loop, source, port, iterator)[i] is RunLoopRemoveSource
                && teardown_steps(run_loop, source, port, iterator)[j] is NotificationPortDestroy
                ==> i < j,
        forall|i: int, j: int|
            0 <= i < abandon_steps(run_loop, source, port).len()
                && 0 <= j < abandon_steps(run_loop, source, port).len()
                && abandon_steps(run_loop, source, port)[i] is RunLoopRemoveSource
                && abandon_steps(run_loop, source, port)[j] is NotificationPortDestroy
                ==> i < j,
        count_of(teardown_steps(run_loop, source, port, iterator), HostAction::NotificationPortDestroy { port }) == 1,
        count_of(abandon_steps(run_loop, source, port), HostAction::NotificationPortDestroy { port }) == 1,
{
    let t = teardown_steps(run_loop, source, port, iterator);
    let a = abandon_steps(run_loop, source, port);
    assert(t.drop_last().drop_last().drop_last().drop_last() =~= Seq::<HostAction>::empty());
    assert(t.drop_last().drop_last().drop_last() =~= seq![t[0]]);
    assert(t.drop_last().drop_last() =~= seq![t[0], t[1]]);
    assert(t.drop_last() =~= seq![t[0], t[1], t[2]]);
    assert(a.drop_last().drop_last() =~= Seq::<HostAction>::empty());
    assert(a.drop_last() =~= seq![a[0]]);
    reveal_with_fuel(count_of, 5);
}

/// Over the whole life of a registration, its cursor is released exactly
/// once and its callback is freed exactly once.
pub proof fn lemma_registration_releases_once(run_loop: usize, source: usize, port: usize, iterator: u32)
    ensures
        count_of(teardown_steps(run_loop, source, port, iterator), HostAction::ObjectRelease { object: iterator }) == 1,
        count_of(teardown_steps(run_loop, source, port, iterator), HostAction::DropCallback) == 1,
{
    let t = teardown_steps(run_loop, source, port, iterator);
    assert(t.drop_last().drop_last().drop_last().drop_last() =~= Seq::<HostAction>::empty());
    assert(t.drop_last().drop_last().drop_last() =~= seq![t[0]]);
    assert(t.drop_last().drop_last() =~= seq![t[0], t[1]]);
    assert(t.drop_last() =~= seq![t[0], t[1], t[2]]);
    reveal_with_fuel(count_of, 5);
}

} // verus!
