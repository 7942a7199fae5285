use vstd::prelude::*;

use crate::action::HostAction;
use crate::status::{check_status, registry_entry_id_result};

verus! {

/// The handles that a cursor hands out before it reports the end (a zero).
pub open spec fn drained(natives: Seq<u32>) -> Seq<u32>
    decreases natives.len(),
{
    if natives.len() == 0 || natives[0] == 0 {
        Seq::empty()
    } else {
        seq![natives[0]] + drained(natives.drop_first())
    }
}

/// Whether a cursor that read `natives` in turn has seen the end.
pub open spec fn ends(natives: Seq<u32>) -> bool {
    exists|i: int| 0 <= i < natives.len() && natives[i] == 0
}

/// One step of a cursor: from whether it had seen the end and what the native
/// "next" gave, whether it has seen the end now and what it yields.
pub open spec fn next_outcome(exhausted: bool, native: u32) -> (bool, Option<u32>) {
    if exhausted || native == 0 {
        (true, None)
    } else {
        (false, Some(native))
    }
}

/// A run of native "next" answers through a cursor: whether it has seen the
/// end afterwards, and what each step yielded.
pub open spec fn cursor_run(exhausted: bool, natives: Seq<u32>) -> (bool, Seq<Option<u32>>)
    decreases natives.len(),
{
    if natives.len() == 0 {
        (exhausted, Seq::empty())
    } else {
        let (e, x) = next_outcome(exhausted, natives[0]);
        let (e2, rest) = cursor_run(e, natives.drop_first());
        (e2, seq![x] + rest)
    }
}

/// A cursor that has reported the end keeps reporting it, whatever the native
/// side answers, until it is reset; after a reset it yields again.
pub proof fn lemma_exhaustion_is_permanent(natives: Seq<u32>)
    ensures
        cursor_run(true, natives).0,
        cursor_run(true, natives).1.len() == natives.len(),
        forall|i: int| 0 <= i < natives.len() ==> cursor_run(true, natives).1[i] is None,
        forall|v: u32| v != 0 ==> next_outcome(false, v) == (false, Some(v)),
    decreases natives.len(),
{
    if natives.len() > 0 {
        lemma_exhaustion_is_permanent(natives.drop_first());
        let rest = cursor_run(true, natives.drop_first()).1;
        assert forall|i: int| 0 <= i < natives.len() implies cursor_run(true, natives).1[i] is None by {
            if i > 0 {
                assert(cursor_run(true, natives).1[i] == rest[i - 1]);
            }
        }
    }
}

/// An owned reference to a kernel object: the holder gives it back exactly once.
pub struct IOObject {
    raw: u32,
}

impl IOObject {
    /// The native handle.
    pub closed spec fn handle(&self) -> u32 {
        self.raw
    }

    /// Takes ownership of the reference that a native call returned; zero means none.
    pub fn from_raw(raw: u32) -> (r: Option<IOObject>)
        ensures
            r is Some <==> raw != 0,
            r is Some ==> r->0.handle() == raw,
    {
        if raw == 0 {
            None
        } else {
            Some(IOObject { raw })
        }
    }

    /// The native handle, still owned by `self`.
    pub fn as_io_object_t(&self) -> (r: u32)
        ensures
            r == self.handle(),
    {
        self.raw
    }

    /// A second owned reference to the same object, from the status of the
    /// native retain: the new reference owes a release of its own.
    pub fn retain(&self, status: i32) -> (r: Result<IOObject, i32>)
        ensures
            r is Ok <==> status == 0,
            r is Ok ==> r->Ok_0.handle() == self.handle(),
            r is Err ==> r == Err::<IOObject, i32>(status),
    {
        match check_status(status) {
            Ok(()) => Ok(IOObject { raw: self.raw }),
            Err(code) => Err(code),
        }
    }

    /// Ends the life of this reference: the one release that it owes.
    pub fn release_call(self) -> (r: HostAction)
        ensures
            r == (HostAction::ObjectRelease { object: self.handle() }),
    {
        HostAction::ObjectRelease { object: self.raw }
    }
}

/// The handle inside an optional object.
pub open spec fn object_handle(o: Option<IOObject>) -> Option<u32> {
    match o {
        Some(obj) => Some(obj.handle()),
        None => None,
    }
}

/// An owned reference to a registry service.
pub struct IOService {
    raw: u32,
}

/// The handles of a sequence of services, in order.
pub open spec fn service_handles(s: Seq<IOService>) -> Seq<u32> {
    s.map_values(|x: IOService| x.handle())
}

impl IOService {
    /// The native handle.
    pub closed spec fn handle(&self) -> u32 {
        self.raw
    }

    /// Takes over the reference held by `obj`, with no release and no retain.
    pub fn from_object(obj: IOObject) -> (r: IOService)
        ensures
            r.handle() == obj.handle(),
    {
        IOService { raw: obj.raw }
    }

    /// The native handle, still owned by `self`.
    pub fn as_io_object_t(&self) -> (r: u32)
        ensures
            r == self.handle(),
    {
        self.raw
    }

    /// Ends the life of this reference: the one release that it owes.
    pub fn release_call(self) -> (r: HostAction)
        ensures
            r == (HostAction::ObjectRelease { object: self.handle() }),
    {
        HostAction::ObjectRelease { object: self.raw }
    }

    /// The outcome of a lookup of one matching service, from the handle the
    /// registry returned: zero means that nothing matched.
    pub fn get_matching_service(native: u32) -> (r: Option<IOService>)
        ensures
            r is Some <==> native != 0,
            r is Some ==> r->0.handle() == native,
    {
        match IOObject::from_raw(native) {
            Some(obj) => Some(IOService::from_object(obj)),
            None => None,
        }
    }

    /// The outcome of a lookup of all matching services, from the status of the
    /// query and what its cursor then handed out, in turn.
    pub fn get_matching_services(status: i32, natives: &Vec<u32>) -> (r: Result<Vec<IOService>, i32>)
        ensures
            r is Ok <==> status == 0,
            r is Err ==> r == Err::<Vec<IOService>, i32>(status),
            r is Ok ==> service_handles(r->Ok_0@) == drained(natives@),
    {
        match check_status(status) {
            Ok(()) => {
                let mut cursor = IOIterator::from_raw(0);
                Ok(make_services(&mut cursor, natives))
            },
            Err(e) => Err(e),
        }
    }

    /// The registry entry id of this service, from the status and value of the native query.
    pub fn get_registry_entry_id(&self, status: i32, id: u64) -> (r: Result<u64, i32>)
        ensures
            status == 0 ==> r == Ok::<u64, i32>(id),
            status != 0 ==> r == Err::<u64, i32>(status),
    {
        registry_entry_id_result(status, id)
    }
}

/// A cursor over handles that the registry produces, owning its own reference.
///
/// Once it has reported the end it keeps reporting it, whatever the native
/// side would say, until it is reset.
pub struct IOIterator {
    raw: u32,
    exhausted: bool,
}

impl IOIterator {
    /// The native handle of the cursor.
    pub closed spec fn handle(&self) -> u32 {
        self.raw
    }

    /// Whether the cursor has reported the end since it was made or reset.
    pub closed spec fn is_exhausted(&self) -> bool {
        self.exhausted
    }

    /// Wraps a cursor handle that a native call returned.
    pub fn from_raw(raw: u32) -> (r: IOIterator)
        ensures
            r.handle() == raw,
            !r.is_exhausted(),
    {
        IOIterator { raw, exhausted: false }
    }

    /// The native handle, still owned by `self`.
    pub fn as_io_object_t(&self) -> (r: u32)
        ensures
            r == self.handle(),
    {
        self.raw
    }

    /// Whether the next element must be asked of the native side.
    pub fn needs_native_next(&self) -> (r: bool)
        ensures
            r == !self.is_exhausted(),
    {
        !self.exhausted
    }

    /// The next element, given what the native "next" returned: a fresh owned
    /// object, or none at the end and forever after until `reset`.
    pub fn next(&mut self, native: u32) -> (r: Option<IOObject>)
        ensures
            final(self).handle() == old(self).handle(),
            (final(self).is_exhausted(), object_handle(r)) == next_outcome(old(self).is_exhausted(), native),
    {
        if self.exhausted || native == 0 {
            self.exhausted = true;
            None
        } else {
            IOObject::from_raw(native)
        }
    }

    /// Starts the enumeration over; the registry rewinds the cursor to its current state.
    pub fn reset(&mut self)
        ensures
            final(self).handle() == old(self).handle(),
            !final(self).is_exhausted(),
    {
        self.exhausted = false;
    }

    /// Whether the registry still holds the cursor live, from the native answer.
    pub fn is_valid(&self, native: u32) -> (r: bool)
        ensures
            r <==> native != 0,
    {
        crate::status::native_bool(native)
    }

    /// Ends the life of this cursor: the one release that it owes.
    pub fn release_call(self) -> (r: HostAction)
        ensures
            r == (HostAction::ObjectRelease { object: self.handle() }),
    {
        HostAction::ObjectRelease { object: self.raw }
    }
}

/// Drains a cursor into owned services, given what its native "next" returned
/// in turn: the services come in native order, up to the first zero, and a
/// cursor that had already seen the end yields none.
pub fn make_services(iterator: &mut IOIterator, natives: &Vec<u32>) -> (r: Vec<IOService>)
    ensures
        final(iterator).handle() == old(iterator).handle(),
        old(iterator).is_exhausted() ==> r@.len() == 0,
        !old(iterator).is_exhausted() ==> service_handles(r@) == drained(natives@),
        final(iterator).is_exhausted() == (old(iterator).is_exhausted() || ends(natives@)),
{
    let mut services: Vec<IOService> = Vec::new();
    let mut i: usize = 0;
    let ghost was = old(iterator).is_exhausted();
    while i < natives.len() && iterator.needs_native_next()
        invariant
            i <= natives.len(),
            iterator.handle() == old(iterator).handle(),
            was ==> iterator.is_exhausted() && services@.len() == 0,
            !was ==> (iterator.is_exhausted() <==> ends(natives@.take(i as int))),
            !was && !iterator.is_exhausted() ==> service_handles(services@) == natives@.take(i as int),
            !was && iterator.is_exhausted() ==> service_handles(services@) == drained(natives@),
        decreases natives.len() - i,
    {
        let ghost prev = services@;
        let ghost before = iterator.is_exhausted();
        let native = natives[i];
        let next = iterator.next(native);
        match next {
            Some(obj) => {
                services.push(IOService::from_object(obj));
            },
            None => {},
        }
        proof {
            assert(natives@.take(i + 1) =~= natives@.take(i as int).push(native));
            if !was {
                if !iterator.is_exhausted() {
                    assert(service_handles(services@) =~= service_handles(prev).push(native));
                } else if !before {
                    assert forall|j: int| 0 <= j < i implies natives@[j] != 0 by {
                        assert(natives@.take(i as int)[j] == natives@[j]);
                    }
                    lemma_drained_prefix(natives@, i as int);
                    assert(natives@.skip(i as int)[0] == 0);
                    assert(services@ == prev);
                    assert(natives@.take(i + 1)[i as int] == 0);
                } else {
                    let j = choose|j: int| 0 <= j < i && natives@.take(i as int)[j] == 0;
                    assert(natives@.take(i + 1)[j] == 0);
                }
            }
        }
        i = i + 1;
    }
    proof {
        if !was && !iterator.is_exhausted() {
            assert(i == natives.len());
            assert(natives@.take(i as int) =~= natives@);
            assert forall|j: int| 0 <= j < i implies natives@[j] != 0 by {
                assert(natives@.take(i as int)[j] == natives@[j]);
            }
            lemma_drained_prefix(natives@, i as int);
            assert(natives@.skip(i as int).len() == 0);
        }
        if !was && iterator.is_exhausted() {
            let j = choose|j: int| 0 <= j < i && natives@.take(i as int)[j] == 0;
            assert(natives@[j] == 0);
        }
    }
    services
}

/// Before the first zero, draining hands out the elements as they stand.
proof fn lemma_drained_prefix(s: Seq<u32>, i: int)
    requires
        0 <= i <= s.len(),
        forall|j: int| 0 <= j < i ==> s[j] != 0,
    ensures
        drained(s) == s.take(i) + drained(s.skip(i)),
    decreases i,
{
    if i == 0 {
        assert(s.skip(0) =~= s);
        assert(s.take(0) + drained(s) =~= drained(s));
    } else {
        lemma_drained_prefix(s, i - 1);
        let t = s.skip(i - 1);
        assert(t[0] == s[i - 1]);
        assert(t.drop_first() =~= s.skip(i));
        assert(drained(t) == seq![s[i - 1]] + drained(s.skip(i)));
        assert(s.take(i - 1) + (seq![s[i - 1]] + drained(s.skip(i))) =~= s.take(i) + drained(s.skip(i)));
    }
}

} // verus!
