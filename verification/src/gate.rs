//! The device identity gate: one vendor, and after the first match one device name.

use vstd::prelude::*;
use crate::advertisement::{AdvertisementEvent, AdvertisementView};
use crate::config::{TARGET_COMPANY_ID, UNKNOWN_DEVICE_NAME};

verus! {

/// The broadcast carries a manufacturer payload tagged with the target vendor.
pub open spec fn vendor_matches(event: AdvertisementView) -> bool {
    event.manufacturer matches Some(data) && data.vendor_id == TARGET_COMPANY_ID
}

/// The name a broadcast is known by: its own, or the placeholder when it has none.
pub open spec fn resolved_name(event: AdvertisementView) -> Seq<char> {
    match event.device_name {
        Some(name) => name,
        None => UNKNOWN_DEVICE_NAME@,
    }
}

/// Whether the identity gate lets a broadcast through while `lock` is the locked name.
pub open spec fn accepts(lock: Option<Seq<char>>, event: AdvertisementView) -> bool {
    &&& vendor_matches(event)
    &&& lock matches Some(name) ==> name == resolved_name(event)
}

/// The locked name after the identity gate has seen a broadcast.
pub open spec fn lock_after(lock: Option<Seq<char>>, event: AdvertisementView) -> Option<
    Seq<char>,
> {
    if lock is None && vendor_matches(event) {
        Some(resolved_name(event))
    } else {
        lock
    }
}

/// The locked name after the identity gate has seen a run of broadcasts, oldest first.
pub open spec fn lock_after_all(lock: Option<Seq<char>>, events: Seq<AdvertisementView>) -> Option<
    Seq<char>,
>
    decreases events.len(),
{
    if events.len() == 0 {
        lock
    } else {
        lock_after(lock_after_all(lock, events.drop_last()), events.last())
    }
}

/// The name of the one device whose broadcasts are forwarded; empty until the first match.
#[derive(Clone, Debug, PartialEq, Eq)]
pub struct IdentityLock {
    name: Option<String>,
}

impl View for IdentityLock {
    type V = Option<Seq<char>>;

    closed spec fn view(&self) -> Option<Seq<char>> {
        match self.name {
            Some(name) => Some(name@),
            None => None,
        }
    }
}

impl IdentityLock {
    /// The empty lock a run starts with.
    pub fn new() -> (lock: IdentityLock)
        ensures
            lock@ is None,
    {
        IdentityLock { name: None }
    }

    /// Whether a device has been locked onto.
    pub fn is_set(&self) -> (set: bool)
        ensures
            set == (self@ is Some),
    {
        self.name.is_some()
    }

    /// The locked name, if any.
    pub fn name(&self) -> (name: Option<String>)
        ensures
            match name {
                Some(text) => self@ == Some(text@),
                None => self@ is None,
            },
    {
        match &self.name {
            Some(text) => Some(text.clone()),
            None => None,
        }
    }

    /// Passes or rejects one broadcast, locking onto its name if it is the first to pass.
    pub fn accept(&mut self, event: &AdvertisementEvent) -> (accepted: bool)
        ensures
            accepted == accepts(old(self)@, event@),
            final(self)@ == lock_after(old(self)@, event@),
    {
        if !is_target_vendor(event) {
            return false;
        }
        let current = display_name(event);
        match &self.name {
            Some(recorded) => current == *recorded,
            None => {
                self.name = Some(current);
                true
            },
        }
    }
}

/// Whether a broadcast carries the target vendor's payload.
pub fn is_target_vendor(event: &AdvertisementEvent) -> (matches: bool)
    ensures
        matches == vendor_matches(event@),
{
    match &event.manufacturer {
        Some(data) => data.vendor_id == TARGET_COMPANY_ID,
        None => false,
    }
}

/// The name a broadcast is known by: its own, or the placeholder when it has none.
pub fn display_name(event: &AdvertisementEvent) -> (name: String)
    ensures
        name@ == resolved_name(event@),
{
    match &event.device_name {
        Some(text) => text.clone(),
        None => UNKNOWN_DEVICE_NAME.to_owned(),
    }
}

/// A broadcast of another vendor, or without a manufacturer payload, is rejected and
/// leaves the lock as it was.
pub proof fn lemma_other_vendor_rejected(lock: Option<Seq<char>>, event: AdvertisementView)
    requires
        !vendor_matches(event),
    ensures
        !accepts(lock, event),
        lock_after(lock, event) == lock,
{
}

/// While the lock is empty, every broadcast of the target vendor passes and its name
/// becomes the locked name.
pub proof fn lemma_first_match_locks(event: AdvertisementView)
    requires
        vendor_matches(event),
    ensures
        accepts(None, event),
        lock_after(None, event) == Some(resolved_name(event)),
{
}

/// Once a name is locked, a broadcast passes exactly when it is of the target vendor
/// and known by that name; whatever its payload holds, a different name is rejected.
pub proof fn lemma_locked_gate(name: Seq<char>, event: AdvertisementView)
    ensures
        accepts(Some(name), event) <==> vendor_matches(event) && resolved_name(event) == name,
        resolved_name(event) != name ==> !accepts(Some(name), event),
{
}

/// Once set, the lock never changes, however many broadcasts follow.
pub proof fn lemma_lock_is_permanent(name: Seq<char>, events: Seq<AdvertisementView>)
    ensures
        lock_after_all(Some(name), events) == Some(name),
    decreases events.len(),
{
    if events.len() > 0 {
        lemma_lock_is_permanent(name, events.drop_last());
    }
}

/// A lock that is set after some broadcasts of a run is the same after any more of them.
pub proof fn lemma_lock_settles(
    lock: Option<Seq<char>>,
    events: Seq<AdvertisementView>,
    earlier: int,
    later: int,
)
    requires
        0 <= earlier <= later <= events.len(),
        lock_after_all(lock, events.take(earlier)) is Some,
    ensures
        lock_after_all(lock, events.take(later)) == lock_after_all(lock, events.take(earlier)),
    decreases later - earlier,
{
    if earlier < later {
        lemma_lock_settles(lock, events, earlier, later - 1);
        assert(events.take(later).drop_last() =~= events.take(later - 1));
    }
}

/// One run follows one device: any two broadcasts that pass, each judged by the lock that
/// the broadcasts before it have left, are known by the same name.
pub proof fn lemma_one_device_per_run(events: Seq<AdvertisementView>, first: int, second: int)
    requires
        0 <= first <= second < events.len(),
        accepts(lock_after_all(None, events.take(first)), events[first]),
        accepts(lock_after_all(None, events.take(second)), events[second]),
    ensures
        resolved_name(events[first]) == resolved_name(events[second]),
{
    if first < second {
        assert(events.take(first + 1).drop_last() =~= events.take(first));
        assert(events.take(first + 1).last() == events[first]);
        assert(lock_after_all(None, events.take(first + 1)) == Some(resolved_name(events[first])));
        lemma_lock_settles(None, events, first + 1, second);
    }
}

/// The lock stays empty exactly as long as no broadcast of the target vendor is seen.
pub proof fn lemma_lock_empty_until_first_match(events: Seq<AdvertisementView>)
    ensures
        lock_after_all(None, events) is None <==> forall|i: int|
            0 <= i < events.len() ==> !vendor_matches(#[trigger] events[i]),
    decreases events.len(),
{
    if events.len() > 0 {
        let front = events.drop_last();
        lemma_lock_empty_until_first_match(front);
        assert(forall|i: int| 0 <= i < front.len() ==> front[i] == events[i]);
        if lock_after_all(None, events) is None {
            assert forall|i: int| 0 <= i < events.len() implies !vendor_matches(
                #[trigger] events[i],
            ) by {
                if i < front.len() {
                    assert(front[i] == events[i]);
                }
            }
        }
    }
}

} // verus!
