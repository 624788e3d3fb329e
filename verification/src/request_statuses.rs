//! When each block was last asked for.
use dashmap::mapref::entry::Entry;
use dashmap::DashMap;
use solana_clock::Slot;
use vstd::prelude::*;

verus! {

/// Declares `dashmap::DashMap`.
#[verifier::external_type_specification]
#[verifier::external_body]
#[verifier::reject_recursive_types(K)]
#[verifier::reject_recursive_types(V)]
#[verifier::reject_recursive_types(S)]
pub struct ExDashMap<K, V, S>(DashMap<K, V, S>);

/// Times by slot and the bytes of the block id.
pub type RequestTimes = Map<(u64, Seq<u8>), u128>;

/// What the map of request times holds, by slot and the bytes of the block id.
pub uninterp spec fn request_times(map: DashMap<(u64, [u8; 32]), u128>) -> RequestTimes;

/// Calls `DashMap::new`. Trusted: the new map is empty.
#[verifier::external_body]
fn new_map() -> (map: DashMap<(u64, [u8; 32]), u128>)
    ensures
        request_times(map) == RequestTimes::empty(),
{
    DashMap::new()
}

/// Calls `DashMap::entry`, and `OccupiedEntry::get` on an occupied entry. Trusted: the entry is
/// occupied exactly when the map holds the key, and then has the value that the map holds.
#[verifier::external_body]
fn entry_value(map: &DashMap<(u64, [u8; 32]), u128>, key: (u64, [u8; 32])) -> (value: Option<u128>)
    ensures
        value == (if request_times(*map).dom().contains((key.0, key.1@)) {
            Some(request_times(*map)[(key.0, key.1@)])
        } else {
            None
        }),
{
    match map.entry(key) {
        Entry::Occupied(entry) => Some(*entry.get()),
        Entry::Vacant(_) => None,
    }
}

/// Calls `DashMap::entry`, and `OccupiedEntry::remove` on an occupied entry. Trusted: the key
/// leaves the map, every other key keeps its value, and the value that the key had is returned.
#[verifier::external_body]
fn remove_entry(map: &mut DashMap<(u64, [u8; 32]), u128>, key: (u64, [u8; 32])) -> (value: Option<u128>)
    ensures
        request_times(*final(map)) == request_times(*old(map)).remove((key.0, key.1@)),
        value == (if request_times(*old(map)).dom().contains((key.0, key.1@)) {
            Some(request_times(*old(map))[(key.0, key.1@)])
        } else {
            None
        }),
{
    match map.entry(key) {
        Entry::Occupied(entry) => Some(entry.remove()),
        Entry::Vacant(_) => None,
    }
}

/// Calls `DashMap::insert`. Trusted: the key gets the value, every other key keeps its own, and
/// the value that the key had before is returned.
#[verifier::external_body]
fn insert_entry(map: &mut DashMap<(u64, [u8; 32]), u128>, key: (u64, [u8; 32]), value: u128) -> (before: Option<u128>)
    ensures
        request_times(*final(map)) == request_times(*old(map)).insert((key.0, key.1@), value),
        before == (if request_times(*old(map)).dom().contains((key.0, key.1@)) {
            Some(request_times(*old(map))[(key.0, key.1@)])
        } else {
            None
        }),
{
    map.insert(key, value)
}

/// When each block was last asked for.
pub struct RequestStatuses {
    map: DashMap<(u64, [u8; 32]), u128>,
}

impl View for RequestStatuses {
    type V = RequestTimes;

    closed spec fn view(&self) -> RequestTimes {
        request_times(self.map)
    }
}

impl RequestStatuses {
    /// No block was asked for yet.
    pub fn new() -> (statuses: RequestStatuses)
        ensures
            statuses@ == RequestTimes::empty(),
    {
        RequestStatuses { map: new_map() }
    }

    /// When the block `block_id` of `slot` was last asked for.
    pub fn requested_at(&self, slot: Slot, block_id: &[u8; 32]) -> (time: Option<u128>)
        ensures
            time is Some <==> self@.dom().contains((slot, block_id@)),
            time is Some ==> time->0 == self@[(slot, block_id@)],
    {
        entry_value(&self.map, (slot, *block_id))
    }

    /// Forgets when the block `block_id` of `slot` was last asked for.
    pub fn remove(&mut self, slot: Slot, block_id: &[u8; 32])
        ensures
            final(self)@ == old(self)@.remove((slot, block_id@)),
    {
        let _ = remove_entry(&mut self.map, (slot, *block_id));
    }

    /// Notes that the block `block_id` of `slot` was asked for at `time`.
    pub fn insert(&mut self, slot: Slot, block_id: &[u8; 32], time: u128)
        ensures
            final(self)@ == old(self)@.insert((slot, block_id@), time),
    {
        let _ = insert_entry(&mut self.map, (slot, *block_id), time);
    }
}

/// What was noted of a block is what is found of it; what was forgotten is not found. Neither bears
/// on another block, be it another slot or another id.
pub proof fn law_noted_time_is_found(
    slot: Slot,
    block_id: [u8; 32],
    time: u128,
    other_slot: Slot,
    other_id: [u8; 32],
)
    ensures
        forall|statuses: &mut RequestStatuses, found: Option<u128>|
            #[trigger] call_ensures(RequestStatuses::insert, (statuses, slot, &block_id, time), ())
                && #[trigger] call_ensures(
                RequestStatuses::requested_at,
                (final(statuses), slot, &block_id),
                found,
            ) ==> found == Some(time),
        forall|statuses: &mut RequestStatuses, found: Option<u128>|
            #[trigger] call_ensures(RequestStatuses::remove, (statuses, slot, &block_id), ())
                && #[trigger] call_ensures(
                RequestStatuses::requested_at,
                (final(statuses), slot, &block_id),
                found,
            ) ==> found is None,
        other_slot != slot || other_id@ != block_id@ ==> forall|
            statuses: &mut RequestStatuses,
            before: Option<u128>,
            after: Option<u128>,
        |
            (#[trigger] call_ensures(
                RequestStatuses::requested_at,
                (&*statuses, other_slot, &other_id),
                before,
            ) && #[trigger] call_ensures(
                RequestStatuses::requested_at,
                (final(statuses), other_slot, &other_id),
                after,
            ) && (call_ensures(RequestStatuses::insert, (statuses, slot, &block_id, time), ())
                || call_ensures(RequestStatuses::remove, (statuses, slot, &block_id), ())))
                ==> after == before,
        forall|statuses: RequestStatuses, found: Option<u128>|
            #[trigger] call_ensures(RequestStatuses::new, (), statuses) && #[trigger] call_ensures(
                RequestStatuses::requested_at,
                (&statuses, slot, &block_id),
                found,
            ) ==> found is None,
{
}

} // verus!
