//! The buffer owner registry: the single source of truth that matches a
//! release request to a live allocation.
//!
//! Every buffer handed to the host is recorded here under a fresh non-zero
//! identifier together with the addresses the host was given. The registry
//! owns the storage behind each buffer until a validated release takes the
//! entry out again.

use crate::coord::MwTerrainChunkCoord;
use std::collections::HashMap;
use vstd::prelude::*;

verus! {

broadcast use vstd::std_specs::hash::group_hash_axioms;

/// How many identifiers one registration tries before it gives up.
pub const MAX_BUFFER_ID_ATTEMPTS: usize = 64;

/// Bookkeeping for one buffer that has crossed the boundary.
pub struct BufferOwnerEntry {
    /// Address of the owning allocation, as handed to the host.
    pub owner_addr: usize,
    /// Address of the first coordinate, as handed to the host.
    pub data_ptr: usize,
    /// Number of coordinates the host was told about.
    pub len: usize,
    /// The storage itself, kept alive for as long as the entry exists.
    pub coords: Box<Vec<MwTerrainChunkCoord>>,
}

impl BufferOwnerEntry {
    /// An entry is well formed when both addresses are non-null and the
    /// recorded length is the length of the storage.
    pub open spec fn wf(self) -> bool {
        &&& self.owner_addr != 0
        &&& self.data_ptr != 0
        &&& self.len == self.coords@.len()
    }
}

/// Abstract state of a registry: the live entries by identifier, and the
/// identifier that the next registration tries first.
pub struct RegistryView {
    pub entries: Map<u64, BufferOwnerEntry>,
    pub next_id: u64,
}

impl RegistryView {
    /// Identifier zero is never a key, the entries are finitely many, and
    /// each of them is well formed.
    pub open spec fn wf(self) -> bool {
        &&& !self.entries.contains_key(0)
        &&& self.entries.dom().finite()
        &&& forall|id: u64| #[trigger] self.entries.contains_key(id) ==> self.entries[id].wf()
    }

    /// The identifiers in use.
    pub open spec fn ids(self) -> Set<u64> {
        self.entries.dom()
    }
}

/// The identifier tried at the given attempt of a registration that starts
/// at `next_id`: the counter advances by one per attempt and wraps around.
pub open spec fn candidate_id(next_id: u64, attempt: nat) -> u64 {
    if next_id + attempt > u64::MAX {
        (next_id + attempt - 0x1_0000_0000_0000_0000) as u64
    } else {
        (next_id + attempt) as u64
    }
}

/// An identifier can be issued when it is not the reserved zero and no live
/// entry uses it.
pub open spec fn id_is_free(ids: Set<u64>, id: u64) -> bool {
    id != 0 && !ids.contains(id)
}

/// The first attempt in `from..limit` whose candidate identifier is free.
pub open spec fn first_free_attempt(ids: Set<u64>, next_id: u64, from: nat, limit: nat) -> Option<
    nat,
>
    decreases limit - from,
{
    if from >= limit {
        None
    } else if id_is_free(ids, candidate_id(next_id, from)) {
        Some(from)
    } else {
        first_free_attempt(ids, next_id, from + 1, limit)
    }
}

/// The attempt at which a registration succeeds, if any does within the
/// attempt limit, on a registry with the given identifiers in use and the
/// given counter.
pub open spec fn winning_attempt(ids: Set<u64>, next_id: u64) -> Option<nat> {
    first_free_attempt(ids, next_id, 0, MAX_BUFFER_ID_ATTEMPTS as nat)
}

/// The identifier that a registration issues, if it issues one.
pub open spec fn issued_id(ids: Set<u64>, next_id: u64) -> Option<u64> {
    match winning_attempt(ids, next_id) {
        Some(k) => Some(candidate_id(next_id, k)),
        None => None,
    }
}

/// The counter after a registration: one past the identifier that was
/// issued, or past all attempts if none was.
pub open spec fn next_id_after_registration(ids: Set<u64>, next_id: u64) -> u64 {
    match winning_attempt(ids, next_id) {
        Some(k) => candidate_id(next_id, k + 1),
        None => candidate_id(next_id, MAX_BUFFER_ID_ATTEMPTS as nat),
    }
}

/// An identifier that is issued is free: it is not zero and not in use.
pub proof fn lemma_issued_id_is_free(ids: Set<u64>, next_id: u64)
    ensures
        issued_id(ids, next_id) matches Some(id) ==> id_is_free(ids, id),
{
    lemma_first_free_attempt(ids, next_id, 0, MAX_BUFFER_ID_ATTEMPTS as nat);
}

/// The attempt that `first_free_attempt` finds lies in the range searched
/// and its candidate is free.
pub proof fn lemma_first_free_attempt(ids: Set<u64>, next_id: u64, from: nat, limit: nat)
    ensures
        first_free_attempt(ids, next_id, from, limit) matches Some(k) ==> from <= k < limit
            && id_is_free(ids, candidate_id(next_id, k)),
    decreases limit - from,
{
    if from < limit && !id_is_free(ids, candidate_id(next_id, from)) {
        lemma_first_free_attempt(ids, next_id, from + 1, limit);
    }
}

/// Registry of every buffer currently owned on behalf of the host.
pub struct BufferOwnerRegistry {
    entries: HashMap<u64, BufferOwnerEntry>,
    next_id: u64,
}

impl View for BufferOwnerRegistry {
    type V = RegistryView;

    closed spec fn view(&self) -> RegistryView {
        RegistryView { entries: self.entries@, next_id: self.next_id }
    }
}

impl BufferOwnerRegistry {
    /// Validity of the registry: that of its abstract state.
    pub open spec fn wf(&self) -> bool {
        self@.wf()
    }

    /// An empty registry whose first identifier is 1.
    pub fn new() -> (registry: Self)
        ensures
            registry.wf(),
            registry@.entries == Map::<u64, BufferOwnerEntry>::empty(),
            registry@.next_id == 1,
    {
        BufferOwnerRegistry { entries: HashMap::new(), next_id: 1 }
    }

    /// Set the identifier that the next registration tries first. The
    /// entries are left as they are.
    ///
    /// Identifiers are otherwise handed out in ascending order from 1. This
    /// is for instrumentation that needs the counter elsewhere, such as a
    /// test of what happens when the counter comes round to identifiers
    /// that are still in use.
    pub fn reseed(&mut self, next_id: u64)
        ensures
            final(self)@.entries == old(self)@.entries,
            final(self)@.next_id == next_id,
    {
        self.next_id = next_id;
    }

    /// The identifier that the next registration tries first.
    pub fn next_id(&self) -> (id: u64)
        ensures
            id == self@.next_id,
    {
        self.next_id
    }

    /// Whether `owner_id` names a live entry.
    pub fn contains(&self, owner_id: u64) -> (live: bool)
        ensures
            live == self@.entries.contains_key(owner_id),
    {
        self.entries.contains_key(&owner_id)
    }

    /// Read the entry that `owner_id` names without removing it.
    pub fn get(&self, owner_id: u64) -> (found: Option<&BufferOwnerEntry>)
        ensures
            match found {
                Some(entry) => self@.entries.contains_key(owner_id) && *entry
                    == self@.entries[owner_id],
                None => !self@.entries.contains_key(owner_id),
            },
    {
        self.entries.get(&owner_id)
    }

    /// Put back an entry that was taken out and could not be matched to the
    /// release request presented for it.
    pub(crate) fn restore(&mut self, owner_id: u64, entry: BufferOwnerEntry)
        requires
            old(self).wf(),
            owner_id != 0,
            entry.wf(),
            !old(self)@.entries.contains_key(owner_id),
        ensures
            final(self).wf(),
            final(self)@.entries == old(self)@.entries.insert(owner_id, entry),
            final(self)@.next_id == old(self)@.next_id,
    {
        self.entries.insert(owner_id, entry);
    }
}

/// Record a buffer under a fresh identifier.
///
/// Fails when either address is null, leaving the registry untouched. Else
/// the counter is advanced once per attempt, skipping zero and every
/// identifier in use, and the buffer is inserted under the first free one;
/// registration fails when none of the attempts finds one. On failure the
/// storage is released with the call.
pub fn register_buffer_owner(
    registry: &mut BufferOwnerRegistry,
    owner: usize,
    data_ptr: usize,
    coords: Box<Vec<MwTerrainChunkCoord>>,
) -> (result: Result<u64, ()>)
    requires
        old(registry).wf(),
    ensures
        final(registry).wf(),
        result is Ok <==> owner != 0 && data_ptr != 0 && issued_id(
            old(registry)@.ids(),
            old(registry)@.next_id,
        ) is Some,
        match result {
            Ok(id) => {
                &&& issued_id(old(registry)@.ids(), old(registry)@.next_id) == Some(id)
                &&& id_is_free(old(registry)@.ids(), id)
                &&& final(registry)@.entries.len() == old(registry)@.entries.len() + 1
                &&& final(registry)@.entries == old(registry)@.entries.insert(
                    id,
                    (BufferOwnerEntry {
                        owner_addr: owner,
                        data_ptr,
                        len: coords@.len() as usize,
                        coords,
                    }),
                )
                &&& final(registry)@.next_id == next_id_after_registration(
                    old(registry)@.ids(),
                    old(registry)@.next_id,
                )
            },
            Err(_) => {
                &&& final(registry)@.entries == old(registry)@.entries
                &&& final(registry)@.next_id == if owner == 0 || data_ptr == 0 {
                    old(registry)@.next_id
                } else {
                    next_id_after_registration(old(registry)@.ids(), old(registry)@.next_id)
                }
            },
        },
{
    if owner == 0 || data_ptr == 0 {
        return Err(());
    }
    let ghost before = registry@;
    let mut attempt: usize = 0;
    while attempt < MAX_BUFFER_ID_ATTEMPTS
        invariant
            attempt <= MAX_BUFFER_ID_ATTEMPTS,
            owner != 0,
            data_ptr != 0,
            before == old(registry)@,
            before.wf(),
            registry@.entries == before.entries,
            registry@.next_id == candidate_id(before.next_id, attempt as nat),
            winning_attempt(before.ids(), before.next_id) == first_free_attempt(
                before.ids(),
                before.next_id,
                attempt as nat,
                MAX_BUFFER_ID_ATTEMPTS as nat,
            ),
        decreases MAX_BUFFER_ID_ATTEMPTS - attempt,
    {
        let id: u64 = registry.next_id;
        registry.next_id = registry.next_id.wrapping_add(1);
        if id != 0 && !registry.entries.contains_key(&id) {
            let len: usize = coords.len();
            registry.entries.insert(id, BufferOwnerEntry { owner_addr: owner, data_ptr, len, coords });
            return Ok(id);
        }
        attempt = attempt + 1;
    }
    Err(())
}

/// Remove and return the entry that `owner_id` names.
///
/// Returns `None` for identifier zero and for every identifier that names
/// no live entry; the registry is then unchanged.
pub fn take_buffer_owner(registry: &mut BufferOwnerRegistry, owner_id: u64) -> (taken: Option<
    BufferOwnerEntry,
>)
    requires
        old(registry).wf(),
    ensures
        final(registry).wf(),
        final(registry)@.next_id == old(registry)@.next_id,
        taken is Some <==> old(registry)@.entries.contains_key(owner_id),
        match taken {
            Some(entry) => {
                &&& owner_id != 0
                &&& entry == old(registry)@.entries[owner_id]
                &&& final(registry)@.entries.len() == old(registry)@.entries.len() - 1
                &&& final(registry)@.entries == old(registry)@.entries.remove(owner_id)
            },
            None => final(registry)@.entries == old(registry)@.entries,
        },
{
    if owner_id == 0 {
        return None;
    }
    let taken = registry.entries.remove(&owner_id);
    proof {
        if taken is None {
            assert(registry@.entries =~= old(registry)@.entries);
        }
    }
    taken
}

/// The number of live entries.
pub fn buffer_owner_registry_len(registry: &BufferOwnerRegistry) -> (len: usize)
    ensures
        len == registry@.entries.len(),
{
    registry.entries.len()
}

} // verus!
