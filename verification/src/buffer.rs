//! Buffers that cross the boundary: how one is made from a list of
//! coordinates, and how a release request for one is checked against the
//! registry before anything is given up.

use crate::coord::MwTerrainChunkCoord;
use crate::registry::{
    issued_id, next_id_after_registration, register_buffer_owner, take_buffer_owner,
    BufferOwnerEntry, BufferOwnerRegistry, RegistryView,
};
use vstd::prelude::*;

verus! {

/// Maximum number of terrain chunk coordinates returned in a single buffer.
///
/// The bound keeps an untrusted diff from forcing an arbitrarily large
/// allocation when it is marshalled for the host.
pub const MAX_CHUNK_COORDS: usize = 65_536;

/// Buffer returned from terrain diff queries.
///
/// The host reads `len` coordinates at `ptr`. `owner` and `owner_id` name the
/// allocation in the registry and are opaque to the host. Every field is the
/// host's to overwrite, so none of them is trusted on the way back.
#[derive(Clone, Copy, Debug, PartialEq, Eq, Structural)]
pub struct MwTerrainChunkBuffer {
    /// Address of the first coordinate, or zero.
    pub ptr: usize,
    /// Number of coordinates at `ptr`.
    pub len: usize,
    /// Address of the owning allocation, or zero.
    pub owner: usize,
    /// Identifier of the registry entry, or zero.
    pub owner_id: u64,
}

impl MwTerrainChunkBuffer {
    /// The canonical empty buffer: no allocation, every field zero.
    pub open spec fn empty() -> Self {
        MwTerrainChunkBuffer { ptr: 0, len: 0, owner: 0, owner_id: 0 }
    }

    /// Whether this is the canonical empty buffer.
    pub open spec fn is_canonical_empty(self) -> bool {
        self == Self::empty()
    }

    /// Whether the fields agree on there being an allocation: the length,
    /// the pointer, the owner address and the identifier are all zero, or
    /// none of them is.
    pub open spec fn is_consistent(self) -> bool {
        &&& (self.len == 0 <==> self.ptr == 0)
        &&& (self.ptr == 0 <==> self.owner == 0)
        &&& (self.owner == 0 <==> self.owner_id == 0)
    }

    /// The registry entry that this buffer describes when it is backed by
    /// the given storage.
    pub open spec fn entry_for(self, coords: Vec<MwTerrainChunkCoord>) -> BufferOwnerEntry {
        BufferOwnerEntry {
            owner_addr: self.owner,
            data_ptr: self.ptr,
            len: self.len,
            coords: Box::new(coords),
        }
    }

    /// Whether `self` is what carrying out `plan` for a list of `len`
    /// coordinates may return.
    ///
    /// Where the plan issues an identifier, the buffer carries it together
    /// with the length and two non-null addresses. Where it issues none, the
    /// buffer is the canonical empty one.
    pub open spec fn follows(self, plan: MakePlan, len: nat) -> bool {
        match plan.id {
            Some(id) => {
                &&& self.owner_id == id
                &&& self.len == len
                &&& self.ptr != 0
                &&& self.owner != 0
            },
            None => self.is_canonical_empty(),
        }
    }

    /// Whether the registry holds, under this buffer's identifier, an entry
    /// with this buffer's addresses and length and with the given
    /// coordinates in its storage.
    pub open spec fn backed_by(self, view: RegistryView, coords: Seq<MwTerrainChunkCoord>) -> bool {
        &&& view.entries.contains_key(self.owner_id)
        &&& view.entries[self.owner_id].owner_addr == self.owner
        &&& view.entries[self.owner_id].data_ptr == self.ptr
        &&& view.entries[self.owner_id].len == self.len
        &&& view.entries[self.owner_id].coords@ == coords
    }

    /// Hand a list of coordinates to the registry and describe it by a
    /// buffer for the host.
    ///
    /// An empty list, and one over the element limit, give the canonical
    /// empty buffer and leave the registry as it was. Any other list is
    /// registered with the addresses of its storage; if the registry can
    /// issue no identifier, the storage is released and the buffer is the
    /// canonical empty one.
    pub fn from_vec(registry: &mut BufferOwnerRegistry, coords: Vec<MwTerrainChunkCoord>) -> (buffer:
        Self)
        requires
            old(registry).wf(),
        ensures
            final(registry).wf(),
            buffer.is_consistent(),
            buffer.follows(
                plan_make(old(registry)@.ids(), old(registry)@.next_id, coords@.len()),
                coords@.len(),
            ),
            final(registry)@.next_id == plan_make(
                old(registry)@.ids(),
                old(registry)@.next_id,
                coords@.len(),
            ).next_id,
            final(registry)@.entries == entries_after_make(
                old(registry)@.entries,
                buffer,
                coords,
            ),
            coords@.len() > MAX_CHUNK_COORDS ==> buffer.is_canonical_empty() && final(registry)@
                == old(registry)@,
    {
        if coords.len() == 0 {
            return Self::default();
        }
        if coords.len() > MAX_CHUNK_COORDS {
            return Self::default();
        }
        let mut coords = coords;
        let ptr: usize = data_address(&mut coords);
        let len: usize = coords.len();
        let boxed: Box<Vec<MwTerrainChunkCoord>> = Box::new(coords);
        let owner: usize = owner_address(&boxed);
        match register_buffer_owner(registry, owner, ptr, boxed) {
            Ok(owner_id) => MwTerrainChunkBuffer { ptr, len, owner, owner_id },
            Err(_) => Self::default(),
        }
    }
}

/// The entries of a registry after `buffer` was made from `coords`: one
/// more entry under the buffer's identifier if the buffer names an
/// allocation, and no change if it is the canonical empty buffer.
pub open spec fn entries_after_make(
    entries: Map<u64, BufferOwnerEntry>,
    buffer: MwTerrainChunkBuffer,
    coords: Vec<MwTerrainChunkCoord>,
) -> Map<u64, BufferOwnerEntry> {
    if buffer.owner_id != 0 {
        entries.insert(buffer.owner_id, buffer.entry_for(coords))
    } else {
        entries
    }
}

/// What making one buffer does to the identifiers of a registry: the
/// identifier issued, if one is, the identifiers in use afterwards, and the
/// counter afterwards.
pub struct MakePlan {
    pub id: Option<u64>,
    pub ids: Set<u64>,
    pub next_id: u64,
}

/// The plan for a buffer of `len` coordinates. It depends on the length,
/// the identifiers in use and the counter, and on nothing else.
///
/// An empty list and one over the element limit touch nothing. Any other
/// list takes the identifier that the registry issues and moves the counter
/// past the attempts made.
pub open spec fn plan_make(ids: Set<u64>, next_id: u64, len: nat) -> MakePlan {
    if len == 0 || len > MAX_CHUNK_COORDS {
        MakePlan { id: None, ids, next_id }
    } else {
        match issued_id(ids, next_id) {
            Some(id) => MakePlan {
                id: Some(id),
                ids: ids.insert(id),
                next_id: next_id_after_registration(ids, next_id),
            },
            None => MakePlan { id: None, ids, next_id: next_id_after_registration(ids, next_id) },
        }
    }
}

impl Default for MwTerrainChunkBuffer {
    fn default() -> (buffer: Self)
        ensures
            buffer == MwTerrainChunkBuffer::empty(),
    {
        MwTerrainChunkBuffer { ptr: 0, len: 0, owner: 0, owner_id: 0 }
    }
}

/// The address of the first element of a vector, from `Vec::as_mut_ptr`.
///
/// Taken on trust: the vector is left as it was, and the address is not
/// null, which the standard library guarantees of every vector's pointer.
/// Nothing else is claimed of the address.
#[verifier::external_body]
fn data_address(coords: &mut Vec<MwTerrainChunkCoord>) -> (addr: usize)
    ensures
        addr != 0,
        *final(coords) == *old(coords),
{
    coords.as_mut_ptr() as usize
}

/// The address of a boxed vector, from `std::ptr::from_ref` on the box's
/// contents.
///
/// Taken on trust: the address is not null, which the standard library
/// guarantees of every reference. Nothing else is claimed of the address.
#[verifier::external_body]
fn owner_address(owner: &Box<Vec<MwTerrainChunkCoord>>) -> (addr: usize)
    ensures
        addr != 0,
{
    std::ptr::from_ref::<Vec<MwTerrainChunkCoord>>(owner) as usize
}

/// What a release request came to.
#[derive(Clone, Copy, Debug, PartialEq, Eq, Structural)]
pub enum FreeOutcome {
    /// The buffer named no allocation: owner address or identifier was zero.
    Unowned,
    /// The identifier named no live entry: the buffer was released before.
    NotRegistered,
    /// The request matched its entry and the allocation was released.
    Released,
    /// The request did not match its entry. The entry was put back and the
    /// allocation is still live.
    Rejected,
}

/// Whether a release request names its allocation by the right owner
/// address, and describes it by the recorded pointer and length or as empty.
pub open spec fn request_matches(buffer: MwTerrainChunkBuffer, entry: BufferOwnerEntry) -> bool {
    &&& buffer.owner == entry.owner_addr
    &&& (buffer.ptr == entry.data_ptr && buffer.len == entry.len) || buffer.ptr == 0 || buffer.len
        == 0
}

/// What releasing `buffer` comes to on a registry with the given entries.
pub open spec fn free_outcome(
    entries: Map<u64, BufferOwnerEntry>,
    buffer: MwTerrainChunkBuffer,
) -> FreeOutcome {
    if buffer.owner == 0 || buffer.owner_id == 0 {
        FreeOutcome::Unowned
    } else if !entries.contains_key(buffer.owner_id) {
        FreeOutcome::NotRegistered
    } else if request_matches(buffer, entries[buffer.owner_id]) {
        FreeOutcome::Released
    } else {
        FreeOutcome::Rejected
    }
}

/// The entries of a registry after `buffer` was presented for release: the
/// named entry is gone if the request was valid, and nothing has changed
/// otherwise.
pub open spec fn entries_after_free(
    entries: Map<u64, BufferOwnerEntry>,
    buffer: MwTerrainChunkBuffer,
) -> Map<u64, BufferOwnerEntry> {
    if free_outcome(entries, buffer) == FreeOutcome::Released {
        entries.remove(buffer.owner_id)
    } else {
        entries
    }
}

/// Release the allocation behind a buffer previously returned to the host.
///
/// The allocation is given up only when the identifier names a live entry
/// and the request matches that entry. A request that does not match leaves
/// the entry, and with it the allocation, in the registry. Whatever the
/// outcome, the buffer is reset to the canonical empty buffer, so that a
/// second release of it finds nothing to do.
pub fn mw_terrain_chunk_buffer_free(
    registry: &mut BufferOwnerRegistry,
    buffer: &mut MwTerrainChunkBuffer,
) -> (outcome: FreeOutcome)
    requires
        old(registry).wf(),
    ensures
        final(registry).wf(),
        final(buffer).is_canonical_empty(),
        outcome == free_outcome(old(registry)@.entries, *old(buffer)),
        final(registry)@.entries == entries_after_free(old(registry)@.entries, *old(buffer)),
        final(registry)@.next_id == old(registry)@.next_id,
{
    let owner: usize = buffer.owner;
    let owner_id: u64 = buffer.owner_id;
    let ptr: usize = buffer.ptr;
    let len: usize = buffer.len;
    buffer.ptr = 0;
    buffer.len = 0;
    buffer.owner = 0;
    buffer.owner_id = 0;
    if owner == 0 || owner_id == 0 {
        return FreeOutcome::Unowned;
    }
    match take_buffer_owner(registry, owner_id) {
        None => FreeOutcome::NotRegistered,
        Some(entry) => {
            let owner_matches: bool = owner == entry.owner_addr;
            let data_matches: bool = ptr == entry.data_ptr && len == entry.len;
            let is_empty_buffer: bool = ptr == 0 || len == 0;
            if owner_matches && (data_matches || is_empty_buffer) {
                FreeOutcome::Released
            } else {
                registry.restore(owner_id, entry);
                assert(registry@.entries =~= old(registry)@.entries);
                FreeOutcome::Rejected
            }
        },
    }
}

} // verus!
