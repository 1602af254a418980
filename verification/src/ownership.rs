//! What holds of the ownership protocol as a whole: statements that relate
//! the making of a buffer, its release and the state of the registry.

use crate::buffer::{
    entries_after_free, entries_after_make, free_outcome, plan_make, FreeOutcome,
    MwTerrainChunkBuffer,
};
use crate::coord::MwTerrainChunkCoord;
use crate::registry::{id_is_free, lemma_issued_id_is_free, BufferOwnerEntry, RegistryView};
use vstd::prelude::*;

verus! {

/// Releasing a buffer that has been reset does nothing: the request names
/// no allocation and the registry stays as it is.
pub proof fn lemma_release_of_reset_buffer_is_noop(entries: Map<u64, BufferOwnerEntry>)
    ensures
        free_outcome(entries, MwTerrainChunkBuffer::empty()) == FreeOutcome::Unowned,
        entries_after_free(entries, MwTerrainChunkBuffer::empty()) == entries,
{
}

/// Presenting the same request twice releases at most once: what the first
/// release leaves of the registry, the second leaves untouched, also where
/// the host kept a copy of the buffer from before the reset.
pub proof fn lemma_release_is_idempotent(
    entries: Map<u64, BufferOwnerEntry>,
    buffer: MwTerrainChunkBuffer,
)
    ensures
        entries_after_free(entries_after_free(entries, buffer), buffer) == entries_after_free(
            entries,
            buffer,
        ),
        free_outcome(entries_after_free(entries, buffer), buffer) != FreeOutcome::Released,
{
}

/// Making a buffer from a non-empty list and releasing it again leaves the
/// registry with the entries it had before, and so with as many.
pub proof fn lemma_make_then_release_restores(
    before: RegistryView,
    coords: Vec<MwTerrainChunkCoord>,
    buffer: MwTerrainChunkBuffer,
)
    requires
        before.wf(),
        coords@.len() > 0,
        buffer.follows(plan_make(before.ids(), before.next_id, coords@.len()), coords@.len()),
    ensures
        entries_after_free(entries_after_make(before.entries, buffer, coords), buffer)
            == before.entries,
        entries_after_free(entries_after_make(before.entries, buffer, coords), buffer).len()
            == before.entries.len(),
{
    lemma_issued_id_is_free(before.ids(), before.next_id);
    let made = entries_after_make(before.entries, buffer, coords);
    if buffer.owner_id != 0 {
        assert(free_outcome(made, buffer) == FreeOutcome::Released);
        assert(made.remove(buffer.owner_id) =~= before.entries);
    }
}

/// A request that describes its allocation by the wrong length or the wrong
/// pointer releases nothing: the entry it names is still in the registry,
/// unchanged, after the attempt.
///
/// The statement is about requests that present a buffer with a pointer and
/// a length. One that presents itself as empty is judged on the owner
/// address alone.
pub proof fn lemma_mismatched_release_keeps_entry(
    entries: Map<u64, BufferOwnerEntry>,
    buffer: MwTerrainChunkBuffer,
)
    requires
        entries.contains_key(buffer.owner_id),
        buffer.ptr != 0,
        buffer.len != 0,
        buffer.len != entries[buffer.owner_id].len || buffer.ptr
            != entries[buffer.owner_id].data_ptr,
    ensures
        free_outcome(entries, buffer) != FreeOutcome::Released,
        entries_after_free(entries, buffer) == entries,
{
}

/// A request that names its allocation by the wrong owner address releases
/// nothing, whatever pointer and length it presents.
pub proof fn lemma_wrong_owner_release_keeps_entry(
    entries: Map<u64, BufferOwnerEntry>,
    buffer: MwTerrainChunkBuffer,
)
    requires
        entries.contains_key(buffer.owner_id),
        buffer.owner != entries[buffer.owner_id].owner_addr,
    ensures
        free_outcome(entries, buffer) != FreeOutcome::Released,
        entries_after_free(entries, buffer) == entries,
{
}

/// An identifier, once issued, names one allocation until it is taken out:
/// a registration under a free identifier leaves every entry that was there
/// in place and unchanged.
pub proof fn lemma_registration_keeps_entries(
    entries: Map<u64, BufferOwnerEntry>,
    id: u64,
    entry: BufferOwnerEntry,
    other: u64,
)
    requires
        id_is_free(entries.dom(), id),
        entries.contains_key(other),
    ensures
        other != id,
        entries.insert(id, entry).contains_key(other),
        entries.insert(id, entry)[other] == entries[other],
{
}

/// A release takes out the entry that the request names and no other: every
/// other allocation stays registered as it was.
pub proof fn lemma_release_touches_one_entry(
    entries: Map<u64, BufferOwnerEntry>,
    buffer: MwTerrainChunkBuffer,
    other: u64,
)
    requires
        entries.contains_key(other),
        other != buffer.owner_id,
    ensures
        entries_after_free(entries, buffer).contains_key(other),
        entries_after_free(entries, buffer)[other] == entries[other],
{
}

} // verus!
