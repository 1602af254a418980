//! The decisions of the boundary's entry points, on plain values: what is
//! validated before a core is created or ticked, and how a pending terrain
//! diff becomes a set of registered buffers or is left where it was.
//!
//! Null checks on the host's pointers and the lock around the registry are
//! the caller's part. Every function here either completes or leaves the
//! state it was given as it found it.

use crate::buffer::{
    mw_terrain_chunk_buffer_free, plan_make, MakePlan, MwTerrainChunkBuffer, MAX_CHUNK_COORDS,
};
use crate::codes::{CoreInitError, MwBool, MwGameMode, MwResult};
use crate::config::{MwCoreConfig, TickConfig};
use crate::coord::{MwTerrainChunkCoord, TerrainChunkCoord};
use crate::diff::TerrainDiff;
use crate::majestik::{init_outcome, MajestikCore};
use crate::registry::{lemma_issued_id_is_free, BufferOwnerRegistry, RegistryView};
use crate::timing::{delta_time_accepted, delta_time_is_valid};
use vstd::prelude::*;

verus! {

/// A terrain diff as the host receives it: one buffer per list.
#[derive(Clone, Copy, Debug, PartialEq, Eq, Structural)]
pub struct MwTerrainDiff {
    pub new_chunks: MwTerrainChunkBuffer,
    pub modified_chunks: MwTerrainChunkBuffer,
    pub removed_chunks: MwTerrainChunkBuffer,
}

impl MwTerrainDiff {
    /// Three canonical empty buffers.
    pub open spec fn empty() -> Self {
        MwTerrainDiff {
            new_chunks: MwTerrainChunkBuffer::empty(),
            modified_chunks: MwTerrainChunkBuffer::empty(),
            removed_chunks: MwTerrainChunkBuffer::empty(),
        }
    }
}

impl Default for MwTerrainDiff {
    fn default() -> (diff: Self)
        ensures
            diff == MwTerrainDiff::empty(),
    {
        MwTerrainDiff {
            new_chunks: MwTerrainChunkBuffer::default(),
            modified_chunks: MwTerrainChunkBuffer::default(),
            removed_chunks: MwTerrainChunkBuffer::default(),
        }
    }
}

/// A list of coordinates as the host sees it: the same components in the
/// same order.
pub open spec fn mw_coords(chunks: Seq<TerrainChunkCoord>) -> Seq<MwTerrainChunkCoord> {
    chunks.map_values(|c: TerrainChunkCoord| MwTerrainChunkCoord::of(c))
}

/// Copy a list of coordinates into the host's representation.
fn convert(chunks: &Vec<TerrainChunkCoord>) -> (coords: Vec<MwTerrainChunkCoord>)
    ensures
        coords@ == mw_coords(chunks@),
{
    let mut coords: Vec<MwTerrainChunkCoord> = Vec::new();
    let mut i: usize = 0;
    while i < chunks.len()
        invariant
            i <= chunks.len(),
            coords@ == mw_coords(chunks@.take(i as int)),
        decreases chunks.len() - i,
    {
        coords.push(MwTerrainChunkCoord::from(chunks[i]));
        i = i + 1;
        assert(coords@ =~= mw_coords(chunks@.take(i as int)));
    }
    assert(chunks@.take(chunks.len() as int) =~= chunks@);
    coords
}

/// The plans for the three buffers of a diff, made one after the other: new
/// chunks first, then modified, then removed.
pub struct DiffPlan {
    pub new_chunks: MakePlan,
    pub modified_chunks: MakePlan,
    pub removed_chunks: MakePlan,
}

/// The plans for a diff on a registry with the given identifiers in use and
/// the given counter.
pub open spec fn plan_diff(ids: Set<u64>, next_id: u64, diff: TerrainDiff) -> DiffPlan {
    let first = plan_make(ids, next_id, diff.new_chunks@.len());
    let second = plan_make(first.ids, first.next_id, diff.modified_chunks@.len());
    let third = plan_make(second.ids, second.next_id, diff.removed_chunks@.len());
    DiffPlan { new_chunks: first, modified_chunks: second, removed_chunks: third }
}

/// Whether some list of the diff is over the element limit for one buffer.
pub open spec fn diff_too_large(diff: TerrainDiff) -> bool {
    ||| diff.new_chunks@.len() > MAX_CHUNK_COORDS
    ||| diff.modified_chunks@.len() > MAX_CHUNK_COORDS
    ||| diff.removed_chunks@.len() > MAX_CHUNK_COORDS
}

/// Whether some non-empty list of the diff gets no buffer under the plan.
pub open spec fn conversion_fails(plan: DiffPlan, diff: TerrainDiff) -> bool {
    ||| diff.new_chunks@.len() > 0 && plan.new_chunks.id is None
    ||| diff.modified_chunks@.len() > 0 && plan.modified_chunks.id is None
    ||| diff.removed_chunks@.len() > 0 && plan.removed_chunks.id is None
}

/// Whether `out` and `after` are what converting `diff` on a registry in
/// state `before` gives: each buffer follows its plan, each buffer that was
/// made is backed by an entry that holds its list, the entries that were
/// there are untouched, and no other entry has appeared.
pub open spec fn diff_buffers_made(
    before: RegistryView,
    diff: TerrainDiff,
    out: MwTerrainDiff,
    after: RegistryView,
) -> bool {
    let plan = plan_diff(before.ids(), before.next_id, diff);
    &&& out.new_chunks.follows(plan.new_chunks, diff.new_chunks@.len())
    &&& out.modified_chunks.follows(plan.modified_chunks, diff.modified_chunks@.len())
    &&& out.removed_chunks.follows(plan.removed_chunks, diff.removed_chunks@.len())
    &&& after.next_id == plan.removed_chunks.next_id
    &&& after.ids() == plan.removed_chunks.ids
    &&& forall|id: u64| #[trigger]
        before.entries.contains_key(id) ==> after.entries[id] == before.entries[id]
    &&& out.new_chunks.owner_id != 0 ==> out.new_chunks.backed_by(
        after,
        mw_coords(diff.new_chunks@),
    )
    &&& out.modified_chunks.owner_id != 0 ==> out.modified_chunks.backed_by(
        after,
        mw_coords(diff.modified_chunks@),
    )
    &&& out.removed_chunks.owner_id != 0 ==> out.removed_chunks.backed_by(
        after,
        mw_coords(diff.removed_chunks@),
    )
}

/// Convert a terrain diff into three buffers for the host, registering each
/// list that is neither empty nor over the element limit.
pub fn terrain_diff_into_mw(registry: &mut BufferOwnerRegistry, diff: &TerrainDiff) -> (out:
    MwTerrainDiff)
    requires
        old(registry).wf(),
    ensures
        final(registry).wf(),
        diff_buffers_made(old(registry)@, *diff, out, final(registry)@),
{
    let ghost r0 = registry@;
    let new_chunks = MwTerrainChunkBuffer::from_vec(registry, convert(&diff.new_chunks));
    let ghost r1 = registry@;
    let modified_chunks = MwTerrainChunkBuffer::from_vec(registry, convert(&diff.modified_chunks));
    let ghost r2 = registry@;
    let removed_chunks = MwTerrainChunkBuffer::from_vec(registry, convert(&diff.removed_chunks));
    proof {
        lemma_issued_id_is_free(r0.ids(), r0.next_id);
        lemma_issued_id_is_free(r1.ids(), r1.next_id);
        lemma_issued_id_is_free(r2.ids(), r2.next_id);
        assert(r1.ids() =~= plan_make(r0.ids(), r0.next_id, diff.new_chunks@.len()).ids);
        assert(r2.ids() =~= plan_make(r1.ids(), r1.next_id, diff.modified_chunks@.len()).ids);
        assert(registry@.ids() =~= plan_make(
            r2.ids(),
            r2.next_id,
            diff.removed_chunks@.len(),
        ).ids);
    }
    MwTerrainDiff { new_chunks, modified_chunks, removed_chunks }
}

/// The result code of taking the pending diff `diff` on a registry with the
/// given identifiers in use and the given counter.
pub open spec fn take_outcome(ids: Set<u64>, next_id: u64, diff: TerrainDiff) -> MwResult {
    if diff_too_large(diff) {
        MwResult::BufferTooLarge
    } else if conversion_fails(plan_diff(ids, next_id, diff), diff) {
        MwResult::InternalError
    } else {
        MwResult::Success
    }
}

/// Consume the terrain diff captured during the previous tick and hand it
/// out as registered buffers.
///
/// A diff with a list over the element limit is refused with
/// [`MwResult::BufferTooLarge`] before anything is touched. If a buffer
/// cannot be registered, the buffers that were made are released again and
/// the call reports [`MwResult::InternalError`]. In both cases the pending
/// diff stays with the core and `out_diff` is not written, so that the call
/// can be repeated. On success the core is left with an empty pending diff.
pub fn mw_core_last_terrain_diff_take(
    core: &mut MajestikCore,
    registry: &mut BufferOwnerRegistry,
    out_diff: &mut MwTerrainDiff,
) -> (result: MwResult)
    requires
        old(registry).wf(),
    ensures
        final(registry).wf(),
        final(core).mode() == old(core).mode(),
        result == take_outcome(
            old(registry)@.ids(),
            old(registry)@.next_id,
            old(core).pending(),
        ),
        result == MwResult::Success ==> {
            &&& final(core).pending().spec_is_empty()
            &&& diff_buffers_made(
                old(registry)@,
                old(core).pending(),
                *final(out_diff),
                final(registry)@,
            )
        },
        result != MwResult::Success ==> {
            &&& final(core).pending() == old(core).pending()
            &&& *final(out_diff) == *old(out_diff)
            &&& final(registry)@.entries == old(registry)@.entries
        },
        result == MwResult::BufferTooLarge ==> final(registry)@ == old(registry)@,
        result == MwResult::InternalError ==> final(registry)@.next_id == plan_diff(
            old(registry)@.ids(),
            old(registry)@.next_id,
            old(core).pending(),
        ).removed_chunks.next_id,
{
    let ghost r0 = registry@;
    let last = core.last_terrain_diff();
    if last.new_chunks.len() > MAX_CHUNK_COORDS || last.modified_chunks.len() > MAX_CHUNK_COORDS
        || last.removed_chunks.len() > MAX_CHUNK_COORDS {
        return MwResult::BufferTooLarge;
    }
    let mut ffi_diff = terrain_diff_into_mw(registry, last);
    let new_failed: bool = last.new_chunks.len() != 0 && ffi_diff.new_chunks.ptr == 0;
    let modified_failed: bool = last.modified_chunks.len() != 0 && ffi_diff.modified_chunks.ptr
        == 0;
    let removed_failed: bool = last.removed_chunks.len() != 0 && ffi_diff.removed_chunks.ptr == 0;
    if new_failed || modified_failed || removed_failed {
        let ghost r3 = registry@;
        let ghost made = ffi_diff;
        proof {
            let plan = plan_diff(r0.ids(), r0.next_id, core.pending());
            lemma_issued_id_is_free(r0.ids(), r0.next_id);
            lemma_issued_id_is_free(plan.new_chunks.ids, plan.new_chunks.next_id);
            lemma_issued_id_is_free(plan.modified_chunks.ids, plan.modified_chunks.next_id);
        }
        mw_terrain_chunk_buffer_free(registry, &mut ffi_diff.new_chunks);
        mw_terrain_chunk_buffer_free(registry, &mut ffi_diff.modified_chunks);
        mw_terrain_chunk_buffer_free(registry, &mut ffi_diff.removed_chunks);
        proof {
            assert(registry@.entries =~= r0.entries);
        }
        return MwResult::InternalError;
    }
    let _ = core.take_last_terrain_diff();
    *out_diff = ffi_diff;
    MwResult::Success
}

/// The result code of creating a core from the host's payload, once the
/// simulation has said whether it supports the map size. A missing payload
/// stands for the default configuration.
pub open spec fn create_outcome(config: Option<MwCoreConfig>, map_size_supported: bool) -> MwResult {
    let payload = match config {
        Some(c) => c,
        None => MwCoreConfig::spec_default(),
    };
    match payload.spec_core_config() {
        Err(code) => code,
        Ok(core_config) => match init_outcome(core_config, map_size_supported) {
            Ok(_) => MwResult::Success,
            Err(CoreInitError::InvalidMapSize) => MwResult::InvalidMapSize,
            Err(CoreInitError::InvalidDayCycleCoefficient) => MwResult::InvalidDayCycle,
        },
    }
}

/// Create a core from the host's payload.
///
/// The game mode is judged first, then the day-cycle coefficient, then the
/// map size. Nothing is built unless all three are accepted.
pub fn mw_core_create(config: Option<MwCoreConfig>, map_size_supported: bool) -> (result: Result<
    MajestikCore,
    MwResult,
>)
    ensures
        match result {
            Ok(core) => {
                &&& create_outcome(config, map_size_supported) == MwResult::Success
                &&& core.pending().spec_is_empty()
                &&& MwGameMode::of_core(core.mode()).spec_discriminant() == match config {
                    Some(c) => c.game_mode,
                    None => 0,
                }
            },
            Err(code) => code != MwResult::Success && code == create_outcome(
                config,
                map_size_supported,
            ),
        },
{
    let payload = match config {
        Some(c) => c,
        None => MwCoreConfig::default(),
    };
    match payload.try_into_core_config() {
        Ok(core_config) => match MajestikCore::new(core_config, map_size_supported) {
            Ok(core) => Ok(core),
            Err(err) => Err(MwResult::from(err)),
        },
        Err(code) => Err(code),
    }
}

/// Judge the arguments of a tick before the simulation is advanced.
///
/// A delta time that is not accepted is refused with
/// [`MwResult::InvalidDeltaTime`] and nothing is to be done. For an accepted
/// one the options of the tick are returned: terrain is updated exactly when
/// the host's flag is not zero.
pub fn mw_core_tick(dt_bits: u32, update_terrain: MwBool) -> (plan: Result<TickConfig, MwResult>)
    ensures
        plan == if delta_time_accepted(dt_bits) {
            Ok::<TickConfig, MwResult>(TickConfig { update_terrain: update_terrain != 0 })
        } else {
            Err(MwResult::InvalidDeltaTime)
        },
{
    if !delta_time_is_valid(dt_bits) {
        return Err(MwResult::InvalidDeltaTime);
    }
    Ok(TickConfig { update_terrain: update_terrain != 0 })
}

/// The mode that a core runs in, as the host names it.
pub fn mw_core_game_mode(core: &MajestikCore) -> (mode: MwGameMode)
    ensures
        mode == MwGameMode::of_core(core.mode()),
{
    MwGameMode::from(core.game_mode())
}

} // verus!
