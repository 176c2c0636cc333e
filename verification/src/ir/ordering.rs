//! How barriers order storage writes and the accesses that follow them.

use crate::ir::access::{Access, ResourcePart};
use crate::ir::command::{CommandView, EncoderView, MAX_COMMANDS};
use crate::ir::compute_pass_encoder::ComputeStateView;
use crate::ir::groups::{DrawScope, GroupUse};
use crate::ir::programmable::{
    BindGroupEntry, BindGroupLayoutEntry, BindingResource, BufferAccess, ResourceBarrier,
};
use crate::ir::resource::BufferUsage;
use crate::ir::table::{BindGroupRef, BufferRef, TableView};
use crate::ir::types::Error;
use crate::memory::Memory;
use vstd::prelude::*;

verus! {

/// Whether a buffer was written by a shader and no barrier on it followed.
pub open spec fn awaits_barrier(encoder: EncoderView, buffer: BufferRef) -> bool {
    let part = ResourcePart::Buffer(buffer.id());
    encoder.access.pending.contains(part) && !encoder.access.announced.dom().contains(part)
}

/// Whether a binding of a set is a buffer that shaders write.
pub open spec fn binds_writable(
    table: TableView,
    layout: Seq<Seq<BindGroupLayoutEntry>>,
    bound: Seq<Option<BindGroupRef>>,
    buffer: BufferRef,
    set: int,
    binding: int,
) -> bool {
    &&& 0 <= set < layout.len()
    &&& bound[set] is Some
    &&& match table.bind_group(bound[set]->0) {
        Err(_) => false,
        Ok(group) => {
            &&& 0 <= binding < crate::ir::groups::paired(group, layout[set])
            &&& crate::ir::programmable::writes(layout[set][binding].ty)
            &&& match group.entries[binding].resource {
                BindingResource::Buffer { buffer: bound_buffer, .. } => bound_buffer == buffer.id(),
                _ => false,
            }
        },
    }
}

/// Bindings add to the uses, and each of the first ones is among them.
proof fn lemma_bindings_used(
    encoder: EncoderView,
    uses: Seq<GroupUse>,
    entries: Seq<BindGroupEntry>,
    layout: Seq<BindGroupLayoutEntry>,
    scope: DrawScope,
    count: nat,
    binding: int,
)
    ensures
        crate::ir::groups::use_bindings(encoder, uses, entries, layout, scope, count) matches Ok(
            result,
        ) ==> uses.is_prefix_of(result) && (0 <= binding < count ==> result.contains(
            GroupUse {
                resource: entries[binding].resource,
                writes: crate::ir::programmable::writes(layout[binding].ty),
            },
        )),
    decreases count,
{
    if count > 0 {
        let fewer = (count - 1) as nat;
        lemma_bindings_used(encoder, uses, entries, layout, scope, fewer, binding);
        let before = crate::ir::groups::use_bindings(encoder, uses, entries, layout, scope, fewer);
        let after = crate::ir::groups::use_bindings(encoder, uses, entries, layout, scope, count);
        if after is Ok {
            let last = GroupUse {
                resource: entries[fewer as int].resource,
                writes: crate::ir::programmable::writes(layout[fewer as int].ty),
            };
            let earlier = before->Ok_0;
            let result = after->Ok_0;
            assert(result == earlier.push(last));
            assert(result[earlier.len() as int] == last);
            if 0 <= binding < fewer {
                let wanted = GroupUse {
                    resource: entries[binding].resource,
                    writes: crate::ir::programmable::writes(layout[binding].ty),
                };
                let at = choose|at: int| 0 <= at < earlier.len() && earlier[at] == wanted;
                assert(result[at] == wanted);
            }
        }
    }
}

/// A buffer that shaders write through one of the first sets is among their uses.
proof fn lemma_writable_used(
    encoder: EncoderView,
    layout: Seq<Seq<BindGroupLayoutEntry>>,
    bound: Seq<Option<BindGroupRef>>,
    scope: DrawScope,
    count: nat,
    buffer: BufferRef,
    set: int,
    binding: int,
)
    requires
        set < count <= layout.len(),
        binds_writable(encoder.resources, layout, bound, buffer, set, binding),
    ensures
        crate::ir::groups::use_groups(encoder, layout, bound, scope, count) matches Ok(uses)
            ==> exists|i: int|
            0 <= i < uses.len() && (#[trigger] uses[i]).writes && crate::ir::groups::use_covers(
                encoder.resources,
                uses[i],
                ResourcePart::Buffer(buffer.id()),
            ),
    decreases count,
{
    let table = encoder.resources;
    let part = ResourcePart::Buffer(buffer.id());
    let fewer = (count - 1) as nat;
    let before = crate::ir::groups::use_groups(encoder, layout, bound, scope, fewer);
    let after = crate::ir::groups::use_groups(encoder, layout, bound, scope, count);
    if after is Ok {
        let earlier = before->Ok_0;
        let uses = after->Ok_0;
        if set < fewer {
            lemma_writable_used(encoder, layout, bound, scope, fewer, buffer, set, binding);
            let at = choose|i: int|
                0 <= i < earlier.len() && (#[trigger] earlier[i]).writes
                    && crate::ir::groups::use_covers(table, earlier[i], part);
            if bound[fewer as int] is Some {
                let group = table.bind_group(bound[fewer as int]->0)->Ok_0;
                lemma_bindings_used(
                    encoder,
                    earlier,
                    group.entries,
                    layout[fewer as int],
                    scope,
                    crate::ir::groups::paired(group, layout[fewer as int]),
                    0,
                );
            }
            assert(earlier.is_prefix_of(uses));
            assert(uses[at] == earlier[at]);
        } else {
            let group = table.bind_group(bound[set]->0)->Ok_0;
            lemma_bindings_used(
                encoder,
                earlier,
                group.entries,
                layout[set],
                scope,
                crate::ir::groups::paired(group, layout[set]),
                binding,
            );
            let wanted = GroupUse {
                resource: group.entries[binding].resource,
                writes: true,
            };
            let at = choose|at: int| 0 <= at < uses.len() && uses[at] == wanted;
            assert(crate::ir::groups::resource_parts(table, uses[at].resource)[0] == part);
            assert(crate::ir::groups::use_covers(table, uses[at], part));
        }
    }
}

/// After a dispatch, a buffer that was bound as writable storage awaits a barrier,
/// inside the pass and once it has ended.
pub proof fn law_dispatches_leave_writes_pending(
    encoder: EncoderView,
    state: ComputeStateView,
    x: u32,
    y: u32,
    z: u32,
    buffer: BufferRef,
    set: int,
    binding: int,
)
    requires
        state.pipeline is Some,
        encoder.resources.compute_pipeline(state.pipeline->0) matches Ok(desc) && binds_writable(
            encoder.resources,
            desc.layout.bind_groups,
            state.bind_groups,
            buffer,
            set,
            binding,
        ),
    ensures
        state.dispatch(encoder, x, y, z) matches Ok((next, _)) ==> awaits_barrier(next, buffer)
            && (next.end_pass(CommandView::EndComputePass) matches Ok(ended) ==> awaits_barrier(
            ended,
            buffer,
        )),
{
    let desc = encoder.resources.compute_pipeline(state.pipeline->0)->Ok_0;
    let layout = desc.layout.bind_groups;
    let scope = DrawScope { attachments: Seq::empty(), fetched: Seq::empty() };
    lemma_writable_used(
        encoder,
        layout,
        state.bind_groups,
        scope,
        layout.len(),
        buffer,
        set,
        binding,
    );
    if state.dispatch(encoder, x, y, z) is Ok {
        let part = ResourcePart::Buffer(buffer.id());
        let uses = crate::ir::groups::use_groups(
            encoder,
            layout,
            state.bind_groups,
            scope,
            layout.len(),
        )->Ok_0;
        let accesses = crate::ir::groups::accesses_of(encoder.resources, uses, scope.fetched);
        assert(accesses.writes.contains(part));
        assert(accesses.used.contains(part));
    }
}

/// Whether a copy between two buffers is possible, apart from the order of accesses.
pub open spec fn copy_fits(
    table: TableView,
    source: BufferRef,
    source_offset: u64,
    destination: BufferRef,
    destination_offset: u64,
    size: u64,
) -> bool {
    match (table.buffer(source), table.buffer(destination)) {
        (Ok(from), Ok(to)) => {
            &&& from@.usage.allows(BufferUsage::COPY_SRC_BIT)
            &&& to@.usage.allows(BufferUsage::COPY_DST_BIT)
            &&& size > 0 && size % 4 == 0
            &&& source_offset % 4 == 0 && source_offset + size <= from@.size
            &&& destination_offset % 4 == 0 && destination_offset + size <= to@.size
            &&& source != destination
        },
        _ => false,
    }
}

/// A buffer that awaits a barrier after a storage write cannot be copied from. A
/// barrier from another access than the storage write is refused, which leaves
/// everything as it was. The barrier from the storage write to copies is recorded as
/// one command, and the copy then succeeds, as far as there is room for commands.
pub proof fn law_barriers_order_storage_writes(
    encoder: EncoderView,
    buffer: BufferRef,
    wrong: BufferAccess,
    after: BufferAccess,
    source_offset: u64,
    destination: BufferRef,
    destination_offset: u64,
    size: u64,
)
    requires
        !encoder.pass_open,
        awaits_barrier(encoder, buffer),
        copy_fits(
            encoder.resources,
            buffer,
            source_offset,
            destination,
            destination_offset,
            size,
        ),
        encoder.resources.buffer(buffer) matches Ok(desc) && desc@.usage.allows(
            BufferUsage::STORAGE_BIT,
        ) && desc@.usage.allows(wrong.usage_bit()) && desc@.usage.allows(after.usage_bit()),
        wrong != BufferAccess::StorageReadWrite,
        encoder.access.check(
            seq![ResourcePart::Buffer(destination.id())],
            Access::Buffer(BufferAccess::CopyDestination),
        ) is Ok,
    ensures
        encoder.copy_buffer_to_buffer(
            buffer,
            source_offset,
            destination,
            destination_offset,
            size,
        ) == Err::<EncoderView, Error>(Error::MissingBarrier),
        encoder.resource_barrier(
            ResourceBarrier::Buffer { buffer, before: wrong, after },
        ) == Err::<EncoderView, Error>(Error::InvalidResourceAccess),
        ({
            let barrier = ResourceBarrier::Buffer {
                buffer,
                before: BufferAccess::StorageReadWrite,
                after: BufferAccess::CopySource,
            };
            match encoder.resource_barrier(barrier) {
                Err(error) => error == Error::CommandLimitExceeded && encoder.commands.len()
                    >= MAX_COMMANDS,
                Ok(next) => {
                    &&& encoder.commands.len() < MAX_COMMANDS
                    &&& next.follows(encoder, CommandView::ResourceBarrier(barrier))
                    &&& !awaits_barrier(next, buffer)
                    &&& match next.copy_buffer_to_buffer(
                        buffer,
                        source_offset,
                        destination,
                        destination_offset,
                        size,
                    ) {
                        Err(error) => error == Error::CommandLimitExceeded && next.commands.len()
                            >= MAX_COMMANDS,
                        Ok(copied) => next.commands.len() < MAX_COMMANDS && copied.follows(
                            next,
                            CommandView::CopyBufferToBuffer {
                                source: buffer,
                                source_offset,
                                destination,
                                destination_offset,
                                size,
                            },
                        ),
                    }
                },
            }
        }),
{
    crate::ir::table::law_references_and_identities_correspond();
    let part = ResourcePart::Buffer(buffer.id());
    let other = ResourcePart::Buffer(destination.id());
    let one = seq![part];
    assert(one[0] == part);
    assert(encoder.access.pending.contains(one[0]));
    assert(buffer.id().reference() != destination.id().reference());
    let reading = Access::Buffer(BufferAccess::CopySource);
    crate::ir::access::law_barrier_admits_the_announced_access(
        encoder.access,
        one,
        reading,
        part,
        reading,
    );
    crate::ir::access::law_other_parts_are_untouched(
        encoder.access,
        one,
        reading,
        Set::empty(),
        Set::empty(),
        other,
        Access::Buffer(BufferAccess::CopyDestination),
    );
    assert(one.to_set().contains(part));
}

/// What `law_barriers_order_storage_writes` says of the calls: whatever they returned
/// and left behind, the copy before the barrier and the wrong barrier fail and leave
/// the encoder as it was. With room for two commands and every request for room
/// granted, the right barrier and the copy after it succeed and record one command
/// each.
pub proof fn law_barrier_calls_order_storage_writes(
    start: EncoderView,
    buffer: BufferRef,
    wrong: BufferAccess,
    after: BufferAccess,
    source_offset: u64,
    destination: BufferRef,
    destination_offset: u64,
    size: u64,
    memory: Memory,
    steps: Seq<EncoderView>,
    results: Seq<Result<(), Error>>,
)
    requires
        !start.pass_open,
        awaits_barrier(start, buffer),
        copy_fits(start.resources, buffer, source_offset, destination, destination_offset, size),
        start.resources.buffer(buffer) matches Ok(desc) && desc@.usage.allows(
            BufferUsage::STORAGE_BIT,
        ) && desc@.usage.allows(wrong.usage_bit()) && desc@.usage.allows(after.usage_bit()),
        wrong != BufferAccess::StorageReadWrite,
        start.access.check(
            seq![ResourcePart::Buffer(destination.id())],
            Access::Buffer(BufferAccess::CopyDestination),
        ) is Ok,
        start.commands.len() + 2 <= MAX_COMMANDS,
        steps.len() == 5,
        results.len() == 4,
        steps[0] == start,
        crate::ir::command::recorded(
            steps[0],
            steps[1],
            steps[0].copy_buffer_to_buffer(
                buffer,
                source_offset,
                destination,
                destination_offset,
                size,
            ),
            memory,
            results[0],
        ),
        crate::ir::command::recorded(
            steps[1],
            steps[2],
            steps[1].resource_barrier(ResourceBarrier::Buffer { buffer, before: wrong, after }),
            memory,
            results[1],
        ),
        crate::ir::command::recorded(
            steps[2],
            steps[3],
            steps[2].resource_barrier(
                ResourceBarrier::Buffer {
                    buffer,
                    before: BufferAccess::StorageReadWrite,
                    after: BufferAccess::CopySource,
                },
            ),
            memory,
            results[2],
        ),
        crate::ir::command::recorded(
            steps[3],
            steps[4],
            steps[3].copy_buffer_to_buffer(
                buffer,
                source_offset,
                destination,
                destination_offset,
                size,
            ),
            memory,
            results[3],
        ),
    ensures
        results[0] == Err::<(), Error>(Error::MissingBarrier),
        results[1] == Err::<(), Error>(Error::InvalidResourceAccess),
        steps[2] == start,
        memory == Memory::Fixed(true) ==> {
            &&& results[2] == Ok::<(), Error>(())
            &&& results[3] == Ok::<(), Error>(())
            &&& steps[3].commands.len() == start.commands.len() + 1
            &&& steps[3].commands.last() is ResourceBarrier
            &&& !awaits_barrier(steps[3], buffer)
            &&& steps[4].commands.len() == start.commands.len() + 2
        },
{
    law_barriers_order_storage_writes(
        start,
        buffer,
        wrong,
        after,
        source_offset,
        destination,
        destination_offset,
        size,
    );
}

} // verus!
