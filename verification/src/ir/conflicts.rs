//! How bindings of one draw or dispatch agree with each other.

use crate::ir::access::{Access, ResourcePart};
use crate::ir::command::EncoderView;
use crate::ir::groups::{DrawScope, GroupUse};
use crate::ir::programmable::{
    BindGroupEntry, BindGroupLayoutEntry, BindingResource, BindingType, BufferAccess,
    TextureAccess,
};
use crate::ir::table::{BindGroupRef, TableView};
use vstd::prelude::*;

verus! {

/// The number of bindings that a set takes from its group.
pub open spec fn binding_count(
    table: TableView,
    layout: Seq<Seq<BindGroupLayoutEntry>>,
    bound: Seq<Option<BindGroupRef>>,
    set: int,
) -> nat {
    match bound[set] {
        None => 0,
        Some(reference) => crate::ir::groups::paired(
            table.bind_group(reference)->Ok_0,
            layout[set],
        ),
    }
}

/// The resource of one binding of a set.
pub open spec fn bound_resource(
    table: TableView,
    bound: Seq<Option<BindGroupRef>>,
    set: int,
    binding: int,
) -> BindingResource {
    table.bind_group(bound[set]->0)->Ok_0.entries[binding].resource
}

/// Whether shaders write through a binding.
pub open spec fn stores(ty: BindingType) -> bool {
    match ty {
        BindingType::StorageBuffer { read_only } => !read_only,
        BindingType::StorageTexture { .. } => true,
        _ => false,
    }
}

/// Whether two resources share storage: they are ranges of one buffer, or one texture or
/// views of it.
pub open spec fn shares_storage(left: BindingResource, right: BindingResource) -> bool {
    match (left, right) {
        (BindingResource::Buffer { buffer: a, .. }, BindingResource::Buffer { buffer: b, .. }) => a
            == b,
        (BindingResource::Texture(a), BindingResource::Texture(b)) => a == b,
        (BindingResource::Texture(a), BindingResource::TextureView { texture: b, .. }) => a == b,
        (BindingResource::TextureView { texture: a, .. }, BindingResource::Texture(b)) => a == b,
        (
            BindingResource::TextureView { texture: a, .. },
            BindingResource::TextureView { texture: b, .. },
        ) => a == b,
        _ => false,
    }
}

/// What is kept while bindings are gone through: uses that share storage do not write it,
/// and each use was admitted.
pub open spec fn agree(uses: Seq<GroupUse>) -> bool {
    forall|i: int, j: int|
        0 <= i < j < uses.len() && shares_storage(
            (#[trigger] uses[i]).resource,
            (#[trigger] uses[j]).resource,
        ) ==> !uses[i].writes && !uses[j].writes
}

/// Whether a use is admitted: what awaits a barrier is not touched, announced accesses are
/// kept to, attachments are not sampled, and fetched buffers are not written.
pub open spec fn admitted(
    encoder: EncoderView,
    resource: BindingResource,
    ty: BindingType,
    scope: DrawScope,
) -> bool {
    match resource {
        BindingResource::Buffer { buffer, .. } => {
            &&& encoder.resources.buffer_ref(buffer) is Ok
            &&& encoder.access.check(
                seq![ResourcePart::Buffer(buffer)],
                Access::Buffer(
                    match ty {
                        BindingType::UniformBuffer => BufferAccess::Uniform,
                        BindingType::StorageBuffer { read_only: true } => BufferAccess::StorageRead,
                        _ => BufferAccess::StorageReadWrite,
                    },
                ),
            ) is Ok
            &&& stores(ty) ==> !scope.fetched.contains(buffer.reference())
        },
        BindingResource::Texture(texture) => {
            &&& encoder.resources.texture_ref(texture) is Ok
            &&& !scope.attachments.contains(texture.reference())
            &&& encoder.access.check(
                crate::ir::groups::resource_parts(encoder.resources, resource),
                Access::Texture(
                    if stores(ty) {
                        TextureAccess::StorageWrite
                    } else {
                        TextureAccess::Sampled
                    },
                ),
            ) is Ok
        },
        BindingResource::TextureView { texture, .. } => {
            &&& encoder.resources.texture_ref(texture) is Ok
            &&& !scope.attachments.contains(texture.reference())
            &&& encoder.access.check(
                crate::ir::groups::resource_parts(encoder.resources, resource),
                Access::Texture(
                    if stores(ty) {
                        TextureAccess::StorageWrite
                    } else {
                        TextureAccess::Sampled
                    },
                ),
            ) is Ok
        },
        BindingResource::Sampler(_) => true,
    }
}

proof fn lemma_bindings(
    encoder: EncoderView,
    uses: Seq<GroupUse>,
    entries: Seq<BindGroupEntry>,
    layout: Seq<BindGroupLayoutEntry>,
    scope: DrawScope,
    count: nat,
)
    requires
        agree(uses),
    ensures
        crate::ir::groups::use_bindings(encoder, uses, entries, layout, scope, count) matches Ok(
            result,
        ) ==> {
            &&& agree(result)
            &&& result.len() == uses.len() + count
            &&& forall|i: int| 0 <= i < uses.len() ==> (#[trigger] result[i]) == uses[i]
            &&& forall|binding: int|
                0 <= binding < count ==> {
                    &&& result[uses.len() + binding] == (GroupUse {
                        resource: (#[trigger] entries[binding]).resource,
                        writes: stores(layout[binding].ty),
                    })
                    &&& admitted(encoder, entries[binding].resource, layout[binding].ty, scope)
                }
        },
    decreases count,
{
    if count > 0 {
        let fewer = (count - 1) as nat;
        lemma_bindings(encoder, uses, entries, layout, scope, fewer);
        let before = crate::ir::groups::use_bindings(encoder, uses, entries, layout, scope, fewer);
        let after = crate::ir::groups::use_bindings(encoder, uses, entries, layout, scope, count);
        if after is Ok {
            let earlier = before->Ok_0;
            let result = after->Ok_0;
            let last = GroupUse {
                resource: entries[fewer as int].resource,
                writes: stores(layout[fewer as int].ty),
            };
            assert(result == earlier.push(last));
            assert forall|i: int, j: int|
                0 <= i < j < result.len() && shares_storage(
                    (#[trigger] result[i]).resource,
                    (#[trigger] result[j]).resource,
                ) implies !result[i].writes && !result[j].writes by {
                if j == earlier.len() {
                    assert(earlier[i] == result[i]);
                    assert(crate::ir::programmable::aliases(last.resource, earlier[i].resource));
                } else {
                    assert(earlier[i] == result[i] && earlier[j] == result[j]);
                }
            }
            assert forall|binding: int| 0 <= binding < count implies {
                &&& result[uses.len() + binding] == (GroupUse {
                    resource: (#[trigger] entries[binding]).resource,
                    writes: stores(layout[binding].ty),
                })
                &&& admitted(encoder, entries[binding].resource, layout[binding].ty, scope)
            } by {
                if binding < fewer {
                    assert(result[uses.len() + binding] == earlier[uses.len() + binding]);
                }
            }
        }
    }
}

/// Where the uses of a set start among those of the first sets.
pub open spec fn uses_before(
    table: TableView,
    layout: Seq<Seq<BindGroupLayoutEntry>>,
    bound: Seq<Option<BindGroupRef>>,
    count: nat,
) -> nat
    decreases count,
{
    if count == 0 {
        0
    } else {
        uses_before(table, layout, bound, (count - 1) as nat) + binding_count(
            table,
            layout,
            bound,
            count - 1,
        )
    }
}

/// Whether a set has what its layout declares: nothing where nothing is declared, or a group
/// of that very layout, each binding of which is used in turn and admitted.
pub open spec fn set_used(
    encoder: EncoderView,
    layout: Seq<Seq<BindGroupLayoutEntry>>,
    bound: Seq<Option<BindGroupRef>>,
    scope: DrawScope,
    uses: Seq<GroupUse>,
    set: int,
) -> bool {
    let table = encoder.resources;
    &&& bound[set] is None ==> layout[set].len() == 0
    &&& bound[set] matches Some(reference) ==> {
        &&& table.bind_group(reference) is Ok
        &&& table.bind_group(reference)->Ok_0.layout == layout[set]
        &&& forall|binding: int|
            0 <= binding < binding_count(table, layout, bound, set) ==> {
                let resource = #[trigger] bound_resource(table, bound, set, binding);
                let at = uses_before(table, layout, bound, set as nat) + binding;
                &&& at < uses.len()
                &&& uses[at] == (GroupUse { resource, writes: stores(layout[set][binding].ty) })
                &&& admitted(encoder, resource, layout[set][binding].ty, scope)
            }
    }
}

proof fn lemma_sets(
    encoder: EncoderView,
    layout: Seq<Seq<BindGroupLayoutEntry>>,
    bound: Seq<Option<BindGroupRef>>,
    scope: DrawScope,
    count: nat,
)
    ensures
        crate::ir::groups::use_groups(encoder, layout, bound, scope, count) matches Ok(uses) ==> {
            &&& agree(uses)
            &&& uses.len() == uses_before(encoder.resources, layout, bound, count)
            &&& forall|set: int|
                0 <= set < count ==> #[trigger] set_used(
                    encoder,
                    layout,
                    bound,
                    scope,
                    uses,
                    set,
                )
        },
    decreases count,
{
    if count > 0 {
        let fewer = (count - 1) as nat;
        lemma_sets(encoder, layout, bound, scope, fewer);
        let table = encoder.resources;
        let after = crate::ir::groups::use_groups(encoder, layout, bound, scope, count);
        if after is Ok {
            let earlier = crate::ir::groups::use_groups(
                encoder,
                layout,
                bound,
                scope,
                fewer,
            )->Ok_0;
            let uses = after->Ok_0;
            if bound[fewer as int] is Some {
                let group = table.bind_group(bound[fewer as int]->0)->Ok_0;
                lemma_bindings(
                    encoder,
                    earlier,
                    group.entries,
                    layout[fewer as int],
                    scope,
                    crate::ir::groups::paired(group, layout[fewer as int]),
                );
                assert forall|binding: int|
                    0 <= binding < binding_count(table, layout, bound, fewer as int) implies {
                    let resource = #[trigger] bound_resource(table, bound, fewer as int, binding);
                    let at = uses_before(table, layout, bound, fewer) + binding;
                    &&& at < uses.len()
                    &&& uses[at] == (GroupUse {
                        resource,
                        writes: stores(layout[fewer as int][binding].ty),
                    })
                    &&& admitted(encoder, resource, layout[fewer as int][binding].ty, scope)
                } by {
                    assert(group.entries[binding].resource == bound_resource(
                        table,
                        bound,
                        fewer as int,
                        binding,
                    ));
                }
            }
            assert forall|set: int| 0 <= set < count implies #[trigger] set_used(
                encoder,
                layout,
                bound,
                scope,
                uses,
                set,
            ) by {
                if set < fewer {
                    assert(set_used(encoder, layout, bound, scope, earlier, set));
                    assert forall|binding: int|
                        0 <= binding < binding_count(table, layout, bound, set) implies ({
                        let resource = #[trigger] bound_resource(table, bound, set, binding);
                        let at = uses_before(table, layout, bound, set as nat) + binding;
                        &&& at < uses.len()
                        &&& uses[at] == (GroupUse {
                            resource,
                            writes: stores(layout[set][binding].ty),
                        })
                        &&& admitted(encoder, resource, layout[set][binding].ty, scope)
                    }) by {
                        let at = uses_before(table, layout, bound, set as nat) + binding;
                        let resource = bound_resource(table, bound, set, binding);
                        if bound[set] is Some {
                            assert(at < earlier.len());
                            assert(uses[at] == earlier[at]);
                        }
                    }
                }
            }
        }
    }
}

/// The uses of later sets come after those of earlier ones.
proof fn lemma_sets_in_order(
    table: TableView,
    layout: Seq<Seq<BindGroupLayoutEntry>>,
    bound: Seq<Option<BindGroupRef>>,
    first: nat,
    second: nat,
)
    requires
        first < second,
    ensures
        uses_before(table, layout, bound, first) + binding_count(table, layout, bound, first as int)
            <= uses_before(table, layout, bound, second),
    decreases second,
{
    if first + 1 < second {
        lemma_sets_in_order(table, layout, bound, first, (second - 1) as nat);
    }
}

/// What is used and written is gathered only where every set has its group, every binding
/// is admitted, and no two bindings, of whichever sets, share storage that one of them
/// writes. Every part of a binding is then used, and written where the binding stores.
pub proof fn law_bindings_do_not_conflict(
    encoder: EncoderView,
    layout: Seq<Seq<BindGroupLayoutEntry>>,
    bound: Seq<Option<BindGroupRef>>,
    scope: DrawScope,
    set: int,
    binding: int,
    other_set: int,
    other_binding: int,
)
    requires
        crate::ir::groups::group_accesses(encoder, layout, bound, scope) is Ok,
        0 <= set < layout.len(),
        0 <= other_set < layout.len(),
        0 <= binding < binding_count(encoder.resources, layout, bound, set),
        0 <= other_binding < binding_count(encoder.resources, layout, bound, other_set),
        set < other_set || (set == other_set && binding < other_binding),
    ensures
        ({
            let table = encoder.resources;
            let resource = bound_resource(table, bound, set, binding);
            let other = bound_resource(table, bound, other_set, other_binding);
            let accesses = crate::ir::groups::group_accesses(encoder, layout, bound, scope)->Ok_0;
            &&& bound[set] is Some
            &&& table.bind_group(bound[set]->0) is Ok
            &&& table.bind_group(bound[set]->0)->Ok_0.layout == layout[set]
            &&& admitted(encoder, resource, layout[set][binding].ty, scope)
            &&& admitted(encoder, other, layout[other_set][other_binding].ty, scope)
            &&& shares_storage(resource, other) ==> !stores(layout[set][binding].ty) && !stores(
                layout[other_set][other_binding].ty,
            )
            &&& forall|part: ResourcePart| #[trigger]
                crate::ir::groups::resource_parts(table, resource).contains(part)
                    ==> accesses.used.contains(part) && (stores(layout[set][binding].ty)
                    ==> accesses.writes.contains(part))
        }),
{
    let table = encoder.resources;
    lemma_sets(encoder, layout, bound, scope, layout.len());
    let uses = crate::ir::groups::use_groups(encoder, layout, bound, scope, layout.len())->Ok_0;
    assert(set_used(encoder, layout, bound, scope, uses, set));
    assert(set_used(encoder, layout, bound, scope, uses, other_set));
    let resource = bound_resource(table, bound, set, binding);
    let other = bound_resource(table, bound, other_set, other_binding);
    let at = uses_before(table, layout, bound, set as nat) + binding;
    let later = uses_before(table, layout, bound, other_set as nat) + other_binding;
    if set < other_set {
        lemma_sets_in_order(table, layout, bound, set as nat, other_set as nat);
    }
    assert(uses[at].resource == resource && uses[later].resource == other);
    assert forall|part: ResourcePart| #[trigger]
        crate::ir::groups::resource_parts(table, resource).contains(part) implies ({
        let accesses = crate::ir::groups::group_accesses(encoder, layout, bound, scope)->Ok_0;
        accesses.used.contains(part) && (stores(layout[set][binding].ty)
            ==> accesses.writes.contains(part))
    }) by {
        assert(crate::ir::groups::use_covers(table, uses[at], part));
    }
}

} // verus!
