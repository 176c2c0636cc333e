//! Accesses that bound groups make, and their validation at draws and dispatches.

use crate::ir::access::{Access, ResourcePart};
use crate::ir::command::{mip_part_list, one_part, CommandEncoder, EncoderView};
use crate::ir::programmable::{
    binding_writes, resource_alias, BindGroupEntry, BindGroupLayoutEntry, BindGroupView,
    BindingResource, BindingType, BufferAccess, PipelineLayoutDesc, TextureAccess, MAX_BIND_GROUPS,
};
use crate::ir::table::{BindGroupRef, BufferRef, TableView, TextureId, TextureRef};
use crate::ir::types::Error;
use vstd::prelude::*;

verus! {

/// One resource used through a bound group.
#[derive(Debug, Clone, Copy, PartialEq, Eq, Structural)]
pub struct GroupUse {
    /// The resource.
    pub resource: BindingResource,
    /// Whether shaders write it.
    pub writes: bool,
}

/// What a draw uses beside groups: textures that it must not sample, and
/// buffers that it fetches vertices and indices from.
pub struct DrawScope {
    pub attachments: Seq<TextureRef>,
    pub fetched: Seq<BufferRef>,
}

/// The parts that bound groups use and write.
#[verifier::ext_equal]
pub struct GroupAccessesView {
    pub used: Set<ResourcePart>,
    pub writes: Set<ResourcePart>,
}

/// The parts of a resource that a binding covers.
pub open spec fn resource_parts(table: TableView, resource: BindingResource) -> Seq<ResourcePart> {
    match resource {
        BindingResource::Buffer { buffer, .. } => seq![ResourcePart::Buffer(buffer)],
        BindingResource::Texture(texture) => match table.texture(texture.reference()) {
            Ok(desc) => crate::ir::access::mip_parts(texture, 0, desc@.mip_level_count as int),
            Err(_) => Seq::empty(),
        },
        BindingResource::TextureView { texture, view } => crate::ir::access::mip_parts(
            texture,
            view@.base_mip_level as int,
            view@.mip_end(),
        ),
        BindingResource::Sampler(_) => Seq::empty(),
    }
}

/// The access that a buffer binding makes.
pub open spec fn buffer_access(ty: BindingType) -> BufferAccess {
    match ty {
        BindingType::UniformBuffer => BufferAccess::Uniform,
        BindingType::StorageBuffer { read_only: true } => BufferAccess::StorageRead,
        _ => BufferAccess::StorageReadWrite,
    }
}

/// The access that a texture binding makes.
pub open spec fn texture_access(ty: BindingType) -> TextureAccess {
    if crate::ir::programmable::writes(ty) {
        TextureAccess::StorageWrite
    } else {
        TextureAccess::Sampled
    }
}

/// The outcome of using a texture through a binding.
pub open spec fn check_texture_use(
    encoder: EncoderView,
    texture: TextureId,
    resource: BindingResource,
    ty: BindingType,
    scope: DrawScope,
) -> Result<(), Error> {
    match encoder.resources.texture_ref(texture) {
        Err(error) => Err(error),
        Ok(reference) => match encoder.access.check(
            resource_parts(encoder.resources, resource),
            Access::Texture(texture_access(ty)),
        ) {
            Err(error) => Err(error),
            Ok(_) => if scope.attachments.contains(reference) {
                Err(Error::AttachmentFeedback)
            } else {
                Ok(())
            },
        },
    }
}

/// The outcome of using a resource through a binding, apart from other bindings.
pub open spec fn check_use(
    encoder: EncoderView,
    resource: BindingResource,
    ty: BindingType,
    scope: DrawScope,
) -> Result<(), Error> {
    match resource {
        BindingResource::Buffer { buffer, .. } => match encoder.resources.buffer_ref(buffer) {
            Err(error) => Err(error),
            Ok(reference) => match encoder.access.check(
                seq![ResourcePart::Buffer(buffer)],
                Access::Buffer(buffer_access(ty)),
            ) {
                Err(error) => Err(error),
                Ok(_) => if crate::ir::programmable::writes(ty) && scope.fetched.contains(
                    reference,
                ) {
                    Err(Error::ResourceAccessConflict)
                } else {
                    Ok(())
                },
            },
        },
        BindingResource::Texture(texture) => check_texture_use(
            encoder,
            texture,
            resource,
            ty,
            scope,
        ),
        BindingResource::TextureView { texture, .. } => check_texture_use(
            encoder,
            texture,
            resource,
            ty,
            scope,
        ),
        BindingResource::Sampler(_) => Ok(()),
    }
}

/// Whether an earlier use is of the same resource, and one of the two writes.
pub open spec fn conflicts_with(uses: Seq<GroupUse>, resource: BindingResource, writes: bool)
    -> bool {
    exists|i: int|
        0 <= i < uses.len() && crate::ir::programmable::aliases(
            resource,
            (#[trigger] uses[i]).resource,
        ) && (writes || uses[i].writes)
}

/// The uses after one more binding.
pub open spec fn use_binding(
    encoder: EncoderView,
    uses: Seq<GroupUse>,
    resource: BindingResource,
    ty: BindingType,
    scope: DrawScope,
) -> Result<Seq<GroupUse>, Error> {
    match check_use(encoder, resource, ty, scope) {
        Err(error) => Err(error),
        Ok(_) => {
            let writes = crate::ir::programmable::writes(ty);
            if conflicts_with(uses, resource, writes) {
                Err(Error::ResourceAccessConflict)
            } else {
                Ok(uses.push(GroupUse { resource, writes }))
            }
        },
    }
}

/// The uses after the first `count` bindings of a group.
pub open spec fn use_bindings(
    encoder: EncoderView,
    uses: Seq<GroupUse>,
    entries: Seq<BindGroupEntry>,
    layout: Seq<BindGroupLayoutEntry>,
    scope: DrawScope,
    count: nat,
) -> Result<Seq<GroupUse>, Error>
    decreases count,
{
    if count == 0 {
        Ok(uses)
    } else {
        match use_bindings(encoder, uses, entries, layout, scope, (count - 1) as nat) {
            Err(error) => Err(error),
            Ok(uses) => use_binding(
                encoder,
                uses,
                entries[count - 1].resource,
                layout[count - 1].ty,
                scope,
            ),
        }
    }
}

/// Bindings that have both an entry and a declaration.
pub open spec fn paired(group: BindGroupView, expected: Seq<BindGroupLayoutEntry>) -> nat {
    if group.entries.len() <= expected.len() {
        group.entries.len()
    } else {
        expected.len()
    }
}

/// The uses after one more descriptor set. A set that declares nothing needs no group.
pub open spec fn use_group(
    encoder: EncoderView,
    uses: Seq<GroupUse>,
    expected: Seq<BindGroupLayoutEntry>,
    bound: Option<BindGroupRef>,
    scope: DrawScope,
) -> Result<Seq<GroupUse>, Error> {
    match bound {
        None => if expected.len() == 0 {
            Ok(uses)
        } else {
            Err(Error::BindGroupNotSet)
        },
        Some(reference) => match encoder.resources.bind_group(reference) {
            Err(error) => Err(error),
            Ok(group) => if group.layout != expected {
                Err(Error::BindingLayoutMismatch)
            } else {
                use_bindings(
                    encoder,
                    uses,
                    group.entries,
                    expected,
                    scope,
                    paired(group, expected),
                )
            },
        },
    }
}

/// The uses of the first `count` descriptor sets of a pipeline layout.
pub open spec fn use_groups(
    encoder: EncoderView,
    layout: Seq<Seq<BindGroupLayoutEntry>>,
    bound: Seq<Option<BindGroupRef>>,
    scope: DrawScope,
    count: nat,
) -> Result<Seq<GroupUse>, Error>
    decreases count,
{
    if count == 0 {
        Ok(Seq::empty())
    } else {
        match use_groups(encoder, layout, bound, scope, (count - 1) as nat) {
            Err(error) => Err(error),
            Ok(uses) => use_group(encoder, uses, layout[count - 1], bound[count - 1], scope),
        }
    }
}

/// Whether a use covers a part.
pub open spec fn use_covers(table: TableView, use_: GroupUse, part: ResourcePart) -> bool {
    resource_parts(table, use_.resource).contains(part)
}

/// The parts that uses cover, with those of fetched buffers.
pub open spec fn accesses_of(table: TableView, uses: Seq<GroupUse>, fetched: Seq<BufferRef>)
    -> GroupAccessesView {
    GroupAccessesView {
        used: Set::new(
            |part: ResourcePart|
                (exists|i: int| 0 <= i < uses.len() && use_covers(table, #[trigger] uses[i], part))
                    || (exists|i: int|
                    0 <= i < fetched.len() && part == ResourcePart::Buffer(
                        (#[trigger] fetched[i]).id(),
                    )),
        ),
        writes: Set::new(
            |part: ResourcePart|
                exists|i: int|
                    0 <= i < uses.len() && (#[trigger] uses[i]).writes && use_covers(
                        table,
                        uses[i],
                        part,
                    ),
        ),
    }
}

/// The accesses that a draw or dispatch makes, once all are admitted.
pub open spec fn group_accesses(
    encoder: EncoderView,
    layout: Seq<Seq<BindGroupLayoutEntry>>,
    bound: Seq<Option<BindGroupRef>>,
    scope: DrawScope,
) -> Result<GroupAccessesView, Error> {
    match use_groups(encoder, layout, bound, scope, layout.len()) {
        Err(error) => Err(error),
        Ok(uses) => Ok(accesses_of(encoder.resources, uses, scope.fetched)),
    }
}

/// The parts that bound groups use and write.
pub struct GroupAccesses {
    /// Parts used.
    pub used: Vec<ResourcePart>,
    /// Parts written.
    pub writes: Vec<ResourcePart>,
}

impl View for GroupAccesses {
    type V = GroupAccessesView;

    open spec fn view(&self) -> GroupAccessesView {
        GroupAccessesView { used: self.used@.to_set(), writes: self.writes@.to_set() }
    }
}

/// Return whether a list holds a texture reference.
fn contains_texture(list: &Vec<TextureRef>, texture: TextureRef) -> (r: bool)
    ensures
        r == list@.contains(texture),
{
    let mut i: usize = 0;
    while i < list.len()
        invariant
            i <= list@.len(),
            forall|k: int| 0 <= k < i ==> list@[k] != texture,
        decreases list@.len() - i,
    {
        if list[i] == texture {
            assert(list@[i as int] == texture);
            return true;
        }
        i = i + 1;
    }
    false
}

/// Return whether a list holds a buffer reference.
fn contains_buffer(list: &Vec<BufferRef>, buffer: BufferRef) -> (r: bool)
    ensures
        r == list@.contains(buffer),
{
    let mut i: usize = 0;
    while i < list.len()
        invariant
            i <= list@.len(),
            forall|k: int| 0 <= k < i ==> list@[k] != buffer,
        decreases list@.len() - i,
    {
        if list[i] == buffer {
            assert(list@[i as int] == buffer);
            return true;
        }
        i = i + 1;
    }
    false
}

/// Return the parts of a resource that a binding covers.
fn part_list(encoder: &CommandEncoder<'_, '_>, resource: BindingResource) -> (r: Vec<ResourcePart>)
    ensures
        r@ == resource_parts(encoder@.resources, resource),
{
    match resource {
        BindingResource::Buffer { buffer, .. } => one_part(ResourcePart::Buffer(buffer)),
        BindingResource::Texture(texture) => {
            let none: Vec<ResourcePart> = Vec::new();
            match encoder.resources().texture_ref(texture) {
                Ok(reference) => match encoder.resources().texture(reference) {
                    Ok(desc) => mip_part_list(texture, 0, desc.mip_level_count()),
                    Err(_) => none,
                },
                Err(_) => {
                    proof {
                        crate::ir::table::lemma_texture_reference(texture);
                    }
                    none
                },
            }
        },
        BindingResource::TextureView { texture, view } => {
            let count: u32 = view.mip_level_count();
            let base: u32 = view.base_mip_level();
            mip_part_list(texture, base, base + count)
        },
        BindingResource::Sampler(_) => Vec::new(),
    }
}

/// Check a use of a texture.
fn validate_texture_use(
    encoder: &CommandEncoder<'_, '_>,
    texture: TextureId,
    resource: BindingResource,
    ty: BindingType,
    attachments: &Vec<TextureRef>,
    Ghost(scope): Ghost<DrawScope>,
) -> (r: Result<(), Error>)
    requires
        scope.attachments == attachments@,
    ensures
        r == check_texture_use(encoder@, texture, resource, ty, scope),
{
    let reference = match encoder.resources().texture_ref(texture) {
        Ok(reference) => reference,
        Err(error) => return Err(error),
    };
    let access = if binding_writes(ty) {
        TextureAccess::StorageWrite
    } else {
        TextureAccess::Sampled
    };
    let parts = part_list(encoder, resource);
    match encoder.check_access(&parts, Access::Texture(access)) {
        Ok(()) => {},
        Err(error) => return Err(error),
    }
    if contains_texture(attachments, reference) {
        return Err(Error::AttachmentFeedback);
    }
    Ok(())
}

/// Check a use of a resource, apart from other bindings.
fn validate_use(
    encoder: &CommandEncoder<'_, '_>,
    resource: BindingResource,
    ty: BindingType,
    attachments: &Vec<TextureRef>,
    fetched: &Vec<BufferRef>,
    Ghost(scope): Ghost<DrawScope>,
) -> (r: Result<(), Error>)
    requires
        scope.attachments == attachments@,
        scope.fetched == fetched@,
    ensures
        r == check_use(encoder@, resource, ty, scope),
{
    match resource {
        BindingResource::Buffer { buffer, .. } => {
            let reference = match encoder.resources().buffer_ref(buffer) {
                Ok(reference) => reference,
                Err(error) => return Err(error),
            };
            let access = match ty {
                BindingType::UniformBuffer => BufferAccess::Uniform,
                BindingType::StorageBuffer { read_only: true } => BufferAccess::StorageRead,
                _ => BufferAccess::StorageReadWrite,
            };
            let parts = one_part(ResourcePart::Buffer(buffer));
            match encoder.check_access(&parts, Access::Buffer(access)) {
                Ok(()) => {},
                Err(error) => return Err(error),
            }
            if binding_writes(ty) && contains_buffer(fetched, reference) {
                return Err(Error::ResourceAccessConflict);
            }
            Ok(())
        },
        BindingResource::Texture(texture) => {
            validate_texture_use(encoder, texture, resource, ty, attachments, Ghost(scope))
        },
        BindingResource::TextureView { texture, .. } => {
            validate_texture_use(encoder, texture, resource, ty, attachments, Ghost(scope))
        },
        BindingResource::Sampler(_) => Ok(()),
    }
}

/// Return whether an earlier use is of the same resource, and one of the two writes.
fn conflicts(uses: &Vec<GroupUse>, resource: BindingResource, writes: bool) -> (r: bool)
    ensures
        r == conflicts_with(uses@, resource, writes),
{
    let mut i: usize = 0;
    while i < uses.len()
        invariant
            i <= uses@.len(),
            forall|k: int|
                0 <= k < i ==> !(crate::ir::programmable::aliases(
                    resource,
                    (#[trigger] uses@[k]).resource,
                ) && (writes || uses@[k].writes)),
        decreases uses@.len() - i,
    {
        let other: GroupUse = uses[i];
        if resource_alias(resource, other.resource) && (writes || other.writes) {
            assert(uses@[i as int] == other);
            return true;
        }
        i = i + 1;
    }
    false
}

/// A failure among the first bindings is a failure of all.
proof fn lemma_use_failure_persists(
    encoder: EncoderView,
    uses: Seq<GroupUse>,
    entries: Seq<BindGroupEntry>,
    layout: Seq<BindGroupLayoutEntry>,
    scope: DrawScope,
    count: nat,
    all: nat,
)
    requires
        count <= all,
        use_bindings(encoder, uses, entries, layout, scope, count) is Err,
    ensures
        use_bindings(encoder, uses, entries, layout, scope, all) == use_bindings(
            encoder,
            uses,
            entries,
            layout,
            scope,
            count,
        ),
    decreases all - count,
{
    if count < all {
        lemma_use_failure_persists(encoder, uses, entries, layout, scope, count + 1, all);
    }
}

/// A failure among the first descriptor sets is a failure of all.
proof fn lemma_group_failure_persists(
    encoder: EncoderView,
    layout: Seq<Seq<BindGroupLayoutEntry>>,
    bound: Seq<Option<BindGroupRef>>,
    scope: DrawScope,
    count: nat,
    all: nat,
)
    requires
        count <= all,
        use_groups(encoder, layout, bound, scope, count) is Err,
    ensures
        use_groups(encoder, layout, bound, scope, all) == use_groups(
            encoder,
            layout,
            bound,
            scope,
            count,
        ),
    decreases all - count,
{
    if count < all {
        lemma_group_failure_persists(encoder, layout, bound, scope, count + 1, all);
    }
}

/// Collect the uses of one bound group after those before it.
fn collect_group(
    encoder: &CommandEncoder<'_, '_>,
    uses: &mut Vec<GroupUse>,
    expected: &crate::ir::programmable::BindGroupLayoutDesc,
    bound: Option<BindGroupRef>,
    attachments: &Vec<TextureRef>,
    fetched: &Vec<BufferRef>,
    Ghost(scope): Ghost<DrawScope>,
) -> (r: Result<(), Error>)
    requires
        scope.attachments == attachments@,
        scope.fetched == fetched@,
    ensures
        match r {
            Ok(()) => use_group(encoder@, old(uses)@, expected@, bound, scope) == Ok::<
                Seq<GroupUse>,
                Error,
            >(final(uses)@),
            Err(error) => use_group(encoder@, old(uses)@, expected@, bound, scope) == Err::<
                Seq<GroupUse>,
                Error,
            >(error),
        },
{
    let declared = expected.entries();
    let reference = match bound {
        Some(reference) => reference,
        None => {
            return if declared.len() == 0 {
                Ok(())
            } else {
                Err(Error::BindGroupNotSet)
            };
        },
    };
    let group = match encoder.resources().borrow_bind_group(reference) {
        Ok(group) => group,
        Err(error) => return Err(error),
    };
    if !group.layout().same_entries(expected) {
        return Err(Error::BindingLayoutMismatch);
    }
    let entries = group.entries();
    let count: usize = if entries.len() <= declared.len() {
        entries.len()
    } else {
        declared.len()
    };
    let ghost first = uses@;
    let mut i: usize = 0;
    while i < count
        invariant
            i <= count,
            count <= entries@.len(),
            count <= declared@.len(),
            declared@ == expected@,
            scope.attachments == attachments@,
            scope.fetched == fetched@,
            use_bindings(encoder@, first, entries@, declared@, scope, i as nat) == Ok::<
                Seq<GroupUse>,
                Error,
            >(uses@),
            use_group(encoder@, first, expected@, bound, scope) == use_bindings(
                encoder@,
                first,
                entries@,
                declared@,
                scope,
                count as nat,
            ),
            first == old(uses)@,
        decreases count - i,
    {
        let resource: BindingResource = entries[i].resource;
        let ty: BindingType = declared[i].ty;
        let writes: bool = binding_writes(ty);
        match validate_use(encoder, resource, ty, attachments, fetched, Ghost(scope)) {
            Ok(()) => {},
            Err(error) => {
                proof {
                    lemma_use_failure_persists(
                        encoder@,
                        first,
                        entries@,
                        declared@,
                        scope,
                        (i + 1) as nat,
                        count as nat,
                    );
                }
                return Err(error);
            },
        }
        if conflicts(uses, resource, writes) {
            proof {
                lemma_use_failure_persists(
                    encoder@,
                    first,
                    entries@,
                    declared@,
                    scope,
                    (i + 1) as nat,
                    count as nat,
                );
            }
            return Err(Error::ResourceAccessConflict);
        }
        uses.push(GroupUse { resource, writes });
        i = i + 1;
    }
    Ok(())
}

/// Append parts to a list.
fn append_parts(list: &mut Vec<ResourcePart>, parts: &Vec<ResourcePart>)
    ensures
        final(list)@ == old(list)@ + parts@,
{
    let ghost before = list@;
    let mut i: usize = 0;
    while i < parts.len()
        invariant
            i <= parts@.len(),
            list@ == before + parts@.take(i as int),
        decreases parts@.len() - i,
    {
        list.push(parts[i]);
        assert(before + parts@.take(i + 1) =~= (before + parts@.take(i as int)).push(
            parts@[i as int],
        ));
        i = i + 1;
    }
    assert(parts@.take(i as int) =~= parts@);
}

/// Return the parts that uses cover, with those of fetched buffers.
fn collect_accesses(
    encoder: &CommandEncoder<'_, '_>,
    uses: &Vec<GroupUse>,
    fetched: &Vec<BufferRef>,
) -> (r: GroupAccesses)
    ensures
        r@ == accesses_of(encoder@.resources, uses@, fetched@),
{
    let ghost table = encoder@.resources;
    let mut used: Vec<ResourcePart> = Vec::new();
    let mut writes: Vec<ResourcePart> = Vec::new();
    let mut i: usize = 0;
    while i < uses.len()
        invariant
            i <= uses@.len(),
            table == encoder@.resources,
            forall|part: ResourcePart| #[trigger]
                used@.contains(part) <==> exists|k: int|
                    0 <= k < i && use_covers(table, #[trigger] uses@[k], part),
            forall|part: ResourcePart| #[trigger]
                writes@.contains(part) <==> exists|k: int|
                    0 <= k < i && (#[trigger] uses@[k]).writes && use_covers(table, uses@[k], part),
        decreases uses@.len() - i,
    {
        let item: GroupUse = uses[i];
        let parts = part_list(encoder, item.resource);
        let ghost used_before = used@;
        let ghost writes_before = writes@;
        append_parts(&mut used, &parts);
        if item.writes {
            append_parts(&mut writes, &parts);
        }
        proof {
            assert forall|part: ResourcePart| #[trigger] used@.contains(part) <==> exists|k: int|
                0 <= k < i + 1 && use_covers(table, #[trigger] uses@[k], part) by {
                lemma_contains_concat(used_before, parts@, part);
                assert(parts@.contains(part) == use_covers(table, uses@[i as int], part));
            }
            assert forall|part: ResourcePart| #[trigger] writes@.contains(part) <==> exists|k: int|
                0 <= k < i + 1 && (#[trigger] uses@[k]).writes && use_covers(
                    table,
                    uses@[k],
                    part,
                ) by {
                lemma_contains_concat(writes_before, parts@, part);
                assert(parts@.contains(part) == use_covers(table, uses@[i as int], part));
            }
        }
        i = i + 1;
    }
    let ghost group_used = used@;
    let mut j: usize = 0;
    while j < fetched.len()
        invariant
            j <= fetched@.len(),
            forall|part: ResourcePart| #[trigger]
                used@.contains(part) <==> group_used.contains(part) || exists|k: int|
                    0 <= k < j && part == ResourcePart::Buffer((#[trigger] fetched@[k]).id()),
        decreases fetched@.len() - j,
    {
        let part = ResourcePart::Buffer(fetched[j].id());
        let ghost before = used@;
        used.push(part);
        proof {
            assert forall|other: ResourcePart| #[trigger] used@.contains(other) <==> (
            group_used.contains(other) || exists|k: int|
                0 <= k < j + 1 && other == ResourcePart::Buffer((#[trigger] fetched@[k]).id())) by {
                assert(used@ =~= before + seq![part]);
                lemma_contains_concat(before, seq![part], other);
                assert(seq![part].contains(other) == (other == part)) by {
                    assert(seq![part][0] == part);
                }
                if other == part {
                    assert(other == ResourcePart::Buffer(fetched@[j as int].id()));
                }
            }
        }
        j = j + 1;
    }
    let result = GroupAccesses { used, writes };
    proof {
        let wanted = accesses_of(table, uses@, fetched@);
        assert forall|part: ResourcePart| result@.used.contains(part) == wanted.used.contains(
            part,
        ) by {
            assert(result.used@.to_set().contains(part) == result.used@.contains(part));
        }
        assert forall|part: ResourcePart| result@.writes.contains(part) == wanted.writes.contains(
            part,
        ) by {
            assert(result.writes@.to_set().contains(part) == result.writes@.contains(part));
        }
        assert(result@ =~= wanted);
    }
    result
}

/// A concatenation contains what either part contains.
proof fn lemma_contains_concat(left: Seq<ResourcePart>, right: Seq<ResourcePart>, part: ResourcePart)
    ensures
        (left + right).contains(part) == (left.contains(part) || right.contains(part)),
{
    let both = left + right;
    if left.contains(part) {
        let i = choose|i: int| 0 <= i < left.len() && left[i] == part;
        assert(both[i] == part);
    }
    if right.contains(part) {
        let i = choose|i: int| 0 <= i < right.len() && right[i] == part;
        assert(both[left.len() + i] == part);
    }
    if both.contains(part) {
        let i = choose|i: int| 0 <= i < both.len() && both[i] == part;
        if i < left.len() {
            assert(left[i] == part);
        } else {
            assert(right[i - left.len()] == part);
        }
    }
}

/// Check the bound groups against a pipeline layout, and return the parts that
/// a draw or dispatch uses and writes through them, with those of fetched buffers.
///
/// Descriptor sets and bindings are checked in order. Returns
/// `Error::BindGroupNotSet` or `Error::BindingLayoutMismatch` where a set is not
/// bound as declared, the error of an access that is not admitted,
/// `Error::AttachmentFeedback` for a texture that is attached, or
/// `Error::ResourceAccessConflict` for a resource that is written and used twice.
pub(crate) fn validate_groups(
    encoder: &CommandEncoder<'_, '_>,
    layout: &PipelineLayoutDesc,
    groups: &[Option<BindGroupRef>; 4],
    attachments: &Vec<TextureRef>,
    fetched: &Vec<BufferRef>,
) -> (r: Result<GroupAccesses, Error>)
    ensures
        ({
            let wanted = group_accesses(
                encoder@,
                layout@.bind_groups,
                groups@,
                (DrawScope { attachments: attachments@, fetched: fetched@ }),
            );
            match r {
                Ok(accesses) => wanted == Ok::<GroupAccessesView, Error>(accesses@),
                Err(error) => wanted == Err::<GroupAccessesView, Error>(error),
            }
        }),
{
    let ghost scope = DrawScope { attachments: attachments@, fetched: fetched@ };
    let sets = layout.bind_groups();
    let mut uses: Vec<GroupUse> = Vec::new();
    let mut slot: usize = 0;
    assert(uses@ =~= Seq::<GroupUse>::empty());
    while slot < sets.len()
        invariant
            slot <= sets@.len() <= MAX_BIND_GROUPS,
            sets@.len() == layout@.bind_groups.len(),
            forall|i: int| 0 <= i < sets@.len() ==> (#[trigger] sets@[i])@ == layout@.bind_groups[i],
            scope == (DrawScope { attachments: attachments@, fetched: fetched@ }),
            use_groups(encoder@, layout@.bind_groups, groups@, scope, slot as nat) == Ok::<
                Seq<GroupUse>,
                Error,
            >(uses@),
        decreases sets@.len() - slot,
    {
        match collect_group(
            encoder,
            &mut uses,
            &sets[slot],
            groups[slot],
            attachments,
            fetched,
            Ghost(scope),
        ) {
            Ok(()) => {},
            Err(error) => {
                proof {
                    lemma_group_failure_persists(
                        encoder@,
                        layout@.bind_groups,
                        groups@,
                        scope,
                        (slot + 1) as nat,
                        layout@.bind_groups.len(),
                    );
                }
                return Err(error);
            },
        }
        slot = slot + 1;
    }
    Ok(collect_accesses(encoder, &uses, fetched))
}

} // verus!
