//! Resource tables, references into them and persistent identities.

use crate::ir::pipeline::{RenderPipelineDesc, RenderPipelineView};
use crate::ir::programmable::{
    BindGroupDesc, BindGroupView, ComputePipelineDesc, ComputePipelineView,
    ProgrammablePipelineView, ProgrammableRenderPipelineDesc,
};
use crate::ir::resource::{BufferDesc, SamplerDesc, TextureDesc};
use crate::ir::shader::{ShaderModuleDesc, ShaderModuleView};
use crate::ir::types::Error;
use std::rc::Rc;
use crate::memory::Memory;
use vstd::prelude::*;

verus! {

/// Maximum textures held by one table.
pub const MAX_TEXTURES: usize = 1_024;

/// Maximum buffers held by one table.
pub const MAX_BUFFERS: usize = 1_024;

/// Maximum samplers held by one table.
pub const MAX_SAMPLERS: usize = 256;

/// Maximum fixed render pipelines held by one table.
pub const MAX_RENDER_PIPELINES: usize = 256;

/// Maximum shader modules held by one table.
pub const MAX_SHADER_MODULES: usize = 256;

/// Maximum immutable bind-group definitions held by one table.
pub const MAX_BIND_GROUP_DEFINITIONS: usize = 4_096;

/// Maximum compute pipelines held by one table.
pub const MAX_COMPUTE_PIPELINES: usize = 256;

/// Maximum programmable render pipelines held by one table.
pub const MAX_PROGRAMMABLE_PIPELINES: usize = 256;

/// A place in a table: the identity of the table and the position of the definition.
pub struct Slot {
    pub owner: usize,
    pub index: usize,
}

/// What a slot leads to in the table `id` that holds `items`.
pub open spec fn lookup<T>(id: usize, items: Seq<T>, slot: Slot) -> Result<T, Error> {
    if slot.owner != id {
        Err(Error::ResourceTableMismatch)
    } else if slot.index < items.len() {
        Ok(items[slot.index as int])
    } else {
        Err(Error::InvalidDescriptor)
    }
}

/// What remains of a lookup when only its success matters.
pub open spec fn outcome<T>(result: Result<T, Error>) -> Result<(), Error> {
    match result {
        Ok(_) => Ok(()),
        Err(error) => Err(error),
    }
}

/// Reference to a texture defined in one table.
#[derive(Debug, Clone, Copy, PartialEq, Eq, Structural)]
pub struct TextureRef {
    owner: usize,
    index: usize,
}

/// Persistent identity of a texture, bound to the table that defines it.
#[derive(Debug, Clone, Copy, PartialEq, Eq, Hash, Structural)]
pub struct TextureId {
    owner: usize,
    index: usize,
}

impl View for TextureRef {
    type V = Slot;

    closed spec fn view(&self) -> Slot {
        Slot { owner: self.owner, index: self.index }
    }
}

impl View for TextureId {
    type V = Slot;

    closed spec fn view(&self) -> Slot {
        Slot { owner: self.owner, index: self.index }
    }
}

impl TextureRef {
    /// The identity of the referenced definition.
    pub closed spec fn spec_id(self) -> TextureId {
        TextureId { owner: self.owner, index: self.index }
    }

    /// Return the position within the table.
    pub fn slot(self) -> (r: usize)
        ensures
            r == self@.index,
    {
        self.index
    }

    /// Return the persistent identity.
    #[verifier::when_used_as_spec(spec_id)]
    pub fn id(self) -> (r: TextureId)
        ensures
            r == self.spec_id(),
            r@ == self@,
    {
        TextureId { owner: self.owner, index: self.index }
    }

    /// Return whether the reference belongs to a table.
    pub fn belongs_to(self, resources: &ResourceTable) -> (r: bool)
        ensures
            r == (self@.owner == resources@.id),
    {
        self.owner == resources.id
    }
}

impl TextureId {
    /// The reference with this identity.
    pub closed spec fn reference(self) -> TextureRef {
        TextureRef { owner: self.owner, index: self.index }
    }
}

/// Reference to a buffer defined in one table.
#[derive(Debug, Clone, Copy, PartialEq, Eq, Structural)]
pub struct BufferRef {
    owner: usize,
    index: usize,
}

/// Persistent identity of a buffer, bound to the table that defines it.
#[derive(Debug, Clone, Copy, PartialEq, Eq, Hash, Structural)]
pub struct BufferId {
    owner: usize,
    index: usize,
}

impl View for BufferRef {
    type V = Slot;

    closed spec fn view(&self) -> Slot {
        Slot { owner: self.owner, index: self.index }
    }
}

impl View for BufferId {
    type V = Slot;

    closed spec fn view(&self) -> Slot {
        Slot { owner: self.owner, index: self.index }
    }
}

impl BufferRef {
    /// The identity of the referenced definition.
    pub closed spec fn spec_id(self) -> BufferId {
        BufferId { owner: self.owner, index: self.index }
    }

    /// Return the position within the table.
    pub fn slot(self) -> (r: usize)
        ensures
            r == self@.index,
    {
        self.index
    }

    /// Return the persistent identity.
    #[verifier::when_used_as_spec(spec_id)]
    pub fn id(self) -> (r: BufferId)
        ensures
            r == self.spec_id(),
            r@ == self@,
    {
        BufferId { owner: self.owner, index: self.index }
    }
}

impl BufferId {
    /// The reference with this identity.
    pub closed spec fn reference(self) -> BufferRef {
        BufferRef { owner: self.owner, index: self.index }
    }
}

/// Reference to a sampler defined in one table.
#[derive(Debug, Clone, Copy, PartialEq, Eq, Structural)]
pub struct SamplerRef {
    owner: usize,
    index: usize,
}

/// Persistent identity of a sampler, bound to the table that defines it.
#[derive(Debug, Clone, Copy, PartialEq, Eq, Hash, Structural)]
pub struct SamplerId {
    owner: usize,
    index: usize,
}

impl View for SamplerRef {
    type V = Slot;

    closed spec fn view(&self) -> Slot {
        Slot { owner: self.owner, index: self.index }
    }
}

impl View for SamplerId {
    type V = Slot;

    closed spec fn view(&self) -> Slot {
        Slot { owner: self.owner, index: self.index }
    }
}

impl SamplerRef {
    /// The identity of the referenced definition.
    pub closed spec fn spec_id(self) -> SamplerId {
        SamplerId { owner: self.owner, index: self.index }
    }

    /// Return the position within the table.
    pub fn slot(self) -> (r: usize)
        ensures
            r == self@.index,
    {
        self.index
    }

    /// Return the persistent identity.
    #[verifier::when_used_as_spec(spec_id)]
    pub fn id(self) -> (r: SamplerId)
        ensures
            r == self.spec_id(),
            r@ == self@,
    {
        SamplerId { owner: self.owner, index: self.index }
    }
}

impl SamplerId {
    /// The reference with this identity.
    pub closed spec fn reference(self) -> SamplerRef {
        SamplerRef { owner: self.owner, index: self.index }
    }
}

/// Reference to a fixed render pipeline defined in one table.
#[derive(Debug, Clone, Copy, PartialEq, Eq, Structural)]
pub struct RenderPipelineRef {
    owner: usize,
    index: usize,
}

/// Persistent identity of a fixed render pipeline, bound to the table that defines it.
#[derive(Debug, Clone, Copy, PartialEq, Eq, Hash, Structural)]
pub struct RenderPipelineId {
    owner: usize,
    index: usize,
}

impl View for RenderPipelineRef {
    type V = Slot;

    closed spec fn view(&self) -> Slot {
        Slot { owner: self.owner, index: self.index }
    }
}

impl View for RenderPipelineId {
    type V = Slot;

    closed spec fn view(&self) -> Slot {
        Slot { owner: self.owner, index: self.index }
    }
}

impl RenderPipelineRef {
    /// The identity of the referenced definition.
    pub closed spec fn spec_id(self) -> RenderPipelineId {
        RenderPipelineId { owner: self.owner, index: self.index }
    }

    /// Return the position within the table.
    pub fn slot(self) -> (r: usize)
        ensures
            r == self@.index,
    {
        self.index
    }

    /// Return the persistent identity.
    #[verifier::when_used_as_spec(spec_id)]
    pub fn id(self) -> (r: RenderPipelineId)
        ensures
            r == self.spec_id(),
            r@ == self@,
    {
        RenderPipelineId { owner: self.owner, index: self.index }
    }
}

impl RenderPipelineId {
    /// The reference with this identity.
    pub closed spec fn reference(self) -> RenderPipelineRef {
        RenderPipelineRef { owner: self.owner, index: self.index }
    }
}

/// Reference to a shader module defined in one table.
#[derive(Debug, Clone, Copy, PartialEq, Eq, Structural)]
pub struct ShaderModuleRef {
    owner: usize,
    index: usize,
}

/// Persistent identity of a shader module, bound to the table that defines it.
#[derive(Debug, Clone, Copy, PartialEq, Eq, Hash, Structural)]
pub struct ShaderModuleId {
    owner: usize,
    index: usize,
}

impl View for ShaderModuleRef {
    type V = Slot;

    closed spec fn view(&self) -> Slot {
        Slot { owner: self.owner, index: self.index }
    }
}

impl View for ShaderModuleId {
    type V = Slot;

    closed spec fn view(&self) -> Slot {
        Slot { owner: self.owner, index: self.index }
    }
}

impl ShaderModuleRef {
    /// The identity of the referenced definition.
    pub closed spec fn spec_id(self) -> ShaderModuleId {
        ShaderModuleId { owner: self.owner, index: self.index }
    }

    /// Return the position within the table.
    pub fn slot(self) -> (r: usize)
        ensures
            r == self@.index,
    {
        self.index
    }

    /// Return the persistent identity.
    #[verifier::when_used_as_spec(spec_id)]
    pub fn id(self) -> (r: ShaderModuleId)
        ensures
            r == self.spec_id(),
            r@ == self@,
    {
        ShaderModuleId { owner: self.owner, index: self.index }
    }
}

impl ShaderModuleId {
    /// The reference with this identity.
    pub closed spec fn reference(self) -> ShaderModuleRef {
        ShaderModuleRef { owner: self.owner, index: self.index }
    }
}

/// Reference to a bind group defined in one table.
#[derive(Debug, Clone, Copy, PartialEq, Eq, Structural)]
pub struct BindGroupRef {
    owner: usize,
    index: usize,
}

/// Persistent identity of a bind group, bound to the table that defines it.
#[derive(Debug, Clone, Copy, PartialEq, Eq, Hash, Structural)]
pub struct BindGroupId {
    owner: usize,
    index: usize,
}

impl View for BindGroupRef {
    type V = Slot;

    closed spec fn view(&self) -> Slot {
        Slot { owner: self.owner, index: self.index }
    }
}

impl View for BindGroupId {
    type V = Slot;

    closed spec fn view(&self) -> Slot {
        Slot { owner: self.owner, index: self.index }
    }
}

impl BindGroupRef {
    /// The identity of the referenced definition.
    pub closed spec fn spec_id(self) -> BindGroupId {
        BindGroupId { owner: self.owner, index: self.index }
    }

    /// Return the position within the table.
    pub fn slot(self) -> (r: usize)
        ensures
            r == self@.index,
    {
        self.index
    }

    /// Return the persistent identity.
    #[verifier::when_used_as_spec(spec_id)]
    pub fn id(self) -> (r: BindGroupId)
        ensures
            r == self.spec_id(),
            r@ == self@,
    {
        BindGroupId { owner: self.owner, index: self.index }
    }
}

impl BindGroupId {
    /// The reference with this identity.
    pub closed spec fn reference(self) -> BindGroupRef {
        BindGroupRef { owner: self.owner, index: self.index }
    }
}

/// Reference to a compute pipeline defined in one table.
#[derive(Debug, Clone, Copy, PartialEq, Eq, Structural)]
pub struct ComputePipelineRef {
    owner: usize,
    index: usize,
}

/// Persistent identity of a compute pipeline, bound to the table that defines it.
#[derive(Debug, Clone, Copy, PartialEq, Eq, Hash, Structural)]
pub struct ComputePipelineId {
    owner: usize,
    index: usize,
}

impl View for ComputePipelineRef {
    type V = Slot;

    closed spec fn view(&self) -> Slot {
        Slot { owner: self.owner, index: self.index }
    }
}

impl View for ComputePipelineId {
    type V = Slot;

    closed spec fn view(&self) -> Slot {
        Slot { owner: self.owner, index: self.index }
    }
}

impl ComputePipelineRef {
    /// The identity of the referenced definition.
    pub closed spec fn spec_id(self) -> ComputePipelineId {
        ComputePipelineId { owner: self.owner, index: self.index }
    }

    /// Return the position within the table.
    pub fn slot(self) -> (r: usize)
        ensures
            r == self@.index,
    {
        self.index
    }

    /// Return the persistent identity.
    #[verifier::when_used_as_spec(spec_id)]
    pub fn id(self) -> (r: ComputePipelineId)
        ensures
            r == self.spec_id(),
            r@ == self@,
    {
        ComputePipelineId { owner: self.owner, index: self.index }
    }
}

impl ComputePipelineId {
    /// The reference with this identity.
    pub closed spec fn reference(self) -> ComputePipelineRef {
        ComputePipelineRef { owner: self.owner, index: self.index }
    }
}

/// Reference to a programmable render pipeline defined in one table.
#[derive(Debug, Clone, Copy, PartialEq, Eq, Structural)]
pub struct ProgrammableRenderPipelineRef {
    owner: usize,
    index: usize,
}

/// Persistent identity of a programmable render pipeline, bound to the table that defines it.
#[derive(Debug, Clone, Copy, PartialEq, Eq, Hash, Structural)]
pub struct ProgrammableRenderPipelineId {
    owner: usize,
    index: usize,
}

impl View for ProgrammableRenderPipelineRef {
    type V = Slot;

    closed spec fn view(&self) -> Slot {
        Slot { owner: self.owner, index: self.index }
    }
}

impl View for ProgrammableRenderPipelineId {
    type V = Slot;

    closed spec fn view(&self) -> Slot {
        Slot { owner: self.owner, index: self.index }
    }
}

impl ProgrammableRenderPipelineRef {
    /// The identity of the referenced definition.
    pub closed spec fn spec_id(self) -> ProgrammableRenderPipelineId {
        ProgrammableRenderPipelineId { owner: self.owner, index: self.index }
    }

    /// Return the position within the table.
    pub fn slot(self) -> (r: usize)
        ensures
            r == self@.index,
    {
        self.index
    }

    /// Return the persistent identity.
    #[verifier::when_used_as_spec(spec_id)]
    pub fn id(self) -> (r: ProgrammableRenderPipelineId)
        ensures
            r == self.spec_id(),
            r@ == self@,
    {
        ProgrammableRenderPipelineId { owner: self.owner, index: self.index }
    }
}

impl ProgrammableRenderPipelineId {
    /// The reference with this identity.
    pub closed spec fn reference(self) -> ProgrammableRenderPipelineRef {
        ProgrammableRenderPipelineRef { owner: self.owner, index: self.index }
    }
}

/// The contents of a resource table.
#[verifier::ext_equal]
pub struct TableView {
    pub id: usize,
    pub textures: Seq<TextureDesc>,
    pub buffers: Seq<BufferDesc>,
    pub samplers: Seq<SamplerDesc>,
    pub pipelines: Seq<RenderPipelineView>,
    pub shader_modules: Seq<ShaderModuleView>,
    pub bind_groups: Seq<BindGroupView>,
    pub compute_pipelines: Seq<ComputePipelineView>,
    pub programmable_pipelines: Seq<ProgrammablePipelineView>,
}

impl TableView {
    /// A table without definitions.
    pub open spec fn empty(id: usize) -> Self {
        TableView {
            id,
            textures: Seq::empty(),
            buffers: Seq::empty(),
            samplers: Seq::empty(),
            pipelines: Seq::empty(),
            shader_modules: Seq::empty(),
            bind_groups: Seq::empty(),
            compute_pipelines: Seq::empty(),
            programmable_pipelines: Seq::empty(),
        }
    }

    /// The texture that a reference leads to.
    pub open spec fn texture(self, reference: TextureRef) -> Result<TextureDesc, Error> {
        lookup(self.id, self.textures, reference@)
    }

    /// The reference that a texture identity resolves to.
    pub open spec fn texture_ref(self, id: TextureId) -> Result<TextureRef, Error> {
        match lookup(self.id, self.textures, id@) {
            Ok(_) => Ok(id.reference()),
            Err(error) => Err(error),
        }
    }

    /// The buffer that a reference leads to.
    pub open spec fn buffer(self, reference: BufferRef) -> Result<BufferDesc, Error> {
        lookup(self.id, self.buffers, reference@)
    }

    /// The reference that a buffer identity resolves to.
    pub open spec fn buffer_ref(self, id: BufferId) -> Result<BufferRef, Error> {
        match lookup(self.id, self.buffers, id@) {
            Ok(_) => Ok(id.reference()),
            Err(error) => Err(error),
        }
    }

    /// The sampler that a reference leads to.
    pub open spec fn sampler(self, reference: SamplerRef) -> Result<SamplerDesc, Error> {
        lookup(self.id, self.samplers, reference@)
    }

    /// The reference that a sampler identity resolves to.
    pub open spec fn sampler_ref(self, id: SamplerId) -> Result<SamplerRef, Error> {
        match lookup(self.id, self.samplers, id@) {
            Ok(_) => Ok(id.reference()),
            Err(error) => Err(error),
        }
    }

    /// The fixed render pipeline that a reference leads to.
    pub open spec fn render_pipeline(
        self,
        reference: RenderPipelineRef,
    ) -> Result<RenderPipelineView, Error> {
        lookup(self.id, self.pipelines, reference@)
    }

    /// The reference that a fixed render pipeline identity resolves to.
    pub open spec fn render_pipeline_ref(
        self,
        id: RenderPipelineId,
    ) -> Result<RenderPipelineRef, Error> {
        match lookup(self.id, self.pipelines, id@) {
            Ok(_) => Ok(id.reference()),
            Err(error) => Err(error),
        }
    }

    /// The shader module that a reference leads to.
    pub open spec fn shader_module(
        self,
        reference: ShaderModuleRef,
    ) -> Result<ShaderModuleView, Error> {
        lookup(self.id, self.shader_modules, reference@)
    }

    /// The reference that a shader module identity resolves to.
    pub open spec fn shader_module_ref(self, id: ShaderModuleId) -> Result<ShaderModuleRef, Error> {
        match lookup(self.id, self.shader_modules, id@) {
            Ok(_) => Ok(id.reference()),
            Err(error) => Err(error),
        }
    }

    /// The bind group that a reference leads to.
    pub open spec fn bind_group(self, reference: BindGroupRef) -> Result<BindGroupView, Error> {
        lookup(self.id, self.bind_groups, reference@)
    }

    /// The reference that a bind group identity resolves to.
    pub open spec fn bind_group_ref(self, id: BindGroupId) -> Result<BindGroupRef, Error> {
        match lookup(self.id, self.bind_groups, id@) {
            Ok(_) => Ok(id.reference()),
            Err(error) => Err(error),
        }
    }

    /// The compute pipeline that a reference leads to.
    pub open spec fn compute_pipeline(
        self,
        reference: ComputePipelineRef,
    ) -> Result<ComputePipelineView, Error> {
        lookup(self.id, self.compute_pipelines, reference@)
    }

    /// The reference that a compute pipeline identity resolves to.
    pub open spec fn compute_pipeline_ref(
        self,
        id: ComputePipelineId,
    ) -> Result<ComputePipelineRef, Error> {
        match lookup(self.id, self.compute_pipelines, id@) {
            Ok(_) => Ok(id.reference()),
            Err(error) => Err(error),
        }
    }

    /// The programmable render pipeline that a reference leads to.
    pub open spec fn programmable_render_pipeline(
        self,
        reference: ProgrammableRenderPipelineRef,
    ) -> Result<ProgrammablePipelineView, Error> {
        lookup(self.id, self.programmable_pipelines, reference@)
    }

    /// The reference that a programmable render pipeline identity resolves to.
    pub open spec fn programmable_render_pipeline_ref(
        self,
        id: ProgrammableRenderPipelineId,
    ) -> Result<ProgrammableRenderPipelineRef, Error> {
        match lookup(self.id, self.programmable_pipelines, id@) {
            Ok(_) => Ok(id.reference()),
            Err(error) => Err(error),
        }
    }

    /// Whether every definition of another table is still there at its place.
    pub open spec fn extends(self, earlier: Self) -> bool {
        &&& self.id == earlier.id
        &&& earlier.textures.is_prefix_of(self.textures)
        &&& earlier.buffers.is_prefix_of(self.buffers)
        &&& earlier.samplers.is_prefix_of(self.samplers)
        &&& earlier.pipelines.is_prefix_of(self.pipelines)
        &&& earlier.shader_modules.is_prefix_of(self.shader_modules)
        &&& earlier.bind_groups.is_prefix_of(self.bind_groups)
        &&& earlier.compute_pipelines.is_prefix_of(self.compute_pipelines)
        &&& earlier.programmable_pipelines.is_prefix_of(self.programmable_pipelines)
    }

    /// Whether the bindings of every bind group and the shaders of every pipeline
    /// are valid.
    pub open spec fn sound(self) -> bool {
        &&& forall|i: int|
            0 <= i < self.bind_groups.len() ==> (#[trigger] self.bind_groups[i]).check(self)
                == Ok::<(), Error>(())
        &&& forall|i: int|
            0 <= i < self.compute_pipelines.len() ==> self.shader_module_ref(
                (#[trigger] self.compute_pipelines[i]).shader.module,
            ) is Ok
        &&& forall|i: int|
            0 <= i < self.programmable_pipelines.len() ==> self.shader_module_ref(
                (#[trigger] self.programmable_pipelines[i]).vertex.module,
            ) is Ok && self.shader_module_ref(
                self.programmable_pipelines[i].fragment.module,
            ) is Ok
    }

    /// Whether every list of definitions is within its bound.
    pub open spec fn bounded(self) -> bool {
        &&& self.textures.len() <= MAX_TEXTURES
        &&& self.buffers.len() <= MAX_BUFFERS
        &&& self.samplers.len() <= MAX_SAMPLERS
        &&& self.pipelines.len() <= MAX_RENDER_PIPELINES
        &&& self.shader_modules.len() <= MAX_SHADER_MODULES
        &&& self.bind_groups.len() <= MAX_BIND_GROUP_DEFINITIONS
        &&& self.compute_pipelines.len() <= MAX_COMPUTE_PIPELINES
        &&& self.programmable_pipelines.len() <= MAX_PROGRAMMABLE_PIPELINES
    }
}

/// Definitions of logical resources. References and identities name the table
/// that they belong to, so a table never resolves those of another one.
pub struct ResourceTable {
    id: usize,
    textures: Vec<TextureDesc>,
    buffers: Vec<BufferDesc>,
    samplers: Vec<SamplerDesc>,
    pipelines: Vec<RenderPipelineDesc>,
    shader_modules: Vec<ShaderModuleDesc>,
    bind_groups: Vec<Rc<BindGroupDesc>>,
    compute_pipelines: Vec<ComputePipelineDesc>,
    programmable_pipelines: Vec<Rc<ProgrammableRenderPipelineDesc>>,
    memory: Memory,
}

impl View for ResourceTable {
    type V = TableView;

    closed spec fn view(&self) -> TableView {
        TableView {
            id: self.id,
            textures: self.textures@,
            buffers: self.buffers@,
            samplers: self.samplers@,
            pipelines: Seq::new(self.pipelines@.len(), |i: int| self.pipelines@[i]@),
            shader_modules: Seq::new(self.shader_modules@.len(), |i: int| self.shader_modules@[i]@),
            bind_groups: Seq::new(self.bind_groups@.len(), |i: int| self.bind_groups@[i]@),
            compute_pipelines: Seq::new(
                self.compute_pipelines@.len(),
                |i: int| self.compute_pipelines@[i]@,
            ),
            programmable_pipelines: Seq::new(
                self.programmable_pipelines@.len(),
                |i: int| self.programmable_pipelines@[i]@,
            ),
        }
    }
}

/// `Box::leak`: the reference holds what the box held.
#[verifier::external_body]
fn leak(byte: Box<u8>) -> (r: &'static u8)
    ensures
        *r == *byte,
{
    Box::leak(byte)
}

/// `pointer::addr`: the address of a referenced byte. Nothing is stated of the
/// number. It differs from that of every other byte that is never freed.
#[verifier::external_body]
fn address(byte: &'static u8) -> usize {
    core::ptr::from_ref(byte).addr()
}

/// Append a definition to a bounded list, given whether room for it was reserved.
///
/// Returns its position, `Error::ResourceLimitExceeded` when the list is full,
/// or `Error::OutOfMemory` when there is no room.
pub fn push_reserved<T>(items: &mut Vec<T>, value: T, maximum: usize, reserved: bool) -> (r: Result<
    usize,
    Error,
>)
    ensures
        match r {
            Ok(index) => reserved && old(items)@.len() < maximum && index == old(items)@.len()
                && final(items)@ == old(items)@.push(value),
            Err(error) => final(items)@ == old(items)@ && error == (if old(items)@.len()
                >= maximum {
                Error::ResourceLimitExceeded
            } else {
                Error::OutOfMemory
            }) && (old(items)@.len() < maximum ==> !reserved),
        },
{
    if items.len() >= maximum {
        return Err(Error::ResourceLimitExceeded);
    }
    if !reserved {
        return Err(Error::OutOfMemory);
    }
    let index: usize = items.len();
    items.push(value);
    Ok(index)
}

/// Append a definition to a bounded list.
fn push<T>(items: &mut Vec<T>, value: T, maximum: usize, memory: Memory) -> (r: Result<
    usize,
    Error,
>)
    ensures
        match r {
            Ok(index) => memory.may(true) && old(items)@.len() < maximum && index
                == old(items)@.len()
                && final(items)@ == old(items)@.push(value),
            Err(error) => final(items)@ == old(items)@ && error == (if old(items)@.len()
                >= maximum {
                Error::ResourceLimitExceeded
            } else {
                Error::OutOfMemory
            }) && (old(items)@.len() < maximum ==> memory.may(false)),
        },
{
    if items.len() >= maximum {
        return Err(Error::ResourceLimitExceeded);
    }
    let reserved: bool = memory.reserve(items, 1);
    push_reserved(items, value, maximum, reserved)
}

impl ResourceTable {
    /// How requests for room are answered. This is no part of what is defined.
    pub closed spec fn spec_memory(&self) -> Memory {
        self.memory
    }

    /// Return how requests for room are answered.
    #[verifier::when_used_as_spec(spec_memory)]
    pub fn memory(&self) -> (r: Memory)
        ensures
            r == self.spec_memory(),
    {
        self.memory
    }

    /// Create an empty table with a given identity.
    ///
    /// Tables that share an identity resolve each other's references.
    pub fn with_identity(id: usize) -> (r: Self)
        ensures
            r@ == TableView::empty(id),
            r.memory() == Memory::System,
    {
        Self::with_identity_and_memory(id, Memory::System)
    }

    /// Create an empty table with a given identity, whose requests for room are
    /// answered as given.
    pub fn with_identity_and_memory(id: usize, memory: Memory) -> (r: Self)
        ensures
            r@ == TableView::empty(id),
            r.memory() == memory,
    {
        let table = Self {
            id,
            memory,
            textures: Vec::new(),
            buffers: Vec::new(),
            samplers: Vec::new(),
            pipelines: Vec::new(),
            shader_modules: Vec::new(),
            bind_groups: Vec::new(),
            compute_pipelines: Vec::new(),
            programmable_pipelines: Vec::new(),
        };
        assert(table@ =~= TableView::empty(id));
        table
    }

    /// Create an empty table.
    ///
    /// Its identity is the address of a byte that is never freed, so no other
    /// table created this way in the same process has it.
    pub fn new() -> (r: Self)
        ensures
            r@ == TableView::empty(r@.id),
            r.memory() == Memory::System,
    {
        let byte: &'static u8 = leak(Box::new(0));
        Self::with_identity(address(byte))
    }

    /// Return the identity that references and identities of this table carry.
    pub fn identity(&self) -> (r: usize)
        ensures
            r == self@.id,
    {
        self.id
    }

    /// Check that a slot leads into this table.
    fn check_slot(&self, owner: usize, index: usize, length: usize) -> (r: Result<(), Error>)
        ensures
            r == (if owner != self@.id {
                Err::<(), Error>(Error::ResourceTableMismatch)
            } else if index < length {
                Ok(())
            } else {
                Err(Error::InvalidDescriptor)
            }),
    {
        if owner != self.id {
            return Err(Error::ResourceTableMismatch);
        }
        if index >= length {
            return Err(Error::InvalidDescriptor);
        }
        Ok(())
    }

    /// Define a texture.
    ///
    /// Returns `Error::ResourceLimitExceeded` when the table is full, or
    /// `Error::OutOfMemory` when storage could not be reserved. On any error the
    /// table is unchanged.
    pub fn define_texture(&mut self, desc: TextureDesc) -> (r: Result<TextureRef, Error>)
        ensures
            final(self).memory() == old(self).memory(),
            r is Ok ==> old(self).memory().may(true),
            match r {
                Ok(reference) => old(self)@.textures.len() < MAX_TEXTURES && reference@ == (Slot {
                    owner: old(self)@.id,
                    index: old(self)@.textures.len() as usize,
                }) && final(self)@ == (TableView {
                    textures: old(self)@.textures.push(desc),
                    ..old(self)@
                }),
                Err(error) => final(self)@ == old(self)@ && error
                    == (if old(self)@.textures.len() >= MAX_TEXTURES {
                    Error::ResourceLimitExceeded
                } else {
                    Error::OutOfMemory
                }) && (old(self)@.textures.len() < MAX_TEXTURES ==> old(self).memory().may(false)),
            },
            r matches Ok(reference) ==> final(self)@.texture(reference)
                == Ok::<TextureDesc, Error>(desc),
            final(self)@.extends(old(self)@),
            old(self)@.bounded() ==> final(self)@.bounded(),
            old(self)@.sound() ==> final(self)@.sound(),
    {
        let owner: usize = self.id;
        let memory: Memory = self.memory;
        let ghost before = self@;
        let index: usize = match push(&mut self.textures, desc, MAX_TEXTURES, memory) {
            Ok(index) => index,
            Err(error) => {
                assert(self@ =~= before);
                return Err(error);
            },
        };
        assert(self@.textures =~= before.textures.push(desc));
        assert(self@ =~= (TableView { textures: before.textures.push(desc), ..before }));
        proof {
            if before.sound() {
                crate::ir::programmable::law_growth_keeps_definitions_sound(before, self@);
            }
        }
        Ok(TextureRef { owner, index })
    }

    /// Resolve a texture identity.
    ///
    /// Returns `Error::ResourceTableMismatch` for an identity of another table,
    /// or `Error::InvalidDescriptor` for one that is not defined.
    pub fn texture_ref(&self, id: TextureId) -> (r: Result<TextureRef, Error>)
        ensures
            r == self@.texture_ref(id),
    {
        match self.check_slot(id.owner, id.index, self.textures.len()) {
            Ok(()) => Ok(TextureRef { owner: id.owner, index: id.index }),
            Err(error) => Err(error),
        }
    }

    /// Return the texture that a reference leads to.
    ///
    /// Returns `Error::ResourceTableMismatch` for a reference into another table,
    /// or `Error::InvalidDescriptor` for one that is not defined.
    pub fn texture(&self, reference: TextureRef) -> (r: Result<TextureDesc, Error>)
        ensures
            r == self@.texture(reference),
    {
        match self.check_slot(reference.owner, reference.index, self.textures.len()) {
            Ok(()) => Ok(self.textures[reference.index]),
            Err(error) => Err(error),
        }
    }

    /// Define a buffer.
    ///
    /// Returns `Error::ResourceLimitExceeded` when the table is full, or
    /// `Error::OutOfMemory` when storage could not be reserved. On any error the
    /// table is unchanged.
    pub fn define_buffer(&mut self, desc: BufferDesc) -> (r: Result<BufferRef, Error>)
        ensures
            final(self).memory() == old(self).memory(),
            r is Ok ==> old(self).memory().may(true),
            match r {
                Ok(reference) => old(self)@.buffers.len() < MAX_BUFFERS && reference@ == (Slot {
                    owner: old(self)@.id,
                    index: old(self)@.buffers.len() as usize,
                }) && final(self)@ == (TableView {
                    buffers: old(self)@.buffers.push(desc),
                    ..old(self)@
                }),
                Err(error) => final(self)@ == old(self)@ && error
                    == (if old(self)@.buffers.len() >= MAX_BUFFERS {
                    Error::ResourceLimitExceeded
                } else {
                    Error::OutOfMemory
                }) && (old(self)@.buffers.len() < MAX_BUFFERS ==> old(self).memory().may(false)),
            },
            r matches Ok(reference) ==> final(self)@.buffer(reference) == Ok::<BufferDesc, Error>(desc),
            final(self)@.extends(old(self)@),
            old(self)@.bounded() ==> final(self)@.bounded(),
            old(self)@.sound() ==> final(self)@.sound(),
    {
        let owner: usize = self.id;
        let memory: Memory = self.memory;
        let ghost before = self@;
        let index: usize = match push(&mut self.buffers, desc, MAX_BUFFERS, memory) {
            Ok(index) => index,
            Err(error) => {
                assert(self@ =~= before);
                return Err(error);
            },
        };
        assert(self@.buffers =~= before.buffers.push(desc));
        assert(self@ =~= (TableView { buffers: before.buffers.push(desc), ..before }));
        proof {
            if before.sound() {
                crate::ir::programmable::law_growth_keeps_definitions_sound(before, self@);
            }
        }
        Ok(BufferRef { owner, index })
    }

    /// Resolve a buffer identity.
    ///
    /// Returns `Error::ResourceTableMismatch` for an identity of another table,
    /// or `Error::InvalidDescriptor` for one that is not defined.
    pub fn buffer_ref(&self, id: BufferId) -> (r: Result<BufferRef, Error>)
        ensures
            r == self@.buffer_ref(id),
    {
        match self.check_slot(id.owner, id.index, self.buffers.len()) {
            Ok(()) => Ok(BufferRef { owner: id.owner, index: id.index }),
            Err(error) => Err(error),
        }
    }

    /// Return the buffer that a reference leads to.
    ///
    /// Returns `Error::ResourceTableMismatch` for a reference into another table,
    /// or `Error::InvalidDescriptor` for one that is not defined.
    pub fn buffer(&self, reference: BufferRef) -> (r: Result<BufferDesc, Error>)
        ensures
            r == self@.buffer(reference),
    {
        match self.check_slot(reference.owner, reference.index, self.buffers.len()) {
            Ok(()) => Ok(self.buffers[reference.index]),
            Err(error) => Err(error),
        }
    }

    /// Define a sampler.
    ///
    /// Returns `Error::ResourceLimitExceeded` when the table is full, or
    /// `Error::OutOfMemory` when storage could not be reserved. On any error the
    /// table is unchanged.
    pub fn define_sampler(&mut self, desc: SamplerDesc) -> (r: Result<SamplerRef, Error>)
        ensures
            final(self).memory() == old(self).memory(),
            r is Ok ==> old(self).memory().may(true),
            match r {
                Ok(reference) => old(self)@.samplers.len() < MAX_SAMPLERS && reference@ == (Slot {
                    owner: old(self)@.id,
                    index: old(self)@.samplers.len() as usize,
                }) && final(self)@ == (TableView {
                    samplers: old(self)@.samplers.push(desc),
                    ..old(self)@
                }),
                Err(error) => final(self)@ == old(self)@ && error
                    == (if old(self)@.samplers.len() >= MAX_SAMPLERS {
                    Error::ResourceLimitExceeded
                } else {
                    Error::OutOfMemory
                }) && (old(self)@.samplers.len() < MAX_SAMPLERS ==> old(self).memory().may(false)),
            },
            r matches Ok(reference) ==> final(self)@.sampler(reference)
                == Ok::<SamplerDesc, Error>(desc),
            final(self)@.extends(old(self)@),
            old(self)@.bounded() ==> final(self)@.bounded(),
            old(self)@.sound() ==> final(self)@.sound(),
    {
        let owner: usize = self.id;
        let memory: Memory = self.memory;
        let ghost before = self@;
        let index: usize = match push(&mut self.samplers, desc, MAX_SAMPLERS, memory) {
            Ok(index) => index,
            Err(error) => {
                assert(self@ =~= before);
                return Err(error);
            },
        };
        assert(self@.samplers =~= before.samplers.push(desc));
        assert(self@ =~= (TableView { samplers: before.samplers.push(desc), ..before }));
        proof {
            if before.sound() {
                crate::ir::programmable::law_growth_keeps_definitions_sound(before, self@);
            }
        }
        Ok(SamplerRef { owner, index })
    }

    /// Resolve a sampler identity.
    ///
    /// Returns `Error::ResourceTableMismatch` for an identity of another table,
    /// or `Error::InvalidDescriptor` for one that is not defined.
    pub fn sampler_ref(&self, id: SamplerId) -> (r: Result<SamplerRef, Error>)
        ensures
            r == self@.sampler_ref(id),
    {
        match self.check_slot(id.owner, id.index, self.samplers.len()) {
            Ok(()) => Ok(SamplerRef { owner: id.owner, index: id.index }),
            Err(error) => Err(error),
        }
    }

    /// Return the sampler that a reference leads to.
    ///
    /// Returns `Error::ResourceTableMismatch` for a reference into another table,
    /// or `Error::InvalidDescriptor` for one that is not defined.
    pub fn sampler(&self, reference: SamplerRef) -> (r: Result<SamplerDesc, Error>)
        ensures
            r == self@.sampler(reference),
    {
        match self.check_slot(reference.owner, reference.index, self.samplers.len()) {
            Ok(()) => Ok(self.samplers[reference.index]),
            Err(error) => Err(error),
        }
    }

    /// Define a fixed render pipeline.
    ///
    /// Returns `Error::ResourceLimitExceeded` when the table is full, or
    /// `Error::OutOfMemory` when storage could not be reserved. On any error the
    /// table is unchanged.
    pub fn define_render_pipeline(
        &mut self,
        desc: RenderPipelineDesc,
    ) -> (r: Result<RenderPipelineRef, Error>)
        ensures
            final(self).memory() == old(self).memory(),
            r is Ok ==> old(self).memory().may(true),
            match r {
                Ok(reference) => old(self)@.pipelines.len() < MAX_RENDER_PIPELINES && reference@
                    == (Slot {
                    owner: old(self)@.id,
                    index: old(self)@.pipelines.len() as usize,
                }) && final(self)@ == (TableView {
                    pipelines: old(self)@.pipelines.push(desc@),
                    ..old(self)@
                }),
                Err(error) => final(self)@ == old(self)@ && error
                    == (if old(self)@.pipelines.len() >= MAX_RENDER_PIPELINES {
                    Error::ResourceLimitExceeded
                } else {
                    Error::OutOfMemory
                }) && (old(self)@.pipelines.len() < MAX_RENDER_PIPELINES ==> old(self).memory().may(false)),
            },
            r matches Ok(reference) ==> final(self)@.render_pipeline(reference)
                == Ok::<RenderPipelineView, Error>(desc@),
            final(self)@.extends(old(self)@),
            old(self)@.bounded() ==> final(self)@.bounded(),
            old(self)@.sound() ==> final(self)@.sound(),
    {
        let owner: usize = self.id;
        let memory: Memory = self.memory;
        let ghost before = self@;
        let index: usize = match push(&mut self.pipelines, desc, MAX_RENDER_PIPELINES, memory) {
            Ok(index) => index,
            Err(error) => {
                assert(self@ =~= before);
                return Err(error);
            },
        };
        assert(self@.pipelines =~= before.pipelines.push(desc@));
        assert(self@ =~= (TableView { pipelines: before.pipelines.push(desc@), ..before }));
        proof {
            if before.sound() {
                crate::ir::programmable::law_growth_keeps_definitions_sound(before, self@);
            }
        }
        Ok(RenderPipelineRef { owner, index })
    }

    /// Resolve a fixed render pipeline identity.
    ///
    /// Returns `Error::ResourceTableMismatch` for an identity of another table,
    /// or `Error::InvalidDescriptor` for one that is not defined.
    pub fn render_pipeline_ref(&self, id: RenderPipelineId) -> (r: Result<RenderPipelineRef, Error>)
        ensures
            r == self@.render_pipeline_ref(id),
    {
        match self.check_slot(id.owner, id.index, self.pipelines.len()) {
            Ok(()) => Ok(RenderPipelineRef { owner: id.owner, index: id.index }),
            Err(error) => Err(error),
        }
    }

    /// Borrow the fixed render pipeline that a reference leads to.
    pub(crate) fn borrow_render_pipeline(
        &self,
        reference: RenderPipelineRef,
    ) -> (r: Result<&RenderPipelineDesc, Error>)
        ensures
            match r {
                Ok(desc) => self@.render_pipeline(reference) == Ok::<RenderPipelineView, Error>(desc@),
                Err(error) => self@.render_pipeline(reference)
                    == Err::<RenderPipelineView, Error>(error),
            },
    {
        match self.check_slot(reference.owner, reference.index, self.pipelines.len()) {
            Ok(()) => Ok(&self.pipelines[reference.index]),
            Err(error) => Err(error),
        }
    }

    /// Return a copy of the fixed render pipeline that a reference leads to.
    ///
    /// Returns `Error::ResourceTableMismatch` for a reference into another table,
    /// or `Error::InvalidDescriptor` for one that is not defined.
    pub fn render_pipeline(
        &self,
        reference: RenderPipelineRef,
    ) -> (r: Result<RenderPipelineDesc, Error>)
        ensures
            match r {
                Ok(desc) => self@.render_pipeline(reference) == Ok::<RenderPipelineView, Error>(desc@),
                Err(error) => self@.render_pipeline(reference)
                    == Err::<RenderPipelineView, Error>(error),
            },
    {
        match self.borrow_render_pipeline(reference) {
            Ok(desc) => Ok(desc.clone()),
            Err(error) => Err(error),
        }
    }

    /// Define a shader module.
    ///
    /// Returns `Error::ResourceLimitExceeded` when the table is full, or
    /// `Error::OutOfMemory` when storage could not be reserved. On any error the
    /// table is unchanged.
    pub fn define_shader_module(
        &mut self,
        desc: ShaderModuleDesc,
    ) -> (r: Result<ShaderModuleRef, Error>)
        ensures
            final(self).memory() == old(self).memory(),
            r is Ok ==> old(self).memory().may(true),
            match r {
                Ok(reference) => old(self)@.shader_modules.len() < MAX_SHADER_MODULES && reference@
                    == (Slot {
                    owner: old(self)@.id,
                    index: old(self)@.shader_modules.len() as usize,
                }) && final(self)@ == (TableView {
                    shader_modules: old(self)@.shader_modules.push(desc@),
                    ..old(self)@
                }),
                Err(error) => final(self)@ == old(self)@ && error
                    == (if old(self)@.shader_modules.len() >= MAX_SHADER_MODULES {
                    Error::ResourceLimitExceeded
                } else {
                    Error::OutOfMemory
                }) && (old(self)@.shader_modules.len() < MAX_SHADER_MODULES ==> old(self).memory().may(false)),
            },
            r matches Ok(reference) ==> final(self)@.shader_module(reference)
                == Ok::<ShaderModuleView, Error>(desc@),
            final(self)@.extends(old(self)@),
            old(self)@.bounded() ==> final(self)@.bounded(),
            old(self)@.sound() ==> final(self)@.sound(),
    {
        let owner: usize = self.id;
        let memory: Memory = self.memory;
        let ghost before = self@;
        let index: usize = match push(&mut self.shader_modules, desc, MAX_SHADER_MODULES, memory) {
            Ok(index) => index,
            Err(error) => {
                assert(self@ =~= before);
                return Err(error);
            },
        };
        assert(self@.shader_modules =~= before.shader_modules.push(desc@));
        assert(
            self@ =~= (TableView { shader_modules: before.shader_modules.push(desc@), ..before })
        );
        proof {
            if before.sound() {
                crate::ir::programmable::law_growth_keeps_definitions_sound(before, self@);
            }
        }
        Ok(ShaderModuleRef { owner, index })
    }

    /// Resolve a shader module identity.
    ///
    /// Returns `Error::ResourceTableMismatch` for an identity of another table,
    /// or `Error::InvalidDescriptor` for one that is not defined.
    pub fn shader_module_ref(&self, id: ShaderModuleId) -> (r: Result<ShaderModuleRef, Error>)
        ensures
            r == self@.shader_module_ref(id),
    {
        match self.check_slot(id.owner, id.index, self.shader_modules.len()) {
            Ok(()) => Ok(ShaderModuleRef { owner: id.owner, index: id.index }),
            Err(error) => Err(error),
        }
    }

    /// Borrow the shader module that a reference leads to.
    pub(crate) fn borrow_shader_module(
        &self,
        reference: ShaderModuleRef,
    ) -> (r: Result<&ShaderModuleDesc, Error>)
        ensures
            match r {
                Ok(desc) => self@.shader_module(reference) == Ok::<ShaderModuleView, Error>(desc@),
                Err(error) => self@.shader_module(reference) == Err::<ShaderModuleView, Error>(error),
            },
    {
        match self.check_slot(reference.owner, reference.index, self.shader_modules.len()) {
            Ok(()) => Ok(&self.shader_modules[reference.index]),
            Err(error) => Err(error),
        }
    }

    /// Return a copy of the shader module that a reference leads to.
    ///
    /// Returns `Error::ResourceTableMismatch` for a reference into another table,
    /// or `Error::InvalidDescriptor` for one that is not defined.
    pub fn shader_module(&self, reference: ShaderModuleRef) -> (r: Result<ShaderModuleDesc, Error>)
        ensures
            match r {
                Ok(desc) => self@.shader_module(reference) == Ok::<ShaderModuleView, Error>(desc@),
                Err(error) => self@.shader_module(reference) == Err::<ShaderModuleView, Error>(error),
            },
    {
        match self.borrow_shader_module(reference) {
            Ok(desc) => Ok(desc.clone()),
            Err(error) => Err(error),
        }
    }

    /// Define a bind group. The bindings are validated against this table first.
    ///
    /// Returns `Error::ResourceLimitExceeded` when the table is full, or
    /// `Error::OutOfMemory` when storage could not be reserved. On any error the
    /// table is unchanged.
    pub fn define_bind_group(&mut self, desc: BindGroupDesc) -> (r: Result<BindGroupRef, Error>)
        ensures
            final(self).memory() == old(self).memory(),
            r is Ok ==> old(self).memory().may(true),
            match r {
                Ok(reference) => desc@.check(old(self)@) == Ok::<(), Error>(())
                    && old(self)@.bind_groups.len() < MAX_BIND_GROUP_DEFINITIONS && reference@
                    == (Slot {
                    owner: old(self)@.id,
                    index: old(self)@.bind_groups.len() as usize,
                }) && final(self)@ == (TableView {
                    bind_groups: old(self)@.bind_groups.push(desc@),
                    ..old(self)@
                }),
                Err(error) => final(self)@ == old(self)@ && match desc@.check(old(self)@) {
                    Err(refused) => error == refused,
                    Ok(_) => error == (if old(self)@.bind_groups.len() >= MAX_BIND_GROUP_DEFINITIONS {
                        Error::ResourceLimitExceeded
                    } else {
                        Error::OutOfMemory
                    }) && (old(self)@.bind_groups.len() < MAX_BIND_GROUP_DEFINITIONS
                        ==> old(self).memory().may(false)),
                },
            },
            r matches Ok(reference) ==> final(self)@.bind_group(reference)
                == Ok::<BindGroupView, Error>(desc@),
            final(self)@.extends(old(self)@),
            old(self)@.bounded() ==> final(self)@.bounded(),
            old(self)@.sound() ==> final(self)@.sound(),
    {
        match desc.validate(self) {
            Ok(()) => {},
            Err(error) => return Err(error),
        }
        let owner: usize = self.id;
        let memory: Memory = self.memory;
        let ghost before = self@;
        let index: usize = match push(
            &mut self.bind_groups,
            Rc::new(desc),
            MAX_BIND_GROUP_DEFINITIONS,
            memory,
        ) {
            Ok(index) => index,
            Err(error) => {
                assert(self@ =~= before);
                return Err(error);
            },
        };
        assert(self@.bind_groups =~= before.bind_groups.push(desc@));
        assert(self@ =~= (TableView { bind_groups: before.bind_groups.push(desc@), ..before }));
        proof {
            if before.sound() {
                crate::ir::programmable::law_growth_keeps_definitions_sound(before, self@);
                crate::ir::programmable::law_bind_groups_stay_valid(desc@, before, self@);
            }
        }
        Ok(BindGroupRef { owner, index })
    }

    /// Resolve a bind group identity.
    ///
    /// Returns `Error::ResourceTableMismatch` for an identity of another table,
    /// or `Error::InvalidDescriptor` for one that is not defined.
    pub fn bind_group_ref(&self, id: BindGroupId) -> (r: Result<BindGroupRef, Error>)
        ensures
            r == self@.bind_group_ref(id),
    {
        match self.check_slot(id.owner, id.index, self.bind_groups.len()) {
            Ok(()) => Ok(BindGroupRef { owner: id.owner, index: id.index }),
            Err(error) => Err(error),
        }
    }

    /// Return the shared bind group that a reference leads to.
    ///
    /// Returns `Error::ResourceTableMismatch` for a reference into another table,
    /// or `Error::InvalidDescriptor` for one that is not defined.
    pub fn bind_group_shared(
        &self,
        reference: BindGroupRef,
    ) -> (r: Result<Rc<BindGroupDesc>, Error>)
        ensures
            match r {
                Ok(desc) => self@.bind_group(reference) == Ok::<BindGroupView, Error>(desc@),
                Err(error) => self@.bind_group(reference) == Err::<BindGroupView, Error>(error),
            },
    {
        match self.check_slot(reference.owner, reference.index, self.bind_groups.len()) {
            Ok(()) => Ok(Rc::clone(&self.bind_groups[reference.index])),
            Err(error) => Err(error),
        }
    }

    /// Borrow the bind group that a reference leads to.
    pub(crate) fn borrow_bind_group(
        &self,
        reference: BindGroupRef,
    ) -> (r: Result<&BindGroupDesc, Error>)
        ensures
            match r {
                Ok(desc) => self@.bind_group(reference) == Ok::<BindGroupView, Error>(desc@),
                Err(error) => self@.bind_group(reference) == Err::<BindGroupView, Error>(error),
            },
    {
        match self.check_slot(reference.owner, reference.index, self.bind_groups.len()) {
            Ok(()) => Ok(&*self.bind_groups[reference.index]),
            Err(error) => Err(error),
        }
    }

    /// Return a copy of the bind group that a reference leads to.
    ///
    /// Returns `Error::ResourceTableMismatch` for a reference into another table,
    /// or `Error::InvalidDescriptor` for one that is not defined.
    pub fn bind_group(&self, reference: BindGroupRef) -> (r: Result<BindGroupDesc, Error>)
        ensures
            match r {
                Ok(desc) => self@.bind_group(reference) == Ok::<BindGroupView, Error>(desc@),
                Err(error) => self@.bind_group(reference) == Err::<BindGroupView, Error>(error),
            },
    {
        match self.borrow_bind_group(reference) {
            Ok(desc) => Ok(desc.clone()),
            Err(error) => Err(error),
        }
    }

    /// Define a compute pipeline. The shader module must belong to this table.
    ///
    /// Returns `Error::ResourceLimitExceeded` when the table is full, or
    /// `Error::OutOfMemory` when storage could not be reserved. On any error the
    /// table is unchanged.
    pub fn define_compute_pipeline(
        &mut self,
        desc: ComputePipelineDesc,
    ) -> (r: Result<ComputePipelineRef, Error>)
        ensures
            final(self).memory() == old(self).memory(),
            r is Ok ==> old(self).memory().may(true),
            match r {
                Ok(reference) => outcome(
                    old(self)@.shader_module_ref(desc@.shader.module),
                ) == Ok::<(), Error>(())
                    && old(self)@.compute_pipelines.len() < MAX_COMPUTE_PIPELINES && reference@
                    == (Slot {
                    owner: old(self)@.id,
                    index: old(self)@.compute_pipelines.len() as usize,
                }) && final(self)@ == (TableView {
                    compute_pipelines: old(self)@.compute_pipelines.push(desc@),
                    ..old(self)@
                }),
                Err(error) => final(self)@ == old(self)@ && match outcome(
                    old(self)@.shader_module_ref(desc@.shader.module),
                ) {
                    Err(refused) => error == refused,
                    Ok(_) => error == (if old(self)@.compute_pipelines.len() >= MAX_COMPUTE_PIPELINES {
                        Error::ResourceLimitExceeded
                    } else {
                        Error::OutOfMemory
                    }) && (old(self)@.compute_pipelines.len() < MAX_COMPUTE_PIPELINES
                        ==> old(self).memory().may(false)),
                },
            },
            r matches Ok(reference) ==> final(self)@.compute_pipeline(reference)
                == Ok::<ComputePipelineView, Error>(desc@),
            final(self)@.extends(old(self)@),
            old(self)@.bounded() ==> final(self)@.bounded(),
            old(self)@.sound() ==> final(self)@.sound(),
    {
        match self.shader_module_ref(desc.shader().module()) {
            Ok(_) => {},
            Err(error) => return Err(error),
        }
        let owner: usize = self.id;
        let memory: Memory = self.memory;
        let ghost before = self@;
        let index: usize = match push(&mut self.compute_pipelines, desc, MAX_COMPUTE_PIPELINES, memory) {
            Ok(index) => index,
            Err(error) => {
                assert(self@ =~= before);
                return Err(error);
            },
        };
        assert(self@.compute_pipelines =~= before.compute_pipelines.push(desc@));
        assert(
            self@ =~= (TableView { compute_pipelines: before.compute_pipelines.push(desc@), ..before })
        );
        proof {
            if before.sound() {
                crate::ir::programmable::law_growth_keeps_definitions_sound(before, self@);
                law_growth_keeps_definitions(before, self@);
            }
        }
        Ok(ComputePipelineRef { owner, index })
    }

    /// Resolve a compute pipeline identity.
    ///
    /// Returns `Error::ResourceTableMismatch` for an identity of another table,
    /// or `Error::InvalidDescriptor` for one that is not defined.
    pub fn compute_pipeline_ref(
        &self,
        id: ComputePipelineId,
    ) -> (r: Result<ComputePipelineRef, Error>)
        ensures
            r == self@.compute_pipeline_ref(id),
    {
        match self.check_slot(id.owner, id.index, self.compute_pipelines.len()) {
            Ok(()) => Ok(ComputePipelineRef { owner: id.owner, index: id.index }),
            Err(error) => Err(error),
        }
    }

    /// Borrow the compute pipeline that a reference leads to.
    pub(crate) fn borrow_compute_pipeline(
        &self,
        reference: ComputePipelineRef,
    ) -> (r: Result<&ComputePipelineDesc, Error>)
        ensures
            match r {
                Ok(desc) => self@.compute_pipeline(reference)
                    == Ok::<ComputePipelineView, Error>(desc@),
                Err(error) => self@.compute_pipeline(reference)
                    == Err::<ComputePipelineView, Error>(error),
            },
    {
        match self.check_slot(reference.owner, reference.index, self.compute_pipelines.len()) {
            Ok(()) => Ok(&self.compute_pipelines[reference.index]),
            Err(error) => Err(error),
        }
    }

    /// Return a copy of the compute pipeline that a reference leads to.
    ///
    /// Returns `Error::ResourceTableMismatch` for a reference into another table,
    /// or `Error::InvalidDescriptor` for one that is not defined.
    pub fn compute_pipeline(
        &self,
        reference: ComputePipelineRef,
    ) -> (r: Result<ComputePipelineDesc, Error>)
        ensures
            match r {
                Ok(desc) => self@.compute_pipeline(reference)
                    == Ok::<ComputePipelineView, Error>(desc@),
                Err(error) => self@.compute_pipeline(reference)
                    == Err::<ComputePipelineView, Error>(error),
            },
    {
        match self.borrow_compute_pipeline(reference) {
            Ok(desc) => Ok(desc.clone()),
            Err(error) => Err(error),
        }
    }

    /// Define a programmable render pipeline. The shader modules must belong to this table.
    ///
    /// Returns `Error::ResourceLimitExceeded` when the table is full, or
    /// `Error::OutOfMemory` when storage could not be reserved. On any error the
    /// table is unchanged.
    pub fn define_programmable_render_pipeline(
        &mut self,
        desc: ProgrammableRenderPipelineDesc,
    ) -> (r: Result<ProgrammableRenderPipelineRef, Error>)
        ensures
            final(self).memory() == old(self).memory(),
            r is Ok ==> old(self).memory().may(true),
            match r {
                Ok(reference) => first_failure(
                outcome(old(self)@.shader_module_ref(desc@.vertex.module)),
                outcome(old(self)@.shader_module_ref(desc@.fragment.module)),
            ) == Ok::<(), Error>(())
                && old(self)@.programmable_pipelines.len() < MAX_PROGRAMMABLE_PIPELINES
                && reference@ == (Slot {
                    owner: old(self)@.id,
                    index: old(self)@.programmable_pipelines.len() as usize,
                }) && final(self)@ == (TableView {
                    programmable_pipelines: old(self)@.programmable_pipelines.push(desc@),
                    ..old(self)@
                }),
                Err(error) => final(self)@ == old(self)@ && match first_failure(
                outcome(old(self)@.shader_module_ref(desc@.vertex.module)),
                outcome(old(self)@.shader_module_ref(desc@.fragment.module)),
            ) {
                    Err(refused) => error == refused,
                    Ok(_) => error
                        == (if old(self)@.programmable_pipelines.len() >= MAX_PROGRAMMABLE_PIPELINES {
                        Error::ResourceLimitExceeded
                    } else {
                        Error::OutOfMemory
                    }) && (old(self)@.programmable_pipelines.len() < MAX_PROGRAMMABLE_PIPELINES
                        ==> old(self).memory().may(false)),
                },
            },
            r matches Ok(reference) ==> final(self)@.programmable_render_pipeline(reference)
                == Ok::<ProgrammablePipelineView, Error>(desc@),
            final(self)@.extends(old(self)@),
            old(self)@.bounded() ==> final(self)@.bounded(),
            old(self)@.sound() ==> final(self)@.sound(),
    {
        match self.shader_module_ref(desc.vertex().module()) {
            Ok(_) => {},
            Err(error) => return Err(error),
        }
        match self.shader_module_ref(desc.fragment().module()) {
            Ok(_) => {},
            Err(error) => return Err(error),
        }
        let owner: usize = self.id;
        let memory: Memory = self.memory;
        let ghost before = self@;
        let index: usize = match push(
            &mut self.programmable_pipelines,
            Rc::new(desc),
            MAX_PROGRAMMABLE_PIPELINES,
            memory,
        ) {
            Ok(index) => index,
            Err(error) => {
                assert(self@ =~= before);
                return Err(error);
            },
        };
        assert(self@.programmable_pipelines =~= before.programmable_pipelines.push(desc@));
        assert(
            self@ =~= (TableView { programmable_pipelines: before.programmable_pipelines.push(desc@), ..before })
        );
        proof {
            if before.sound() {
                crate::ir::programmable::law_growth_keeps_definitions_sound(before, self@);
                law_growth_keeps_definitions(before, self@);
            }
        }
        Ok(ProgrammableRenderPipelineRef { owner, index })
    }

    /// Resolve a programmable render pipeline identity.
    ///
    /// Returns `Error::ResourceTableMismatch` for an identity of another table,
    /// or `Error::InvalidDescriptor` for one that is not defined.
    pub fn programmable_render_pipeline_ref(
        &self,
        id: ProgrammableRenderPipelineId,
    ) -> (r: Result<ProgrammableRenderPipelineRef, Error>)
        ensures
            r == self@.programmable_render_pipeline_ref(id),
    {
        match self.check_slot(id.owner, id.index, self.programmable_pipelines.len()) {
            Ok(()) => Ok(ProgrammableRenderPipelineRef { owner: id.owner, index: id.index }),
            Err(error) => Err(error),
        }
    }

    /// Return the shared programmable render pipeline that a reference leads to.
    ///
    /// Returns `Error::ResourceTableMismatch` for a reference into another table,
    /// or `Error::InvalidDescriptor` for one that is not defined.
    pub fn programmable_render_pipeline_shared(
        &self,
        reference: ProgrammableRenderPipelineRef,
    ) -> (r: Result<Rc<ProgrammableRenderPipelineDesc>, Error>)
        ensures
            match r {
                Ok(desc) => self@.programmable_render_pipeline(reference)
                    == Ok::<ProgrammablePipelineView, Error>(desc@),
                Err(error) => self@.programmable_render_pipeline(reference)
                    == Err::<ProgrammablePipelineView, Error>(error),
            },
    {
        match self.check_slot(reference.owner, reference.index, self.programmable_pipelines.len()) {
            Ok(()) => Ok(Rc::clone(&self.programmable_pipelines[reference.index])),
            Err(error) => Err(error),
        }
    }

    /// Borrow the programmable render pipeline that a reference leads to.
    pub(crate) fn borrow_programmable_render_pipeline(
        &self,
        reference: ProgrammableRenderPipelineRef,
    ) -> (r: Result<&ProgrammableRenderPipelineDesc, Error>)
        ensures
            match r {
                Ok(desc) => self@.programmable_render_pipeline(reference)
                    == Ok::<ProgrammablePipelineView, Error>(desc@),
                Err(error) => self@.programmable_render_pipeline(reference)
                    == Err::<ProgrammablePipelineView, Error>(error),
            },
    {
        match self.check_slot(reference.owner, reference.index, self.programmable_pipelines.len()) {
            Ok(()) => Ok(&*self.programmable_pipelines[reference.index]),
            Err(error) => Err(error),
        }
    }

    /// Return a copy of the programmable render pipeline that a reference leads to.
    ///
    /// Returns `Error::ResourceTableMismatch` for a reference into another table,
    /// or `Error::InvalidDescriptor` for one that is not defined.
    pub fn programmable_render_pipeline(
        &self,
        reference: ProgrammableRenderPipelineRef,
    ) -> (r: Result<ProgrammableRenderPipelineDesc, Error>)
        ensures
            match r {
                Ok(desc) => self@.programmable_render_pipeline(reference)
                    == Ok::<ProgrammablePipelineView, Error>(desc@),
                Err(error) => self@.programmable_render_pipeline(reference)
                    == Err::<ProgrammablePipelineView, Error>(error),
            },
    {
        match self.borrow_programmable_render_pipeline(reference) {
            Ok(desc) => Ok(desc.clone()),
            Err(error) => Err(error),
        }
    }

    /// Return whether two references lead to the same texture of this table.
    ///
    /// Fails as `texture` does when either does not resolve.
    pub fn same_texture(&self, left: TextureRef, right: TextureRef) -> (r: Result<bool, Error>)
        ensures
            r == self@.same_texture(left, right),
    {
        match self.texture(left) {
            Ok(_) => {},
            Err(error) => return Err(error),
        }
        match self.texture(right) {
            Ok(_) => {},
            Err(error) => return Err(error),
        }
        Ok(left.index == right.index)
    }
}

impl TableView {
    /// Whether two references lead to the same texture.
    pub open spec fn same_texture(self, left: TextureRef, right: TextureRef) -> Result<
        bool,
        Error,
    > {
        match first_failure(outcome(self.texture(left)), outcome(self.texture(right))) {
            Ok(_) => Ok(left@.index == right@.index),
            Err(error) => Err(error),
        }
    }
}

/// The first of two outcomes that failed.
pub open spec fn first_failure(first: Result<(), Error>, second: Result<(), Error>) -> Result<
    (),
    Error,
> {
    match first {
        Ok(_) => second,
        Err(error) => Err(error),
    }
}

/// A table that grows keeps every definition: what a reference led to or an
/// identity resolved to before, it still does.
pub proof fn law_growth_keeps_definitions(earlier: TableView, later: TableView)
    requires
        later.extends(earlier),
    ensures
        forall|reference: TextureRef| (#[trigger] earlier.texture(reference)) is Ok
            ==> later.texture(reference)
            == earlier.texture(reference),
        forall|id: TextureId| (#[trigger] earlier.texture_ref(id)) is Ok ==> later.texture_ref(id)
            == earlier.texture_ref(id),
        forall|reference: BufferRef| (#[trigger] earlier.buffer(reference)) is Ok
            ==> later.buffer(reference)
            == earlier.buffer(reference),
        forall|id: BufferId| (#[trigger] earlier.buffer_ref(id)) is Ok ==> later.buffer_ref(id)
            == earlier.buffer_ref(id),
        forall|reference: SamplerRef| (#[trigger] earlier.sampler(reference)) is Ok
            ==> later.sampler(reference)
            == earlier.sampler(reference),
        forall|id: SamplerId| (#[trigger] earlier.sampler_ref(id)) is Ok ==> later.sampler_ref(id)
            == earlier.sampler_ref(id),
        forall|reference: RenderPipelineRef| (#[trigger] earlier.render_pipeline(reference)) is Ok
            ==> later.render_pipeline(reference)
            == earlier.render_pipeline(reference),
        forall|id: RenderPipelineId| (#[trigger] earlier.render_pipeline_ref(id)) is Ok
            ==> later.render_pipeline_ref(id)
            == earlier.render_pipeline_ref(id),
        forall|reference: ShaderModuleRef| (#[trigger] earlier.shader_module(reference)) is Ok
            ==> later.shader_module(reference)
            == earlier.shader_module(reference),
        forall|id: ShaderModuleId| (#[trigger] earlier.shader_module_ref(id)) is Ok
            ==> later.shader_module_ref(id)
            == earlier.shader_module_ref(id),
        forall|reference: BindGroupRef| (#[trigger] earlier.bind_group(reference)) is Ok
            ==> later.bind_group(reference)
            == earlier.bind_group(reference),
        forall|id: BindGroupId| (#[trigger] earlier.bind_group_ref(id)) is Ok
            ==> later.bind_group_ref(id)
            == earlier.bind_group_ref(id),
        forall|reference: ComputePipelineRef|
            (#[trigger] earlier.compute_pipeline(reference)) is Ok
                ==> later.compute_pipeline(reference)
            == earlier.compute_pipeline(reference),
        forall|id: ComputePipelineId| (#[trigger] earlier.compute_pipeline_ref(id)) is Ok
            ==> later.compute_pipeline_ref(id)
            == earlier.compute_pipeline_ref(id),
        forall|reference: ProgrammableRenderPipelineRef|
            (#[trigger] earlier.programmable_render_pipeline(reference)) is Ok
                ==> later.programmable_render_pipeline(reference)
            == earlier.programmable_render_pipeline(reference),
        forall|id: ProgrammableRenderPipelineId|
            (#[trigger] earlier.programmable_render_pipeline_ref(id)) is Ok
                ==> later.programmable_render_pipeline_ref(id)
            == earlier.programmable_render_pipeline_ref(id),
{
}

/// Growth is reflexive and composes.
pub proof fn law_growth_composes(first: TableView, second: TableView, third: TableView)
    ensures
        first.extends(first),
        third.extends(second) && second.extends(first) ==> third.extends(first),
{
}

/// The identity of a reference that leads somewhere resolves to that reference.
pub proof fn law_identities_round_trip(table: TableView)
    ensures
        forall|reference: TextureRef| (#[trigger] table.texture(reference)) is Ok ==> table.texture_ref(
            reference.id(),
        ) == Ok::<TextureRef, Error>(reference),
        forall|reference: BufferRef| (#[trigger] table.buffer(reference)) is Ok ==> table.buffer_ref(
            reference.id(),
        ) == Ok::<BufferRef, Error>(reference),
        forall|reference: SamplerRef| (#[trigger] table.sampler(reference)) is Ok ==> table.sampler_ref(
            reference.id(),
        ) == Ok::<SamplerRef, Error>(reference),
        forall|reference: RenderPipelineRef| (#[trigger] table.render_pipeline(reference)) is Ok
            ==> table.render_pipeline_ref(
            reference.id(),
        ) == Ok::<RenderPipelineRef, Error>(reference),
        forall|reference: ShaderModuleRef| (#[trigger] table.shader_module(reference)) is Ok
            ==> table.shader_module_ref(
            reference.id(),
        ) == Ok::<ShaderModuleRef, Error>(reference),
        forall|reference: BindGroupRef| (#[trigger] table.bind_group(reference)) is Ok
            ==> table.bind_group_ref(
            reference.id(),
        ) == Ok::<BindGroupRef, Error>(reference),
        forall|reference: ComputePipelineRef| (#[trigger] table.compute_pipeline(reference)) is Ok
            ==> table.compute_pipeline_ref(
            reference.id(),
        ) == Ok::<ComputePipelineRef, Error>(reference),
        forall|reference: ProgrammableRenderPipelineRef|
            (#[trigger] table.programmable_render_pipeline(reference)) is Ok
                ==> table.programmable_render_pipeline_ref(
            reference.id(),
        ) == Ok::<ProgrammableRenderPipelineRef, Error>(reference),
{
}

/// No table resolves a reference or an identity of another one.
pub proof fn law_foreign_definitions_are_refused(table: TableView)
    ensures
        forall|reference: TextureRef|
            reference@.owner != table.id ==> (#[trigger] table.texture(reference))
                == Err::<TextureDesc, Error>(Error::ResourceTableMismatch),
        forall|id: TextureId|
            id@.owner != table.id ==> (#[trigger] table.texture_ref(id)) == Err::<TextureRef, Error>(
                Error::ResourceTableMismatch,
            ),
        forall|reference: BufferRef|
            reference@.owner != table.id ==> (#[trigger] table.buffer(reference))
                == Err::<BufferDesc, Error>(Error::ResourceTableMismatch),
        forall|id: BufferId|
            id@.owner != table.id ==> (#[trigger] table.buffer_ref(id)) == Err::<BufferRef, Error>(
                Error::ResourceTableMismatch,
            ),
        forall|reference: SamplerRef|
            reference@.owner != table.id ==> (#[trigger] table.sampler(reference))
                == Err::<SamplerDesc, Error>(Error::ResourceTableMismatch),
        forall|id: SamplerId|
            id@.owner != table.id ==> (#[trigger] table.sampler_ref(id)) == Err::<SamplerRef, Error>(
                Error::ResourceTableMismatch,
            ),
        forall|reference: RenderPipelineRef|
            reference@.owner != table.id ==> (#[trigger] table.render_pipeline(reference))
                == Err::<RenderPipelineView, Error>(Error::ResourceTableMismatch),
        forall|id: RenderPipelineId|
            id@.owner != table.id ==> (#[trigger] table.render_pipeline_ref(id))
                == Err::<RenderPipelineRef, Error>(
                Error::ResourceTableMismatch,
            ),
        forall|reference: ShaderModuleRef|
            reference@.owner != table.id ==> (#[trigger] table.shader_module(reference))
                == Err::<ShaderModuleView, Error>(Error::ResourceTableMismatch),
        forall|id: ShaderModuleId|
            id@.owner != table.id ==> (#[trigger] table.shader_module_ref(id))
                == Err::<ShaderModuleRef, Error>(
                Error::ResourceTableMismatch,
            ),
        forall|reference: BindGroupRef|
            reference@.owner != table.id ==> (#[trigger] table.bind_group(reference))
                == Err::<BindGroupView, Error>(Error::ResourceTableMismatch),
        forall|id: BindGroupId|
            id@.owner != table.id ==> (#[trigger] table.bind_group_ref(id))
                == Err::<BindGroupRef, Error>(
                Error::ResourceTableMismatch,
            ),
        forall|reference: ComputePipelineRef|
            reference@.owner != table.id ==> (#[trigger] table.compute_pipeline(reference))
                == Err::<ComputePipelineView, Error>(Error::ResourceTableMismatch),
        forall|id: ComputePipelineId|
            id@.owner != table.id ==> (#[trigger] table.compute_pipeline_ref(id))
                == Err::<ComputePipelineRef, Error>(
                Error::ResourceTableMismatch,
            ),
        forall|reference: ProgrammableRenderPipelineRef|
            reference@.owner != table.id ==> (#[trigger] table.programmable_render_pipeline(reference))
                == Err::<ProgrammablePipelineView, Error>(Error::ResourceTableMismatch),
        forall|id: ProgrammableRenderPipelineId|
            id@.owner != table.id ==> (#[trigger] table.programmable_render_pipeline_ref(id))
                == Err::<ProgrammableRenderPipelineRef, Error>(
                Error::ResourceTableMismatch,
            ),
{
}

/// References and identities correspond: of every kind, each leads back to itself
/// through the other, and both name the same slot.
pub proof fn law_references_and_identities_correspond()
    ensures
        forall|reference: TextureRef|
            (#[trigger] reference.id()).reference() == reference && reference.id()@ == reference@,
        forall|id: TextureId|
            (#[trigger] id.reference()).id() == id && id.reference()@ == id@,
        forall|reference: BufferRef|
            (#[trigger] reference.id()).reference() == reference && reference.id()@ == reference@,
        forall|id: BufferId|
            (#[trigger] id.reference()).id() == id && id.reference()@ == id@,
        forall|reference: SamplerRef|
            (#[trigger] reference.id()).reference() == reference && reference.id()@ == reference@,
        forall|id: SamplerId|
            (#[trigger] id.reference()).id() == id && id.reference()@ == id@,
        forall|reference: RenderPipelineRef|
            (#[trigger] reference.id()).reference() == reference && reference.id()@ == reference@,
        forall|id: RenderPipelineId|
            (#[trigger] id.reference()).id() == id && id.reference()@ == id@,
        forall|reference: ShaderModuleRef|
            (#[trigger] reference.id()).reference() == reference && reference.id()@ == reference@,
        forall|id: ShaderModuleId|
            (#[trigger] id.reference()).id() == id && id.reference()@ == id@,
        forall|reference: BindGroupRef|
            (#[trigger] reference.id()).reference() == reference && reference.id()@ == reference@,
        forall|id: BindGroupId|
            (#[trigger] id.reference()).id() == id && id.reference()@ == id@,
        forall|reference: ComputePipelineRef|
            (#[trigger] reference.id()).reference() == reference && reference.id()@ == reference@,
        forall|id: ComputePipelineId|
            (#[trigger] id.reference()).id() == id && id.reference()@ == id@,
        forall|reference: ProgrammableRenderPipelineRef|
            (#[trigger] reference.id()).reference() == reference && reference.id()@ == reference@,
        forall|id: ProgrammableRenderPipelineId|
            (#[trigger] id.reference()).id() == id && id.reference()@ == id@,
{
}

/// A texture reference and its identity lead back to each other.
pub proof fn lemma_texture_identity(reference: TextureRef)
    ensures
        reference.id().reference() == reference,
        reference.id()@ == reference@,
{
}

/// An identity and its reference name the same slot.
pub proof fn lemma_texture_reference(id: TextureId)
    ensures
        id.reference()@ == id@,
{
}

impl Default for ResourceTable {
    fn default() -> (r: Self)
        ensures
            r@ == TableView::empty(r@.id),
            r.memory() == Memory::System,
    {
        Self::new()
    }
}

} // verus!
