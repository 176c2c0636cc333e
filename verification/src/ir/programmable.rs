//! Programmable pipeline layouts, bindings and explicit resource access declarations.

use crate::ir::pipeline::{
    BlendState, DepthState, PrimitiveTopology, RasterState, VertexBufferLayout,
    VertexBufferLayoutView, MAX_VERTEX_ATTRIBUTES, MAX_VERTEX_BUFFERS,
};
use crate::ir::render_target::{
    ColorTargetState, ColorTargetView, ColorWriteMask, MAX_COLOR_ATTACHMENTS,
};
use crate::ir::resource::{BufferUsage, TextureFormat, TextureUsage};
use crate::ir::shader::{ShaderStage, ShaderStages};
use crate::ir::sort::{sort, Keyed};
use crate::ir::table::{
    BufferId, BufferRef, ResourceTable, SamplerId, ShaderModuleId, ShaderModuleRef, TableView,
    TextureId, TextureRef,
};
use crate::ir::texture_view::{TextureViewDesc, TextureViewDimension};
use crate::ir::types::Error;
use vstd::prelude::*;

verus! {

/// Maximum descriptor sets in a pipeline layout.
pub const MAX_BIND_GROUPS: usize = 4;

/// Maximum bindings in a descriptor set.
pub const MAX_BINDINGS_PER_GROUP: usize = 32;

/// Maximum portable push-constant byte range. Backends may expose a lower limit.
pub const MAX_PUSH_CONSTANT_BYTES: u32 = 128;

/// The fields of a push-constant range.
pub struct PushConstantRangeView {
    pub stages: ShaderStages,
    pub offset: u32,
    pub size: u32,
}

impl PushConstantRangeView {
    /// Whether there is a stage, and the bytes are some whole words.
    pub open spec fn aligned(self) -> bool {
        self.stages@ != 0 && self.size != 0 && self.offset % 4 == 0 && self.size % 4 == 0
    }

    /// First byte past the range.
    pub open spec fn end(self) -> int {
        self.offset + self.size
    }

    /// What every range keeps.
    pub open spec fn valid(self) -> bool {
        self.aligned() && self.end() <= MAX_PUSH_CONSTANT_BYTES
    }
}

/// A byte range visible to one or more shader stages.
#[derive(Debug, Clone, Copy, PartialEq, Eq, Structural)]
pub struct PushConstantRange {
    stages: ShaderStages,
    offset: u32,
    size: u32,
}

impl View for PushConstantRange {
    type V = PushConstantRangeView;

    closed spec fn view(&self) -> PushConstantRangeView {
        PushConstantRangeView { stages: self.stages, offset: self.offset, size: self.size }
    }
}

impl Keyed for PushConstantRange {
    open spec fn key(self) -> int {
        (self@.offset * 0x1_0000_0000 + self@.size) * 0x100 + self@.stages@
    }

    fn key_at_most(self, other: Self) -> (r: bool) {
        self.offset < other.offset || (self.offset == other.offset && (self.size < other.size || (
        self.size == other.size && self.stages.bits() <= other.stages.bits())))
    }
}

impl PushConstantRange {
    #[verifier::type_invariant]
    spec fn well_formed(self) -> bool {
        self@.valid()
    }

    /// Construct a non-empty, four-byte-aligned range within the portable limit.
    ///
    /// Returns `Error::InvalidDescriptor` for no stage or unaligned or no bytes,
    /// `Error::Overflow` when the end does not fit in 32 bits, or
    /// `Error::OutOfBounds` past `MAX_PUSH_CONSTANT_BYTES`.
    pub fn new(stages: ShaderStages, offset: u32, size: u32) -> (r: Result<Self, Error>)
        ensures
            ({
                let range = PushConstantRangeView { stages, offset, size };
                match r {
                    Ok(result) => result@ == range && range.valid(),
                    Err(error) => error == (if !range.aligned() {
                        Error::InvalidDescriptor
                    } else if range.end() > u32::MAX {
                        Error::Overflow
                    } else {
                        Error::OutOfBounds
                    }) && !range.valid(),
                }
            }),
    {
        if stages.is_empty() || size == 0 || offset % 4 != 0 || size % 4 != 0 {
            return Err(Error::InvalidDescriptor);
        }
        match offset.checked_add(size) {
            None => return Err(Error::Overflow),
            Some(end) => {
                if end > MAX_PUSH_CONSTANT_BYTES {
                    return Err(Error::OutOfBounds);
                }
            },
        }
        Ok(Self { stages, offset, size })
    }

    /// Return the shader stages consuming the range.
    pub fn stages(self) -> (r: ShaderStages)
        ensures
            r == self@.stages,
    {
        self.stages
    }

    /// Return the first byte in the stage's push-constant block.
    pub fn offset(self) -> (r: u32)
        ensures
            r == self@.offset,
    {
        self.offset
    }

    /// Return the non-zero number of bytes. The range is valid.
    pub fn size(self) -> (r: u32)
        ensures
            r == self@.size,
            self@.valid(),
    {
        proof {
            use_type_invariant(&self);
        }
        self.size
    }
}

/// Module, stage and name of a selected entry point.
#[verifier::ext_equal]
pub struct ShaderEntryPointView {
    pub module: ShaderModuleId,
    pub stage: ShaderStage,
    pub entry_point: Seq<char>,
}

/// A shader module and a stage-specific entry point.
#[derive(Debug, PartialEq, Eq)]
pub struct ShaderEntryPoint {
    module: ShaderModuleId,
    stage: ShaderStage,
    entry_point: String,
}

impl View for ShaderEntryPoint {
    type V = ShaderEntryPointView;

    closed spec fn view(&self) -> ShaderEntryPointView {
        ShaderEntryPointView {
            module: self.module,
            stage: self.stage,
            entry_point: self.entry_point@,
        }
    }
}

impl Clone for ShaderEntryPoint {
    fn clone(&self) -> (r: Self)
        ensures
            r@ == self@,
    {
        Self { module: self.module, stage: self.stage, entry_point: self.entry_point.clone() }
    }
}

impl ShaderEntryPoint {
    /// Select an entry point of a module in a table; SPIR-V entry point existence
    /// and stage are checked here.
    ///
    /// Fails as looking up the module does, and with `Error::InvalidDescriptor`
    /// when the module has no such entry point.
    pub fn new(
        resources: &ResourceTable,
        module: ShaderModuleRef,
        stage: ShaderStage,
        entry_point: String,
    ) -> (r: Result<Self, Error>)
        ensures
            match resources@.shader_module(module) {
                Err(error) => r == Err::<Self, Error>(error),
                Ok(desc) => match r {
                    Ok(point) => desc.has_entry_point(stage, entry_point@) && point@ == (
                    ShaderEntryPointView {
                        module: module.id(),
                        stage,
                        entry_point: entry_point@,
                    }),
                    Err(error) => error == Error::InvalidDescriptor && !desc.has_entry_point(
                        stage,
                        entry_point@,
                    ),
                },
            },
    {
        match resources.borrow_shader_module(module) {
            Ok(desc) => {
                if !desc.has_entry_point(stage, entry_point.as_str()) {
                    return Err(Error::InvalidDescriptor);
                }
            },
            Err(error) => return Err(error),
        }
        Ok(Self { module: module.id(), stage, entry_point })
    }

    /// Return the owning module's persistent identity.
    pub fn module(&self) -> (r: ShaderModuleId)
        ensures
            r == self@.module,
    {
        self.module
    }

    /// Return the selected stage.
    pub fn stage(&self) -> (r: ShaderStage)
        ensures
            r == self@.stage,
    {
        self.stage
    }

    /// Return the shader entry point name.
    pub fn entry_point(&self) -> (r: &str)
        ensures
            r@ == self@.entry_point,
    {
        self.entry_point.as_str()
    }
}

/// Supported storage texture access. This subset admits write-only RGBA8 images.
#[derive(Debug, Clone, Copy, PartialEq, Eq, Structural)]
pub enum StorageTextureAccess {
    /// Store texels without reading the image.
    WriteOnly,
}

/// Resource type declared at a shader binding.
#[derive(Debug, Clone, Copy, PartialEq, Eq, Structural)]
pub enum BindingType {
    /// Read-only uniform bytes.
    UniformBuffer,
    /// Structured shader storage bytes.
    StorageBuffer {
        /// Whether writes through this binding are forbidden.
        read_only: bool,
    },
    /// A filterable, single-sampled 2D color texture.
    SampledTexture,
    /// A typed, single-sampled view into a texture allocation.
    SampledTextureView {
        /// Coordinate interpretation expected by the shader.
        dimension: TextureViewDimension,
        /// Whether the shader expects depth rather than color samples.
        depth: bool,
    },
    /// A filtering sampler.
    Sampler,
    /// A sampler that compares a supplied reference against sampled depth.
    ComparisonSampler,
    /// A single-mip 2D storage texture.
    StorageTexture {
        /// Texel format.
        format: TextureFormat,
        /// Shader access.
        access: StorageTextureAccess,
    },
}

/// One binding number and its stage visibility.
#[derive(Debug, Clone, Copy, PartialEq, Eq, Structural)]
pub struct BindGroupLayoutEntry {
    /// Binding number.
    pub binding: u32,
    /// Shader stage visibility.
    pub visibility: ShaderStages,
    /// Required resource type.
    pub ty: BindingType,
}

impl BindGroupLayoutEntry {
    /// Describe one shader binding. The enclosing layout validates it.
    pub fn new(binding: u32, visibility: ShaderStages, ty: BindingType) -> (r: Self)
        ensures
            r == (Self { binding, visibility, ty }),
    {
        Self { binding, visibility, ty }
    }

    /// Return the binding number.
    pub fn binding(self) -> (r: u32)
        ensures
            r == self.binding,
    {
        self.binding
    }

    /// Return the shader stage visibility.
    pub fn visibility(self) -> (r: ShaderStages)
        ensures
            r == self.visibility,
    {
        self.visibility
    }

    /// Return the required resource type.
    pub fn ty(self) -> (r: BindingType)
        ensures
            r == self.ty,
    {
        self.ty
    }
}

impl Keyed for BindGroupLayoutEntry {
    open spec fn key(self) -> int {
        self.binding as int
    }

    fn key_at_most(self, other: Self) -> (r: bool) {
        self.binding <= other.binding
    }
}

/// Whether one layout entry is acceptable by itself.
pub open spec fn layout_entry_valid(entry: BindGroupLayoutEntry) -> bool {
    &&& entry.binding < MAX_BINDINGS_PER_GROUP
    &&& entry.visibility@ != 0
    &&& entry.ty matches BindingType::StorageTexture { format, .. } ==> format
        == TextureFormat::Rgba8Unorm
}

/// Whether entries form a layout: bounded, each acceptable, no binding number twice.
pub open spec fn layout_entries_valid(entries: Seq<BindGroupLayoutEntry>) -> bool {
    &&& entries.len() <= MAX_BINDINGS_PER_GROUP
    &&& forall|i: int| 0 <= i < entries.len() ==> layout_entry_valid(#[trigger] entries[i])
    &&& forall|i: int, j: int|
        0 <= i < j < entries.len() ==> (#[trigger] entries[i]).binding != (
        #[trigger] entries[j]).binding
}

/// Whether binding numbers strictly increase.
pub open spec fn bindings_increase(entries: Seq<BindGroupLayoutEntry>) -> bool {
    forall|i: int, j: int|
        0 <= i < j < entries.len() ==> (#[trigger] entries[i]).binding < (
        #[trigger] entries[j]).binding
}

/// Rearranging entries does not change whether they form a layout.
proof fn lemma_layout_validity_ignores_order(
    a: Seq<BindGroupLayoutEntry>,
    b: Seq<BindGroupLayoutEntry>,
)
    requires
        a.to_multiset() == b.to_multiset(),
        layout_entries_valid(a),
    ensures
        layout_entries_valid(b),
{
    broadcast use vstd::seq_lib::group_to_multiset_ensures;

    vstd::seq_lib::to_multiset_len(a);
    vstd::seq_lib::to_multiset_len(b);
    assert forall|i: int| 0 <= i < b.len() implies layout_entry_valid(#[trigger] b[i]) by {
        assert(b.contains(b[i]));
        vstd::seq_lib::to_multiset_contains(a, b[i]);
        vstd::seq_lib::to_multiset_contains(b, b[i]);
    }
    assert(a.no_duplicates());
    assert(b.no_duplicates()) by {
        a.lemma_multiset_has_no_duplicates();
        b.lemma_multiset_has_no_duplicates_conv();
    }
    assert forall|i: int, j: int| 0 <= i < j < b.len() implies (#[trigger] b[i]).binding != (
    #[trigger] b[j]).binding by {
        assert(b.contains(b[i]) && b.contains(b[j]));
        vstd::seq_lib::to_multiset_contains(a, b[i]);
        vstd::seq_lib::to_multiset_contains(b, b[i]);
        vstd::seq_lib::to_multiset_contains(a, b[j]);
        vstd::seq_lib::to_multiset_contains(b, b[j]);
        let p = choose|p: int| 0 <= p < a.len() && a[p] == b[i];
        let q = choose|q: int| 0 <= q < a.len() && a[q] == b[j];
        if p < q {
            assert(a[p].binding != a[q].binding);
        } else if q < p {
            assert(a[q].binding != a[p].binding);
        }
    }
}

/// Canonically ordered immutable descriptor-set layout.
#[derive(Debug, PartialEq, Eq)]
pub struct BindGroupLayoutDesc {
    entries: Vec<BindGroupLayoutEntry>,
}

impl View for BindGroupLayoutDesc {
    type V = Seq<BindGroupLayoutEntry>;

    closed spec fn view(&self) -> Seq<BindGroupLayoutEntry> {
        self.entries@
    }
}

impl Clone for BindGroupLayoutDesc {
    fn clone(&self) -> (r: Self)
        ensures
            r@ == self@,
    {
        proof {
            use_type_invariant(self);
        }
        let entries = vstd::slice::slice_to_vec(self.entries.as_slice());
        assert(entries@ =~= self.entries@);
        Self { entries }
    }
}

impl BindGroupLayoutDesc {
    #[verifier::type_invariant]
    spec fn well_formed(self) -> bool {
        layout_entries_valid(self.entries@) && bindings_increase(self.entries@)
    }

    /// Construct a bounded layout with unique binding numbers and non-empty visibility.
    ///
    /// The entries are put in the order of their binding numbers. Returns
    /// `Error::InvalidDescriptor` when they do not form a layout.
    pub fn new(entries: Vec<BindGroupLayoutEntry>) -> (r: Result<Self, Error>)
        ensures
            match r {
                Ok(layout) => layout_entries_valid(entries@) && bindings_increase(layout@)
                    && layout@.to_multiset() == entries@.to_multiset(),
                Err(error) => error == Error::InvalidDescriptor && !layout_entries_valid(entries@),
            },
    {
        if entries.len() > MAX_BINDINGS_PER_GROUP {
            return Err(Error::InvalidDescriptor);
        }
        let ghost given = entries@;
        let sorted = sort(entries);
        let mut index: usize = 0;
        while index < sorted.len()
            invariant
                index <= sorted@.len() <= MAX_BINDINGS_PER_GROUP,
                given == entries@,
                crate::ir::sort::ordering_of(given, sorted@),
                forall|i: int| 0 <= i < index ==> layout_entry_valid(#[trigger] sorted@[i]),
                forall|i: int, j: int|
                    0 <= i < j < index ==> (#[trigger] sorted@[i]).binding < (
                    #[trigger] sorted@[j]).binding,
            decreases sorted@.len() - index,
        {
            let entry: BindGroupLayoutEntry = sorted[index];
            let storage_format_bad: bool = match entry.ty {
                BindingType::StorageTexture { format, .. } => format != TextureFormat::Rgba8Unorm,
                _ => false,
            };
            let repeated: bool = index > 0 && sorted[index - 1].binding == entry.binding;
            if entry.binding >= MAX_BINDINGS_PER_GROUP as u32 || entry.visibility.is_empty()
                || repeated || storage_format_bad {
                proof {
                    if layout_entries_valid(given) {
                        lemma_layout_validity_ignores_order(given, sorted@);
                        assert(layout_entry_valid(sorted@[index as int]));
                        if index > 0 {
                            assert(sorted@[index - 1].binding != sorted@[index as int].binding);
                        }
                    }
                }
                return Err(Error::InvalidDescriptor);
            }
            proof {
                assert forall|i: int, j: int| 0 <= i < j < index + 1 implies (
                #[trigger] sorted@[i]).binding < (#[trigger] sorted@[j]).binding by {
                    if j == index {
                        assert(sorted@[index - 1].key() <= sorted@[index as int].key());
                        assert(sorted@[i].key() <= sorted@[j].key());
                        if i < index - 1 {
                            assert(sorted@[i].binding < sorted@[index - 1].binding);
                        }
                    }
                }
            }
            index = index + 1;
        }
        proof {
            assert(layout_entries_valid(sorted@));
            lemma_layout_validity_ignores_order(sorted@, given);
        }
        Ok(Self { entries: sorted })
    }

    /// Return bindings ordered by binding number.
    pub fn entries(&self) -> (r: &[BindGroupLayoutEntry])
        ensures
            r@ == self@,
            layout_entries_valid(self@),
            bindings_increase(self@),
    {
        proof {
            use_type_invariant(self);
        }
        self.entries.as_slice()
    }

    /// Return whether two layouts have the same entries.
    pub fn same_entries(&self, other: &Self) -> (r: bool)
        ensures
            r == (self@ == other@),
    {
        if self.entries.len() != other.entries.len() {
            return false;
        }
        let mut i: usize = 0;
        while i < self.entries.len()
            invariant
                i <= self.entries@.len(),
                self.entries@.len() == other.entries@.len(),
                forall|k: int| 0 <= k < i ==> self.entries@[k] == other.entries@[k],
            decreases self.entries@.len() - i,
        {
            if self.entries[i] != other.entries[i] {
                assert(self@[i as int] != other@[i as int]);
                return false;
            }
            i = i + 1;
        }
        assert(self@ =~= other@);
        true
    }
}

/// The contents of a pipeline layout.
#[verifier::ext_equal]
pub struct PipelineLayoutView {
    pub bind_groups: Seq<Seq<BindGroupLayoutEntry>>,
    pub push_constant_ranges: Seq<PushConstantRange>,
}

/// The three single stages.
pub open spec fn single_stage(stage: u8) -> bool {
    stage == ShaderStages::VERTEX_BIT || stage == ShaderStages::FRAGMENT_BIT || stage
        == ShaderStages::COMPUTE_BIT
}

/// Whether two ranges are declared for a common stage.
pub open spec fn share_a_stage(a: PushConstantRange, b: PushConstantRange) -> bool {
    exists|stage: u8|
        single_stage(stage) && #[trigger] a@.stages.allows(stage) && b@.stages.allows(stage)
}

/// Whether there are at most three ranges, and no stage has two of them.
pub open spec fn push_constant_ranges_valid(ranges: Seq<PushConstantRange>) -> bool {
    &&& ranges.len() <= 3
    &&& forall|i: int, j: int|
        0 <= i < j < ranges.len() ==> !share_a_stage(#[trigger] ranges[i], #[trigger] ranges[j])
}

impl PipelineLayoutView {
    /// Whether some range of a stage covers the bytes from `offset` to `end`.
    pub open spec fn stage_covers(self, stage: u8, offset: int, end: int) -> bool {
        exists|i: int|
            0 <= i < self.push_constant_ranges.len() && {
                let range = (#[trigger] self.push_constant_ranges[i])@;
                range.stages.allows(stage) && range.offset <= offset && end <= range.end()
            }
    }

    /// Whether every updated stage declares all the bytes, and every range that
    /// shares a byte is declared for updated stages alone.
    pub open spec fn update_matches(self, stages: ShaderStages, offset: int, end: int) -> bool {
        &&& forall|stage: u8|
            single_stage(stage) && #[trigger] stages.allows(stage) ==> self.stage_covers(
                stage,
                offset,
                end,
            )
        &&& forall|i: int|
            0 <= i < self.push_constant_ranges.len() ==> {
                let range = (#[trigger] self.push_constant_ranges[i])@;
                offset < range.end() && range.offset < end ==> stages.allows(range.stages@)
            }
    }

    /// The outcome of checking a push-constant update.
    pub open spec fn check_push_constants(
        self,
        stages: ShaderStages,
        offset: u32,
        length: nat,
    ) -> Result<(), Error> {
        if stages@ == 0 || length == 0 || offset % 4 != 0 || length % 4 != 0 {
            Err(Error::InvalidValue)
        } else if offset + length > u32::MAX {
            Err(Error::Overflow)
        } else if offset + length > MAX_PUSH_CONSTANT_BYTES {
            Err(Error::OutOfBounds)
        } else if !self.update_matches(stages, offset as int, offset + length) {
            Err(Error::BindingLayoutMismatch)
        } else {
            Ok(())
        }
    }
}

/// Ordered descriptor sets shared by pipeline shader stages.
#[derive(Debug, PartialEq, Eq)]
pub struct PipelineLayoutDesc {
    bind_groups: Vec<BindGroupLayoutDesc>,
    push_constant_ranges: Vec<PushConstantRange>,
}

impl View for PipelineLayoutDesc {
    type V = PipelineLayoutView;

    closed spec fn view(&self) -> PipelineLayoutView {
        PipelineLayoutView {
            bind_groups: Seq::new(self.bind_groups@.len(), |i: int| self.bind_groups@[i]@),
            push_constant_ranges: self.push_constant_ranges@,
        }
    }
}

impl Clone for PipelineLayoutDesc {
    fn clone(&self) -> (r: Self)
        ensures
            r@ == self@,
    {
        proof {
            use_type_invariant(self);
        }
        let mut bind_groups: Vec<BindGroupLayoutDesc> = Vec::new();
        let mut i: usize = 0;
        while i < self.bind_groups.len()
            invariant
                i <= self.bind_groups@.len(),
                bind_groups@.len() == i,
                forall|k: int|
                    0 <= k < i ==> (#[trigger] bind_groups@[k])@ == self.bind_groups@[k]@,
            decreases self.bind_groups@.len() - i,
        {
            bind_groups.push(self.bind_groups[i].clone());
            i = i + 1;
        }
        let push_constant_ranges = vstd::slice::slice_to_vec(self.push_constant_ranges.as_slice());
        let result = Self { bind_groups, push_constant_ranges };
        assert(result@ =~= self@);
        result
    }
}

impl PipelineLayoutDesc {
    #[verifier::type_invariant]
    spec fn well_formed(self) -> bool {
        self.bind_groups@.len() <= MAX_BIND_GROUPS
    }

    /// Construct a layout containing up to four descriptor sets.
    ///
    /// Returns `Error::InvalidDescriptor` for more.
    pub fn new(bind_groups: Vec<BindGroupLayoutDesc>) -> (r: Result<Self, Error>)
        ensures
            match r {
                Ok(layout) => bind_groups@.len() <= MAX_BIND_GROUPS
                    && layout@.push_constant_ranges.len() == 0 && layout@.bind_groups.len()
                    == bind_groups@.len() && forall|i: int|
                    0 <= i < bind_groups@.len() ==> #[trigger] layout@.bind_groups[i]
                        == bind_groups@[i]@,
                Err(error) => error == Error::InvalidDescriptor && bind_groups@.len()
                    > MAX_BIND_GROUPS,
            },
    {
        if bind_groups.len() > MAX_BIND_GROUPS {
            return Err(Error::InvalidDescriptor);
        }
        Ok(Self { bind_groups, push_constant_ranges: Vec::new() })
    }

    /// Return descriptor sets in shader set-number order, at most four.
    pub fn bind_groups(&self) -> (r: &[BindGroupLayoutDesc])
        ensures
            r@.len() == self@.bind_groups.len(),
            r@.len() <= MAX_BIND_GROUPS,
            forall|i: int| 0 <= i < r@.len() ==> (#[trigger] r@[i])@ == self@.bind_groups[i],
    {
        proof {
            use_type_invariant(self);
        }
        self.bind_groups.as_slice()
    }

    /// Replace the ranges, with each shader stage appearing in at most one.
    /// Ranges for different stages may overlap in bytes.
    ///
    /// Returns `Error::InvalidDescriptor` for more than three ranges or a stage
    /// with two of them.
    pub fn with_push_constant_ranges(self, ranges: Vec<PushConstantRange>) -> (r: Result<
        Self,
        Error,
    >)
        ensures
            match r {
                Ok(layout) => push_constant_ranges_valid(ranges@) && layout@.bind_groups
                    == self@.bind_groups && crate::ir::sort::ordering_of(
                    ranges@,
                    layout@.push_constant_ranges,
                ),
                Err(error) => error == Error::InvalidDescriptor && !push_constant_ranges_valid(
                    ranges@,
                ),
            },
    {
        proof {
            use_type_invariant(&self);
        }
        if ranges.len() > 3 {
            return Err(Error::InvalidDescriptor);
        }
        let mut used = ShaderStages::empty();
        assert forall|stage: u8| single_stage(stage) implies !(#[trigger] used.allows(stage)) by {
            assert(0u8 & 1u8 != 1u8 && 0u8 & 2u8 != 2u8 && 0u8 & 4u8 != 4u8) by (bit_vector);
        }
        let mut i: usize = 0;
        while i < ranges.len()
            invariant
                i <= ranges@.len() <= 3,
                forall|stage: u8|
                    single_stage(stage) ==> (#[trigger] used.allows(stage) <==> exists|k: int|
                        0 <= k < i && (#[trigger] ranges@[k])@.stages.allows(stage)),
                forall|a: int, b: int|
                    0 <= a < b < i ==> !share_a_stage(#[trigger] ranges@[a], #[trigger] ranges@[b]),
            decreases ranges@.len() - i,
        {
            let range: PushConstantRange = ranges[i];
            let stages = range.stages();
            let overlap: bool = (stages.contains(ShaderStages::vertex()) && used.contains(
                ShaderStages::vertex(),
            )) || (stages.contains(ShaderStages::fragment()) && used.contains(
                ShaderStages::fragment(),
            )) || (stages.contains(ShaderStages::compute()) && used.contains(
                ShaderStages::compute(),
            ));
            if overlap {
                proof {
                    let stage: u8 = if stages.allows(1) && used.allows(1) {
                        1
                    } else if stages.allows(2) && used.allows(2) {
                        2
                    } else {
                        4
                    };
                    assert(single_stage(stage) && used.allows(stage));
                    let k = choose|k: int|
                        0 <= k < i && (#[trigger] ranges@[k])@.stages.allows(stage);
                    assert(ranges@[i as int]@.stages.allows(stage));
                    assert(share_a_stage(ranges@[k], ranges@[i as int]));
                }
                return Err(Error::InvalidDescriptor);
            }
            proof {
                assert forall|a: int, b: int| 0 <= a < b < i + 1 implies !share_a_stage(
                    #[trigger] ranges@[a],
                    #[trigger] ranges@[b],
                ) by {
                    if b == i && share_a_stage(ranges@[a], ranges@[b]) {
                        let stage = choose|stage: u8|
                            single_stage(stage) && #[trigger] ranges@[a]@.stages.allows(stage)
                                && ranges@[b]@.stages.allows(stage);
                        assert(used.allows(stage));
                        assert(stages.allows(stage));
                    }
                }
            }
            let ghost before = used;
            used = used.union(stages);
            proof {
                assert forall|stage: u8| single_stage(stage) implies (#[trigger] used.allows(stage)
                    <==> exists|k: int|
                    0 <= k < i + 1 && (#[trigger] ranges@[k])@.stages.allows(stage)) by {
                    let x = before@;
                    let y = stages@;
                    assert(used.allows(stage) <==> before.allows(stage) || stages.allows(stage)) by {
                        assert((x | y) & stage == stage <==> (x & stage == stage || y & stage
                            == stage)) by (bit_vector)
                            requires
                                stage == 1u8 || stage == 2u8 || stage == 4u8,
                        ;
                    }
                    if stages.allows(stage) {
                        assert(ranges@[i as int]@.stages.allows(stage));
                    }
                    if before.allows(stage) {
                        let k = choose|k: int|
                            0 <= k < i && (#[trigger] ranges@[k])@.stages.allows(stage);
                        assert(ranges@[k]@.stages.allows(stage));
                    }
                }
            }
            i = i + 1;
        }
        let sorted = sort(ranges);
        let result = Self { bind_groups: self.bind_groups, push_constant_ranges: sorted };
        assert(result@.bind_groups =~= self@.bind_groups);
        Ok(result)
    }

    /// Return the declared push-constant ranges.
    pub fn push_constant_ranges(&self) -> (r: &[PushConstantRange])
        ensures
            r@ == self@.push_constant_ranges,
    {
        self.push_constant_ranges.as_slice()
    }

    /// Return whether some range of a stage covers the bytes from `offset` to `end`.
    fn covers(&self, stage: ShaderStages, offset: u32, end: u32) -> (r: bool)
        ensures
            r == self@.stage_covers(stage@, offset as int, end as int),
    {
        let mut i: usize = 0;
        while i < self.push_constant_ranges.len()
            invariant
                i <= self.push_constant_ranges@.len(),
                self@.push_constant_ranges == self.push_constant_ranges@,
                forall|k: int|
                    0 <= k < i ==> {
                        let range = (#[trigger] self@.push_constant_ranges[k])@;
                        !(range.stages.allows(stage@) && range.offset <= offset && end
                            <= range.end())
                    },
            decreases self.push_constant_ranges@.len() - i,
        {
            let range: PushConstantRange = self.push_constant_ranges[i];
            let size: u32 = range.size();
            if range.stages().contains(stage) && offset >= range.offset() && end <= range.offset()
                + size {
                assert(self@.push_constant_ranges[i as int] == range);
                return true;
            }
            i = i + 1;
        }
        false
    }

    /// Check that every updated stage declares the complete aligned byte range.
    ///
    /// Returns `Error::InvalidValue` for no stage or unaligned or no bytes,
    /// `Error::Overflow` when the end does not fit in 32 bits,
    /// `Error::OutOfBounds` past `MAX_PUSH_CONSTANT_BYTES`, or
    /// `Error::BindingLayoutMismatch` when the ranges do not match the update.
    pub fn validate_push_constants(&self, stages: ShaderStages, offset: u32, data: &[u8]) -> (r:
        Result<(), Error>)
        ensures
            r == self@.check_push_constants(stages, offset, data@.len()),
    {
        if stages.is_empty() || data.len() == 0 || offset % 4 != 0 || data.len() % 4 != 0 {
            return Err(Error::InvalidValue);
        }
        if data.len() > u32::MAX as usize {
            return Err(Error::Overflow);
        }
        let size: u32 = data.len() as u32;
        let end: u32 = match offset.checked_add(size) {
            Some(end) => end,
            None => return Err(Error::Overflow),
        };
        if end > MAX_PUSH_CONSTANT_BYTES {
            return Err(Error::OutOfBounds);
        }
        let vertex = ShaderStages::vertex();
        let fragment = ShaderStages::fragment();
        let compute = ShaderStages::compute();
        if (stages.contains(vertex) && !self.covers(vertex, offset, end)) || (stages.contains(
            fragment,
        ) && !self.covers(fragment, offset, end)) || (stages.contains(compute) && !self.covers(
            compute,
            offset,
            end,
        )) {
            proof {
                let stage: u8 = if stages.allows(1) && !self@.stage_covers(
                    1,
                    offset as int,
                    end as int,
                ) {
                    1
                } else if stages.allows(2) && !self@.stage_covers(2, offset as int, end as int) {
                    2
                } else {
                    4
                };
                assert(single_stage(stage) && stages.allows(stage));
            }
            return Err(Error::BindingLayoutMismatch);
        }
        let mut i: usize = 0;
        while i < self.push_constant_ranges.len()
            invariant
                i <= self.push_constant_ranges@.len(),
                self@.push_constant_ranges == self.push_constant_ranges@,
                end == offset + data@.len(),
                forall|k: int|
                    0 <= k < i ==> {
                        let range = (#[trigger] self@.push_constant_ranges[k])@;
                        offset < range.end() && range.offset < end ==> stages.allows(range.stages@)
                    },
                self@.check_push_constants(stages, offset, data@.len()) == (if self@.update_matches(
                    stages,
                    offset as int,
                    end as int,
                ) {
                    Ok::<(), Error>(())
                } else {
                    Err(Error::BindingLayoutMismatch)
                }),
            decreases self.push_constant_ranges@.len() - i,
        {
            let range: PushConstantRange = self.push_constant_ranges[i];
            let size: u32 = range.size();
            if offset < range.offset() + size && range.offset() < end && !stages.contains(
                range.stages(),
            ) {
                assert(self@.push_constant_ranges[i as int] == range);
                return Err(Error::BindingLayoutMismatch);
            }
            i = i + 1;
        }
        Ok(())
    }
}

/// An owned resource identity and optional byte range used by one binding.
#[derive(Debug, Clone, Copy, PartialEq, Eq, Structural)]
pub enum BindingResource {
    /// Uniform or storage buffer range; the backend checks its own alignment limit.
    Buffer {
        /// Owning buffer.
        buffer: BufferId,
        /// Byte offset.
        offset: u64,
        /// Non-zero byte length.
        size: u64,
    },
    /// A whole 2D sampled mip chain, or level zero for a storage binding.
    Texture(TextureId),
    /// A format and subresource selection from one texture allocation.
    TextureView {
        /// Owning allocation.
        texture: TextureId,
        /// Selected subresources and their interpretation.
        view: TextureViewDesc,
    },
    /// A sampler.
    Sampler(SamplerId),
}

/// One concrete binding number and resource.
#[derive(Debug, Clone, Copy, PartialEq, Eq, Structural)]
pub struct BindGroupEntry {
    /// Binding number.
    pub binding: u32,
    /// Bound resource.
    pub resource: BindingResource,
}

impl BindGroupEntry {
    /// Construct a binding; group construction validates ownership, usage and range.
    pub fn new(binding: u32, resource: BindingResource) -> (r: Self)
        ensures
            r == (Self { binding, resource }),
    {
        Self { binding, resource }
    }

    /// Return the binding number.
    pub fn binding(self) -> (r: u32)
        ensures
            r == self.binding,
    {
        self.binding
    }

    /// Return the bound resource.
    pub fn resource(self) -> (r: BindingResource)
        ensures
            r == self.resource,
    {
        self.resource
    }
}

impl Keyed for BindGroupEntry {
    open spec fn key(self) -> int {
        self.binding as int
    }

    fn key_at_most(self, other: Self) -> (r: bool) {
        self.binding <= other.binding
    }
}

/// The contents of a bind group.
#[verifier::ext_equal]
pub struct BindGroupView {
    pub layout: Seq<BindGroupLayoutEntry>,
    pub entries: Seq<BindGroupEntry>,
}

/// The outcome of binding a buffer range.
pub open spec fn check_buffer_binding(
    table: TableView,
    buffer: BufferId,
    offset: u64,
    size: u64,
    uniform: bool,
) -> Result<(), Error> {
    match table.buffer_ref(buffer) {
        Err(error) => Err(error),
        Ok(reference) => match table.buffer(reference) {
            Err(error) => Err(error),
            Ok(desc) => {
                let required = if uniform {
                    BufferUsage::UNIFORM_BIT
                } else {
                    BufferUsage::STORAGE_BIT
                };
                let alignment: u64 = if uniform {
                    16
                } else {
                    4
                };
                if !desc@.usage.allows(required) {
                    Err(Error::InvalidUsage)
                } else if size == 0 || offset % alignment != 0 || size % 4 != 0 {
                    Err(Error::InvalidValue)
                } else if offset + size > u64::MAX {
                    Err(Error::Overflow)
                } else if offset + size > desc@.size {
                    Err(Error::OutOfBounds)
                } else {
                    Ok(())
                }
            },
        },
    }
}

/// The outcome of binding a whole texture.
pub open spec fn check_texture_binding(
    table: TableView,
    texture: TextureId,
    storage: Option<TextureFormat>,
) -> Result<(), Error> {
    match table.texture_ref(texture) {
        Err(error) => Err(error),
        Ok(reference) => match table.texture(reference) {
            Err(error) => Err(error),
            Ok(desc) => match storage {
                None => if !desc@.usage.allows(TextureUsage::SAMPLED_BIT) {
                    Err(Error::InvalidUsage)
                } else if desc@.format == TextureFormat::Depth32Float || desc@.array_layer_count
                    != 1 {
                    Err(Error::InvalidDescriptor)
                } else {
                    Ok(())
                },
                Some(format) => if !desc@.usage.allows(TextureUsage::STORAGE_BIT) {
                    Err(Error::InvalidUsage)
                } else if desc@.format != format || desc@.array_layer_count != 1
                    || desc@.mip_level_count != 1 {
                    Err(Error::BindingLayoutMismatch)
                } else {
                    Ok(())
                },
            },
        },
    }
}

/// Whether a view is what a sampled or storage view binding declares.
pub open spec fn view_matches(view: TextureViewDesc, ty: BindingType) -> bool {
    match ty {
        BindingType::SampledTextureView { dimension, depth } => view@.dimension == dimension && (
        view@.format == TextureFormat::Depth32Float) == depth,
        BindingType::StorageTexture { format, .. } => view@.format == format && view@.dimension
            == TextureViewDimension::D2 && view@.mip_level_count == 1 && view@.array_layer_count
            == 1,
        _ => false,
    }
}

/// The outcome of binding a texture view.
pub open spec fn check_view_binding(
    table: TableView,
    texture: TextureId,
    view: TextureViewDesc,
    ty: BindingType,
) -> Result<(), Error> {
    match table.texture_ref(texture) {
        Err(error) => Err(error),
        Ok(reference) => match table.texture(reference) {
            Err(error) => Err(error),
            Ok(desc) => match view@.check(desc@) {
                Err(error) => Err(error),
                Ok(_) => {
                    let required = if ty is StorageTexture {
                        TextureUsage::STORAGE_BIT
                    } else {
                        TextureUsage::SAMPLED_BIT
                    };
                    if !desc@.usage.allows(required) {
                        Err(Error::InvalidUsage)
                    } else if !view_matches(view, ty) {
                        Err(Error::BindingLayoutMismatch)
                    } else {
                        Ok(())
                    }
                },
            },
        },
    }
}

/// The outcome of binding a sampler.
pub open spec fn check_sampler_binding(
    table: TableView,
    sampler: SamplerId,
    comparison: bool,
) -> Result<(), Error> {
    match table.sampler_ref(sampler) {
        Err(error) => Err(error),
        Ok(reference) => match table.sampler(reference) {
            Err(error) => Err(error),
            Ok(desc) => if (desc@.compare is Some) != comparison {
                Err(Error::BindingLayoutMismatch)
            } else {
                Ok(())
            },
        },
    }
}

/// The outcome of binding a resource where a type is declared.
pub open spec fn check_resource(
    table: TableView,
    resource: BindingResource,
    ty: BindingType,
) -> Result<(), Error> {
    match (resource, ty) {
        (BindingResource::Buffer { buffer, offset, size }, BindingType::UniformBuffer) =>
            check_buffer_binding(table, buffer, offset, size, true),
        (BindingResource::Buffer { buffer, offset, size }, BindingType::StorageBuffer { .. }) =>
            check_buffer_binding(table, buffer, offset, size, false),
        (BindingResource::Texture(texture), BindingType::SampledTexture) => check_texture_binding(
            table,
            texture,
            None,
        ),
        (BindingResource::Texture(texture), BindingType::StorageTexture { format, .. }) =>
            check_texture_binding(table, texture, Some(format)),
        (
            BindingResource::TextureView { texture, view },
            BindingType::SampledTextureView { .. },
        ) => check_view_binding(table, texture, view, ty),
        (BindingResource::TextureView { texture, view }, BindingType::StorageTexture { .. }) =>
            check_view_binding(table, texture, view, ty),
        (BindingResource::Sampler(sampler), BindingType::Sampler) => check_sampler_binding(
            table,
            sampler,
            false,
        ),
        (BindingResource::Sampler(sampler), BindingType::ComparisonSampler) =>
            check_sampler_binding(table, sampler, true),
        _ => Err(Error::BindingLayoutMismatch),
    }
}

/// The texture that a binding uses, whole or in part.
pub open spec fn bound_texture(resource: BindingResource) -> Option<TextureId> {
    match resource {
        BindingResource::Texture(texture) => Some(texture),
        BindingResource::TextureView { texture, .. } => Some(texture),
        _ => None,
    }
}

/// Whether two bindings use the same buffer or the same texture.
pub open spec fn aliases(left: BindingResource, right: BindingResource) -> bool {
    match (left, right) {
        (BindingResource::Buffer { buffer: a, .. }, BindingResource::Buffer { buffer: b, .. }) => a
            == b,
        _ => bound_texture(left) is Some && bound_texture(left) == bound_texture(right),
    }
}

/// Whether shaders write through a binding of this type.
pub open spec fn writes(ty: BindingType) -> bool {
    match ty {
        BindingType::StorageBuffer { read_only } => !read_only,
        BindingType::StorageTexture { .. } => true,
        _ => false,
    }
}

impl BindGroupView {
    /// The first failure among the first `count` bindings.
    pub open spec fn check_bindings(self, table: TableView, count: nat) -> Result<(), Error>
        decreases count,
    {
        if count == 0 {
            Ok(())
        } else {
            match self.check_bindings(table, (count - 1) as nat) {
                Err(error) => Err(error),
                Ok(_) => {
                    let entry = self.entries[count - 1];
                    let declared = self.layout[count - 1];
                    if entry.binding != declared.binding {
                        Err(Error::BindingLayoutMismatch)
                    } else {
                        check_resource(table, entry.resource, declared.ty)
                    }
                },
            }
        }
    }

    /// Whether binding `i` writes what an earlier binding `j` uses, or the reverse.
    pub open spec fn conflict(self, i: int, j: int) -> bool {
        aliases(self.entries[i].resource, self.entries[j].resource) && (writes(self.layout[i].ty)
            || writes(self.layout[j].ty))
    }

    /// Whether some two bindings conflict.
    pub open spec fn conflicts(self) -> bool {
        exists|i: int, j: int| 0 <= j < i < self.entries.len() && #[trigger] self.conflict(i, j)
    }

    /// The outcome of validating the bindings against a table.
    pub open spec fn check(self, table: TableView) -> Result<(), Error> {
        if self.entries.len() != self.layout.len() {
            Err(Error::BindingLayoutMismatch)
        } else {
            match self.check_bindings(table, self.entries.len()) {
                Err(error) => Err(error),
                Ok(_) => if self.conflicts() {
                    Err(Error::ResourceAccessConflict)
                } else {
                    Ok(())
                },
            }
        }
    }
}

/// A failure among the first bindings is a failure of all.
proof fn lemma_binding_failure_persists(group: BindGroupView, table: TableView, count: nat)
    requires
        count <= group.entries.len(),
        group.check_bindings(table, count) is Err,
    ensures
        group.check_bindings(table, group.entries.len()) == group.check_bindings(table, count),
    decreases group.entries.len() - count,
{
    if count < group.entries.len() {
        lemma_binding_failure_persists(group, table, count + 1);
    }
}

/// A bind group that is valid in a table stays valid as the table grows.
pub proof fn law_bind_groups_stay_valid(
    group: BindGroupView,
    earlier: TableView,
    later: TableView,
)
    requires
        later.extends(earlier),
        group.check(earlier) == Ok::<(), Error>(()),
    ensures
        group.check(later) == Ok::<(), Error>(()),
{
    lemma_bindings_stay_valid(group, earlier, later, group.entries.len());
}

proof fn lemma_bindings_stay_valid(
    group: BindGroupView,
    earlier: TableView,
    later: TableView,
    count: nat,
)
    requires
        later.extends(earlier),
        group.check_bindings(earlier, count) == Ok::<(), Error>(()),
    ensures
        group.check_bindings(later, count) == Ok::<(), Error>(()),
    decreases count,
{
    if count > 0 {
        lemma_bindings_stay_valid(group, earlier, later, (count - 1) as nat);
        crate::ir::table::law_growth_keeps_definitions(earlier, later);
    }
}

/// The bind groups and pipelines of a sound table stay valid as it grows.
pub proof fn law_growth_keeps_definitions_sound(earlier: TableView, later: TableView)
    requires
        later.extends(earlier),
        earlier.sound(),
    ensures
        forall|i: int|
            0 <= i < earlier.bind_groups.len() ==> (#[trigger] later.bind_groups[i]).check(later)
                == Ok::<(), Error>(()),
        forall|i: int|
            0 <= i < earlier.compute_pipelines.len() ==> later.shader_module_ref(
                (#[trigger] later.compute_pipelines[i]).shader.module,
            ) is Ok,
        forall|i: int|
            0 <= i < earlier.programmable_pipelines.len() ==> later.shader_module_ref(
                (#[trigger] later.programmable_pipelines[i]).vertex.module,
            ) is Ok && later.shader_module_ref(later.programmable_pipelines[i].fragment.module) is Ok,
{
    crate::ir::table::law_growth_keeps_definitions(earlier, later);
    assert forall|i: int| 0 <= i < earlier.bind_groups.len() implies (
    #[trigger] later.bind_groups[i]).check(later) == Ok::<(), Error>(()) by {
        assert(later.bind_groups[i] == earlier.bind_groups[i]);
        law_bind_groups_stay_valid(earlier.bind_groups[i], earlier, later);
    }
    assert forall|i: int| 0 <= i < earlier.compute_pipelines.len() implies later.shader_module_ref(
        (#[trigger] later.compute_pipelines[i]).shader.module,
    ) is Ok by {
        assert(later.compute_pipelines[i] == earlier.compute_pipelines[i]);
    }
    assert forall|i: int| 0 <= i < earlier.programmable_pipelines.len() implies
        later.shader_module_ref((#[trigger] later.programmable_pipelines[i]).vertex.module) is Ok
        && later.shader_module_ref(later.programmable_pipelines[i].fragment.module) is Ok by {
        assert(later.programmable_pipelines[i] == earlier.programmable_pipelines[i]);
    }
}

/// A validated immutable set of resources matching one layout.
#[derive(Debug, PartialEq, Eq)]
pub struct BindGroupDesc {
    layout: BindGroupLayoutDesc,
    entries: Vec<BindGroupEntry>,
}

impl View for BindGroupDesc {
    type V = BindGroupView;

    closed spec fn view(&self) -> BindGroupView {
        BindGroupView { layout: self.layout@, entries: self.entries@ }
    }
}

impl Clone for BindGroupDesc {
    fn clone(&self) -> (r: Self)
        ensures
            r@ == self@,
    {
        let entries = vstd::slice::slice_to_vec(self.entries.as_slice());
        let result = Self { layout: self.layout.clone(), entries };
        assert(result@ =~= self@);
        result
    }
}

impl BindGroupDesc {
    /// Construct bindings, checking exact layout coverage, ownership, usage and ranges.
    ///
    /// The entries are first put in the order of their binding numbers; where
    /// two have the same number, either may come first. Fails as `validate` does.
    pub fn new(
        resources: &ResourceTable,
        layout: BindGroupLayoutDesc,
        entries: Vec<BindGroupEntry>,
    ) -> (r: Result<Self, Error>)
        ensures
            exists|sorted: Seq<BindGroupEntry>| #[trigger]
                crate::ir::sort::ordering_of(entries@, sorted) && {
                    let group = BindGroupView { layout: layout@, entries: sorted };
                    match r {
                        Ok(desc) => desc@ == group && group.check(resources@) == Ok::<(), Error>(
                            (),
                        ),
                        Err(error) => group.check(resources@) == Err::<(), Error>(error),
                    }
                },
    {
        let sorted = sort(entries);
        let result = Self { layout, entries: sorted };
        match result.validate(resources) {
            Ok(()) => Ok(result),
            Err(error) => Err(error),
        }
    }

    /// Check the bindings against the layout and the resources of a table.
    ///
    /// Returns `Error::BindingLayoutMismatch` where a binding is not what the
    /// layout declares, the error of a lookup that fails, `Error::InvalidUsage`,
    /// `Error::InvalidValue`, `Error::InvalidDescriptor`, `Error::Overflow` or
    /// `Error::OutOfBounds` for a resource that cannot be bound so, and then
    /// `Error::ResourceAccessConflict` when a resource that is written is bound
    /// twice. Whole resources count, not byte ranges or subresources.
    pub fn validate(&self, resources: &ResourceTable) -> (r: Result<(), Error>)
        ensures
            r == self@.check(resources@),
    {
        let layout = self.layout.entries();
        if self.entries.len() != layout.len() {
            return Err(Error::BindingLayoutMismatch);
        }
        let ghost group = self@;
        let ghost table = resources@;
        let mut index: usize = 0;
        while index < self.entries.len()
            invariant
                index <= self.entries@.len(),
                layout@ == group.layout,
                self.entries@ == group.entries,
                table == resources@,
                group.layout.len() == group.entries.len(),
                group.check_bindings(table, index as nat) == Ok::<(), Error>(()),
                group == self@,
            decreases self.entries@.len() - index,
        {
            let entry: BindGroupEntry = self.entries[index];
            let declared: BindGroupLayoutEntry = layout[index];
            let outcome: Result<(), Error> = if entry.binding != declared.binding {
                Err(Error::BindingLayoutMismatch)
            } else {
                validate_resource(resources, entry.resource, declared.ty)
            };
            assert(group.check_bindings(table, (index + 1) as nat) == outcome);
            match outcome {
                Ok(()) => {},
                Err(error) => {
                    proof {
                        lemma_binding_failure_persists(group, table, (index + 1) as nat);
                    }
                    return Err(error);
                },
            }
            index = index + 1;
        }
        let mut i: usize = 0;
        while i < self.entries.len()
            invariant
                i <= self.entries@.len(),
                layout@ == group.layout,
                self.entries@ == group.entries,
                group.layout.len() == group.entries.len(),
                group == self@,
                table == resources@,
                group.check_bindings(table, group.entries.len()) == Ok::<(), Error>(()),
                forall|a: int, b: int| 0 <= b < a < i ==> !#[trigger] group.conflict(a, b),
            decreases self.entries@.len() - i,
        {
            let mut j: usize = 0;
            while j < i
                invariant
                    j <= i < self.entries@.len(),
                    layout@ == group.layout,
                    self.entries@ == group.entries,
                    group.layout.len() == group.entries.len(),
                    group == self@,
                    table == resources@,
                    group.check_bindings(table, group.entries.len()) == Ok::<(), Error>(()),
                    forall|b: int| 0 <= b < j ==> !#[trigger] group.conflict(i as int, b),
                decreases i - j,
            {
                if resource_alias(self.entries[i].resource, self.entries[j].resource) && (
                binding_writes(layout[i].ty) || binding_writes(layout[j].ty)) {
                    assert(group.conflict(i as int, j as int));
                    return Err(Error::ResourceAccessConflict);
                }
                assert(!group.conflict(i as int, j as int));
                j = j + 1;
            }
            i = i + 1;
        }
        Ok(())
    }

    /// Return the layout implemented by this set.
    pub fn layout(&self) -> (r: &BindGroupLayoutDesc)
        ensures
            r@ == self@.layout,
    {
        &self.layout
    }

    /// Return bindings in ascending binding order.
    pub fn entries(&self) -> (r: &[BindGroupEntry])
        ensures
            r@ == self@.entries,
    {
        self.entries.as_slice()
    }
}

/// Check one resource against the type declared for its binding.
fn validate_resource(resources: &ResourceTable, resource: BindingResource, ty: BindingType) -> (r:
    Result<(), Error>)
    ensures
        r == check_resource(resources@, resource, ty),
{
    match (resource, ty) {
        (BindingResource::Buffer { buffer, offset, size }, BindingType::UniformBuffer) => {
            validate_buffer(resources, buffer, offset, size, true)
        },
        (BindingResource::Buffer { buffer, offset, size }, BindingType::StorageBuffer { .. }) => {
            validate_buffer(resources, buffer, offset, size, false)
        },
        (BindingResource::Texture(texture), BindingType::SampledTexture) => {
            validate_texture(resources, texture, None)
        },
        (BindingResource::Texture(texture), BindingType::StorageTexture { format, .. }) => {
            validate_texture(resources, texture, Some(format))
        },
        (
            BindingResource::TextureView { texture, view },
            BindingType::SampledTextureView { .. },
        ) => validate_view(resources, texture, view, ty),
        (BindingResource::TextureView { texture, view }, BindingType::StorageTexture { .. }) => {
            validate_view(resources, texture, view, ty)
        },
        (BindingResource::Sampler(sampler), BindingType::Sampler) => {
            validate_sampler(resources, sampler, false)
        },
        (BindingResource::Sampler(sampler), BindingType::ComparisonSampler) => {
            validate_sampler(resources, sampler, true)
        },
        _ => Err(Error::BindingLayoutMismatch),
    }
}

fn validate_buffer(
    resources: &ResourceTable,
    buffer: BufferId,
    offset: u64,
    size: u64,
    uniform: bool,
) -> (r: Result<(), Error>)
    ensures
        r == check_buffer_binding(resources@, buffer, offset, size, uniform),
{
    let reference = match resources.buffer_ref(buffer) {
        Ok(reference) => reference,
        Err(error) => return Err(error),
    };
    let desc = match resources.buffer(reference) {
        Ok(desc) => desc,
        Err(error) => return Err(error),
    };
    let required = if uniform {
        BufferUsage::uniform()
    } else {
        BufferUsage::storage()
    };
    if !desc.usage().contains(required) {
        return Err(Error::InvalidUsage);
    }
    let alignment: u64 = if uniform {
        16
    } else {
        4
    };
    if size == 0 || offset % alignment != 0 || size % 4 != 0 {
        return Err(Error::InvalidValue);
    }
    match offset.checked_add(size) {
        None => Err(Error::Overflow),
        Some(end) => if end > desc.size() {
            Err(Error::OutOfBounds)
        } else {
            Ok(())
        },
    }
}

fn validate_texture(
    resources: &ResourceTable,
    texture: TextureId,
    storage: Option<TextureFormat>,
) -> (r: Result<(), Error>)
    ensures
        r == check_texture_binding(resources@, texture, storage),
{
    let reference = match resources.texture_ref(texture) {
        Ok(reference) => reference,
        Err(error) => return Err(error),
    };
    let desc = match resources.texture(reference) {
        Ok(desc) => desc,
        Err(error) => return Err(error),
    };
    match storage {
        None => {
            if !desc.usage().contains(TextureUsage::sampled()) {
                return Err(Error::InvalidUsage);
            }
            if desc.format() == TextureFormat::Depth32Float || desc.array_layer_count() != 1 {
                return Err(Error::InvalidDescriptor);
            }
        },
        Some(format) => {
            if !desc.usage().contains(TextureUsage::storage()) {
                return Err(Error::InvalidUsage);
            }
            if desc.format() != format || desc.array_layer_count() != 1 || desc.mip_level_count()
                != 1 {
                return Err(Error::BindingLayoutMismatch);
            }
        },
    }
    Ok(())
}

fn validate_view(
    resources: &ResourceTable,
    texture: TextureId,
    view: TextureViewDesc,
    ty: BindingType,
) -> (r: Result<(), Error>)
    ensures
        r == check_view_binding(resources@, texture, view, ty),
{
    let reference = match resources.texture_ref(texture) {
        Ok(reference) => reference,
        Err(error) => return Err(error),
    };
    let desc = match resources.texture(reference) {
        Ok(desc) => desc,
        Err(error) => return Err(error),
    };
    match view.validate(desc) {
        Ok(()) => {},
        Err(error) => return Err(error),
    }
    let (required, matching): (TextureUsage, bool) = match ty {
        BindingType::SampledTextureView { dimension, depth } => (
            TextureUsage::sampled(),
            view.dimension() == dimension && (view.format() == TextureFormat::Depth32Float)
                == depth,
        ),
        BindingType::StorageTexture { format, .. } => (
            TextureUsage::storage(),
            view.format() == format && view.dimension() == TextureViewDimension::D2
                && view.mip_level_count() == 1 && view.array_layer_count() == 1,
        ),
        _ => (TextureUsage::sampled(), false),
    };
    if !desc.usage().contains(required) {
        return Err(Error::InvalidUsage);
    }
    if !matching {
        return Err(Error::BindingLayoutMismatch);
    }
    Ok(())
}

fn validate_sampler(resources: &ResourceTable, sampler: SamplerId, comparison: bool) -> (r: Result<
    (),
    Error,
>)
    ensures
        r == check_sampler_binding(resources@, sampler, comparison),
{
    let reference = match resources.sampler_ref(sampler) {
        Ok(reference) => reference,
        Err(error) => return Err(error),
    };
    let desc = match resources.sampler(reference) {
        Ok(desc) => desc,
        Err(error) => return Err(error),
    };
    if desc.compare().is_some() != comparison {
        return Err(Error::BindingLayoutMismatch);
    }
    Ok(())
}

/// Return whether two bindings use the same buffer or the same texture.
pub fn resource_alias(left: BindingResource, right: BindingResource) -> (r: bool)
    ensures
        r == aliases(left, right),
{
    match (left, right) {
        (BindingResource::Buffer { buffer: a, .. }, BindingResource::Buffer { buffer: b, .. }) => a
            == b,
        (BindingResource::Texture(a), BindingResource::Texture(b)) => a == b,
        (BindingResource::Texture(a), BindingResource::TextureView { texture: b, .. }) => a == b,
        (BindingResource::TextureView { texture: a, .. }, BindingResource::Texture(b)) => a == b,
        (
            BindingResource::TextureView { texture: a, .. },
            BindingResource::TextureView { texture: b, .. },
        ) => a == b,
        _ => false,
    }
}

/// Return whether shaders write through a binding of this type.
pub fn binding_writes(ty: BindingType) -> (r: bool)
    ensures
        r == writes(ty),
{
    match ty {
        BindingType::StorageBuffer { read_only } => !read_only,
        BindingType::StorageTexture { .. } => true,
        _ => false,
    }
}

/// The contents of a compute pipeline.
#[verifier::ext_equal]
pub struct ComputePipelineView {
    pub shader: ShaderEntryPointView,
    pub layout: PipelineLayoutView,
}

/// A compute entry point and its descriptor-set interface.
#[derive(Debug, PartialEq, Eq)]
pub struct ComputePipelineDesc {
    shader: ShaderEntryPoint,
    layout: PipelineLayoutDesc,
}

impl View for ComputePipelineDesc {
    type V = ComputePipelineView;

    closed spec fn view(&self) -> ComputePipelineView {
        ComputePipelineView { shader: self.shader@, layout: self.layout@ }
    }
}

impl Clone for ComputePipelineDesc {
    fn clone(&self) -> (r: Self)
        ensures
            r@ == self@,
    {
        Self { shader: self.shader.clone(), layout: self.layout.clone() }
    }
}

impl ComputePipelineDesc {
    /// Construct a compute pipeline descriptor.
    ///
    /// Returns `Error::InvalidDescriptor` for an entry point of another stage.
    pub fn new(shader: ShaderEntryPoint, layout: PipelineLayoutDesc) -> (r: Result<Self, Error>)
        ensures
            match r {
                Ok(desc) => shader@.stage == ShaderStage::Compute && desc@ == (
                ComputePipelineView { shader: shader@, layout: layout@ }),
                Err(error) => error == Error::InvalidDescriptor && shader@.stage
                    != ShaderStage::Compute,
            },
    {
        if shader.stage != ShaderStage::Compute {
            return Err(Error::InvalidDescriptor);
        }
        Ok(Self { shader, layout })
    }

    /// Return the compute entry point.
    pub fn shader(&self) -> (r: &ShaderEntryPoint)
        ensures
            r@ == self@.shader,
    {
        &self.shader
    }

    /// Return the pipeline's descriptor-set layout.
    pub fn layout(&self) -> (r: &PipelineLayoutDesc)
        ensures
            r@ == self@.layout,
    {
        &self.layout
    }
}

/// The contents of a programmable render pipeline. `targets` holds the color
/// outputs in location order.
#[verifier::ext_equal]
pub struct ProgrammablePipelineView {
    pub vertex: ShaderEntryPointView,
    pub fragment: ShaderEntryPointView,
    pub layout: PipelineLayoutView,
    pub vertex_buffers: Seq<VertexBufferLayoutView>,
    pub topology: PrimitiveTopology,
    pub raster: RasterState,
    pub depth: Option<DepthState>,
    pub targets: Seq<ColorTargetView>,
}

/// The views of layouts.
pub open spec fn vertex_buffer_views(buffers: Seq<VertexBufferLayout>) -> Seq<
    VertexBufferLayoutView,
> {
    Seq::new(buffers.len(), |i: int| buffers[i]@)
}

/// The views of color outputs.
pub open spec fn target_views(targets: Seq<ColorTargetState>) -> Seq<ColorTargetView> {
    Seq::new(targets.len(), |i: int| targets[i]@)
}

/// Whether attribute `i` of buffer `b` has a location in range that no attribute
/// before it has, counting buffer by buffer.
pub open spec fn location_is_new(
    buffers: Seq<VertexBufferLayoutView>,
    b: int,
    i: int,
) -> bool {
    let location = buffers[b].attributes[i].location;
    &&& location < MAX_VERTEX_ATTRIBUTES
    &&& forall|c: int, j: int|
        0 <= c <= b && 0 <= j < buffers[c].attributes.len() && (c < b || j < i)
            ==> (#[trigger] buffers[c].attributes[j]).location != location
}

/// Whether attribute locations are in range and distinct across buffers.
pub open spec fn locations_valid(buffers: Seq<VertexBufferLayoutView>) -> bool {
    forall|b: int, i: int|
        0 <= b < buffers.len() && 0 <= i < (#[trigger] buffers[b]).attributes.len()
            ==> #[trigger] location_is_new(buffers, b, i)
}

/// Programmable graphics with up to eight color targets and vertex buffers.
#[derive(Debug, PartialEq, Eq)]
pub struct ProgrammableRenderPipelineDesc {
    vertex: ShaderEntryPoint,
    fragment: ShaderEntryPoint,
    layout: PipelineLayoutDesc,
    vertex_buffers: Vec<VertexBufferLayout>,
    topology: PrimitiveTopology,
    raster: RasterState,
    depth: Option<DepthState>,
    targets: Vec<ColorTargetState>,
}

impl View for ProgrammableRenderPipelineDesc {
    type V = ProgrammablePipelineView;

    closed spec fn view(&self) -> ProgrammablePipelineView {
        ProgrammablePipelineView {
            vertex: self.vertex@,
            fragment: self.fragment@,
            layout: self.layout@,
            vertex_buffers: vertex_buffer_views(self.vertex_buffers@),
            topology: self.topology,
            raster: self.raster,
            depth: self.depth,
            targets: target_views(self.targets@),
        }
    }
}

/// Copy vertex-buffer layouts.
fn clone_layouts(layouts: &Vec<VertexBufferLayout>) -> (r: Vec<VertexBufferLayout>)
    ensures
        vertex_buffer_views(r@) == vertex_buffer_views(layouts@),
        r@.len() == layouts@.len(),
{
    let mut result: Vec<VertexBufferLayout> = Vec::new();
    let mut i: usize = 0;
    while i < layouts.len()
        invariant
            i <= layouts@.len(),
            result@.len() == i,
            forall|k: int| 0 <= k < i ==> (#[trigger] result@[k])@ == layouts@[k]@,
        decreases layouts@.len() - i,
    {
        result.push(layouts[i].clone());
        i = i + 1;
    }
    assert(vertex_buffer_views(result@) =~= vertex_buffer_views(layouts@));
    result
}

impl Clone for ProgrammableRenderPipelineDesc {
    fn clone(&self) -> (r: Self)
        ensures
            r@ == self@,
    {
        proof {
            use_type_invariant(self);
        }
        let targets = vstd::slice::slice_to_vec(self.targets.as_slice());
        Self {
            vertex: self.vertex.clone(),
            fragment: self.fragment.clone(),
            layout: self.layout.clone(),
            vertex_buffers: clone_layouts(&self.vertex_buffers),
            topology: self.topology,
            raster: self.raster,
            depth: self.depth,
            targets,
        }
    }
}

impl ProgrammableRenderPipelineDesc {
    #[verifier::type_invariant]
    spec fn well_formed(self) -> bool {
        &&& 1 <= self.targets@.len() <= MAX_COLOR_ATTACHMENTS
        &&& self.vertex_buffers@.len() <= MAX_VERTEX_BUFFERS
    }

    /// Construct a programmable graphics pipeline with one color output that
    /// writes every channel. `None` enables vertex-index-generated geometry.
    ///
    /// Returns `Error::InvalidDescriptor` for an entry point of another stage or
    /// a depth color target.
    pub fn new(
        vertex: ShaderEntryPoint,
        fragment: ShaderEntryPoint,
        layout: PipelineLayoutDesc,
        target_format: TextureFormat,
        vertex_buffer: Option<VertexBufferLayout>,
        topology: PrimitiveTopology,
        blend: BlendState,
        raster: RasterState,
    ) -> (r: Result<Self, Error>)
        ensures
            match r {
                Ok(desc) => vertex@.stage == ShaderStage::Vertex && fragment@.stage
                    == ShaderStage::Fragment && target_format != TextureFormat::Depth32Float
                    && desc@.vertex == vertex@ && desc@.fragment == fragment@ && desc@.layout
                    == layout@ && desc@.topology == topology && desc@.raster == raster
                    && desc@.depth is None && desc@.vertex_buffers == (match vertex_buffer {
                    Some(buffer) => seq![buffer@],
                    None => Seq::empty(),
                }) && desc@.targets.len() == 1 && desc@.targets[0].format == target_format
                    && desc@.targets[0].blend == blend && desc@.targets[0].write_mask@ == 15,
                Err(error) => error == Error::InvalidDescriptor && !(vertex@.stage
                    == ShaderStage::Vertex && fragment@.stage == ShaderStage::Fragment
                    && target_format != TextureFormat::Depth32Float),
            },
    {
        if vertex.stage != ShaderStage::Vertex || fragment.stage != ShaderStage::Fragment {
            return Err(Error::InvalidDescriptor);
        }
        let target = match ColorTargetState::new(target_format, blend, ColorWriteMask::all()) {
            Ok(target) => target,
            Err(error) => return Err(error),
        };
        let mut vertex_buffers: Vec<VertexBufferLayout> = Vec::new();
        let ghost expected: Seq<VertexBufferLayoutView> = if vertex_buffer is Some {
            seq![vertex_buffer->0@]
        } else {
            Seq::empty()
        };
        match vertex_buffer {
            Some(buffer) => vertex_buffers.push(buffer),
            None => {},
        }
        let mut targets: Vec<ColorTargetState> = Vec::new();
        targets.push(target);
        assert(vertex_buffer_views(vertex_buffers@) =~= expected);
        Ok(
            Self {
                vertex,
                fragment,
                layout,
                vertex_buffers,
                topology,
                raster,
                depth: None,
                targets,
            },
        )
    }

    /// Replace fragment output formats and per-output blend and write state.
    ///
    /// Returns `Error::InvalidDescriptor` for no output or more than eight.
    pub fn with_color_targets(self, targets: Vec<ColorTargetState>) -> (r: Result<Self, Error>)
        ensures
            match r {
                Ok(desc) => 1 <= targets@.len() <= MAX_COLOR_ATTACHMENTS && desc@ == (
                ProgrammablePipelineView { targets: target_views(targets@), ..self@ }),
                Err(error) => error == Error::InvalidDescriptor && !(1 <= targets@.len()
                    <= MAX_COLOR_ATTACHMENTS),
            },
    {
        proof {
            use_type_invariant(&self);
        }
        if targets.is_empty() || targets.len() > MAX_COLOR_ATTACHMENTS {
            return Err(Error::InvalidDescriptor);
        }
        Ok(
            Self {
                vertex: self.vertex,
                fragment: self.fragment,
                layout: self.layout,
                vertex_buffers: self.vertex_buffers,
                topology: self.topology,
                raster: self.raster,
                depth: self.depth,
                targets,
            },
        )
    }

    /// Return fragment outputs in location order.
    pub fn color_targets(&self) -> (r: &[ColorTargetState])
        ensures
            target_views(r@) == self@.targets,
            1 <= r@.len() <= MAX_COLOR_ATTACHMENTS,
    {
        proof {
            use_type_invariant(self);
        }
        self.targets.as_slice()
    }

    /// Replace vertex input with consecutive buffer slots. Attribute locations
    /// must be unique across slots and respect the total attribute limit.
    ///
    /// Returns `Error::ResourceLimitExceeded` for more than eight slots, or
    /// `Error::InvalidDescriptor` for a location that is repeated or too large.
    pub fn with_vertex_buffers(self, buffers: Vec<VertexBufferLayout>) -> (r: Result<Self, Error>)
        ensures
            match r {
                Ok(desc) => buffers@.len() <= MAX_VERTEX_BUFFERS && locations_valid(
                    vertex_buffer_views(buffers@),
                ) && desc@ == (ProgrammablePipelineView {
                    vertex_buffers: vertex_buffer_views(buffers@),
                    ..self@
                }),
                Err(error) => error == (if buffers@.len() > MAX_VERTEX_BUFFERS {
                    Error::ResourceLimitExceeded
                } else {
                    Error::InvalidDescriptor
                }) && (buffers@.len() <= MAX_VERTEX_BUFFERS ==> !locations_valid(
                    vertex_buffer_views(buffers@),
                )),
            },
    {
        proof {
            use_type_invariant(&self);
        }
        if buffers.len() > MAX_VERTEX_BUFFERS {
            return Err(Error::ResourceLimitExceeded);
        }
        let ghost views = vertex_buffer_views(buffers@);
        let mut b: usize = 0;
        while b < buffers.len()
            invariant
                b <= buffers@.len() <= MAX_VERTEX_BUFFERS,
                views == vertex_buffer_views(buffers@),
                forall|c: int, j: int|
                    0 <= c < b && 0 <= j < (#[trigger] views[c]).attributes.len()
                        ==> #[trigger] location_is_new(views, c, j),
            decreases buffers@.len() - b,
        {
            let attributes = buffers[b].attributes();
            assert(attributes@ == views[b as int].attributes);
            let mut i: usize = 0;
            while i < attributes.len()
                invariant
                    b < buffers@.len() <= MAX_VERTEX_BUFFERS,
                    i <= attributes@.len(),
                    attributes@ == views[b as int].attributes,
                    views == vertex_buffer_views(buffers@),
                    forall|j: int| 0 <= j < i ==> #[trigger] location_is_new(views, b as int, j),
                decreases attributes@.len() - i,
            {
                if !is_new_location(&buffers, b, i) {
                    assert(b < views.len() && i < views[b as int].attributes.len());
                    assert(!location_is_new(views, b as int, i as int));
                    return Err(Error::InvalidDescriptor);
                }
                i = i + 1;
            }
            b = b + 1;
        }
        Ok(
            Self {
                vertex: self.vertex,
                fragment: self.fragment,
                layout: self.layout,
                vertex_buffers: buffers,
                topology: self.topology,
                raster: self.raster,
                depth: self.depth,
                targets: self.targets,
            },
        )
    }

    /// Return the layouts indexed by vertex buffer slot, at most eight.
    pub fn vertex_buffers(&self) -> (r: &[VertexBufferLayout])
        ensures
            vertex_buffer_views(r@) == self@.vertex_buffers,
            r@.len() <= MAX_VERTEX_BUFFERS,
    {
        proof {
            use_type_invariant(self);
        }
        self.vertex_buffers.as_slice()
    }

    /// Add depth testing and optional depth writes.
    ///
    /// Returns `Error::InvalidDescriptor` for a format other than `Depth32Float`.
    pub fn with_depth_state(self, depth: DepthState) -> (r: Result<Self, Error>)
        ensures
            match r {
                Ok(desc) => depth.format == TextureFormat::Depth32Float && desc@ == (
                ProgrammablePipelineView { depth: Some(depth), ..self@ }),
                Err(error) => error == Error::InvalidDescriptor && depth.format
                    != TextureFormat::Depth32Float,
            },
    {
        proof {
            use_type_invariant(&self);
        }
        if depth.format() != TextureFormat::Depth32Float {
            return Err(Error::InvalidDescriptor);
        }
        Ok(
            Self {
                vertex: self.vertex,
                fragment: self.fragment,
                layout: self.layout,
                vertex_buffers: self.vertex_buffers,
                topology: self.topology,
                raster: self.raster,
                depth: Some(depth),
                targets: self.targets,
            },
        )
    }

    /// Return the vertex entry point.
    pub fn vertex(&self) -> (r: &ShaderEntryPoint)
        ensures
            r@ == self@.vertex,
    {
        &self.vertex
    }

    /// Return the fragment entry point.
    pub fn fragment(&self) -> (r: &ShaderEntryPoint)
        ensures
            r@ == self@.fragment,
    {
        &self.fragment
    }

    /// Return the pipeline's descriptor-set layout.
    pub fn layout(&self) -> (r: &PipelineLayoutDesc)
        ensures
            r@ == self@.layout,
    {
        &self.layout
    }

    /// Return the format of the first color output.
    pub fn target_format(&self) -> (r: TextureFormat)
        ensures
            r == self@.targets[0].format,
    {
        proof {
            use_type_invariant(self);
        }
        self.targets[0].format()
    }

    /// Return the layout of the first vertex buffer slot, if there is one.
    pub fn vertex_buffer(&self) -> (r: Option<&VertexBufferLayout>)
        ensures
            match r {
                Some(layout) => self@.vertex_buffers.len() > 0 && layout@
                    == self@.vertex_buffers[0],
                None => self@.vertex_buffers.len() == 0,
            },
    {
        if self.vertex_buffers.is_empty() {
            None
        } else {
            Some(&self.vertex_buffers[0])
        }
    }

    /// Return the primitive assembly mode.
    pub fn topology(&self) -> (r: PrimitiveTopology)
        ensures
            r == self@.topology,
    {
        self.topology
    }

    /// Return the blending of the first color output.
    pub fn blend(&self) -> (r: BlendState)
        ensures
            r == self@.targets[0].blend,
    {
        proof {
            use_type_invariant(self);
        }
        self.targets[0].blend()
    }

    /// Return face culling and winding.
    pub fn raster(&self) -> (r: RasterState)
        ensures
            r == self@.raster,
    {
        self.raster
    }

    /// Return the depth testing state, if there is one.
    pub fn depth_state(&self) -> (r: Option<DepthState>)
        ensures
            r == self@.depth,
    {
        self.depth
    }
}

/// Return whether attribute `i` of buffer `b` has a location in range that no
/// attribute before it has.
fn is_new_location(buffers: &Vec<VertexBufferLayout>, b: usize, i: usize) -> (r: bool)
    requires
        b < buffers@.len(),
        i < buffers@[b as int]@.attributes.len(),
    ensures
        r == location_is_new(vertex_buffer_views(buffers@), b as int, i as int),
{
    let ghost views = vertex_buffer_views(buffers@);
    let location: u32 = buffers[b].attributes()[i].location;
    if location as usize >= MAX_VERTEX_ATTRIBUTES {
        return false;
    }
    let mut c: usize = 0;
    while c <= b
        invariant
            c <= b + 1,
            b < buffers.len(),
            views == vertex_buffer_views(buffers@),
            i < views[b as int].attributes.len(),
            location == views[b as int].attributes[i as int].location,
            forall|d: int, j: int|
                0 <= d < c && 0 <= j < views[d].attributes.len() && (d < b || j < i)
                    ==> (#[trigger] views[d].attributes[j]).location != location,
        decreases b + 1 - c,
    {
        let attributes = buffers[c].attributes();
        let end: usize = if c < b {
            attributes.len()
        } else {
            i
        };
        let mut j: usize = 0;
        while j < end
            invariant
                c <= b < buffers.len(),
                views == vertex_buffer_views(buffers@),
                i < views[b as int].attributes.len(),
                attributes@ == views[c as int].attributes,
                end <= attributes@.len(),
                end == (if c < b {
                    attributes@.len()
                } else {
                    i as nat
                }),
                j <= end,
                location == views[b as int].attributes[i as int].location,
                forall|k: int|
                    0 <= k < j ==> (#[trigger] views[c as int].attributes[k]).location != location,
            decreases end - j,
        {
            if attributes[j].location == location {
                assert(views[c as int].attributes[j as int].location == location);
                return false;
            }
            j = j + 1;
        }
        c = c + 1;
    }
    true
}

/// Whole-buffer access scope for an explicit dependency.
#[derive(Debug, Clone, Copy, PartialEq, Eq, Structural)]
pub enum BufferAccess {
    /// Copy and upload writes.
    CopyDestination,
    /// Copy reads.
    CopySource,
    /// Vertex fetch.
    Vertex,
    /// Index fetch.
    Index,
    /// Uniform reads in any shader stage.
    Uniform,
    /// Read-only storage access in any shader stage.
    StorageRead,
    /// Storage reads and writes in any shader stage.
    StorageReadWrite,
}

impl BufferAccess {
    /// The usage bit that an access needs.
    pub open spec fn usage_bit(self) -> u8 {
        match self {
            BufferAccess::CopyDestination => BufferUsage::COPY_DST_BIT,
            BufferAccess::CopySource => BufferUsage::COPY_SRC_BIT,
            BufferAccess::Vertex => BufferUsage::VERTEX_BIT,
            BufferAccess::Index => BufferUsage::INDEX_BIT,
            BufferAccess::Uniform => BufferUsage::UNIFORM_BIT,
            BufferAccess::StorageRead | BufferAccess::StorageReadWrite => BufferUsage::STORAGE_BIT,
        }
    }

    /// Return the usage that an access needs.
    pub fn usage(self) -> (r: BufferUsage)
        ensures
            r@ == self.usage_bit(),
    {
        match self {
            BufferAccess::CopyDestination => BufferUsage::copy_dst(),
            BufferAccess::CopySource => BufferUsage::copy_src(),
            BufferAccess::Vertex => BufferUsage::vertex(),
            BufferAccess::Index => BufferUsage::index(),
            BufferAccess::Uniform => BufferUsage::uniform(),
            BufferAccess::StorageRead | BufferAccess::StorageReadWrite => BufferUsage::storage(),
        }
    }
}

/// Texture access scope; sampled images may contain multiple mip levels.
#[derive(Debug, Clone, Copy, PartialEq, Eq, Structural)]
pub enum TextureAccess {
    /// Copy and upload writes.
    CopyDestination,
    /// Copy reads.
    CopySource,
    /// Shader sampling.
    Sampled,
    /// Color or depth attachment operations.
    RenderAttachment,
    /// Shader storage writes.
    StorageWrite,
}

impl TextureAccess {
    /// The usage bit that an access needs.
    pub open spec fn usage_bit(self) -> u8 {
        match self {
            TextureAccess::CopyDestination => TextureUsage::COPY_DST_BIT,
            TextureAccess::CopySource => TextureUsage::COPY_SRC_BIT,
            TextureAccess::Sampled => TextureUsage::SAMPLED_BIT,
            TextureAccess::RenderAttachment => TextureUsage::RENDER_ATTACHMENT_BIT,
            TextureAccess::StorageWrite => TextureUsage::STORAGE_BIT,
        }
    }

    /// Return the usage that an access needs.
    pub fn usage(self) -> (r: TextureUsage)
        ensures
            r@ == self.usage_bit(),
    {
        match self {
            TextureAccess::CopyDestination => TextureUsage::copy_dst(),
            TextureAccess::CopySource => TextureUsage::copy_src(),
            TextureAccess::Sampled => TextureUsage::sampled(),
            TextureAccess::RenderAttachment => TextureUsage::render_attachment(),
            TextureAccess::StorageWrite => TextureUsage::storage(),
        }
    }
}

/// An explicit execution and memory dependency between resource accesses.
#[allow(inconsistent_fields)]
#[derive(Debug, Clone, Copy, PartialEq, Eq, Structural)]
pub enum ResourceBarrier {
    /// Synchronize a buffer's accesses.
    Buffer {
        /// Resource.
        buffer: BufferRef,
        /// Previous access.
        before: BufferAccess,
        /// Subsequent access.
        after: BufferAccess,
    },
    /// Synchronize a texture's accesses.
    Texture {
        /// Resource.
        texture: TextureRef,
        /// Previous access.
        before: TextureAccess,
        /// Subsequent access.
        after: TextureAccess,
    },
    /// Synchronize one mip level independently of the other levels.
    TextureMip {
        /// Resource.
        texture: TextureRef,
        /// Checked mip level.
        mip_level: u32,
        /// Previous access.
        before: TextureAccess,
        /// Subsequent access.
        after: TextureAccess,
    },
}

} // verus!
