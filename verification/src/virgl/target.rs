//! Encoding of one render pass.

use crate::driver::{
    DrawView, HandleError, IrDraw, IrFragmentProgram, IrRect, IrSamplerState, IrSubmission,
    IrTextureSpec, IrTextureUpload, IrVertex, SubmissionView, UploadView, VertexView,
    MAX_IR_VERTICES,
};
use crate::ir::float::is_finite;
use crate::virgl::encoding::{blend_word, ir_rasterizer_flags, sampler_word};
use crate::virgl::protocol::{
    push_bind_object, push_bind_shader, push_blend, push_clear, push_clear_surface,
    push_constant_buffer, push_draw_vbo, push_framebuffer, push_inline_write, push_rasterizer,
    push_sampler_state, push_sampler_state_binding, push_sampler_view, push_sampler_view_binding,
    push_scissor, push_shader, push_surface, push_two_vertex_elements, push_vertex_buffer,
    push_viewport, FORMAT_R32G32B32A32_FLOAT, OBJECT_BLEND, OBJECT_RASTERIZER,
    OBJECT_VERTEX_ELEMENTS, SHADER_FRAGMENT, SHADER_VERTEX,
};
use crate::virgl::resources::{
    DeviceView, IrPipeline, IrResources, IrSampler, IrTexture, PassInterruption, ProgramHandles,
};
use crate::virgl::shaders::{
    IR_SOLID_FRAGMENT_SHADER, IR_TEXTURE_ALPHA_MASK_FRAGMENT_SHADER,
    IR_TEXTURE_RGBA_FRAGMENT_SHADER, IR_TEXTURE_RGB_IGNORE_ALPHA_FRAGMENT_SHADER,
    IR_VERTEX_COLOR_FRAGMENT_SHADER, IR_VERTEX_SHADER,
};
use crate::virgl::state::{Context, Image, Queue, Texture};
use crate::memory::Memory;
use vstd::prelude::*;

verus! {

/// Bytes of one pass vertex.
pub const IR_VERTEX_BYTES: u32 = 32;

/// Words reserved for a pass.
pub const IR_PASS_WORDS: usize = 4_096;

/// A surface that a pass renders into.
#[derive(Debug, Clone, Copy, PartialEq, Eq, Structural)]
pub struct IrPassTarget {
    /// Resource identity.
    pub resource_id: u32,
    /// Surface handle.
    pub surface_handle: u32,
    /// Whether the surface exists.
    pub surface_initialized: bool,
    /// Width in pixels.
    pub width: u32,
    /// Height in pixels.
    pub height: u32,
}

/// Whether every number is finite.
pub open spec fn all_finite(values: Seq<u32>) -> bool {
    forall|i: int| 0 <= i < values.len() ==> crate::ir::float::finite(#[trigger] values[i])
}

fn is_all_finite(values: &[u32]) -> (r: bool)
    ensures
        r == all_finite(values@),
{
    let mut i: usize = 0;
    while i < values.len()
        invariant
            i <= values@.len(),
            forall|j: int| 0 <= j < i ==> crate::ir::float::finite(#[trigger] values@[j]),
        decreases values.len() - i,
    {
        if !is_finite(values[i]) {
            assert(!crate::ir::float::finite(values@[i as int]));
            return false;
        }
        i = i + 1;
    }
    true
}

/// Whether a draw suits the device: whole triangles of the submitted vertices, a
/// scissor within the target, finite uniforms, and a texture with a sampler
/// exactly where the fragment program samples.
pub open spec fn valid_draw(
    resources: DeviceView,
    target_width: u32,
    target_height: u32,
    draw: DrawView,
    vertex_count: nat,
) -> bool {
    &&& draw.start_vertex + draw.vertex_count <= usize::MAX
    &&& draw.vertex_count != 0
    &&& draw.vertex_count % 3 == 0
    &&& draw.start_vertex + draw.vertex_count <= vertex_count
    &&& draw.scissor.is_within(target_width, target_height)
    &&& all_finite(draw.uniforms.transform)
    &&& all_finite(draw.uniforms.color)
    &&& draw.pipeline.slot < resources.pipelines.len()
    &&& if draw.pipeline.fragment.samples() {
        &&& draw.texture is Some
        &&& draw.texture->0.width != 0
        &&& draw.texture->0.height != 0
        &&& draw.texture->0.sampled
        &&& draw.texture->0.slot < resources.textures.len()
        &&& draw.sampler is Some
    } else {
        draw.texture is None && draw.sampler is None
    }
}

/// Return whether a draw suits the device.
///
/// Fails with `HandleError::InvalidParameter` where it does not.
pub fn validate_ir_draw(
    resources: &IrResources,
    target_width: u32,
    target_height: u32,
    draw: &IrDraw,
    vertices_len: usize,
) -> (r: Result<(), HandleError>)
    ensures
        r == (if valid_draw(
            resources@,
            target_width,
            target_height,
            draw@,
            vertices_len as nat,
        ) {
            Ok(())
        } else {
            Err(HandleError::InvalidParameter)
        }),
{
    if draw.vertex_count == 0 || draw.vertex_count % 3 != 0 || draw.vertex_count > vertices_len
        || draw.start_vertex > vertices_len - draw.vertex_count || !draw.scissor.is_within(
        target_width,
        target_height,
    ) || !is_all_finite(&draw.uniforms.transform) || !is_all_finite(&draw.uniforms.color)
        || draw.pipeline.slot >= resources.pipelines.len() {
        return Err(HandleError::InvalidParameter);
    }
    if draw.pipeline.fragment.samples() {
        match draw.texture {
            None => {
                return Err(HandleError::InvalidParameter);
            },
            Some(texture) => {
                if texture.width == 0 || texture.height == 0 || !texture.sampled || texture.slot
                    >= resources.textures.len() || draw.sampler.is_none() {
                    return Err(HandleError::InvalidParameter);
                }
            },
        }
    } else if draw.texture.is_some() || draw.sampler.is_some() {
        return Err(HandleError::InvalidParameter);
    }
    Ok(())
}

/// Programs that all passes share.
pub open spec fn ir_setup_words(programs: ProgramHandles) -> Seq<u32> {
    crate::virgl::protocol::shader_words(
        programs.vertex_shader,
        SHADER_VERTEX,
        vstd::utf8::encode_utf8(IR_VERTEX_SHADER@),
    ) + crate::virgl::protocol::shader_words(
        programs.solid_fragment_shader,
        SHADER_FRAGMENT,
        vstd::utf8::encode_utf8(IR_SOLID_FRAGMENT_SHADER@),
    ) + crate::virgl::protocol::shader_words(
        programs.vertex_color_fragment_shader,
        SHADER_FRAGMENT,
        vstd::utf8::encode_utf8(IR_VERTEX_COLOR_FRAGMENT_SHADER@),
    ) + crate::virgl::protocol::shader_words(
        programs.texture_rgba_fragment_shader,
        SHADER_FRAGMENT,
        vstd::utf8::encode_utf8(IR_TEXTURE_RGBA_FRAGMENT_SHADER@),
    ) + crate::virgl::protocol::shader_words(
        programs.texture_rgb_ignore_alpha_fragment_shader,
        SHADER_FRAGMENT,
        vstd::utf8::encode_utf8(IR_TEXTURE_RGB_IGNORE_ALPHA_FRAGMENT_SHADER@),
    ) + crate::virgl::protocol::shader_words(
        programs.texture_alpha_mask_fragment_shader,
        SHADER_FRAGMENT,
        vstd::utf8::encode_utf8(IR_TEXTURE_ALPHA_MASK_FRAGMENT_SHADER@),
    ) + crate::virgl::protocol::two_vertex_elements_words(
        programs.vertex_elements,
        FORMAT_R32G32B32A32_FLOAT,
    )
}

/// Append the programs that all passes share.
pub fn push_ir_setup(commands: &mut Vec<u32>, programs: ProgramHandles)
    ensures
        final(commands)@ == old(commands)@ + ir_setup_words(programs),
{
    let ghost before = commands@;
    push_shader(commands, programs.vertex_shader, SHADER_VERTEX, IR_VERTEX_SHADER);
    push_shader(
        commands,
        programs.solid_fragment_shader,
        SHADER_FRAGMENT,
        IR_SOLID_FRAGMENT_SHADER,
    );
    push_shader(
        commands,
        programs.vertex_color_fragment_shader,
        SHADER_FRAGMENT,
        IR_VERTEX_COLOR_FRAGMENT_SHADER,
    );
    push_shader(
        commands,
        programs.texture_rgba_fragment_shader,
        SHADER_FRAGMENT,
        IR_TEXTURE_RGBA_FRAGMENT_SHADER,
    );
    push_shader(
        commands,
        programs.texture_rgb_ignore_alpha_fragment_shader,
        SHADER_FRAGMENT,
        IR_TEXTURE_RGB_IGNORE_ALPHA_FRAGMENT_SHADER,
    );
    push_shader(
        commands,
        programs.texture_alpha_mask_fragment_shader,
        SHADER_FRAGMENT,
        IR_TEXTURE_ALPHA_MASK_FRAGMENT_SHADER,
    );
    push_two_vertex_elements(commands, programs.vertex_elements, FORMAT_R32G32B32A32_FLOAT);
    assert(commands@ =~= before + ir_setup_words(programs));
}

/// The objects of a pipeline.
pub open spec fn ir_pipeline_words(pipeline: IrPipeline) -> Seq<u32> {
    crate::virgl::protocol::blend_words(pipeline.blend_handle, blend_word(pipeline.state.blend))
        + crate::virgl::protocol::rasterizer_words(
        pipeline.rasterizer_handle,
        ir_rasterizer_flags(pipeline.state.cull_mode, pipeline.state.front_face),
    )
}

/// Append the objects of a pipeline.
pub fn push_ir_pipeline(commands: &mut Vec<u32>, pipeline: IrPipeline)
    ensures
        final(commands)@ == old(commands)@ + ir_pipeline_words(pipeline),
{
    let ghost before = commands@;
    push_blend(commands, pipeline.blend_handle, blend_word(pipeline.state.blend));
    push_rasterizer(
        commands,
        pipeline.rasterizer_handle,
        ir_rasterizer_flags(pipeline.state.cull_mode, pipeline.state.front_face),
    );
    assert(commands@ =~= before + ir_pipeline_words(pipeline));
}

/// What encoding a pass has found and created so far.
#[verifier::ext_equal]
pub struct PreparationView {
    pub context: Context,
    pub resources: DeviceView,
    pub words: Seq<u32>,
    pub samplers: Seq<usize>,
    pub pipelines: Seq<usize>,
    pub views: Seq<usize>,
}

/// A preparation and how it went.
pub type Prepared = (PreparationView, Result<(), PassInterruption>);

impl PreparationView {
    /// Create the view of a texture, unless it exists or is about to.
    pub open spec fn with_view(self, slot: usize, texture: IrTexture) -> Self {
        if texture.sampler_view_initialized() || self.views.contains(slot) {
            self
        } else {
            PreparationView {
                words: self.words + crate::virgl::protocol::sampler_view_words(
                    texture.sampler_view_handle(),
                    texture.resource_id(),
                ),
                views: self.views.push(slot),
                ..self
            }
        }
    }

    /// Find a texture and create its view.
    pub open spec fn texture(self, spec: IrTextureSpec) -> Prepared {
        let found = self.resources.ir_texture(spec);
        let next = PreparationView { resources: found.0, ..self };
        match found.1 {
            Err(interruption) => (next, Err(interruption)),
            Ok(texture) => (next.with_view(spec.slot, texture), Ok(())),
        }
    }

    /// Find or make a pipeline and create its objects.
    pub open spec fn pipeline(self, state: crate::driver::IrPipelineState) -> Prepared {
        let found = self.resources.ir_pipeline(self.context, state);
        let next = PreparationView { resources: found.0, context: found.1, ..self };
        match found.2 {
            Err(interruption) => (next, Err(interruption)),
            Ok(pipeline) => if pipeline.initialized || self.pipelines.contains(state.slot) {
                (next, Ok(()))
            } else {
                (
                    PreparationView {
                        words: next.words + ir_pipeline_words(pipeline),
                        pipelines: next.pipelines.push(state.slot),
                        ..next
                    },
                    Ok(()),
                )
            },
        }
    }

    /// Find or make a sampler and create its object.
    pub open spec fn sampler(self, state: IrSamplerState) -> Prepared {
        let found = self.resources.ir_sampler(self.context, state);
        let next = PreparationView { resources: found.0, context: found.1, ..self };
        match found.2 {
            Err(interruption) => (next, Err(interruption)),
            Ok(sampler) => if sampler.initialized || self.samplers.contains(state.slot) {
                (next, Ok(()))
            } else {
                (
                    PreparationView {
                        words: next.words + crate::virgl::protocol::sampler_state_words(
                            sampler.handle,
                            sampler_word(sampler.state),
                        ),
                        samplers: next.samplers.push(state.slot),
                        ..next
                    },
                    Ok(()),
                )
            },
        }
    }

    /// Prepare everything that a draw uses.
    pub open spec fn draw(
        self,
        target_width: u32,
        target_height: u32,
        draw: DrawView,
        vertex_count: nat,
    ) -> Prepared {
        if !valid_draw(self.resources, target_width, target_height, draw, vertex_count) {
            (self, Err(PassInterruption::Failed(HandleError::InvalidParameter)))
        } else {
            let first = self.pipeline(draw.pipeline);
            if first.1 is Err || draw.texture is None || draw.sampler is None {
                first
            } else {
                let second = first.0.texture(draw.texture->0);
                if second.1 is Err {
                    second
                } else {
                    second.0.sampler(draw.sampler->0)
                }
            }
        }
    }

    /// Prepare the first uploads.
    pub open spec fn uploads(self, uploads: Seq<UploadView>) -> Prepared
        decreases uploads.len(),
    {
        if uploads.len() == 0 {
            (self, Ok(()))
        } else {
            let earlier = self.uploads(uploads.drop_last());
            if earlier.1 is Err {
                earlier
            } else {
                earlier.0.texture(uploads.last().texture)
            }
        }
    }

    /// Prepare the first draws.
    pub open spec fn draws(
        self,
        target_width: u32,
        target_height: u32,
        draws: Seq<DrawView>,
        vertex_count: nat,
    ) -> Prepared
        decreases draws.len(),
    {
        if draws.len() == 0 {
            (self, Ok(()))
        } else {
            let earlier = self.draws(
                target_width,
                target_height,
                draws.drop_last(),
                vertex_count,
            );
            if earlier.1 is Err {
                earlier
            } else {
                earlier.0.draw(target_width, target_height, draws.last(), vertex_count)
            }
        }
    }
}

/// The fragment shader of a program.
pub open spec fn spec_ir_fragment_shader_handle(
    programs: ProgramHandles,
    fragment: IrFragmentProgram,
) -> u32 {
    match fragment {
        IrFragmentProgram::Solid => programs.solid_fragment_shader,
        IrFragmentProgram::VertexColor => programs.vertex_color_fragment_shader,
        IrFragmentProgram::TextureRgba => programs.texture_rgba_fragment_shader,
        IrFragmentProgram::TextureRgbIgnoreAlpha =>
            programs.texture_rgb_ignore_alpha_fragment_shader,
        IrFragmentProgram::TextureAlphaMask => programs.texture_alpha_mask_fragment_shader,
    }
}

/// Return the fragment shader of a program.
#[verifier::when_used_as_spec(spec_ir_fragment_shader_handle)]
pub fn ir_fragment_shader_handle(programs: ProgramHandles, fragment: IrFragmentProgram) -> (r: u32)
    ensures
        r == spec_ir_fragment_shader_handle(programs, fragment),
{
    match fragment {
        IrFragmentProgram::Solid => programs.solid_fragment_shader,
        IrFragmentProgram::VertexColor => programs.vertex_color_fragment_shader,
        IrFragmentProgram::TextureRgba => programs.texture_rgba_fragment_shader,
        IrFragmentProgram::TextureRgbIgnoreAlpha =>
            programs.texture_rgb_ignore_alpha_fragment_shader,
        IrFragmentProgram::TextureAlphaMask => programs.texture_alpha_mask_fragment_shader,
    }
}

/// The words that bind the state of a pass.
pub open spec fn ir_bind_words(target: IrPassTarget, resources: DeviceView) -> Seq<u32> {
    crate::virgl::protocol::bind_shader_words(resources.programs.vertex_shader, SHADER_VERTEX)
        + crate::virgl::protocol::bind_object_words(
        OBJECT_VERTEX_ELEMENTS,
        resources.programs.vertex_elements,
    ) + crate::virgl::protocol::framebuffer_words(target.surface_handle)
        + crate::virgl::protocol::vertex_buffer_words(IR_VERTEX_BYTES, resources.vertex_resource_id)
        + crate::virgl::protocol::viewport_words(target.width, target.height)
}

/// The components of vertices, one vertex after the other.
pub open spec fn vertex_words(vertices: Seq<VertexView>) -> Seq<u32>
    decreases vertices.len(),
{
    if vertices.len() == 0 {
        Seq::empty()
    } else {
        vertex_words(vertices.drop_last()) + vertices.last().position + vertices.last().secondary
    }
}

/// Clear the render area: the whole surface at once, or a region of it.
pub open spec fn ir_clear_words(target: IrPassTarget, submission: SubmissionView) -> Seq<u32> {
    match submission.clear_color {
        None => Seq::empty(),
        Some(color) => if submission.render_area == (IrRect {
            x: 0,
            y: 0,
            width: target.width,
            height: target.height,
        }) {
            crate::virgl::protocol::clear_words(color)
        } else {
            crate::virgl::protocol::clear_surface_words(
                target.surface_handle,
                submission.render_area,
                color,
            )
        },
    }
}

/// Whether the objects that a draw uses are in place and its scissor fits.
pub open spec fn encodable_draw(resources: DeviceView, draw: DrawView) -> bool {
    &&& crate::virgl::resources::in_slot(resources.pipelines, draw.pipeline.slot) is Some
    &&& crate::virgl::protocol::scissor_fits(draw.scissor)
    &&& draw.texture is Some && draw.sampler is Some
        ==> crate::virgl::resources::in_slot(resources.textures, draw.texture->0.slot) is Some
        && crate::virgl::resources::in_slot(resources.samplers, draw.sampler->0.slot) is Some
}

/// The words of one draw.
pub open spec fn ir_draw_words(resources: DeviceView, draw: DrawView) -> Seq<u32> {
    let pipeline = crate::virgl::resources::in_slot(resources.pipelines, draw.pipeline.slot)->0;
    crate::virgl::protocol::bind_object_words(OBJECT_BLEND, pipeline.blend_handle)
        + crate::virgl::protocol::bind_object_words(OBJECT_RASTERIZER, pipeline.rasterizer_handle)
        + crate::virgl::protocol::bind_shader_words(
        ir_fragment_shader_handle(resources.programs, draw.pipeline.fragment),
        SHADER_FRAGMENT,
    ) + crate::virgl::protocol::constant_buffer_words(SHADER_VERTEX, draw.uniforms.transform)
        + crate::virgl::protocol::constant_buffer_words(SHADER_FRAGMENT, draw.uniforms.color)
        + crate::virgl::protocol::scissor_words(draw.scissor) + (if draw.texture is Some
        && draw.sampler is Some {
        crate::virgl::protocol::sampler_view_binding_words(
            crate::virgl::resources::in_slot(
                resources.textures,
                draw.texture->0.slot,
            )->0.sampler_view_handle(),
        ) + crate::virgl::protocol::sampler_state_binding_words(
            crate::virgl::resources::in_slot(
                resources.samplers,
                draw.sampler->0.slot,
            )->0.handle,
        )
    } else {
        Seq::empty()
    }) + crate::virgl::protocol::draw_vbo_words(draw.start_vertex as u32, draw.vertex_count as u32)
}

/// The words of the first draws.
pub open spec fn ir_draws_words(resources: DeviceView, draws: Seq<DrawView>) -> Seq<u32>
    decreases draws.len(),
{
    if draws.len() == 0 {
        Seq::empty()
    } else {
        ir_draws_words(resources, draws.drop_last()) + ir_draw_words(resources, draws.last())
    }
}

/// The words of a pass behind those that create its objects.
pub open spec fn ir_pass_words(
    resources: DeviceView,
    target: IrPassTarget,
    submission: SubmissionView,
) -> Seq<u32> {
    ir_bind_words(target, resources) + crate::virgl::protocol::scissor_words(
        submission.render_area,
    ) + ir_clear_words(target, submission) + crate::virgl::protocol::inline_write_words(
        resources.vertex_resource_id,
        vertex_words(submission.vertices),
    ) + ir_draws_words(resources, submission.draws)
}

/// Whether a submission suits a target, before its draws are looked at.
pub open spec fn submittable(
    queue: Queue,
    context: Context,
    resources: DeviceView,
    target: IrPassTarget,
    submission: SubmissionView,
) -> bool {
    &&& queue.context_handle == context.handle
    &&& resources.context_handle == context.handle
    &&& submission.vertices.len() <= MAX_IR_VERTICES
    &&& submission.draws.len() != 0
    &&& submission.render_area.is_within(target.width, target.height)
    &&& submission.clear_color is Some ==> all_finite(submission.clear_color->0)
}

/// What a pass starts from: the programs and the surface, unless they exist.
pub open spec fn preparation(
    context: Context,
    resources: DeviceView,
    target: IrPassTarget,
) -> PreparationView {
    PreparationView {
        context,
        resources,
        words: (if resources.initialized {
            Seq::empty()
        } else {
            ir_setup_words(resources.programs)
        }) + (if target.surface_initialized {
            Seq::empty()
        } else {
            crate::virgl::protocol::surface_words(target.surface_handle, target.resource_id)
        }),
        samplers: Seq::empty(),
        pipelines: Seq::empty(),
        views: Seq::empty(),
    }
}

/// Prepare everything that a submission uses.
pub open spec fn prepared_pass(
    context: Context,
    resources: DeviceView,
    target: IrPassTarget,
    submission: SubmissionView,
) -> Prepared {
    let first = preparation(context, resources, target).uploads(submission.texture_uploads);
    if first.1 is Err {
        first
    } else {
        first.0.draws(
            target.width,
            target.height,
            submission.draws,
            submission.vertices.len(),
        )
    }
}

/// An encoded pass and what exists once it was submitted.
#[derive(Debug)]
pub struct PreparedPass {
    /// Words to submit.
    pub commands: Vec<u32>,
    /// Samplers whose objects the stream creates.
    pub initialized_samplers: Vec<usize>,
    /// Pipelines whose objects the stream creates.
    pub initialized_pipelines: Vec<usize>,
    /// Textures whose views the stream creates.
    pub initialized_views: Vec<usize>,
    /// For each upload of the submission the texture and the bytes of one row. Uploads
    /// are made in order before the words are submitted.
    pub uploads: Vec<(Texture, u32)>,
}

/// Whether every upload has a texture of the table and a region that can be addressed.
pub open spec fn uploadable(resources: DeviceView, uploads: Seq<UploadView>) -> bool {
    forall|i: int|
        0 <= i < uploads.len() ==> crate::virgl::resources::spec_upload_destination(
            resources.textures,
            #[trigger] uploads[i],
        ) is Ok
}

/// Where uploads go.
pub open spec fn upload_destinations(resources: DeviceView, uploads: Seq<UploadView>) -> Seq<
    (Texture, u32),
> {
    Seq::new(
        uploads.len(),
        |i: int|
            crate::virgl::resources::spec_upload_destination(resources.textures, uploads[i])->Ok_0,
    )
}

/// The outcome of encoding a prepared submission into a stream of a greatest size.
pub open spec fn pass_encoded(
    prepared: PreparationView,
    target: IrPassTarget,
    submission: SubmissionView,
    max_command_bytes: u32,
    r: Result<PreparedPass, PassInterruption>,
) -> bool {
    let words = prepared.words + ir_pass_words(prepared.resources, target, submission);
    if crate::virgl::protocol::scissor_fits(submission.render_area) && (forall|i: int|
        0 <= i < submission.draws.len() ==> encodable_draw(
            prepared.resources,
            #[trigger] submission.draws[i],
        )) && 4 * words.len() <= max_command_bytes && uploadable(
        prepared.resources,
        submission.texture_uploads,
    ) {
        &&& r is Ok
        &&& r->Ok_0.commands@ == words
        &&& r->Ok_0.initialized_samplers@ == prepared.samplers
        &&& r->Ok_0.initialized_pipelines@ == prepared.pipelines
        &&& r->Ok_0.initialized_views@ == prepared.views
        &&& r->Ok_0.uploads@ == upload_destinations(
            prepared.resources,
            submission.texture_uploads,
        )
    } else {
        r == Err::<PreparedPass, PassInterruption>(
            PassInterruption::Failed(HandleError::InvalidParameter),
        )
    }
}

/// How encoding a pass ends: with an error and nothing changed, where the submission
/// does not suit or room was refused, or with what preparing and encoding it gives.
pub open spec fn pass_submitted(
    queue: Queue,
    context: Context,
    resources: DeviceView,
    target: IrPassTarget,
    submission: SubmissionView,
    max_command_bytes: u32,
    memory: Memory,
    next_context: Context,
    next_resources: DeviceView,
    r: Result<PreparedPass, PassInterruption>,
) -> bool {
    let prepared = prepared_pass(context, resources, target, submission);
    if !submittable(queue, context, resources, target, submission) {
        &&& r == Err::<PreparedPass, PassInterruption>(
            PassInterruption::Failed(HandleError::InvalidParameter),
        )
        &&& next_resources == resources
        &&& next_context == context
    } else {
        ||| {
            &&& memory.may(false)
            &&& r == Err::<PreparedPass, PassInterruption>(
                PassInterruption::Failed(HandleError::OutOfResources),
            )
            &&& next_resources == resources
            &&& next_context == context
        }
        ||| {
            &&& memory.may(true)
            &&& next_resources == prepared.0.resources
            &&& next_context == prepared.0.context
            &&& match prepared.1 {
                Err(interruption) => r == Err::<PreparedPass, PassInterruption>(interruption),
                Ok(_) => pass_encoded(prepared.0, target, submission, max_command_bytes, r),
            }
        }
    }
}

fn contains(slots: &Vec<usize>, slot: usize) -> (r: bool)
    ensures
        r == slots@.contains(slot),
{
    let mut i: usize = 0;
    while i < slots.len()
        invariant
            i <= slots@.len(),
            forall|j: int| 0 <= j < i ==> slots@[j] != slot,
        decreases slots.len() - i,
    {
        if slots[i] == slot {
            assert(slots@[i as int] == slot);
            return true;
        }
        i = i + 1;
    }
    false
}

/// What encoding a pass has created so far.
struct Preparation {
    commands: Vec<u32>,
    samplers: Vec<usize>,
    pipelines: Vec<usize>,
    views: Vec<usize>,
}

impl Preparation {
    spec fn view_with(self, context: Context, resources: DeviceView) -> PreparationView {
        PreparationView {
            context,
            resources,
            words: self.commands@,
            samplers: self.samplers@,
            pipelines: self.pipelines@,
            views: self.views@,
        }
    }

    fn texture(&mut self, context: &Context, resources: &mut IrResources, spec: IrTextureSpec)
        -> (r: Result<(), PassInterruption>)
        ensures
            (final(self).view_with(*context, final(resources)@), r) == old(self).view_with(
                *context,
                old(resources)@,
            ).texture(spec),
    {
        let texture: IrTexture = match resources.ir_texture(spec) {
            Ok(texture) => texture,
            Err(interruption) => {
                return Err(interruption);
            },
        };
        if !texture.sampler_view_initialized() && !contains(&self.views, spec.slot) {
            push_sampler_view(
                &mut self.commands,
                texture.sampler_view_handle(),
                texture.resource_id(),
            );
            self.views.push(spec.slot);
        }
        Ok(())
    }

    fn pipeline(
        &mut self,
        context: &mut Context,
        resources: &mut IrResources,
        state: crate::driver::IrPipelineState,
    ) -> (r: Result<(), PassInterruption>)
        ensures
            (final(self).view_with(*final(context), final(resources)@), r) == old(self).view_with(
                *old(context),
                old(resources)@,
            ).pipeline(state),
    {
        let pipeline: IrPipeline = match resources.ir_pipeline(context, state) {
            Ok(pipeline) => pipeline,
            Err(interruption) => {
                return Err(interruption);
            },
        };
        if !pipeline.initialized && !contains(&self.pipelines, state.slot) {
            push_ir_pipeline(&mut self.commands, pipeline);
            self.pipelines.push(state.slot);
        }
        Ok(())
    }

    fn sampler(
        &mut self,
        context: &mut Context,
        resources: &mut IrResources,
        state: IrSamplerState,
    ) -> (r: Result<(), PassInterruption>)
        ensures
            (final(self).view_with(*final(context), final(resources)@), r) == old(self).view_with(
                *old(context),
                old(resources)@,
            ).sampler(state),
    {
        let sampler: IrSampler = match resources.ir_sampler(context, state) {
            Ok(sampler) => sampler,
            Err(interruption) => {
                return Err(interruption);
            },
        };
        if !sampler.initialized && !contains(&self.samplers, state.slot) {
            push_sampler_state(&mut self.commands, sampler.handle, sampler_word(sampler.state));
            self.samplers.push(state.slot);
        }
        Ok(())
    }

    fn draw(
        &mut self,
        context: &mut Context,
        resources: &mut IrResources,
        target_width: u32,
        target_height: u32,
        draw: &IrDraw,
        vertices_len: usize,
    ) -> (r: Result<(), PassInterruption>)
        ensures
            (final(self).view_with(*final(context), final(resources)@), r) == old(self).view_with(
                *old(context),
                old(resources)@,
            ).draw(target_width, target_height, draw@, vertices_len as nat),
    {
        match validate_ir_draw(resources, target_width, target_height, draw, vertices_len) {
            Ok(()) => {},
            Err(error) => {
                return Err(PassInterruption::Failed(error));
            },
        }
        match self.pipeline(context, resources, draw.pipeline) {
            Ok(()) => {},
            Err(interruption) => {
                return Err(interruption);
            },
        }
        match (draw.texture, draw.sampler) {
            (Some(texture), Some(sampler)) => {
                match self.texture(context, resources, texture) {
                    Ok(()) => {},
                    Err(interruption) => {
                        return Err(interruption);
                    },
                }
                self.sampler(context, resources, sampler)
            },
            _ => Ok(()),
        }
    }
}

fn push_vertices(words: &mut Vec<u32>, vertices: &Vec<IrVertex>)
    ensures
        final(words)@ == old(words)@ + vertex_words(crate::driver::vertex_views(vertices@)),
{
    let ghost before = words@;
    let ghost views = crate::driver::vertex_views(vertices@);
    let mut i: usize = 0;
    assert(before + vertex_words(views.take(0)) =~= before);
    while i < vertices.len()
        invariant
            i <= vertices@.len(),
            views == crate::driver::vertex_views(vertices@),
            words@ == before + vertex_words(views.take(i as int)),
        decreases vertices.len() - i,
    {
        let vertex: IrVertex = vertices[i];
        proof {
            assert(views.take(i + 1).drop_last() =~= views.take(i as int));
            assert(views.take(i + 1).last() == vertex@);
        }
        let ghost earlier = words@;
        crate::virgl::protocol::push_words(words, &vertex.position);
        crate::virgl::protocol::push_words(words, &vertex.secondary);
        assert(words@ =~= before + vertex_words(views.take(i + 1)));
        i = i + 1;
    }
    assert(views.take(i as int) =~= views);
}

fn push_ir_bind_pass_state(commands: &mut Vec<u32>, target: IrPassTarget, resources: &IrResources)
    ensures
        final(commands)@ == old(commands)@ + ir_bind_words(target, resources@),
{
    let ghost before = commands@;
    push_bind_shader(commands, resources.programs.vertex_shader, SHADER_VERTEX);
    push_bind_object(commands, OBJECT_VERTEX_ELEMENTS, resources.programs.vertex_elements);
    push_framebuffer(commands, target.surface_handle);
    push_vertex_buffer(commands, IR_VERTEX_BYTES, resources.vertex_resource_id);
    push_viewport(commands, target.width, target.height);
    assert(commands@ =~= before + ir_bind_words(target, resources@));
}

fn push_ir_clear(commands: &mut Vec<u32>, target: IrPassTarget, submission: &IrSubmission)
    ensures
        final(commands)@ == old(commands)@ + ir_clear_words(target, submission@),
{
    let ghost before = commands@;
    match submission.clear_color {
        None => {},
        Some(color) => {
            let whole = IrRect { x: 0, y: 0, width: target.width, height: target.height };
            if submission.render_area == whole {
                push_clear(commands, color);
            } else {
                push_clear_surface(commands, target.surface_handle, submission.render_area, color);
            }
        },
    }
    assert(commands@ =~= before + ir_clear_words(target, submission@));
}

/// Append the words of a draw, if its objects are in place and its scissor fits.
fn push_ir_draw(commands: &mut Vec<u32>, resources: &IrResources, draw: &IrDraw) -> (r: bool)
    requires
        draw.start_vertex + draw.vertex_count <= MAX_IR_VERTICES,
    ensures
        r == encodable_draw(resources@, draw@),
        r ==> final(commands)@ == old(commands)@ + ir_draw_words(resources@, draw@),
{
    let ghost before = commands@;
    if draw.pipeline.slot >= resources.pipelines.len() {
        return false;
    }
    let pipeline: IrPipeline = match resources.pipelines[draw.pipeline.slot] {
        Some(pipeline) => pipeline,
        None => {
            return false;
        },
    };
    push_bind_object(commands, OBJECT_BLEND, pipeline.blend_handle);
    push_bind_object(commands, OBJECT_RASTERIZER, pipeline.rasterizer_handle);
    push_bind_shader(
        commands,
        ir_fragment_shader_handle(resources.programs, draw.pipeline.fragment),
        SHADER_FRAGMENT,
    );
    let transform_counted: bool = push_constant_buffer(
        commands,
        SHADER_VERTEX,
        &draw.uniforms.transform,
    );
    let color_counted: bool = push_constant_buffer(commands, SHADER_FRAGMENT, &draw.uniforms.color);
    assert(transform_counted && color_counted);
    if !push_scissor(commands, draw.scissor) {
        return false;
    }
    match (draw.texture, draw.sampler) {
        (Some(texture_spec), Some(sampler_state)) => {
            if texture_spec.slot >= resources.textures.len() || sampler_state.slot
                >= resources.samplers.len() {
                return false;
            }
            match (resources.textures[texture_spec.slot], resources.samplers[sampler_state.slot]) {
                (Some(texture), Some(sampler)) => {
                    push_sampler_view_binding(commands, texture.sampler_view_handle());
                    push_sampler_state_binding(commands, sampler.handle);
                },
                _ => {
                    return false;
                },
            }
        },
        _ => {},
    }
    push_draw_vbo(commands, draw.start_vertex as u32, draw.vertex_count as u32);
    assert(commands@ =~= before + ir_draw_words(resources@, draw@));
    true
}

/// Draws that could be prepared lie within the submitted vertices.
proof fn lemma_prepared_draws_are_valid(
    start: PreparationView,
    target_width: u32,
    target_height: u32,
    draws: Seq<DrawView>,
    vertex_count: nat,
    i: int,
)
    requires
        start.draws(target_width, target_height, draws, vertex_count).1 is Ok,
        0 <= i < draws.len(),
    ensures
        draws[i].start_vertex + draws[i].vertex_count <= vertex_count,
    decreases draws.len(),
{
    if i < draws.len() - 1 {
        lemma_prepared_draws_are_valid(
            start,
            target_width,
            target_height,
            draws.drop_last(),
            vertex_count,
            i,
        );
    }
}

/// Vertices fill eight words each.
proof fn lemma_vertex_words_length(vertices: Seq<IrVertex>)
    ensures
        vertex_words(crate::driver::vertex_views(vertices)).len() == 8 * vertices.len(),
    decreases vertices.len(),
{
    let views = crate::driver::vertex_views(vertices);
    if vertices.len() > 0 {
        assert(views.drop_last() =~= crate::driver::vertex_views(vertices.drop_last()));
        lemma_vertex_words_length(vertices.drop_last());
        assert(views.last() == vertices.last()@);
    }
}

/// Encode a prepared pass.
#[verifier::spinoff_prover]
#[verifier::rlimit(60)]
fn encode_pass(
    preparation: Preparation,
    resources: &IrResources,
    target: IrPassTarget,
    submission: &IrSubmission,
    max_command_bytes: u32,
    Ghost(context): Ghost<Context>,
) -> (r: Result<PreparedPass, PassInterruption>)
    requires
        submission@.vertices.len() <= MAX_IR_VERTICES,
        forall|i: int|
            0 <= i < submission@.draws.len() ==> (#[trigger] submission@.draws[i]).start_vertex
                + submission@.draws[i].vertex_count <= submission@.vertices.len(),
    ensures
        pass_encoded(
            preparation.view_with(context, resources@),
            target,
            submission@,
            max_command_bytes,
            r,
        ),
{
    let Preparation { commands, samplers, pipelines, views } = preparation;
    let mut commands: Vec<u32> = commands;
    let ghost prepared = commands@;
    push_ir_bind_pass_state(&mut commands, target, resources);
    if !push_scissor(&mut commands, submission.render_area) {
        return Err(PassInterruption::Failed(HandleError::InvalidParameter));
    }
    push_ir_clear(&mut commands, target, submission);
    let mut vertices: Vec<u32> = Vec::new();
    push_vertices(&mut vertices, &submission.vertices);
    proof {
        lemma_vertex_words_length(submission.vertices@);
        assert(vertices@ =~= vertex_words(submission@.vertices));
    }
    let written: bool = push_inline_write(
        &mut commands,
        resources.vertex_resource_id,
        vertices.as_slice(),
    );
    assert(written);
    let ghost head = commands@;
    let ghost draws = submission@.draws;
    let mut i: usize = 0;
    assert(head + ir_draws_words(resources@, draws.take(0)) =~= head);
    while i < submission.draws.len()
        invariant
            i <= submission.draws@.len(),
            draws == crate::driver::draw_views(submission.draws@),
            submission@.draws == draws,
            submission@.vertices.len() <= MAX_IR_VERTICES,
            forall|j: int|
                0 <= j < draws.len() ==> (#[trigger] draws[j]).start_vertex
                    + draws[j].vertex_count <= submission@.vertices.len(),
            commands@ == head + ir_draws_words(resources@, draws.take(i as int)),
            forall|j: int| 0 <= j < i ==> encodable_draw(resources@, #[trigger] draws[j]),
        decreases submission.draws.len() - i,
    {
        let draw: IrDraw = submission.draws[i];
        proof {
            assert(draws[i as int] == draw@);
            assert(draws.take(i + 1).drop_last() =~= draws.take(i as int));
            assert(draws.take(i + 1).last() == draw@);
        }
        let ghost before = commands@;
        if !push_ir_draw(&mut commands, resources, &draw) {
            assert(!encodable_draw(resources@, draws[i as int]));
            return Err(PassInterruption::Failed(HandleError::InvalidParameter));
        }
        assert(before + ir_draw_words(resources@, draw@) =~= head + ir_draws_words(
            resources@,
            draws.take(i + 1),
        ));
        i = i + 1;
    }
    assert(draws.take(i as int) =~= draws);
    assert(commands@ =~= prepared + ir_pass_words(resources@, target, submission@));
    if commands.len() > max_command_bytes as usize / 4 {
        return Err(PassInterruption::Failed(HandleError::InvalidParameter));
    }
    let ghost list = submission@.texture_uploads;
    let mut uploads: Vec<(Texture, u32)> = Vec::new();
    let mut k: usize = 0;
    while k < submission.texture_uploads.len()
        invariant
            k <= submission.texture_uploads@.len(),
            list == crate::driver::upload_views(submission.texture_uploads@),
            submission@.texture_uploads == list,
            uploads@.len() == k,
            forall|j: int|
                0 <= j < k ==> crate::virgl::resources::spec_upload_destination(
                    resources@.textures,
                    #[trigger] list[j],
                ) == Ok::<(Texture, u32), HandleError>(uploads@[j]),
        decreases submission.texture_uploads.len() - k,
    {
        assert(list[k as int] == submission.texture_uploads@[k as int]@);
        match resources.upload_destination(&submission.texture_uploads[k]) {
            Ok(destination) => {
                uploads.push(destination);
            },
            Err(_) => {
                assert(!uploadable(resources@, list));
                return Err(PassInterruption::Failed(HandleError::InvalidParameter));
            },
        }
        k = k + 1;
    }
    assert(uploads@ =~= upload_destinations(resources@, list));
    Ok(
        PreparedPass {
            commands,
            initialized_samplers: samplers,
            initialized_pipelines: pipelines,
            initialized_views: views,
            uploads,
        },
    )
}

impl Queue {
    /// Encode one pass into a target.
    ///
    /// The stream creates the programs, the surface and the objects of pipelines,
    /// samplers and views that do not exist yet, each once, and then draws. Fails
    /// with `HandleError::InvalidParameter` for another context, for a submission
    /// that does not suit the target, and for a stream above the greatest size, and
    /// with `HandleError::OutOfResources` when storage or handles run out. Asks for
    /// a texture that does not exist yet; everything found or made until then stays.
    pub fn submit_ir_target(
        &self,
        context: &mut Context,
        resources: &mut IrResources,
        target: IrPassTarget,
        submission: &IrSubmission,
        max_command_bytes: u32,
        memory: Memory,
    ) -> (r: Result<PreparedPass, PassInterruption>)
        ensures
            pass_submitted(
                *self,
                *old(context),
                old(resources)@,
                target,
                submission@,
                max_command_bytes,
                memory,
                *final(context),
                final(resources)@,
                r,
            ),
    {
        let finite_clear: bool = match submission.clear_color {
            Some(color) => is_all_finite(&color),
            None => true,
        };
        if self.context_handle != context.handle || resources.context_handle != context.handle
            || submission.vertices.len() > MAX_IR_VERTICES || submission.draws.len() == 0
            || !submission.render_area.is_within(target.width, target.height) || !finite_clear {
            return Err(PassInterruption::Failed(HandleError::InvalidParameter));
        }
        let mut commands: Vec<u32> = Vec::new();
        if !memory.reserve(&mut commands, IR_PASS_WORDS) {
            return Err(PassInterruption::Failed(HandleError::OutOfResources));
        }
        if !resources.initialized {
            push_ir_setup(&mut commands, resources.programs);
        }
        if !target.surface_initialized {
            push_surface(&mut commands, target.surface_handle, target.resource_id);
        }
        let mut state = Preparation {
            commands,
            samplers: Vec::new(),
            pipelines: Vec::new(),
            views: Vec::new(),
        };
        let ghost start = preparation(*old(context), old(resources)@, target);
        assert(state.view_with(*context, resources@) =~= start);
        let ghost uploads = submission@.texture_uploads;
        let mut i: usize = 0;
        assert(uploads.take(0) =~= Seq::<UploadView>::empty());
        while i < submission.texture_uploads.len()
            invariant
                i <= submission.texture_uploads@.len(),
                uploads == crate::driver::upload_views(submission.texture_uploads@),
                submission@.texture_uploads == uploads,
                *context == *old(context),
                start == preparation(*old(context), old(resources)@, target),
                start.uploads(uploads.take(i as int)) == (
                    state.view_with(*context, resources@),
                    Ok::<(), PassInterruption>(()),
                ),
                submittable(*self, *old(context), old(resources)@, target, submission@),
                memory.may(true),
            decreases submission.texture_uploads.len() - i,
        {
            let spec: IrTextureSpec = submission.texture_uploads[i].texture;
            proof {
                assert(uploads[i as int] == submission.texture_uploads@[i as int]@);
                assert(uploads.take(i + 1).drop_last() =~= uploads.take(i as int));
                assert(uploads.take(i + 1).last() == uploads[i as int]);
            }
            match state.texture(context, resources, spec) {
                Ok(()) => {},
                Err(interruption) => {
                    proof {
                        lemma_upload_failure_is_final(start, uploads, i + 1);
                    }
                    return Err(interruption);
                },
            }
            i = i + 1;
        }
        assert(uploads.take(i as int) =~= uploads);
        let ghost middle = state.view_with(*context, resources@);
        let ghost draws = submission@.draws;
        let ghost vertex_count = submission@.vertices.len();
        let vertices_len: usize = submission.vertices.len();
        let mut k: usize = 0;
        assert(draws.take(0) =~= Seq::<DrawView>::empty());
        while k < submission.draws.len()
            invariant
                k <= submission.draws@.len(),
                draws == crate::driver::draw_views(submission.draws@),
                submission@.draws == draws,
                vertex_count == submission@.vertices.len(),
                vertices_len == vertex_count,
                prepared_pass(*old(context), old(resources)@, target, submission@) == middle.draws(
                    target.width,
                    target.height,
                    draws,
                    vertex_count,
                ),
                middle.draws(target.width, target.height, draws.take(k as int), vertex_count) == (
                    state.view_with(*context, resources@),
                    Ok::<(), PassInterruption>(()),
                ),
                submittable(*self, *old(context), old(resources)@, target, submission@),
                memory.may(true),
            decreases submission.draws.len() - k,
        {
            let draw: IrDraw = submission.draws[k];
            proof {
                assert(draws[k as int] == draw@);
                assert(draws.take(k + 1).drop_last() =~= draws.take(k as int));
                assert(draws.take(k + 1).last() == draws[k as int]);
            }
            match state.draw(
                context,
                resources,
                target.width,
                target.height,
                &draw,
                vertices_len,
            ) {
                Ok(()) => {},
                Err(interruption) => {
                    proof {
                        lemma_draw_failure_is_final(
                            middle,
                            target.width,
                            target.height,
                            draws,
                            vertex_count,
                            k + 1,
                        );
                    }
                    return Err(interruption);
                },
            }
            k = k + 1;
        }
        assert(draws.take(k as int) =~= draws);
        proof {
            assert forall|j: int| 0 <= j < draws.len() implies (#[trigger] draws[j]).start_vertex
                + draws[j].vertex_count <= vertex_count by {
                lemma_prepared_draws_are_valid(
                    middle,
                    target.width,
                    target.height,
                    draws,
                    vertex_count,
                    j,
                );
            }
        }
        encode_pass(state, resources, target, submission, max_command_bytes, Ghost(*context))
    }
}

proof fn lemma_upload_failure_is_final(
    start: PreparationView,
    uploads: Seq<UploadView>,
    count: int,
)
    requires
        0 <= count <= uploads.len(),
        start.uploads(uploads.take(count)).1 is Err,
    ensures
        start.uploads(uploads) == start.uploads(uploads.take(count)),
    decreases uploads.len(),
{
    if count == uploads.len() {
        assert(uploads.take(count) =~= uploads);
    } else {
        assert(uploads.drop_last().take(count) =~= uploads.take(count));
        lemma_upload_failure_is_final(start, uploads.drop_last(), count);
    }
}

proof fn lemma_draw_failure_is_final(
    start: PreparationView,
    target_width: u32,
    target_height: u32,
    draws: Seq<DrawView>,
    vertex_count: nat,
    count: int,
)
    requires
        0 <= count <= draws.len(),
        start.draws(target_width, target_height, draws.take(count), vertex_count).1 is Err,
    ensures
        start.draws(target_width, target_height, draws, vertex_count) == start.draws(
            target_width,
            target_height,
            draws.take(count),
            vertex_count,
        ),
    decreases draws.len(),
{
    if count == draws.len() {
        assert(draws.take(count) =~= draws);
    } else {
        assert(draws.drop_last().take(count) =~= draws.take(count));
        lemma_draw_failure_is_final(
            start,
            target_width,
            target_height,
            draws.drop_last(),
            vertex_count,
            count,
        );
    }
}

} // verus!
