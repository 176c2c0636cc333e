//! What the device accepts to draw, compose and copy.

use crate::driver::{
    DrawView, IrFragmentProgram, IrRect, IrTextureCopy, SubmissionView, MAX_IR_VERTICES,
};
use crate::virgl::composition::{CompositionOperation, MAX_COMPOSITION_OPERATIONS};
use crate::virgl::draw::Pipeline;
use crate::virgl::resources::DeviceView;
use crate::virgl::state::{Context, Image, Queue};
use crate::virgl::target::IrPassTarget;
use vstd::prelude::*;

verus! {

/// Whether a rectangle has a pixel, and each of its pixels is one of a surface.
pub open spec fn lies_within(area: IrRect, width: u32, height: u32) -> bool {
    &&& exists|x: int, y: int| crate::virgl::registering::covers(area, x, y)
    &&& forall|x: int, y: int| #[trigger]
        crate::virgl::registering::covers(area, x, y) ==> x < width && y < height
}

/// A draw is accepted exactly when it makes whole triangles of vertices that were
/// submitted, changes only pixels of the target, has finite uniforms and a known pipeline,
/// and brings a texture that can be sampled with a sampler where its program samples, and
/// neither where it does not.
pub proof fn law_accepted_draws(
    resources: DeviceView,
    width: u32,
    height: u32,
    draw: DrawView,
    vertex_count: nat,
)
    requires
        vertex_count <= usize::MAX,
    ensures
        crate::virgl::target::valid_draw(resources, width, height, draw, vertex_count) <==> {
            &&& draw.vertex_count > 0
            &&& exists|triangles: int| draw.vertex_count == #[trigger] (triangles * 3)
            &&& forall|v: int|
                draw.start_vertex <= v < draw.start_vertex + draw.vertex_count
                    ==> #[trigger] submitted(v, vertex_count)
            &&& lies_within(draw.scissor, width, height)
            &&& forall|i: int|
                0 <= i < draw.uniforms.transform.len() ==> crate::ir::float::finite(
                    #[trigger] draw.uniforms.transform[i],
                )
            &&& forall|i: int|
                0 <= i < draw.uniforms.color.len() ==> crate::ir::float::finite(
                    #[trigger] draw.uniforms.color[i],
                )
            &&& draw.pipeline.slot < resources.pipelines.len()
            &&& match draw.pipeline.fragment {
                IrFragmentProgram::Solid => draw.texture is None && draw.sampler is None,
                IrFragmentProgram::VertexColor => draw.texture is None && draw.sampler is None,
                _ => draw.sampler is Some && draw.texture is Some && {
                    &&& draw.texture->0.sampled
                    &&& draw.texture->0.width > 0
                    &&& draw.texture->0.height > 0
                    &&& draw.texture->0.slot < resources.textures.len()
                },
            }
        },
{
    crate::virgl::registering::law_rectangles_lie_within_surfaces(draw.scissor, width, height);
    if draw.vertex_count > 0 {
        assert(submitted(
            draw.start_vertex + draw.vertex_count - 1,
            vertex_count,
        ) <==> draw.start_vertex
            + draw.vertex_count <= vertex_count);
        if draw.vertex_count % 3 == 0 {
            let triangles = draw.vertex_count as int / 3;
            assert(draw.vertex_count == triangles * 3);
        }
    }
}

/// Whether a vertex was submitted.
pub open spec fn submitted(vertex: int, count: nat) -> bool {
    0 <= vertex < count
}

/// A submission is accepted exactly when everything belongs to one context, there are draws
/// and not too many vertices, the area has only pixels of the target, and the clear color
/// is finite.
pub proof fn law_accepted_submissions(
    queue: Queue,
    context: Context,
    resources: DeviceView,
    target: IrPassTarget,
    submission: SubmissionView,
)
    ensures
        crate::virgl::target::submittable(queue, context, resources, target, submission) <==> {
            &&& queue.context_handle == context.handle
            &&& resources.context_handle == context.handle
            &&& submission.vertices.len() <= MAX_IR_VERTICES
            &&& submission.draws.len() > 0
            &&& lies_within(submission.render_area, target.width, target.height)
            &&& submission.clear_color matches Some(color) ==> forall|i: int|
                0 <= i < color.len() ==> crate::ir::float::finite(#[trigger] color[i])
        },
{
    crate::virgl::registering::law_rectangles_lie_within_surfaces(
        submission.render_area,
        target.width,
        target.height,
    );
}

/// A copy fits exactly when both regions have one shape, every pixel that is read is one of
/// the source, and every pixel that is written is one of the destination.
pub proof fn law_accepted_copies(copy: IrTextureCopy)
    ensures
        crate::virgl::resources::copy_fits(copy) <==> {
            &&& lies_within(copy.source_rect, copy.source.width, copy.source.height)
            &&& lies_within(
                copy.destination_rect,
                copy.destination.width,
                copy.destination.height,
            )
            &&& copy.source_rect.width == copy.destination_rect.width
            &&& copy.source_rect.height == copy.destination_rect.height
        },
{
    crate::virgl::registering::law_rectangles_lie_within_surfaces(
        copy.source_rect,
        copy.source.width,
        copy.source.height,
    );
    crate::virgl::registering::law_rectangles_lie_within_surfaces(
        copy.destination_rect,
        copy.destination.width,
        copy.destination.height,
    );
}

/// Whether a number lies between zero and one.
pub open spec fn proper(bits: u32) -> bool {
    crate::ir::float::finite(bits) && 0 <= crate::ir::float::scaled_value(bits)
        <= crate::ir::float::scaled_value(crate::ir::float::ONE_BITS)
}

/// An operation of a composition can be drawn exactly when its texture belongs to the
/// context, it shows only texels of the texture, changes only pixels of the image, and its
/// opacity or color is between zero and one.
pub proof fn law_accepted_operations(
    operation: CompositionOperation,
    context_handle: i32,
    image: Image,
)
    ensures
        operation.drawable(context_handle, image) <==> match operation {
            CompositionOperation::Textured { texture, destination, source, opacity, clip, .. } => {
                &&& texture.context_handle == context_handle
                &&& lies_within(destination, image.width, image.height)
                &&& lies_within(source, texture.width, texture.height)
                &&& clip is Some ==> lies_within(clip->0, image.width, image.height)
                &&& proper(opacity)
            },
            CompositionOperation::Solid { destination, color, clip } => {
                &&& lies_within(destination, image.width, image.height)
                &&& forall|i: int| 0 <= i < color@.len() ==> proper(#[trigger] color@[i])
                &&& clip is Some ==> lies_within(clip->0, image.width, image.height)
            },
        },
        match operation {
            CompositionOperation::Textured { clip, .. } => clips(operation, image, clip),
            CompositionOperation::Solid { clip, .. } => clips(operation, image, clip),
        },
{
    crate::ir::numbers::law_patterns_denote_numbers(0);
    match operation {
        CompositionOperation::Textured { texture, destination, source, clip, .. } => {
            crate::virgl::registering::law_rectangles_lie_within_surfaces(
                destination,
                image.width,
                image.height,
            );
            crate::virgl::registering::law_rectangles_lie_within_surfaces(
                source,
                texture.width,
                texture.height,
            );
            if clip is Some {
                crate::virgl::registering::law_rectangles_lie_within_surfaces(
                    clip->0,
                    image.width,
                    image.height,
                );
            }
        },
        CompositionOperation::Solid { destination, color, clip } => {
            crate::virgl::registering::law_rectangles_lie_within_surfaces(
                destination,
                image.width,
                image.height,
            );
            if clip is Some {
                crate::virgl::registering::law_rectangles_lie_within_surfaces(
                    clip->0,
                    image.width,
                    image.height,
                );
            }
            assert forall|i: int| 0 <= i < color@.len() implies (proper(#[trigger] color@[i])
                <==> crate::ir::float::in_unit_interval(color@[i])) by {}
        },
    }
}

/// Whether an operation changes the pixels of its clip, or any pixel of the image without
/// one.
pub open spec fn clips(
    operation: CompositionOperation,
    image: Image,
    clip: Option<IrRect>,
) -> bool {
    forall|x: int, y: int| #[trigger]
        crate::virgl::registering::covers(operation.clip_area(image), x, y) <==> match clip {
            Some(rect) => crate::virgl::registering::covers(rect, x, y),
            None => 0 <= x < image.width && 0 <= y < image.height,
        }
}

/// A composition is looked at only on an image of the queue's context, with a clear color
/// between zero and one and not too many operations, and an accepted one has only
/// operations that can be drawn and a stream of at most the greatest size.
pub proof fn law_accepted_compositions(
    queue: Queue,
    image: Image,
    clear_color: Seq<u32>,
    operations: Seq<CompositionOperation>,
    max_command_bytes: u32,
)
    ensures
        crate::virgl::composition::composition_suits(queue, image, clear_color, operations) <==> {
            &&& image.context_handle == queue.context_handle
            &&& operations.len() <= MAX_COMPOSITION_OPERATIONS
            &&& forall|i: int| 0 <= i < clear_color.len() ==> proper(#[trigger] clear_color[i])
        },
        crate::virgl::composition::composable(
            queue,
            image,
            clear_color,
            operations,
            max_command_bytes,
        ) ==> {
            &&& crate::virgl::composition::composition_suits(queue, image, clear_color, operations)
            &&& forall|i: int|
                0 <= i < operations.len() ==> (#[trigger] operations[i]).drawable(
                    queue.context_handle,
                    image,
                )
            &&& 4 * crate::virgl::composition::composition_words(
                queue,
                image,
                clear_color,
                operations,
            ).len() <= max_command_bytes
        },
{
    crate::ir::numbers::law_patterns_denote_numbers(0);
    assert forall|i: int| 0 <= i < clear_color.len() implies (proper(#[trigger] clear_color[i])
        <==> crate::ir::float::in_unit_interval(clear_color[i])) by {}
}

/// Triangles are accepted exactly when image, pipeline and queue belong together, the
/// pipeline was made for the image, there is something to draw onto, and there are whole
/// triangles within the capacity, whose bytes can be counted.
pub proof fn law_accepted_triangles(
    queue: Queue,
    image: Image,
    width: u32,
    height: u32,
    pipeline: Pipeline,
    vertex_count: nat,
)
    ensures
        crate::virgl::draw::drawable(queue, image, width, height, pipeline, vertex_count) <==> {
            &&& image.context_handle == queue.context_handle
            &&& pipeline.context_handle == queue.context_handle
            &&& pipeline.target_resource_id == image.resource_id
            &&& width > 0
            &&& height > 0
            &&& vertex_count > 0
            &&& exists|triangles: int| vertex_count == #[trigger] (triangles * 3)
            &&& vertex_count <= pipeline.max_vertices
            &&& 28 * vertex_count <= u32::MAX
        },
{
    if vertex_count % 3 == 0 {
        let triangles = vertex_count as int / 3;
        assert(vertex_count == triangles * 3);
    }
}

} // verus!
