//! What holds of every cache and of every submission plan.

use crate::ir::command::CommandView;
use crate::ir::render_pass::{LoadOp, RenderPassView};
use crate::ir::resource::TextureFormat;
use crate::ir::table::{
    BufferRef, RenderPipelineRef, SamplerRef, TableView, TextureId, TextureRef,
};
use crate::wgpu_backend::format::{ColorLoadView, DepthLoad, SurfaceFormat};
use crate::wgpu_backend::queue::{EncoderOperationView, SubmissionPlanView};
use crate::wgpu_backend::resources::{
    CacheView, Creation, Image, Interruption, MappedImage, TexturePlace,
};
use vstd::prelude::*;

verus! {

proof fn lemma_place<T>(list: Seq<T>, value: T)
    ensures
        0 <= crate::wgpu_backend::resources::place_of(list, value) <= list.len(),
        forall|i: int|
            0 <= i < crate::wgpu_backend::resources::place_of(list, value) ==> #[trigger] list[i]
                != value,
        crate::wgpu_backend::resources::place_of(list, value) < list.len()
            ==> list[crate::wgpu_backend::resources::place_of(list, value)] == value,
    decreases list.len(),
{
    if list.len() > 0 && list[0] != value {
        let rest = list.skip(1);
        lemma_place(rest, value);
        assert forall|i: int| 0 <= i < crate::wgpu_backend::resources::place_of(
            list,
            value,
        ) implies #[trigger] list[i] != value by {
            if i > 0 {
                assert(list[i] == rest[i - 1]);
            }
        }
    }
}

/// A longer list keeps the places of what it had, and a new last value is found.
proof fn lemma_pushed_place<T>(list: Seq<T>, pushed: T, value: T)
    ensures
        crate::wgpu_backend::resources::place_of(list, value) < list.len()
            ==> crate::wgpu_backend::resources::place_of(list.push(pushed), value)
            == crate::wgpu_backend::resources::place_of(list, value),
        pushed == value ==> crate::wgpu_backend::resources::place_of(list.push(pushed), value)
            < list.push(pushed).len(),
{
    let longer = list.push(pushed);
    lemma_place(list, value);
    lemma_place(longer, value);
    let before = crate::wgpu_backend::resources::place_of(list, value);
    let after = crate::wgpu_backend::resources::place_of(longer, value);
    if before < list.len() {
        assert(longer[before] == list[before]);
        if after < before {
            assert(longer[after] == list[after]);
        }
    }
    if pushed == value {
        assert(longer[list.len() as int] == value);
    }
}

proof fn lemma_image_place(images: Seq<MappedImage>, texture: TextureId)
    ensures
        0 <= crate::wgpu_backend::resources::image_place(images, texture) <= images.len(),
        forall|i: int|
            0 <= i < crate::wgpu_backend::resources::image_place(images, texture) ==> (
            #[trigger] images[i]).texture != texture,
        crate::wgpu_backend::resources::image_place(images, texture) < images.len()
            ==> images[crate::wgpu_backend::resources::image_place(images, texture)].texture
            == texture,
    decreases images.len(),
{
    if images.len() > 0 && images[0].texture != texture {
        let rest = images.skip(1);
        lemma_image_place(rest, texture);
        assert forall|i: int| 0 <= i < crate::wgpu_backend::resources::image_place(
            images,
            texture,
        ) implies (#[trigger] images[i]).texture != texture by {
            if i > 0 {
                assert(images[i] == rest[i - 1]);
            }
        }
    }
}

/// An object that a lookup asked for is found by the same lookup once it is
/// installed, so no object is asked for twice.
pub proof fn law_installed_objects_are_found(
    cache: CacheView,
    table: TableView,
    texture: TextureRef,
    buffer: BufferRef,
    sampler: SamplerRef,
    pipeline: RenderPipelineRef,
    target_format: SurfaceFormat,
    sample_format: Option<TextureFormat>,
    has_depth: bool,
)
    ensures
        cache.texture(table, texture) matches Err(Interruption::Create(creation))
            ==> cache.install(creation).texture(table, texture) is Ok,
        cache.buffer(table, buffer) matches Err(Interruption::Create(creation)) ==> cache.install(
            creation,
        ).buffer(table, buffer) is Ok,
        cache.sampler(table, sampler) matches Err(Interruption::Create(creation))
            ==> cache.install(creation).sampler(table, sampler) is Ok,
        cache.pipeline(table, pipeline, target_format, sample_format) matches Err(
            Interruption::Create(creation),
        ) ==> cache.install(creation).pipeline(table, pipeline, target_format, sample_format) is Ok,
        cache.clear_pipeline(target_format, has_depth) matches Err(Interruption::Create(creation))
            ==> cache.install(creation).clear_pipeline(target_format, has_depth) is Ok,
{
    match cache.texture(table, texture) {
        Err(Interruption::Create(creation)) => {
            lemma_pushed_place(cache.textures, texture.id(), texture.id());
        },
        _ => {},
    }
    match cache.buffer(table, buffer) {
        Err(Interruption::Create(creation)) => {
            lemma_pushed_place(cache.buffers, buffer.id(), buffer.id());
        },
        _ => {},
    }
    match cache.sampler(table, sampler) {
        Err(Interruption::Create(creation)) => {
            lemma_pushed_place(cache.samplers, sampler.id(), sampler.id());
        },
        _ => {},
    }
    match cache.pipeline(table, pipeline, target_format, sample_format) {
        Err(Interruption::Create(creation)) => {
            let key = creation->Pipeline_0;
            lemma_pushed_place(cache.pipelines, key, key);
        },
        _ => {},
    }
    match cache.clear_pipeline(target_format, has_depth) {
        Err(Interruption::Create(creation)) => {
            let key = creation->ClearPipeline_0;
            lemma_pushed_place(cache.clear_pipelines, key, key);
        },
        _ => {},
    }
}

/// Installing an object keeps every object that was found before where it was.
pub proof fn law_installing_keeps_other_objects(
    cache: CacheView,
    creation: Creation,
    table: TableView,
    texture: TextureRef,
    buffer: BufferRef,
    sampler: SamplerRef,
    pipeline: RenderPipelineRef,
    target_format: SurfaceFormat,
    sample_format: Option<TextureFormat>,
    has_depth: bool,
)
    ensures
        cache.texture(table, texture) is Ok ==> cache.install(creation).texture(table, texture)
            == cache.texture(table, texture),
        cache.buffer(table, buffer) is Ok ==> cache.install(creation).buffer(table, buffer)
            == cache.buffer(table, buffer),
        cache.sampler(table, sampler) is Ok ==> cache.install(creation).sampler(table, sampler)
            == cache.sampler(table, sampler),
        cache.pipeline(table, pipeline, target_format, sample_format) is Ok ==> cache.install(
            creation,
        ).pipeline(table, pipeline, target_format, sample_format) == cache.pipeline(
            table,
            pipeline,
            target_format,
            sample_format,
        ),
        cache.clear_pipeline(target_format, has_depth) is Ok ==> cache.install(
            creation,
        ).clear_pipeline(target_format, has_depth) == cache.clear_pipeline(
            target_format,
            has_depth,
        ),
{
    match creation {
        Creation::Texture { texture: made, .. } => {
            lemma_pushed_place(cache.textures, made, texture.id());
        },
        Creation::Buffer { buffer: made, .. } => {
            lemma_pushed_place(cache.buffers, made, buffer.id());
        },
        Creation::Sampler { sampler: made, .. } => {
            lemma_pushed_place(cache.samplers, made, sampler.id());
        },
        Creation::Pipeline(made) => {
            if cache.pipeline(table, pipeline, target_format, sample_format) is Ok {
                let desc = table.render_pipeline(pipeline)->Ok_0;
                let key = crate::wgpu_backend::resources::PipelineKey {
                    pipeline: pipeline.id(),
                    target_format,
                    sample_format: if desc.fragment.is_textured() {
                        sample_format
                    } else {
                        None
                    },
                };
                lemma_pushed_place(cache.pipelines, made, key);
            }
        },
        Creation::ClearPipeline(made) => {
            lemma_pushed_place(
                cache.clear_pipelines,
                made,
                crate::wgpu_backend::resources::ClearKey { target_format, has_depth },
            );
        },
    }
}

/// Whether no texture is mapped twice.
pub open spec fn distinct_textures(images: Seq<MappedImage>) -> bool {
    forall|i: int, j: int|
        0 <= i < j < images.len() ==> (#[trigger] images[i]).texture != (
        #[trigger] images[j]).texture
}

/// Whether no image stands for two textures.
pub open spec fn distinct_images(images: Seq<MappedImage>) -> bool {
    forall|i: int, j: int|
        0 <= i < j < images.len() ==> (#[trigger] images[i]).image.id != (
        #[trigger] images[j]).image.id
}

/// A mapped image is what its texture leads to, in place of an earlier one, and no
/// texture and no image is ever mapped twice.
pub proof fn law_mapped_images_are_found(
    cache: CacheView,
    table: TableView,
    texture: TextureRef,
    image: Image,
)
    requires
        distinct_textures(cache.mapped_images),
        distinct_images(cache.mapped_images),
        cache.mapped_images.len() < usize::MAX,
    ensures
        cache.map_image(table, texture.id(), image) matches Ok(next) ==> {
            &&& distinct_textures(next.mapped_images)
            &&& distinct_images(next.mapped_images)
            &&& next.texture(table, texture) matches Ok(found) && (found.place matches
                TexturePlace::Mapped(at) && at < next.mapped_images.len()
                && next.mapped_images[at as int] == (MappedImage { texture: texture.id(), image }))
                && found.format == image.format && found.raw_format == image.raw_format
                && found.width == image.width && found.height == image.height
        },
{
    if cache.map_image(table, texture.id(), image) is Ok {
        let next = cache.map_image(table, texture.id(), image)->Ok_0;
        let images = cache.mapped_images;
        let at = crate::wgpu_backend::resources::image_place(images, texture.id());
        lemma_image_place(images, texture.id());
        lemma_image_place(next.mapped_images, texture.id());
        assert(next.mapped_images[at] == (MappedImage { texture: texture.id(), image }));
        let found = crate::wgpu_backend::resources::image_place(next.mapped_images, texture.id());
        if found < at {
            assert(next.mapped_images[found] == images[found]);
        }
        assert(found == at);
        assert forall|i: int, j: int| 0 <= i < j < next.mapped_images.len() implies (
        #[trigger] next.mapped_images[i]).texture != (#[trigger] next.mapped_images[j]).texture by {
            if i != at {
                assert(next.mapped_images[i] == images[i]);
            }
            if j != at {
                assert(next.mapped_images[j] == images[j]);
            }
            if at < images.len() {
                assert(images[i].texture != images[j].texture);
            }
        }
        assert forall|i: int, j: int| 0 <= i < j < next.mapped_images.len() implies (
        #[trigger] next.mapped_images[i]).image.id != (#[trigger] next.mapped_images[j]).image.id by {
            if i != at {
                assert(next.mapped_images[i] == images[i]);
            }
            if j != at {
                assert(next.mapped_images[j] == images[j]);
            }
            if at < images.len() {
                assert(images[i].image.id != images[j].image.id);
                assert(images[i].texture != images[j].texture);
            }
        }
        crate::ir::table::lemma_texture_identity(texture);
    }
}

/// A pass over the whole attachment clears it as it is loaded. A pass over a part
/// keeps the rest: both attachments are loaded and a color clear is drawn.
pub proof fn law_partial_passes_keep_the_rest(
    cache: CacheView,
    table: TableView,
    desc: RenderPassView,
    commands: Seq<CommandView>,
)
    ensures
        crate::wgpu_backend::queue::spec_encode_render_pass(
            cache,
            table,
            desc,
            commands,
        ) matches Ok(plan) ==> if crate::wgpu_backend::format::spec_render_area_is_full(
            desc.area,
            plan.frame.target.width,
            plan.frame.target.height,
        ) {
            plan.partial_clear is None && plan.color_load
                == crate::wgpu_backend::format::spec_color_load_op(desc.colors[0].load)
        } else {
            &&& plan.color_load == ColorLoadView::Load
            &&& plan.depth_operations matches Some(operations) ==> operations.0 == DepthLoad::Load
            &&& desc.colors[0].load matches LoadOp::Clear(color) ==> (plan.partial_clear matches Some(
                clear,
            ) && clear.1 == color)
            &&& !(desc.colors[0].load is Clear) ==> plan.partial_clear is None
        },
{
}

/// Whether a command uploads.
pub open spec fn is_upload(command: CommandView) -> bool {
    command is WriteBuffer || command is WriteTexture
}

proof fn lemma_no_upload_outside_phase(
    plan: SubmissionPlanView,
    cache: CacheView,
    table: TableView,
    commands: Seq<CommandView>,
    index: int,
    upload_phase: bool,
    first: int,
    second: int,
)
    requires
        0 <= index <= commands.len(),
        plan.extended(cache, table, commands, index, upload_phase) is Ok,
        index <= second < commands.len(),
        is_upload(commands[second]),
    ensures
        upload_phase,
        index <= first < second ==> is_upload(commands[first]),
    decreases commands.len() - index,
{
    match commands[index] {
        CommandView::WriteBuffer { buffer, offset, data } => {
            if second > index {
                let next = SubmissionPlanView {
                    buffer_writes: plan.buffer_writes.push(
                        crate::wgpu_backend::queue::BufferWriteView {
                            buffer: cache.buffer(table, buffer)->Ok_0,
                            offset,
                            data,
                        },
                    ),
                    ..plan
                };
                lemma_no_upload_outside_phase(
                    next,
                    cache,
                    table,
                    commands,
                    index + 1,
                    true,
                    first,
                    second,
                );
            }
        },
        CommandView::WriteTexture { texture, write } => {
            if second > index {
                let next = SubmissionPlanView {
                    texture_writes: plan.texture_writes.push(
                        crate::wgpu_backend::queue::TextureUploadView {
                            texture: cache.texture(table, texture)->Ok_0.place,
                            destination: write.destination,
                            bytes_per_row: write.bytes_per_row,
                            data: write.data,
                        },
                    ),
                    ..plan
                };
                lemma_no_upload_outside_phase(
                    next,
                    cache,
                    table,
                    commands,
                    index + 1,
                    true,
                    first,
                    second,
                );
            }
        },
        CommandView::CopyTextureToTexture {
            source,
            source_rect,
            destination,
            destination_rect,
        } => {
            let next = SubmissionPlanView {
                operations: plan.operations.push(
                    EncoderOperationView::CopyTexture {
                        source: cache.texture(table, source)->Ok_0.place,
                        source_rect,
                        destination: cache.texture(table, destination)->Ok_0.place,
                        destination_rect,
                    },
                ),
                ..plan
            };
            lemma_no_upload_outside_phase(
                next,
                cache,
                table,
                commands,
                index + 1,
                false,
                first,
                second,
            );
        },
        CommandView::BeginRenderPass(desc) => {
            let end = crate::wgpu_backend::queue::pass_end(commands, index + 1);
            crate::wgpu_backend::queue::lemma_pass_end(commands, index + 1);
            let inner = commands.subrange(index + 1, end);
            let pass = crate::wgpu_backend::queue::spec_encode_render_pass(
                cache,
                table,
                desc,
                inner,
            )->Ok_0;
            let frame = crate::wgpu_backend::queue::pass_frame(cache, table, desc)->Ok_0;
            if second < end {
                assert(inner[second - index - 1] == commands[second]);
                lemma_pass_commands_do_not_upload(cache, table, frame, inner, second - index - 1);
            } else if second == end {
                crate::wgpu_backend::queue::lemma_pass_end(commands, index + 1);
            } else {
                let next = SubmissionPlanView {
                    operations: plan.operations.push(EncoderOperationView::RenderPass(pass)),
                    ..plan
                };
                lemma_no_upload_outside_phase(
                    next,
                    cache,
                    table,
                    commands,
                    end + 1,
                    false,
                    first,
                    second,
                );
            }
        },
        _ => {},
    }
}

proof fn lemma_pass_commands_do_not_upload(
    cache: CacheView,
    table: TableView,
    frame: crate::wgpu_backend::queue::PassFrame,
    commands: Seq<CommandView>,
    at: int,
)
    requires
        0 <= at < commands.len(),
        crate::wgpu_backend::queue::PassStateView::after(cache, table, frame, commands) is Ok,
    ensures
        !is_upload(commands[at]),
    decreases commands.len(),
{
    if at < commands.len() - 1 {
        assert(commands.drop_last()[at] == commands[at]);
        lemma_pass_commands_do_not_upload(cache, table, frame, commands.drop_last(), at);
    }
}

/// In every planned command buffer the uploads come before all other commands.
pub proof fn law_uploads_come_first(
    cache: CacheView,
    table: TableView,
    commands: Seq<CommandView>,
    first: int,
    second: int,
)
    requires
        SubmissionPlanView::initial().extended(cache, table, commands, 0, true) is Ok,
        0 <= first < second < commands.len(),
        is_upload(commands[second]),
    ensures
        is_upload(commands[first]),
{
    lemma_no_upload_outside_phase(
        SubmissionPlanView::initial(),
        cache,
        table,
        commands,
        0,
        true,
        first,
        second,
    );
}

} // verus!
