//! Execution plans of command buffers.

use crate::driver::{
    IrSubmission, IrTextureCopy, IrTextureSpec, IrTextureUpload, SubmissionView, UploadView,
};
use crate::ir::command::{Command, CommandBuffer, CommandView};
use crate::ir::render_pass::{LoadOp, RenderPassDesc, RenderPassView};
use crate::ir::resource::{TextureDesc, TextureFormat, TextureUsage, TextureWrite, TextureWriteView};
use crate::ir::table::{ResourceTable, TableView, TextureRef};
use crate::ir::types::{Error, PixelRect};
use crate::ir_execute::buffers::{BufferShadowUpdate, PendingBuffers, UpdateView};
use crate::ir_execute::draw::{ActivePass, ActiveView};
use crate::ir_execute::resources::{Image, IrResources, ResourcesView};
use crate::ir_execute::state::{ir_rect, texture_spec};
use crate::ir_execute::upload::convert_texture_upload;
use crate::ir_execute::{IrSubmitError, UnsupportedIrFeature};
use crate::memory::Memory;
use vstd::prelude::*;

verus! {

/// Where a pass renders.
#[derive(Debug, Clone, Copy, PartialEq, Eq, Structural)]
pub enum ExecutionTarget {
    /// An image that stands for a presented texture.
    Mapped(Image),
    /// A texture that the device creates.
    Internal(IrTextureSpec),
}

/// One render pass and where it renders.
#[derive(Debug)]
pub struct ExecutionPass {
    /// Target image.
    pub target: ExecutionTarget,
    /// Decoded pass.
    pub submission: IrSubmission,
}

/// One step of a plan.
#[derive(Debug)]
pub enum ExecutionEvent {
    /// Upload pixels into a texture.
    Upload(IrTextureSpec, IrTextureUpload),
    /// Copy between textures.
    Copy(IrTextureCopy),
    /// Submit a render pass.
    Pass(ExecutionPass),
}

/// The contents of a step.
#[verifier::ext_equal]
pub enum EventView {
    Upload(IrTextureSpec, UploadView),
    Copy(IrTextureCopy),
    Pass(ExecutionTarget, SubmissionView),
}

impl View for ExecutionEvent {
    type V = EventView;

    open spec fn view(&self) -> EventView {
        match *self {
            ExecutionEvent::Upload(spec, upload) => EventView::Upload(spec, upload@),
            ExecutionEvent::Copy(copy) => EventView::Copy(copy),
            ExecutionEvent::Pass(pass) => EventView::Pass(pass.target, pass.submission@),
        }
    }
}

/// The contents of steps.
pub open spec fn event_views(events: Seq<ExecutionEvent>) -> Seq<EventView> {
    Seq::new(events.len(), |i: int| events[i]@)
}

/// A plan in the making: the steps and buffer contents so far, the open pass,
/// and whether a pass was opened before.
#[verifier::ext_equal]
pub struct PlanView {
    pub events: Seq<EventView>,
    pub updates: Seq<UpdateView>,
    pub active: Option<ActiveView>,
    pub seen_pass: bool,
}

/// The outcome of a command that its place in the sequence rules out.
pub open spec fn out_of_sequence<T>() -> Result<T, IrSubmitError> {
    crate::ir_execute::unsupported(UnsupportedIrFeature::CommandSequence)
}

/// The copy between two texture regions, or why it is not possible.
pub open spec fn spec_plan_copy(
    table: TableView,
    source: TextureRef,
    source_rect: PixelRect,
    destination: TextureRef,
    destination_rect: PixelRect,
) -> Result<IrTextureCopy, IrSubmitError> {
    match (table.texture(source), table.texture(destination)) {
        (Err(error), _) => crate::ir_execute::invalid(error),
        (_, Err(error)) => crate::ir_execute::invalid(error),
        (Ok(source_desc), Ok(destination_desc)) => if !source_desc@.usage.allows(
            TextureUsage::COPY_SRC_BIT,
        ) || !destination_desc@.usage.allows(TextureUsage::COPY_DST_BIT)
            || source_desc@.format != destination_desc@.format || source_rect@.width
            != destination_rect@.width || source_rect@.height != destination_rect@.height
            || !source_rect@.within(source_desc@.extent) || !destination_rect@.within(
            destination_desc@.extent,
        ) {
            crate::ir_execute::invalid(Error::InvalidUsage)
        } else {
            match (
                crate::ir_execute::state::spec_texture_spec(source@.index, source_desc@),
                crate::ir_execute::state::spec_texture_spec(destination@.index, destination_desc@),
            ) {
                (Err(error), _) => Err(error),
                (_, Err(error)) => Err(error),
                (Ok(source_spec), Ok(destination_spec)) => if !source_spec.is_materializable()
                    || !destination_spec.is_materializable() {
                    crate::ir_execute::unsupported(UnsupportedIrFeature::TargetUsage)
                } else {
                    Ok(
                        IrTextureCopy {
                            source: source_spec,
                            source_rect: crate::ir_execute::state::spec_ir_rect(source_rect@),
                            destination: destination_spec,
                            destination_rect: crate::ir_execute::state::spec_ir_rect(
                                destination_rect@,
                            ),
                        },
                    )
                },
            }
        },
    }
}

/// The upload of pixels into a texture, or why it is not possible. Pixels of a
/// mapped image cannot be uploaded. Devices hold one level, which takes the pixels
/// of every level.
pub open spec fn spec_plan_upload(
    resources: ResourcesView,
    table: TableView,
    texture: TextureRef,
    write: TextureWriteView,
) -> Result<(IrTextureSpec, UploadView), IrSubmitError> {
    match table.texture(texture) {
        Err(error) => crate::ir_execute::invalid(error),
        Ok(desc) => if !desc@.usage.allows(TextureUsage::COPY_DST_BIT) {
            crate::ir_execute::invalid(Error::InvalidUsage)
        } else {
            match crate::ir_execute::state::spec_texture_spec(texture@.index, desc@) {
                Err(error) => Err(error),
                Ok(spec) => if !spec.is_materializable() {
                    crate::ir_execute::unsupported(UnsupportedIrFeature::TargetUsage)
                } else if resources.maps(texture.id()) || write.array_layer != 0 {
                    crate::ir_execute::unsupported(UnsupportedIrFeature::TextureUpload)
                } else {
                    match crate::ir_execute::upload::spec_convert_texture_upload(spec, write) {
                        Err(error) => Err(error),
                        Ok(upload) => Ok((spec, upload)),
                    }
                },
            }
        },
    }
}

/// The pass that a descriptor opens, or why it cannot be opened. A pass has one
/// BGRA color attachment; devices leave its depth attachment alone. It renders into
/// the image that stands for its texture, or into a texture of the device that is not
/// presented.
pub open spec fn spec_open_pass(
    resources: ResourcesView,
    table: TableView,
    desc: RenderPassView,
) -> Result<ActiveView, IrSubmitError> {
    let attachment = desc.colors[0].target;
    match table.texture(attachment) {
        Err(error) => crate::ir_execute::invalid(error),
        Ok(texture) => if texture@.format != TextureFormat::Bgra8Unorm {
            crate::ir_execute::unsupported(UnsupportedIrFeature::TargetFormat)
        } else if desc.colors.len() != 1 {
            crate::ir_execute::unsupported(UnsupportedIrFeature::TargetUsage)
        } else {
            match spec_pass_target(resources, attachment, texture, desc.area) {
                Err(error) => Err(error),
                Ok(target) => if !desc.area@.within(texture@.extent) {
                    crate::ir_execute::invalid(Error::OutOfBounds)
                } else {
                    Ok(
                        ActiveView {
                            attachment,
                            target,
                            submission: SubmissionView {
                                clear_color: match desc.colors[0].load {
                                    LoadOp::Clear(color) => Some(color@),
                                    _ => None,
                                },
                                render_area: crate::ir_execute::state::spec_ir_rect(desc.area@),
                                vertices: Seq::empty(),
                                draws: Seq::empty(),
                                texture_uploads: Seq::empty(),
                            },
                            pipeline: None,
                            vertex_buffer: None,
                            index_buffer: None,
                            texture: None,
                            sampler: None,
                            uniforms: None,
                            scissor: None,
                        },
                    )
                },
            }
        },
    }
}

/// Where a pass over an area of a texture renders.
pub open spec fn spec_pass_target(
    resources: ResourcesView,
    attachment: TextureRef,
    texture: TextureDesc,
    area: PixelRect,
) -> Result<ExecutionTarget, IrSubmitError> {
    match resources.image_of(attachment.id()) {
        Some(image) => if area@.right() > image.width || area@.bottom() > image.height {
            crate::ir_execute::invalid(Error::OutOfBounds)
        } else {
            Ok(ExecutionTarget::Mapped(image))
        },
        None => match crate::ir_execute::state::spec_texture_spec(attachment@.index, texture@) {
            Err(error) => Err(error),
            Ok(spec) => if spec.present || !spec.render_attachment {
                Err(IrSubmitError::ImageNotMapped)
            } else {
                Ok(ExecutionTarget::Internal(spec))
            },
        },
    }
}

impl PlanView {
    /// A plan without steps.
    pub open spec fn initial() -> Self {
        PlanView {
            events: Seq::empty(),
            updates: Seq::empty(),
            active: None,
            seen_pass: false,
        }
    }

    /// The plan with another open pass.
    pub open spec fn with_active(self, active: Result<ActiveView, IrSubmitError>) -> Result<
        Self,
        IrSubmitError,
    > {
        match active {
            Err(error) => Err(error),
            Ok(pass) => Ok(PlanView { active: Some(pass), ..self }),
        }
    }

    /// The plan after a command, or why the command cannot be executed.
    pub open spec fn step(
        self,
        resources: ResourcesView,
        table: TableView,
        command: CommandView,
    ) -> Result<Self, IrSubmitError> {
        match self.active {
            None => self.step_outside(resources, table, command),
            Some(pass) => self.step_inside(pass, resources, table, command),
        }
    }

    /// The plan after a command outside passes.
    pub open spec fn step_outside(
        self,
        resources: ResourcesView,
        table: TableView,
        command: CommandView,
    ) -> Result<Self, IrSubmitError> {
        match command {
            CommandView::CopyTextureToTexture {
                source,
                source_rect,
                destination,
                destination_rect,
            } => match spec_plan_copy(table, source, source_rect, destination, destination_rect) {
                Err(error) => Err(error),
                Ok(copy) => Ok(PlanView { events: self.events.push(EventView::Copy(copy)), ..self }),
            },
            CommandView::WriteBuffer { buffer, offset, data } => if self.seen_pass {
                out_of_sequence()
            } else {
                match crate::ir_execute::buffers::spec_write(
                    self.updates,
                    resources,
                    table,
                    buffer,
                    offset,
                    data,
                ) {
                    Err(error) => Err(error),
                    Ok(updates) => Ok(PlanView { updates, ..self }),
                }
            },
            CommandView::WriteTexture { texture, write } => match spec_plan_upload(
                resources,
                table,
                texture,
                write,
            ) {
                Err(error) => Err(error),
                Ok((spec, upload)) => Ok(
                    PlanView { events: self.events.push(EventView::Upload(spec, upload)), ..self },
                ),
            },
            CommandView::BeginRenderPass(desc) => match spec_open_pass(resources, table, desc) {
                Err(error) => Err(error),
                Ok(pass) => Ok(PlanView { active: Some(pass), seen_pass: true, ..self }),
            },
            _ => out_of_sequence(),
        }
    }

    /// The plan after a command inside an open pass.
    pub open spec fn step_inside(
        self,
        pass: ActiveView,
        resources: ResourcesView,
        table: TableView,
        command: CommandView,
    ) -> Result<Self, IrSubmitError> {
        match command {
            CommandView::EndRenderPass => if pass.submission.draws.len() == 0 {
                out_of_sequence()
            } else {
                Ok(
                    PlanView {
                        events: self.events.push(EventView::Pass(pass.target, pass.submission)),
                        active: None,
                        ..self
                    },
                )
            },
            CommandView::SetPipeline(reference) => self.with_active(
                Ok(ActiveView { pipeline: Some(reference), ..pass }),
            ),
            CommandView::SetVertexBuffer { buffer, offset } => self.with_active(
                Ok(ActiveView { vertex_buffer: Some((buffer, offset)), ..pass }),
            ),
            CommandView::SetIndexBuffer { buffer, offset, format } => self.with_active(
                Ok(ActiveView { index_buffer: Some((buffer, offset, format)), ..pass }),
            ),
            CommandView::SetTexture(reference) => self.with_active(
                Ok(ActiveView { texture: Some(reference), ..pass }),
            ),
            CommandView::SetSampler(reference) => self.with_active(
                Ok(ActiveView { sampler: Some(reference), ..pass }),
            ),
            CommandView::SetUniforms(value) => self.with_active(
                Ok(ActiveView { uniforms: Some(value), ..pass }),
            ),
            CommandView::SetScissor(value) => if value is Some && !scissor_fits(
                value->0,
                pass,
            ) {
                crate::ir_execute::invalid(Error::OutOfBounds)
            } else {
                self.with_active(Ok(ActiveView { scissor: value, ..pass }))
            },
            CommandView::Draw { vertex_count, first_vertex } => self.with_active(
                pass.draw(resources, self.updates, table, first_vertex, vertex_count),
            ),
            CommandView::DrawIndexed { index_count, first_index, base_vertex } => self.with_active(
                pass.draw_indexed(
                    resources,
                    self.updates,
                    table,
                    first_index,
                    index_count,
                    base_vertex,
                ),
            ),
            _ => out_of_sequence(),
        }
    }

    /// The plan after commands, or why one of them cannot be executed.
    pub open spec fn after(
        resources: ResourcesView,
        table: TableView,
        commands: Seq<CommandView>,
    ) -> Result<Self, IrSubmitError>
        decreases commands.len(),
    {
        if commands.len() == 0 {
            Ok(PlanView::initial())
        } else {
            match PlanView::after(resources, table, commands.drop_last()) {
                Err(error) => Err(error),
                Ok(plan) => plan.step(resources, table, commands.last()),
            }
        }
    }
}

/// Whether a scissor rectangle lies within the render area of a pass.
pub open spec fn scissor_fits(scissor: PixelRect, pass: ActiveView) -> bool {
    let area = pass.submission.render_area;
    scissor@.x >= area.x && scissor@.y >= area.y && scissor@.right() <= area.right()
        && scissor@.bottom() <= area.bottom()
}

/// The contents of a finished plan.
#[verifier::ext_equal]
pub struct FinishedView {
    pub events: Seq<EventView>,
    pub buffer_updates: Seq<UpdateView>,
}

/// The plan of commands, or why there is none. A plan closes every pass and does
/// something.
pub open spec fn spec_plan(
    resources: ResourcesView,
    table: TableView,
    commands: Seq<CommandView>,
) -> Result<FinishedView, IrSubmitError> {
    finished(PlanView::after(resources, table, commands))
}

/// The plan that is done after its last command.
pub open spec fn finished(plan: Result<PlanView, IrSubmitError>) -> Result<
    FinishedView,
    IrSubmitError,
> {
    match plan {
        Err(error) => Err(error),
        Ok(plan) => if plan.active is Some || plan.events.len() == 0 {
            out_of_sequence()
        } else {
            Ok(FinishedView { events: plan.events, buffer_updates: plan.updates })
        },
    }
}

/// Whether executing a command stores something.
pub open spec fn stores(command: CommandView) -> bool {
    command is CopyTextureToTexture || command is WriteBuffer || command is WriteTexture
        || command is EndRenderPass || command is Draw || command is DrawIndexed
}

impl PlanView {
    /// Whether a command comes as far as asking for memory: a draw whose vertices
    /// can be looked for, or another command that stores something and is executed.
    pub open spec fn reserves(
        self,
        resources: ResourcesView,
        table: TableView,
        command: CommandView,
    ) -> bool {
        match (self.active, command) {
            (Some(pass), CommandView::Draw { vertex_count, first_vertex }) => pass.draw_reserves(
                resources,
                self.updates,
                table,
                first_vertex,
                vertex_count,
            ),
            (Some(pass), CommandView::DrawIndexed { index_count, first_index, base_vertex }) => {
                pass.draw_indexed_reserves(
                    resources,
                    self.updates,
                    table,
                    first_index,
                    index_count,
                    base_vertex,
                )
            },
            _ => stores(command) && self.step(resources, table, command) is Ok,
        }
    }
}

impl PlanView {
    /// The plan after a command, or why it cannot be executed, where room for it is
    /// granted or refused.
    pub open spec fn step_answered(
        self,
        resources: ResourcesView,
        table: TableView,
        command: CommandView,
        granted: bool,
    ) -> Result<Self, IrSubmitError> {
        crate::ir_execute::draw::granted_or(
            self.step(resources, table, command),
            self.reserves(resources, table, command),
            granted,
        )
    }

    /// The plan after commands, or why one of them cannot be executed, where room for
    /// each is granted or refused as listed.
    pub open spec fn after_answered(
        resources: ResourcesView,
        table: TableView,
        commands: Seq<CommandView>,
        answers: Seq<bool>,
    ) -> Result<Self, IrSubmitError>
        decreases commands.len(),
    {
        if commands.len() == 0 {
            Ok(PlanView::initial())
        } else {
            match PlanView::after_answered(
                resources,
                table,
                commands.drop_last(),
                answers.drop_last(),
            ) {
                Err(error) => Err(error),
                Ok(plan) => plan.step_answered(resources, table, commands.last(), answers.last()),
            }
        }
    }
}

/// The plan of commands, or why there is none, where room for each is granted or
/// refused as listed.
pub open spec fn spec_plan_answered(
    resources: ResourcesView,
    table: TableView,
    commands: Seq<CommandView>,
    answers: Seq<bool>,
) -> Result<FinishedView, IrSubmitError> {
    finished(PlanView::after_answered(resources, table, commands, answers))
}

/// Whether planning may come to an outcome, with some answers to its requests for
/// room.
pub open spec fn plans_to(
    resources: ResourcesView,
    table: TableView,
    commands: Seq<CommandView>,
    memory: Memory,
    outcome: Result<FinishedView, IrSubmitError>,
) -> bool {
    exists|answers: Seq<bool>|
        answers.len() == commands.len() && memory.may_answer(answers)
            && #[trigger] spec_plan_answered(resources, table, commands, answers) == outcome
}

proof fn lemma_granted_plan(
    resources: ResourcesView,
    table: TableView,
    commands: Seq<CommandView>,
    answers: Seq<bool>,
)
    requires
        answers.len() == commands.len(),
        forall|i: int| 0 <= i < answers.len() ==> #[trigger] answers[i],
    ensures
        PlanView::after_answered(resources, table, commands, answers) == PlanView::after(
            resources,
            table,
            commands,
        ),
    decreases commands.len(),
{
    if commands.len() > 0 {
        lemma_granted_plan(resources, table, commands.drop_last(), answers.drop_last());
        assert(answers[answers.len() - 1]);
    }
}

/// The first command that cannot be executed decides the outcome.
proof fn lemma_answered_failure_is_final(
    resources: ResourcesView,
    table: TableView,
    commands: Seq<CommandView>,
    answers: Seq<bool>,
    count: int,
)
    requires
        answers.len() == commands.len(),
        0 <= count <= commands.len(),
        PlanView::after_answered(
            resources,
            table,
            commands.take(count),
            answers.take(count),
        ) is Err,
    ensures
        PlanView::after_answered(resources, table, commands, answers) == PlanView::after_answered(
            resources,
            table,
            commands.take(count),
            answers.take(count),
        ),
    decreases commands.len(),
{
    if count == commands.len() {
        assert(commands.take(count) =~= commands);
        assert(answers.take(count) =~= answers);
    } else {
        assert(commands.drop_last().take(count) =~= commands.take(count));
        assert(answers.drop_last().take(count) =~= answers.take(count));
        lemma_answered_failure_is_final(
            resources,
            table,
            commands.drop_last(),
            answers.drop_last(),
            count,
        );
    }
}

/// Where all room is granted, commands are planned as though memory never ran out. The
/// first command that asks for room and is refused makes planning fail for want of
/// memory.
pub proof fn law_answers_decide_plans(
    resources: ResourcesView,
    table: TableView,
    commands: Seq<CommandView>,
    answers: Seq<bool>,
)
    requires
        answers.len() == commands.len(),
    ensures
        (forall|i: int| 0 <= i < answers.len() ==> #[trigger] answers[i]) ==> spec_plan_answered(
            resources,
            table,
            commands,
            answers,
        ) == spec_plan(resources, table, commands),
        forall|at: int|
            0 <= at < commands.len() && !(#[trigger] answers[at]) && (forall|i: int|
                0 <= i < at ==> #[trigger] answers[i]) && reserves_at(
                resources,
                table,
                commands,
                at,
            ) ==> spec_plan_answered(resources, table, commands, answers) == Err::<
                FinishedView,
                IrSubmitError,
            >(IrSubmitError::OutOfMemory),
{
    if forall|i: int| 0 <= i < answers.len() ==> #[trigger] answers[i] {
        lemma_granted_plan(resources, table, commands, answers);
    }
    assert forall|at: int|
        0 <= at < commands.len() && !(#[trigger] answers[at]) && (forall|i: int|
            0 <= i < at ==> #[trigger] answers[i]) && reserves_at(
            resources,
            table,
            commands,
            at,
        ) implies spec_plan_answered(resources, table, commands, answers) == Err::<
        FinishedView,
        IrSubmitError,
    >(IrSubmitError::OutOfMemory) by {
        lemma_granted_plan(resources, table, commands.take(at), answers.take(at));
        assert(commands.take(at + 1).drop_last() =~= commands.take(at));
        assert(answers.take(at + 1).drop_last() =~= answers.take(at));
        lemma_answered_failure_is_final(resources, table, commands, answers, at + 1);
    }
}

/// Whether the commands before a position are executed and the one there comes
/// as far as asking for memory.
pub open spec fn reserves_at(
    resources: ResourcesView,
    table: TableView,
    commands: Seq<CommandView>,
    at: int,
) -> bool {
    0 <= at < commands.len() && match PlanView::after(resources, table, commands.take(at)) {
        Err(_) => false,
        Ok(plan) => plan.reserves(resources, table, commands[at]),
    }
}

/// Steps of a command buffer in order, and the buffer contents to keep once all
/// of them succeeded.
#[derive(Debug)]
pub struct ExecutionPlan {
    /// Steps in order.
    pub events: Vec<ExecutionEvent>,
    /// Buffer contents to keep.
    pub buffer_updates: Vec<BufferShadowUpdate>,
}

impl View for ExecutionPlan {
    type V = FinishedView;

    open spec fn view(&self) -> FinishedView {
        FinishedView {
            events: event_views(self.events@),
            buffer_updates: crate::ir_execute::buffers::update_views(self.buffer_updates@),
        }
    }
}

/// What a result of a plan holds.
pub open spec fn plan_outcome(result: Result<ExecutionPlan, IrSubmitError>) -> Result<
    FinishedView,
    IrSubmitError,
> {
    match result {
        Ok(plan) => Ok(plan@),
        Err(error) => Err(error),
    }
}

/// A plan in the making.
struct PlanBuilder {
    events: Vec<ExecutionEvent>,
    pending: PendingBuffers,
    active: Option<ActivePass>,
    seen_pass: bool,
}

spec fn active_view(active: Option<ActivePass>) -> Option<ActiveView> {
    match active {
        Some(pass) => Some(pass@),
        None => None,
    }
}

impl View for PlanBuilder {
    type V = PlanView;

    closed spec fn view(&self) -> PlanView {
        PlanView {
            events: event_views(self.events@),
            updates: self.pending@,
            active: active_view(self.active),
            seen_pass: self.seen_pass,
        }
    }
}

spec fn builder_outcome(result: Result<PlanBuilder, IrSubmitError>) -> Result<
    PlanView,
    IrSubmitError,
> {
    match result {
        Ok(builder) => Ok(builder@),
        Err(error) => Err(error),
    }
}

fn plan_copy(
    table: &ResourceTable,
    source: TextureRef,
    source_rect: PixelRect,
    destination: TextureRef,
    destination_rect: PixelRect,
) -> (r: Result<IrTextureCopy, IrSubmitError>)
    ensures
        r == spec_plan_copy(table@, source, source_rect, destination, destination_rect),
{
    let source_desc: TextureDesc = match table.texture(source) {
        Ok(desc) => desc,
        Err(error) => {
            return Err(IrSubmitError::InvalidIr(error));
        },
    };
    let destination_desc: TextureDesc = match table.texture(destination) {
        Ok(desc) => desc,
        Err(error) => {
            return Err(IrSubmitError::InvalidIr(error));
        },
    };
    if !source_desc.usage().contains(TextureUsage::copy_src()) || !destination_desc.usage().contains(
        TextureUsage::copy_dst(),
    ) || source_desc.format() != destination_desc.format() || !source_rect.same_extent(
        destination_rect,
    ) || !source_rect.is_within(source_desc.extent()) || !destination_rect.is_within(
        destination_desc.extent(),
    ) {
        return Err(IrSubmitError::InvalidIr(Error::InvalidUsage));
    }
    let source_spec: IrTextureSpec = match texture_spec(source, source_desc) {
        Ok(spec) => spec,
        Err(error) => {
            return Err(error);
        },
    };
    let destination_spec: IrTextureSpec = match texture_spec(destination, destination_desc) {
        Ok(spec) => spec,
        Err(error) => {
            return Err(error);
        },
    };
    if !source_spec.is_materializable() || !destination_spec.is_materializable() {
        return Err(IrSubmitError::Unsupported(UnsupportedIrFeature::TargetUsage));
    }
    Ok(
        IrTextureCopy {
            source: source_spec,
            source_rect: ir_rect(source_rect),
            destination: destination_spec,
            destination_rect: ir_rect(destination_rect),
        },
    )
}

spec fn planned_upload(result: Result<(IrTextureSpec, IrTextureUpload), IrSubmitError>) -> Result<
    (IrTextureSpec, UploadView),
    IrSubmitError,
> {
    match result {
        Ok((spec, upload)) => Ok((spec, upload@)),
        Err(error) => Err(error),
    }
}

fn plan_upload(
    resources: &IrResources,
    table: &ResourceTable,
    texture: TextureRef,
    write: TextureWrite<'_>,
    memory: Memory,
) -> (r: Result<(IrTextureSpec, IrTextureUpload), IrSubmitError>)
    ensures
        crate::ir_execute::draw::fulfilled(
            planned_upload(r),
            spec_plan_upload(resources@, table@, texture, write@),
            spec_plan_upload(resources@, table@, texture, write@) is Ok,
            memory,
        ),
{
    let descriptor: TextureDesc = match table.texture(texture) {
        Ok(desc) => desc,
        Err(error) => {
            return Err(IrSubmitError::InvalidIr(error));
        },
    };
    if !descriptor.usage().contains(TextureUsage::copy_dst()) {
        return Err(IrSubmitError::InvalidIr(Error::InvalidUsage));
    }
    let spec: IrTextureSpec = match texture_spec(texture, descriptor) {
        Ok(spec) => spec,
        Err(error) => {
            return Err(error);
        },
    };
    if !spec.is_materializable() {
        return Err(IrSubmitError::Unsupported(UnsupportedIrFeature::TargetUsage));
    }
    if resources.maps(texture.id()) || write.array_layer() != 0 {
        return Err(IrSubmitError::Unsupported(UnsupportedIrFeature::TextureUpload));
    }
    match convert_texture_upload(spec, write, memory) {
        Ok(upload) => Ok((spec, upload)),
        Err(error) => Err(error),
    }
}

fn pass_target(
    resources: &IrResources,
    attachment: TextureRef,
    texture: TextureDesc,
    area: PixelRect,
) -> (r: Result<ExecutionTarget, IrSubmitError>)
    ensures
        r == spec_pass_target(resources@, attachment, texture, area),
{
    match resources.image_of(attachment.id()) {
        Some(image) => {
            let rect = ir_rect(area);
            if rect.x + rect.width > image.width || rect.y + rect.height > image.height {
                return Err(IrSubmitError::InvalidIr(Error::OutOfBounds));
            }
            Ok(ExecutionTarget::Mapped(image))
        },
        None => match texture_spec(attachment, texture) {
            Err(error) => Err(error),
            Ok(spec) => if spec.present || !spec.render_attachment {
                Err(IrSubmitError::ImageNotMapped)
            } else {
                Ok(ExecutionTarget::Internal(spec))
            },
        },
    }
}

fn open_pass(resources: &IrResources, table: &ResourceTable, desc: RenderPassDesc) -> (r: Result<
    ActivePass,
    IrSubmitError,
>)
    ensures
        crate::ir_execute::draw::pass_outcome(r) == spec_open_pass(resources@, table@, desc@),
{
    let attachment: TextureRef = desc.target();
    let texture: TextureDesc = match table.texture(attachment) {
        Ok(texture) => texture,
        Err(error) => {
            return Err(IrSubmitError::InvalidIr(error));
        },
    };
    if texture.format() != TextureFormat::Bgra8Unorm {
        return Err(IrSubmitError::Unsupported(UnsupportedIrFeature::TargetFormat));
    }
    if desc.color_attachments().len() != 1 {
        return Err(IrSubmitError::Unsupported(UnsupportedIrFeature::TargetUsage));
    }
    let target: ExecutionTarget = match pass_target(resources, attachment, texture, desc.area()) {
        Ok(target) => target,
        Err(error) => {
            return Err(error);
        },
    };
    if !desc.area().is_within(texture.extent()) {
        return Err(IrSubmitError::InvalidIr(Error::OutOfBounds));
    }
    let clear_color: Option<[u32; 4]> = match desc.load() {
        LoadOp::Clear(color) => Some(color.components()),
        LoadOp::Load | LoadOp::DontCare => None,
    };
    let pass = ActivePass {
        attachment,
        target,
        submission: IrSubmission {
            clear_color,
            render_area: ir_rect(desc.area()),
            vertices: Vec::new(),
            draws: Vec::new(),
            texture_uploads: Vec::new(),
        },
        pipeline: None,
        vertex_buffer: None,
        index_buffer: None,
        texture: None,
        sampler: None,
        uniforms: None,
        scissor: None,
    };
    proof {
        assert(pass.submission@.vertices =~= Seq::empty());
        assert(pass.submission@.draws =~= Seq::empty());
        assert(pass.submission@.texture_uploads =~= Seq::empty());
    }
    Ok(pass)
}

fn scissor_within(scissor: PixelRect, pass: &ActivePass) -> (r: bool)
    ensures
        r == scissor_fits(scissor, pass@),
{
    let rect = ir_rect(scissor);
    let area = pass.submission.render_area;
    rect.x >= area.x && rect.y >= area.y && (rect.x + rect.width) as u64 <= area.x as u64
        + area.width as u64 && (rect.y + rect.height) as u64 <= area.y as u64 + area.height as u64
}

impl PlanBuilder {
    fn new() -> (r: Self)
        ensures
            r@ == PlanView::initial(),
    {
        let builder = PlanBuilder {
            events: Vec::new(),
            pending: PendingBuffers::new(),
            active: None,
            seen_pass: false,
        };
        assert(builder@.events =~= Seq::empty());
        builder
    }

    fn push(self, event: ExecutionEvent, memory: Memory) -> (r: Result<Self, IrSubmitError>)
        ensures
            crate::ir_execute::draw::fulfilled(
                builder_outcome(r),
                Ok(PlanView { events: self@.events.push(event@), ..self@ }),
                true,
                memory,
            ),
    {
        let mut builder: PlanBuilder = self;
        if !memory.reserve(&mut builder.events, 1) {
            return Err(IrSubmitError::OutOfMemory);
        }
        builder.events.push(event);
        assert(builder@.events =~= self@.events.push(event@));
        Ok(builder)
    }

    fn with_pass(self, pass: ActivePass) -> (r: Self)
        ensures
            r@ == (PlanView { active: Some(pass@), ..self@ }),
    {
        let mut builder: PlanBuilder = self;
        builder.active = Some(pass);
        builder
    }

    fn step_outside(
        self,
        resources: &IrResources,
        table: &ResourceTable,
        command: Command<'_>,
        memory: Memory,
    ) -> (r: Result<Self, IrSubmitError>)
        requires
            self@.active is None,
        ensures
            crate::ir_execute::draw::fulfilled(
                builder_outcome(r),
                self@.step_outside(resources@, table@, command@),
                self@.reserves(resources@, table@, command@),
                memory,
            ),
    {
        match command {
            Command::CopyTextureToTexture { source, source_rect, destination, destination_rect } => {
                match plan_copy(table, source, source_rect, destination, destination_rect) {
                    Ok(copy) => self.push(ExecutionEvent::Copy(copy), memory),
                    Err(error) => Err(error),
                }
            },
            Command::WriteBuffer { buffer, offset, data } => {
                if self.seen_pass {
                    return Err(IrSubmitError::Unsupported(UnsupportedIrFeature::CommandSequence));
                }
                let mut builder: PlanBuilder = self;
                match builder.pending.write(resources, table, buffer, offset, data, memory) {
                    Ok(()) => Ok(builder),
                    Err(error) => Err(error),
                }
            },
            Command::WriteTexture { texture, write } => {
                match plan_upload(resources, table, texture, write, memory) {
                    Ok((spec, upload)) => self.push(ExecutionEvent::Upload(spec, upload), memory),
                    Err(error) => Err(error),
                }
            },
            Command::BeginRenderPass(desc) => {
                match open_pass(resources, table, desc) {
                    Ok(pass) => {
                        let mut builder: PlanBuilder = self;
                        builder.active = Some(pass);
                        builder.seen_pass = true;
                        Ok(builder)
                    },
                    Err(error) => Err(error),
                }
            },
            _ => Err(IrSubmitError::Unsupported(UnsupportedIrFeature::CommandSequence)),
        }
    }

    fn step_inside(
        self,
        pass: ActivePass,
        resources: &IrResources,
        table: &ResourceTable,
        command: Command<'_>,
        memory: Memory,
    ) -> (r: Result<Self, IrSubmitError>)
        requires
            self@.active is None,
        ensures
            crate::ir_execute::draw::fulfilled(
                builder_outcome(r),
                (PlanView { active: Some(pass@), ..self@ }).step_inside(
                    pass@,
                    resources@,
                    table@,
                    command@,
                ),
                (PlanView { active: Some(pass@), ..self@ }).reserves(
                    resources@,
                    table@,
                    command@,
                ),
                memory,
            ),
    {
        let mut pass: ActivePass = pass;
        match command {
            Command::EndRenderPass => {
                if pass.submission.draws.len() == 0 {
                    return Err(IrSubmitError::Unsupported(UnsupportedIrFeature::CommandSequence));
                }
                self.push(
                    ExecutionEvent::Pass(
                        ExecutionPass { target: pass.target, submission: pass.submission },
                    ),
                    memory,
                )
            },
            Command::SetPipeline(reference) => {
                pass.pipeline = Some(reference);
                Ok(self.with_pass(pass))
            },
            Command::SetVertexBuffer { buffer, offset } => {
                pass.vertex_buffer = Some((buffer, offset));
                Ok(self.with_pass(pass))
            },
            Command::SetIndexBuffer { buffer, offset, format } => {
                pass.index_buffer = Some((buffer, offset, format));
                Ok(self.with_pass(pass))
            },
            Command::SetTexture(reference) => {
                pass.texture = Some(reference);
                Ok(self.with_pass(pass))
            },
            Command::SetSampler(reference) => {
                pass.sampler = Some(reference);
                Ok(self.with_pass(pass))
            },
            Command::SetUniforms(value) => {
                pass.uniforms = Some(value);
                Ok(self.with_pass(pass))
            },
            Command::SetScissor(value) => {
                match value {
                    Some(rectangle) => {
                        if !scissor_within(rectangle, &pass) {
                            return Err(IrSubmitError::InvalidIr(Error::OutOfBounds));
                        }
                    },
                    None => {},
                }
                pass.scissor = value;
                Ok(self.with_pass(pass))
            },
            Command::Draw { vertex_count, first_vertex } => {
                match pass.draw(
                    resources,
                    &self.pending,
                    table,
                    first_vertex,
                    vertex_count,
                    memory,
                ) {
                    Ok(drawn) => Ok(self.with_pass(drawn)),
                    Err(error) => Err(error),
                }
            },
            Command::DrawIndexed { index_count, first_index, base_vertex } => {
                match pass.draw_indexed(
                    resources,
                    &self.pending,
                    table,
                    first_index,
                    index_count,
                    base_vertex,
                    memory,
                ) {
                    Ok(drawn) => Ok(self.with_pass(drawn)),
                    Err(error) => Err(error),
                }
            },
            _ => Err(IrSubmitError::Unsupported(UnsupportedIrFeature::CommandSequence)),
        }
    }

    fn step(
        self,
        resources: &IrResources,
        table: &ResourceTable,
        command: Command<'_>,
        memory: Memory,
    ) -> (r: Result<Self, IrSubmitError>)
        ensures
            crate::ir_execute::draw::fulfilled(
                builder_outcome(r),
                self@.step(resources@, table@, command@),
                self@.reserves(resources@, table@, command@),
                memory,
            ),
    {
        let mut builder: PlanBuilder = self;
        match builder.active.take() {
            None => builder.step_outside(resources, table, command, memory),
            Some(pass) => {
                assert((PlanView { active: Some(pass@), ..builder@ }) =~= self@);
                builder.step_inside(pass, resources, table, command, memory)
            },
        }
    }
}

impl ExecutionPlan {
    /// Plan the execution of a command buffer.
    ///
    /// Commands are taken in their recorded order and the first one that cannot be
    /// executed decides the failure. Buffers are written before the first pass
    /// only, every pass draws something, and a plan does something. Storing a step
    /// fails with `IrSubmitError::OutOfMemory` when memory runs out.
    pub fn from_commands(resources: &IrResources, commands: &CommandBuffer<'_, '_>) -> (r: Result<
        Self,
        IrSubmitError,
    >)
        ensures
            plans_to(
                resources@,
                commands@.resources,
                commands@.commands,
                Memory::System,
                plan_outcome(r),
            ),
    {
        Self::from_commands_with(resources, commands, Memory::System)
    }

    /// Plan the execution of a command buffer, where requests for room are answered as
    /// given. Where all are granted, the outcome is the plan of the commands.
    pub fn from_commands_with(
        resources: &IrResources,
        commands: &CommandBuffer<'_, '_>,
        memory: Memory,
    ) -> (r: Result<Self, IrSubmitError>)
        ensures
            plans_to(
                resources@,
                commands@.resources,
                commands@.commands,
                memory,
                plan_outcome(r),
            ),
            memory == Memory::Fixed(true) ==> plan_outcome(r) == spec_plan(
                resources@,
                commands@.resources,
                commands@.commands,
            ),
    {
        let table: &ResourceTable = commands.resources();
        let list: &[Command<'_>] = commands.commands();
        let ghost views = commands@.commands;
        let ghost mut answers: Seq<bool> = Seq::empty();
        let mut builder: PlanBuilder = PlanBuilder::new();
        let mut i: usize = 0;
        assert(views.take(0) =~= Seq::<CommandView>::empty());
        while i < list.len()
            invariant
                i <= list@.len(),
                views == crate::ir::command::command_views(list@),
                views == commands@.commands,
                table@ == commands@.resources,
                answers.len() == i,
                memory.may_answer(answers),
                Ok::<PlanView, IrSubmitError>(builder@) == PlanView::after_answered(
                    resources@,
                    table@,
                    views.take(i as int),
                    answers,
                ),
            decreases list.len() - i,
        {
            let command: Command<'_> = list[i];
            let ghost plan = builder@;
            proof {
                assert(views[i as int] == command@);
                assert(views.take(i + 1).drop_last() =~= views.take(i as int));
                assert(views.take(i + 1).last() == views[i as int]);
            }
            match builder.step(resources, table, command, memory) {
                Ok(next) => {
                    proof {
                        let granted = memory.may(true) && Ok::<PlanView, IrSubmitError>(next@)
                            == plan.step_answered(resources@, table@, command@, true);
                        assert(answers.push(granted).drop_last() =~= answers);
                        answers = answers.push(granted);
                    }
                    builder = next;
                },
                Err(error) => {
                    proof {
                        let granted = memory.may(true) && Err::<PlanView, IrSubmitError>(error)
                            == plan.step_answered(resources@, table@, command@, true);
                        lemma_planning_stops(
                            resources@,
                            table@,
                            views,
                            answers,
                            memory,
                            granted,
                            error,
                        );
                    }
                    return Err(error);
                },
            }
            i = i + 1;
        }
        proof {
            assert(views.take(i as int) =~= views);
            assert(spec_plan_answered(resources@, table@, views, answers) == finished(Ok(builder@)));
            if memory == Memory::Fixed(true) {
                lemma_fixed_answers(answers, memory);
                lemma_granted_plan(resources@, table@, views, answers);
            }
        }
        let PlanBuilder { events, pending, active, seen_pass: _ } = builder;
        if active.is_some() || events.len() == 0 {
            return Err(IrSubmitError::Unsupported(UnsupportedIrFeature::CommandSequence));
        }
        Ok(ExecutionPlan { events, buffer_updates: pending.into_updates() })
    }
}

proof fn lemma_fixed_answers(answers: Seq<bool>, memory: Memory)
    requires
        memory == Memory::Fixed(true),
        memory.may_answer(answers),
    ensures
        forall|i: int| 0 <= i < answers.len() ==> #[trigger] answers[i],
{
    assert forall|i: int| 0 <= i < answers.len() implies #[trigger] answers[i] by {
        assert(memory.may(answers[i]));
    }
}

/// Planning that stops at a command comes to its error, with answers that were given.
proof fn lemma_planning_stops(
    resources: ResourcesView,
    table: TableView,
    commands: Seq<CommandView>,
    answers: Seq<bool>,
    memory: Memory,
    granted: bool,
    error: IrSubmitError,
)
    requires
        answers.len() < commands.len(),
        memory.may_answer(answers),
        memory.may(granted),
        PlanView::after_answered(
            resources,
            table,
            commands.take(answers.len() as int),
            answers,
        ) matches Ok(plan) && plan.step_answered(
            resources,
            table,
            commands[answers.len() as int],
            granted,
        ) == Err::<PlanView, IrSubmitError>(error),
    ensures
        plans_to(resources, table, commands, memory, Err(error)),
        memory == Memory::Fixed(true) ==> spec_plan(resources, table, commands) == Err::<
            FinishedView,
            IrSubmitError,
        >(error),
{
    let at = answers.len() as int;
    let whole = answers + Seq::new((commands.len() - at) as nat, |i: int| granted);
    assert(whole.take(at + 1) =~= answers.push(granted));
    assert(whole.take(at + 1).drop_last() =~= answers);
    assert(commands.take(at + 1).drop_last() =~= commands.take(at));
    assert(commands.take(at + 1).last() == commands[at]);
    assert forall|i: int| 0 <= i < whole.len() implies memory.may(#[trigger] whole[i]) by {
        if i < at {
            assert(whole[i] == answers[i]);
        }
    }
    lemma_answered_failure_is_final(resources, table, commands, whole, at + 1);
    assert(spec_plan_answered(resources, table, commands, whole) == Err::<
        FinishedView,
        IrSubmitError,
    >(error));
    if memory == Memory::Fixed(true) {
        lemma_fixed_answers(whole, memory);
        lemma_granted_plan(resources, table, commands, whole);
    }
}

/// Check that a command buffer belongs to the retained resources, and these to
/// the queue and the context, and plan its execution.
///
/// Fails with `IrSubmitError::ResourceTableMismatch` for another table, with
/// `IrSubmitError::ContextMismatch` for another context, and as planning does.
pub fn submit_ir(
    queue_context: i32,
    context: i32,
    resources: &IrResources,
    commands: &CommandBuffer<'_, '_>,
) -> (r: Result<ExecutionPlan, IrSubmitError>)
    ensures
        match check_submission(queue_context, context, resources@, commands@.resources) {
            Err(error) => r == Err::<ExecutionPlan, IrSubmitError>(error),
            Ok(_) => plans_to(
                resources@,
                commands@.resources,
                commands@.commands,
                Memory::System,
                plan_outcome(r),
            ),
        },
{
    submit_ir_with(queue_context, context, resources, commands, Memory::System)
}

/// Why commands for a table cannot be submitted with retained resources, if so.
pub open spec fn check_submission(
    queue_context: i32,
    context: i32,
    resources: ResourcesView,
    table: TableView,
) -> Result<(), IrSubmitError> {
    if resources.table != table.id {
        Err(IrSubmitError::ResourceTableMismatch)
    } else if resources.context_id != context || queue_context != resources.context_id {
        Err(IrSubmitError::ContextMismatch)
    } else {
        Ok(())
    }
}

/// Check and plan as `submit_ir` does, where requests for room are answered as given.
pub fn submit_ir_with(
    queue_context: i32,
    context: i32,
    resources: &IrResources,
    commands: &CommandBuffer<'_, '_>,
    memory: Memory,
) -> (r: Result<ExecutionPlan, IrSubmitError>)
    ensures
        match check_submission(queue_context, context, resources@, commands@.resources) {
            Err(error) => r == Err::<ExecutionPlan, IrSubmitError>(error),
            Ok(_) => plans_to(
                resources@,
                commands@.resources,
                commands@.commands,
                memory,
                plan_outcome(r),
            ) && (memory == Memory::Fixed(true) ==> plan_outcome(r) == spec_plan(
                resources@,
                commands@.resources,
                commands@.commands,
            )),
        },
{
    if !resources.belongs_to(commands.resources()) {
        return Err(IrSubmitError::ResourceTableMismatch);
    }
    if resources.context_id() != context || queue_context != resources.context_id() {
        return Err(IrSubmitError::ContextMismatch);
    }
    ExecutionPlan::from_commands_with(resources, commands, memory)
}

} // verus!
