//! Recording of programmable dispatches within a compute pass.

use crate::ir::command::{recorded, Command, CommandEncoder, CommandView, EncoderView};
use crate::ir::groups::{validate_groups, DrawScope};
use crate::ir::programmable::MAX_BIND_GROUPS;
use crate::ir::shader::ShaderStages;
use crate::ir::table::{BindGroupRef, BufferRef, ComputePipelineRef, TextureRef};
use crate::ir::types::Error;
use vstd::prelude::*;

verus! {

/// Most workgroups along one axis of a dispatch.
pub const MAX_WORKGROUPS: u32 = 65_535;

/// What a compute pass has bound.
#[verifier::ext_equal]
pub struct ComputeStateView {
    pub pipeline: Option<ComputePipelineRef>,
    pub bind_groups: Seq<Option<BindGroupRef>>,
}

/// Whether a number of workgroups can be dispatched along an axis.
pub open spec fn workgroups_valid(count: u32) -> bool {
    1 <= count <= MAX_WORKGROUPS
}

impl ComputeStateView {
    /// Nothing bound.
    pub open spec fn initial() -> Self {
        ComputeStateView { pipeline: None, bind_groups: seq![None, None, None, None] }
    }

    /// Bind a pipeline.
    pub open spec fn set_pipeline(self, encoder: EncoderView, pipeline: ComputePipelineRef) -> Result<
        (EncoderView, Self),
        Error,
    > {
        match encoder.resources.compute_pipeline(pipeline) {
            Err(error) => Err(error),
            Ok(_) => match encoder.record_state(CommandView::SetComputePipeline(pipeline)) {
                Err(error) => Err(error),
                Ok(next) => Ok((next, ComputeStateView { pipeline: Some(pipeline), ..self })),
            },
        }
    }

    /// Bind a group.
    pub open spec fn set_bind_group(
        self,
        encoder: EncoderView,
        index: u32,
        bind_group: BindGroupRef,
    ) -> Result<(EncoderView, Self), Error> {
        if index >= MAX_BIND_GROUPS {
            Err(Error::OutOfBounds)
        } else {
            match encoder.resources.bind_group(bind_group) {
                Err(error) => Err(error),
                Ok(_) => match encoder.record_state(
                    CommandView::SetBindGroup { index, bind_group },
                ) {
                    Err(error) => Err(error),
                    Ok(next) => Ok(
                        (
                            next,
                            ComputeStateView {
                                bind_groups: self.bind_groups.update(
                                    index as int,
                                    Some(bind_group),
                                ),
                                ..self
                            },
                        ),
                    ),
                },
            }
        }
    }

    /// Update push constants.
    pub open spec fn set_push_constants(
        self,
        encoder: EncoderView,
        stages: ShaderStages,
        offset: u32,
        data: Seq<u8>,
    ) -> Result<(EncoderView, Self), Error> {
        match self.pipeline {
            None => Err(Error::PipelineNotSet),
            Some(pipeline) => match encoder.resources.compute_pipeline(pipeline) {
                Err(error) => Err(error),
                Ok(desc) => match desc.layout.check_push_constants(stages, offset, data.len()) {
                    Err(error) => Err(error),
                    Ok(_) => match encoder.record_state(
                        CommandView::SetPushConstants { stages, offset, data },
                    ) {
                        Err(error) => Err(error),
                        Ok(next) => Ok((next, self)),
                    },
                },
            },
        }
    }

    /// Dispatch workgroups.
    pub open spec fn dispatch(self, encoder: EncoderView, x: u32, y: u32, z: u32) -> Result<
        (EncoderView, Self),
        Error,
    > {
        if !(workgroups_valid(x) && workgroups_valid(y) && workgroups_valid(z)) {
            Err(Error::InvalidValue)
        } else {
            match self.pipeline {
                None => Err(Error::PipelineNotSet),
                Some(pipeline) => match encoder.resources.compute_pipeline(pipeline) {
                    Err(error) => Err(error),
                    Ok(desc) => match crate::ir::groups::group_accesses(
                        encoder,
                        desc.layout.bind_groups,
                        self.bind_groups,
                        (DrawScope { attachments: Seq::empty(), fetched: Seq::empty() }),
                    ) {
                        Err(error) => Err(error),
                        Ok(accesses) => match encoder.record(
                            CommandView::Dispatch { x, y, z },
                            accesses.used,
                            accesses.writes,
                        ) {
                            Err(error) => Err(error),
                            Ok(next) => Ok((next, self)),
                        },
                    },
                },
            }
        }
    }
}

/// What a compute pass has bound.
pub struct ComputePassState {
    pipeline: Option<ComputePipelineRef>,
    bind_groups: [Option<BindGroupRef>; 4],
}

impl View for ComputePassState {
    type V = ComputeStateView;

    closed spec fn view(&self) -> ComputeStateView {
        ComputeStateView { pipeline: self.pipeline, bind_groups: self.bind_groups@ }
    }
}

impl ComputePassState {
    /// Nothing bound.
    pub(crate) fn new() -> (r: Self)
        ensures
            r@ == ComputeStateView::initial(),
    {
        let state = Self { pipeline: None, bind_groups: [None, None, None, None] };
        assert(state@.bind_groups =~= seq![None, None, None, None]);
        state
    }
}

/// Encoder for programmable dispatch commands in one active compute pass.
///
/// A call that fails records nothing and changes nothing.
pub struct ComputePassEncoder<'encoder, 'r, 'data> {
    /// Encoder that the pass belongs to.
    pub encoder: &'encoder mut CommandEncoder<'r, 'data>,
    /// What the pass has bound.
    pub state: ComputePassState,
}

impl<'encoder, 'r, 'data> ComputePassEncoder<'encoder, 'r, 'data> {
    /// Select a compute pipeline from this command buffer's resource table.
    ///
    /// Fails as looking up the pipeline does.
    pub fn set_pipeline(&mut self, pipeline: ComputePipelineRef) -> (r: Result<(), Error>)
        ensures
            *final(final(self).encoder) == *final(old(self).encoder),
            final(self).encoder.memory() == old(self).encoder.memory(),
            recorded(
                (old(self).encoder@, old(self).state@),
                (final(self).encoder@, final(self).state@),
                old(self).state@.set_pipeline(old(self).encoder@, pipeline),
                old(self).encoder.memory(),
                r,
            ),
    {
        match self.encoder.resources().borrow_compute_pipeline(pipeline) {
            Ok(_) => {},
            Err(error) => return Err(error),
        }
        match self.encoder.push(Command::SetComputePipeline(pipeline)) {
            Ok(()) => {},
            Err(error) => return Err(error),
        }
        self.state.pipeline = Some(pipeline);
        Ok(())
    }

    /// Bind one descriptor set. Its pipeline compatibility is checked at dispatch.
    ///
    /// Fails with `Error::OutOfBounds` for an index past the last set, or as
    /// looking up the group does.
    pub fn set_bind_group(&mut self, index: u32, bind_group: BindGroupRef) -> (r: Result<(), Error>)
        ensures
            *final(final(self).encoder) == *final(old(self).encoder),
            final(self).encoder.memory() == old(self).encoder.memory(),
            recorded(
                (old(self).encoder@, old(self).state@),
                (final(self).encoder@, final(self).state@),
                old(self).state@.set_bind_group(old(self).encoder@, index, bind_group),
                old(self).encoder.memory(),
                r,
            ),
    {
        if index as usize >= MAX_BIND_GROUPS {
            return Err(Error::OutOfBounds);
        }
        match self.encoder.resources().borrow_bind_group(bind_group) {
            Ok(_) => {},
            Err(error) => return Err(error),
        }
        match self.encoder.push(Command::SetBindGroup { index, bind_group }) {
            Ok(()) => {},
            Err(error) => return Err(error),
        }
        let ghost before = self.state@;
        let mut bind_groups = self.state.bind_groups;
        bind_groups[index as usize] = Some(bind_group);
        self.state.bind_groups = bind_groups;
        assert(self.state@ =~= (ComputeStateView {
            bind_groups: before.bind_groups.update(index as int, Some(bind_group)),
            ..before
        }));
        Ok(())
    }

    /// Update push constants of the bound pipeline with borrowed bytes.
    ///
    /// Fails with `Error::PipelineNotSet` without a pipeline, or as the pipeline
    /// layout's `validate_push_constants` does.
    pub fn set_push_constants(&mut self, stages: ShaderStages, offset: u32, data: &'data [u8]) -> (r:
        Result<(), Error>)
        ensures
            *final(final(self).encoder) == *final(old(self).encoder),
            final(self).encoder.memory() == old(self).encoder.memory(),
            recorded(
                (old(self).encoder@, old(self).state@),
                (final(self).encoder@, final(self).state@),
                old(self).state@.set_push_constants(old(self).encoder@, stages, offset, data@),
                old(self).encoder.memory(),
                r,
            ),
    {
        let pipeline = match self.state.pipeline {
            Some(pipeline) => pipeline,
            None => return Err(Error::PipelineNotSet),
        };
        let desc = match self.encoder.resources().borrow_compute_pipeline(pipeline) {
            Ok(desc) => desc,
            Err(error) => return Err(error),
        };
        match desc.layout().validate_push_constants(stages, offset, data) {
            Ok(()) => {},
            Err(error) => return Err(error),
        }
        self.encoder.push(Command::SetPushConstants { stages, offset, data })
    }

    /// Dispatch a positive grid, with at most 65,535 workgroups per dimension.
    ///
    /// Fails with `Error::InvalidValue` for another grid, `Error::PipelineNotSet`
    /// without a pipeline, or with the error of a group that is not bound as the
    /// pipeline declares or accesses a resource in a way that is not admitted.
    pub fn dispatch(&mut self, x: u32, y: u32, z: u32) -> (r: Result<(), Error>)
        ensures
            *final(final(self).encoder) == *final(old(self).encoder),
            final(self).encoder.memory() == old(self).encoder.memory(),
            recorded(
                (old(self).encoder@, old(self).state@),
                (final(self).encoder@, final(self).state@),
                old(self).state@.dispatch(old(self).encoder@, x, y, z),
                old(self).encoder.memory(),
                r,
            ),
    {
        if x == 0 || x > MAX_WORKGROUPS || y == 0 || y > MAX_WORKGROUPS || z == 0 || z
            > MAX_WORKGROUPS {
            return Err(Error::InvalidValue);
        }
        let pipeline = match self.state.pipeline {
            Some(pipeline) => pipeline,
            None => return Err(Error::PipelineNotSet),
        };
        let desc = match self.encoder.resources().borrow_compute_pipeline(pipeline) {
            Ok(desc) => desc,
            Err(error) => return Err(error),
        };
        let attachments: Vec<TextureRef> = Vec::new();
        let fetched: Vec<BufferRef> = Vec::new();
        assert(attachments@ =~= Seq::<TextureRef>::empty());
        assert(fetched@ =~= Seq::<BufferRef>::empty());
        let accesses = match validate_groups(
            &*self.encoder,
            desc.layout(),
            &self.state.bind_groups,
            &attachments,
            &fetched,
        ) {
            Ok(accesses) => accesses,
            Err(error) => return Err(error),
        };
        self.encoder.record(Command::Dispatch { x, y, z }, &accesses.used, &accesses.writes)
    }

    /// End this compute pass, releasing the encoder for barriers or other passes.
    ///
    /// Returns `Error::CommandLimitExceeded` without room for the end, which an
    /// encoder keeps while a pass is open.
    pub fn end(self) -> (r: Result<(), Error>)
        ensures
            final(self.encoder).memory() == old(self.encoder).memory(),
            recorded(
                old(self.encoder)@,
                final(self.encoder)@,
                old(self.encoder)@.end_pass(CommandView::EndComputePass),
                old(self.encoder).memory(),
                r,
            ),
    {
        self.encoder.push_end(Command::EndComputePass)
    }
}

} // verus!
