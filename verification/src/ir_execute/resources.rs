//! Images and buffer contents that outlive one submission.

use crate::ir::resource::{TextureDesc, TextureFormat, TextureUsage};
use crate::ir::table::{ResourceTable, TableView, TextureId, TextureRef, MAX_BUFFERS, MAX_TEXTURES};
use crate::ir_execute::buffers::{BufferShadowUpdate, UpdateView};
use crate::ir_execute::{IrSubmitError, UnsupportedIrFeature};
use crate::memory::Memory;
use vstd::prelude::*;

verus! {

/// A device image that can stand for a presented texture.
#[derive(Debug, Clone, Copy, PartialEq, Eq, Structural)]
pub struct Image {
    /// Identity of the image on its device.
    pub resource_id: u32,
    /// Device context that the image belongs to.
    pub context_id: i32,
    /// Width in pixels.
    pub width: u32,
    /// Height in pixels.
    pub height: u32,
}

/// An image that stands for a texture.
#[derive(Debug, Clone, Copy, PartialEq, Eq, Structural)]
pub struct ImageMapping {
    /// Logical texture.
    pub texture: TextureId,
    /// Device image.
    pub image: Image,
    /// Whether the device knows of the mapping.
    pub backend_registered: bool,
}

/// The contents of retained resources.
#[verifier::ext_equal]
pub struct ResourcesView {
    pub table: usize,
    pub context_id: i32,
    pub images: Seq<ImageMapping>,
    pub shadows: Seq<Option<Seq<u8>>>,
}

/// The contents of an optional byte vector.
pub open spec fn shadow_view(shadow: Option<Vec<u8>>) -> Option<Seq<u8>> {
    match shadow {
        Some(bytes) => Some(bytes@),
        None => None,
    }
}

/// Whether no texture and no image is mapped twice.
pub open spec fn distinct_mappings(images: Seq<ImageMapping>) -> bool {
    &&& forall|i: int, j: int|
        0 <= i < j < images.len() ==> (#[trigger] images[i]).texture != (
        #[trigger] images[j]).texture
    &&& forall|i: int, j: int|
        0 <= i < j < images.len() ==> (#[trigger] images[i]).image != (#[trigger] images[j]).image
}

impl ResourcesView {
    /// What every value keeps: no texture and no image is mapped twice.
    pub open spec fn valid(self) -> bool {
        distinct_mappings(self.images)
    }

    /// Whether some image stands for a texture.
    pub open spec fn maps(self, texture: TextureId) -> bool {
        exists|i: int| 0 <= i < self.images.len() && (#[trigger] self.images[i]).texture == texture
    }

    /// The image that stands for a texture.
    pub open spec fn image_of(self, texture: TextureId) -> Option<Image> {
        if self.maps(texture) {
            let i = choose|i: int|
                0 <= i < self.images.len() && (#[trigger] self.images[i]).texture == texture;
            Some(self.images[i].image)
        } else {
            None
        }
    }

    /// The contents kept of the buffer at a place, if there are any.
    pub open spec fn shadow(self, slot: usize) -> Option<Seq<u8>> {
        if slot < self.shadows.len() {
            self.shadows[slot as int]
        } else {
            None
        }
    }

    /// Let an image stand for a texture, or say why it cannot.
    pub open spec fn map_image(self, table: TableView, texture: TextureId, image: Image) -> Result<
        Self,
        IrSubmitError,
    > {
        if image.context_id != self.context_id {
            Err(IrSubmitError::ContextMismatch)
        } else if table.id != self.table {
            Err(IrSubmitError::ResourceTableMismatch)
        } else {
            match table.texture(texture.reference()) {
                Err(error) => Err(IrSubmitError::InvalidIr(error)),
                Ok(desc) => if desc@.format != TextureFormat::Bgra8Unorm {
                    Err(IrSubmitError::Unsupported(UnsupportedIrFeature::TargetFormat))
                } else if !desc@.usage.allows(TextureUsage::RENDER_ATTACHMENT_BIT)
                    || !desc@.usage.allows(TextureUsage::PRESENT_BIT) || desc@.usage.allows(
                    TextureUsage::STORAGE_BIT,
                ) {
                    Err(IrSubmitError::Unsupported(UnsupportedIrFeature::TargetUsage))
                } else if desc@.extent.width != image.width || desc@.extent.height
                    != image.height {
                    Err(IrSubmitError::TargetExtentMismatch)
                } else if self.maps(texture) {
                    Err(IrSubmitError::TextureAlreadyMapped)
                } else if exists|i: int|
                    0 <= i < self.images.len() && (#[trigger] self.images[i]).image == image {
                    Err(IrSubmitError::ImageAlreadyMapped)
                } else {
                    Ok(
                        ResourcesView {
                            images: self.images.push(
                                ImageMapping { texture, image, backend_registered: false },
                            ),
                            ..self
                        },
                    )
                },
            }
        }
    }

    /// Keep new buffer contents, the last one for each buffer.
    pub open spec fn commit(self, updates: Seq<UpdateView>) -> Self
        decreases updates.len(),
    {
        if updates.len() == 0 {
            self
        } else {
            let earlier = self.commit(updates.drop_last());
            let update = updates.last();
            if update.slot < earlier.shadows.len() {
                ResourcesView {
                    shadows: earlier.shadows.update(update.slot as int, Some(update.bytes)),
                    ..earlier
                }
            } else {
                earlier
            }
        }
    }
}

/// Images and buffer contents retained for one table on one device context.
#[derive(Debug)]
pub struct IrResources {
    table: usize,
    context_id: i32,
    images: Vec<ImageMapping>,
    buffer_shadows: Vec<Option<Vec<u8>>>,
}

impl View for IrResources {
    type V = ResourcesView;

    closed spec fn view(&self) -> ResourcesView {
        ResourcesView {
            table: self.table,
            context_id: self.context_id,
            images: self.images@,
            shadows: Seq::new(
                self.buffer_shadows@.len(),
                |i: int| shadow_view(self.buffer_shadows@[i]),
            ),
        }
    }
}

impl IrResources {
    #[verifier::type_invariant]
    spec fn well_formed(self) -> bool {
        distinct_mappings(self.images@)
    }

    /// Retain nothing yet for a table on a device context.
    ///
    /// Fails only with `IrSubmitError::OutOfMemory`, when storage could not be reserved.
    pub fn new(resources: &ResourceTable, context_id: i32) -> (r: Result<Self, IrSubmitError>)
        ensures
            match r {
                Ok(retained) => retained@ == (ResourcesView {
                    table: resources@.id,
                    context_id,
                    images: Seq::empty(),
                    shadows: Seq::new(MAX_BUFFERS as nat, |i: int| None),
                }),
                Err(error) => error == IrSubmitError::OutOfMemory,
            },
    {
        Self::with_memory(resources, context_id, Memory::System)
    }

    /// Retain nothing yet for a table on a device context, where requests for room are
    /// answered as given.
    pub fn with_memory(resources: &ResourceTable, context_id: i32, memory: Memory) -> (r: Result<
        Self,
        IrSubmitError,
    >)
        ensures
            match r {
                Ok(retained) => memory.may(true) && retained@ == (ResourcesView {
                    table: resources@.id,
                    context_id,
                    images: Seq::empty(),
                    shadows: Seq::new(MAX_BUFFERS as nat, |i: int| None),
                }),
                Err(error) => memory.may(false) && error == IrSubmitError::OutOfMemory,
            },
    {
        let mut images: Vec<ImageMapping> = Vec::new();
        if !memory.reserve(&mut images, MAX_TEXTURES) {
            return Err(IrSubmitError::OutOfMemory);
        }
        let mut buffer_shadows: Vec<Option<Vec<u8>>> = Vec::new();
        if !memory.reserve(&mut buffer_shadows, MAX_BUFFERS) {
            return Err(IrSubmitError::OutOfMemory);
        }
        let mut i: usize = 0;
        while i < MAX_BUFFERS
            invariant
                memory.may(true),
                i <= MAX_BUFFERS,
                buffer_shadows@.len() == i,
                forall|j: int| 0 <= j < i ==> (#[trigger] buffer_shadows@[j]) is None,
            decreases MAX_BUFFERS - i,
        {
            buffer_shadows.push(None);
            i = i + 1;
        }
        let retained = Self { table: resources.identity(), context_id, images, buffer_shadows };
        assert(retained@.shadows =~= Seq::new(MAX_BUFFERS as nat, |i: int| None::<Seq<u8>>));
        assert(retained@.images =~= Seq::<ImageMapping>::empty());
        Ok(retained)
    }

    /// Return whether the resources are retained for a table.
    pub fn belongs_to(&self, resources: &ResourceTable) -> (r: bool)
        ensures
            r == (self@.table == resources@.id),
    {
        self.table == resources.identity()
    }

    /// Return the device context.
    pub fn context_id(&self) -> (r: i32)
        ensures
            r == self@.context_id,
    {
        self.context_id
    }

    /// Return the mapped images in the order of their mapping.
    pub fn images(&self) -> (r: &[ImageMapping])
        ensures
            r@ == self@.images,
            self@.valid(),
    {
        proof {
            use_type_invariant(self);
        }
        self.images.as_slice()
    }

    fn position_of(&self, texture: TextureId) -> (r: Option<usize>)
        ensures
            match r {
                Some(i) => i < self@.images.len() && self@.images[i as int].texture == texture,
                None => !self@.maps(texture),
            },
    {
        let mut i: usize = 0;
        while i < self.images.len()
            invariant
                i <= self.images@.len(),
                self@.images == self.images@,
                forall|j: int| 0 <= j < i ==> (#[trigger] self.images@[j]).texture != texture,
            decreases self.images.len() - i,
        {
            if self.images[i].texture == texture {
                return Some(i);
            }
            i = i + 1;
        }
        None
    }

    /// Return whether some image stands for a texture.
    pub fn maps(&self, texture: TextureId) -> (r: bool)
        ensures
            r == self@.maps(texture),
    {
        match self.position_of(texture) {
            Some(i) => {
                assert(self@.images[i as int].texture == texture);
                true
            },
            None => false,
        }
    }

    /// Return the image that stands for a texture, if there is one.
    pub fn image_of(&self, texture: TextureId) -> (r: Option<Image>)
        ensures
            r == self@.image_of(texture),
    {
        proof {
            use_type_invariant(self);
        }
        match self.position_of(texture) {
            Some(i) => {
                proof {
                    let images = self@.images;
                    assert(images[i as int].texture == texture);
                    let k = choose|k: int|
                        0 <= k < images.len() && (#[trigger] images[k]).texture == texture;
                    assert(k == i);
                }
                Some(self.images[i].image)
            },
            None => None,
        }
    }

    fn uses(&self, image: Image) -> (r: bool)
        ensures
            r == exists|i: int|
                0 <= i < self@.images.len() && (#[trigger] self@.images[i]).image == image,
    {
        let mut i: usize = 0;
        while i < self.images.len()
            invariant
                i <= self.images@.len(),
                self@.images == self.images@,
                forall|j: int| 0 <= j < i ==> (#[trigger] self.images@[j]).image != image,
            decreases self.images.len() - i,
        {
            if self.images[i].image == image {
                assert(self@.images[i as int].image == image);
                return true;
            }
            i = i + 1;
        }
        false
    }

    /// Let an image stand for a presented texture.
    ///
    /// The image belongs to the device context and has the extent of the texture,
    /// which is a presented BGRA render attachment without storage usage. Neither
    /// is mapped yet. On any failure nothing changes.
    pub fn map_image(
        &mut self,
        resources: &ResourceTable,
        texture: TextureId,
        image: Image,
    ) -> (r: Result<(), IrSubmitError>)
        ensures
            match old(self)@.map_image(resources@, texture, image) {
                Ok(next) => r == Ok::<(), IrSubmitError>(()) && final(self)@ == next,
                Err(error) => r == Err::<(), IrSubmitError>(error) && final(self)@ == old(self)@,
            },
    {
        proof {
            use_type_invariant(&*self);
            crate::ir::table::lemma_texture_reference(texture);
        }
        if image.context_id != self.context_id {
            return Err(IrSubmitError::ContextMismatch);
        }
        if resources.identity() != self.table {
            return Err(IrSubmitError::ResourceTableMismatch);
        }
        let reference: TextureRef = match resources.texture_ref(texture) {
            Ok(reference) => reference,
            Err(error) => {
                return Err(IrSubmitError::InvalidIr(error));
            },
        };
        let descriptor: TextureDesc = match resources.texture(reference) {
            Ok(descriptor) => descriptor,
            Err(error) => {
                return Err(IrSubmitError::InvalidIr(error));
            },
        };
        if descriptor.format() != TextureFormat::Bgra8Unorm {
            return Err(IrSubmitError::Unsupported(UnsupportedIrFeature::TargetFormat));
        }
        let usage: TextureUsage = descriptor.usage();
        if !usage.contains(TextureUsage::render_attachment()) || !usage.contains(
            TextureUsage::present(),
        ) || usage.contains(TextureUsage::storage()) {
            return Err(IrSubmitError::Unsupported(UnsupportedIrFeature::TargetUsage));
        }
        if descriptor.extent().width() != image.width || descriptor.extent().height()
            != image.height {
            return Err(IrSubmitError::TargetExtentMismatch);
        }
        if self.maps(texture) {
            return Err(IrSubmitError::TextureAlreadyMapped);
        }
        if self.uses(image) {
            return Err(IrSubmitError::ImageAlreadyMapped);
        }
        let mapping = ImageMapping { texture, image, backend_registered: false };
        proof {
            let before = self@.images;
            let after = before.push(mapping);
            assert forall|a: int, b: int| 0 <= a < b < after.len() implies (#[trigger] after[a]).texture
                != (#[trigger] after[b]).texture by {
                assert(after[a] == before[a]);
                if b < before.len() {
                    assert(after[b] == before[b]);
                }
            }
            assert forall|a: int, b: int| 0 <= a < b < after.len() implies (#[trigger] after[a]).image
                != (#[trigger] after[b]).image by {
                assert(after[a] == before[a]);
                if b < before.len() {
                    assert(after[b] == before[b]);
                }
            }
        }
        let mut images: Vec<ImageMapping> = Vec::new();
        std::mem::swap(&mut images, &mut self.images);
        images.push(mapping);
        self.images = images;
        Ok(())
    }

    /// Note that the device knows of a mapping.
    pub fn mark_registered(&mut self, index: usize)
        requires
            index < old(self)@.images.len(),
        ensures
            final(self)@ == (ResourcesView {
                images: old(self)@.images.update(
                    index as int,
                    ImageMapping { backend_registered: true, ..old(self)@.images[index as int] },
                ),
                ..old(self)@
            }),
    {
        proof {
            use_type_invariant(&*self);
        }
        let mapping: ImageMapping = self.images[index];
        let registered = ImageMapping {
            texture: mapping.texture,
            image: mapping.image,
            backend_registered: true,
        };
        proof {
            let before = self@.images;
            let after = before.update(index as int, registered);
            assert forall|a: int, b: int| 0 <= a < b < after.len() implies (#[trigger] after[a]).texture
                != (#[trigger] after[b]).texture && after[a].image != after[b].image by {
                assert(before[a].texture != before[b].texture);
                assert(before[a].image != before[b].image);
            }
        }
        let mut images: Vec<ImageMapping> = Vec::new();
        std::mem::swap(&mut images, &mut self.images);
        images.set(index, registered);
        self.images = images;
    }

    /// Return the contents kept of the buffer at a place, if there are any.
    pub fn shadow(&self, slot: usize) -> (r: Option<&[u8]>)
        ensures
            match r {
                Some(bytes) => self@.shadow(slot) == Some(bytes@),
                None => self@.shadow(slot) is None,
            },
    {
        if slot >= self.buffer_shadows.len() {
            return None;
        }
        match &self.buffer_shadows[slot] {
            Some(bytes) => {
                assert(self@.shadows[slot as int] == Some(bytes@));
                Some(bytes.as_slice())
            },
            None => None,
        }
    }

    /// Keep new buffer contents, once the work that uses them succeeded.
    pub fn commit_buffer_updates(&mut self, updates: Vec<BufferShadowUpdate>)
        ensures
            final(self)@ == old(self)@.commit(crate::ir_execute::buffers::update_views(updates@)),
    {
        proof {
            use_type_invariant(&*self);
        }
        let ghost views = crate::ir_execute::buffers::update_views(updates@);
        let ghost before = self@;
        let count: usize = updates.len();
        let mut rest: Vec<BufferShadowUpdate> = updates;
        let mut ordered: Vec<BufferShadowUpdate> = Vec::new();
        while rest.len() > 0
            invariant
                ordered@.len() + rest@.len() == views.len(),
                forall|i: int| 0 <= i < rest@.len() ==> (#[trigger] rest@[i])@ == views[i],
                forall|i: int|
                    0 <= i < ordered@.len() ==> (#[trigger] ordered@[i])@ == views[views.len() - 1
                        - i],
            decreases rest.len(),
        {
            match rest.pop() {
                Some(update) => {
                    ordered.push(update);
                },
                None => {},
            }
        }
        let mut position: usize = 0;
        assert(views.take(0) =~= Seq::<UpdateView>::empty());
        while ordered.len() > 0
            invariant
                position + ordered@.len() == views.len(),
                count == views.len(),
                self@ == before.commit(views.take(position as int)),
                distinct_mappings(self.images@),
                forall|i: int|
                    0 <= i < ordered@.len() ==> (#[trigger] ordered@[i])@ == views[views.len() - 1
                        - i],
            decreases ordered.len(),
        {
            match ordered.pop() {
                Some(update) => {
                    let BufferShadowUpdate { slot, bytes } = update;
                    proof {
                        assert(views.take(position + 1).drop_last() =~= views.take(
                            position as int,
                        ));
                        assert(views.take(position + 1).last() == views[position as int]);
                        assert(update@ == views[position as int]);
                    }
                    if slot < self.buffer_shadows.len() {
                        let ghost earlier = self@;
                        let ghost kept = bytes@;
                        let mut shadows: Vec<Option<Vec<u8>>> = Vec::new();
                        std::mem::swap(&mut shadows, &mut self.buffer_shadows);
                        shadows.set(slot, Some(bytes));
                        self.buffer_shadows = shadows;
                        assert(self@.shadows =~= earlier.shadows.update(slot as int, Some(kept)));
                    }
                    position = position + 1;
                },
                None => {},
            }
        }
        assert(views.take(views.len() as int) =~= views);
    }
}

} // verus!
