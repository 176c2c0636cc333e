//! Buffer contents as a command buffer rewrites them.

use crate::ir::resource::{BufferDesc, BufferUsage};
use crate::ir::table::{BufferRef, ResourceTable, TableView};
use crate::ir::types::Error;
use crate::ir_execute::resources::{IrResources, ResourcesView};
use crate::ir_execute::IrSubmitError;
use crate::memory::Memory;
use vstd::prelude::*;

verus! {

/// New contents of one buffer.
#[derive(Debug)]
pub struct BufferShadowUpdate {
    /// Position of the buffer in its table.
    pub slot: usize,
    /// Contents from the first byte on.
    pub bytes: Vec<u8>,
}

/// The fields of an update.
#[verifier::ext_equal]
pub struct UpdateView {
    pub slot: usize,
    pub bytes: Seq<u8>,
}

impl View for BufferShadowUpdate {
    type V = UpdateView;

    open spec fn view(&self) -> UpdateView {
        UpdateView { slot: self.slot, bytes: self.bytes@ }
    }
}

/// The fields of updates.
pub open spec fn update_views(updates: Seq<BufferShadowUpdate>) -> Seq<UpdateView> {
    Seq::new(updates.len(), |i: int| updates[i]@)
}

/// The place of the update of a buffer, or the end.
pub open spec fn find_update(updates: Seq<UpdateView>, slot: usize) -> int
    decreases updates.len(),
{
    if updates.len() == 0 || updates[0].slot == slot {
        0
    } else {
        1 + find_update(updates.skip(1), slot)
    }
}

/// Bytes with others written over them from a position on. A gap before the
/// position is filled with zeros.
pub open spec fn overwritten(bytes: Seq<u8>, start: int, data: Seq<u8>) -> Seq<u8> {
    let end = start + data.len();
    Seq::new(
        if bytes.len() < end {
            end as nat
        } else {
            bytes.len()
        },
        |i: int|
            if start <= i < end {
                data[i - start]
            } else if i < bytes.len() {
                bytes[i]
            } else {
                0
            },
    )
}

/// The contents of a buffer: as rewritten, else as retained.
pub open spec fn contents(
    updates: Seq<UpdateView>,
    resources: ResourcesView,
    slot: usize,
) -> Option<Seq<u8>> {
    let at = find_update(updates, slot);
    if at < updates.len() {
        Some(updates[at].bytes)
    } else {
        resources.shadow(slot)
    }
}

/// The updates after writing bytes into the buffer at a place.
pub open spec fn updated(
    updates: Seq<UpdateView>,
    resources: ResourcesView,
    slot: usize,
    offset: int,
    data: Seq<u8>,
) -> Seq<UpdateView> {
    let at = find_update(updates, slot);
    let earlier = match contents(updates, resources, slot) {
        Some(bytes) => bytes,
        None => Seq::empty(),
    };
    let update = UpdateView { slot, bytes: overwritten(earlier, offset, data) };
    if at < updates.len() {
        updates.update(at, update)
    } else {
        updates.push(update)
    }
}

/// The updates after writing bytes into a buffer, or why they cannot be written.
pub open spec fn spec_write(
    updates: Seq<UpdateView>,
    resources: ResourcesView,
    table: TableView,
    buffer: BufferRef,
    offset: u64,
    data: Seq<u8>,
) -> Result<Seq<UpdateView>, IrSubmitError> {
    match table.buffer(buffer) {
        Err(error) => Err(IrSubmitError::InvalidIr(error)),
        Ok(desc) => if !desc@.usage.allows(BufferUsage::COPY_DST_BIT) {
            Err(IrSubmitError::InvalidIr(Error::InvalidUsage))
        } else if offset + data.len() > desc@.size || offset + data.len() > usize::MAX {
            Err(IrSubmitError::InvalidVertexData)
        } else {
            Ok(updated(updates, resources, buffer@.index, offset as int, data))
        },
    }
}

/// Updates that are not kept yet.
#[derive(Debug)]
pub struct PendingBuffers {
    updates: Vec<BufferShadowUpdate>,
}

impl View for PendingBuffers {
    type V = Seq<UpdateView>;

    closed spec fn view(&self) -> Seq<UpdateView> {
        update_views(self.updates@)
    }
}

proof fn lemma_find_update(updates: Seq<UpdateView>, slot: usize, at: int)
    requires
        0 <= at <= updates.len(),
        forall|i: int| 0 <= i < at ==> (#[trigger] updates[i]).slot != slot,
        at < updates.len() ==> updates[at].slot == slot,
    ensures
        find_update(updates, slot) == at,
    decreases updates.len(),
{
    if at > 0 {
        assert(updates[0].slot != slot);
        let rest = updates.skip(1);
        assert forall|i: int| 0 <= i < at - 1 implies (#[trigger] rest[i]).slot != slot by {
            assert(rest[i] == updates[i + 1]);
        }
        lemma_find_update(rest, slot, at - 1);
    }
}

/// Return the bytes of a buffer once it was written up to an end, which room is asked
/// for.
fn rewritten_length(previous: usize, end: usize) -> (r: usize)
    ensures
        r == (if previous < end {
            end
        } else {
            previous
        }),
{
    if previous < end {
        end
    } else {
        previous
    }
}

impl PendingBuffers {
    /// No updates.
    pub fn new() -> (r: Self)
        ensures
            r@ == Seq::<UpdateView>::empty(),
    {
        let pending = Self { updates: Vec::new() };
        assert(pending@ =~= Seq::<UpdateView>::empty());
        pending
    }

    /// Give up the updates in the order of their first writes.
    pub fn into_updates(self) -> (r: Vec<BufferShadowUpdate>)
        ensures
            update_views(r@) == self@,
    {
        self.updates
    }

    fn position_of(&self, slot: usize) -> (r: usize)
        ensures
            r == find_update(self@, slot),
            r <= self@.len(),
            r < self@.len() ==> self@[r as int].slot == slot,
    {
        let mut at: usize = 0;
        while at < self.updates.len()
            invariant
                at <= self.updates@.len(),
                self@ == update_views(self.updates@),
                forall|i: int| 0 <= i < at ==> (#[trigger] self@[i]).slot != slot,
            decreases self.updates.len() - at,
        {
            assert(self@[at as int] == self.updates@[at as int]@);
            if self.updates[at].slot == slot {
                proof {
                    lemma_find_update(self@, slot, at as int);
                }
                return at;
            }
            at = at + 1;
        }
        proof {
            lemma_find_update(self@, slot, at as int);
        }
        at
    }

    /// Write bytes into a buffer.
    ///
    /// Fails as the lookup does, with `Error::InvalidUsage` for a buffer that
    /// uploads may not write, and with `IrSubmitError::InvalidVertexData` past its
    /// end. When storage cannot be reserved nothing changes.
    pub fn write(
        &mut self,
        resources: &IrResources,
        table: &ResourceTable,
        buffer: BufferRef,
        offset: u64,
        data: &[u8],
        memory: Memory,
    ) -> (r: Result<(), IrSubmitError>)
        ensures
            match spec_write(old(self)@, resources@, table@, buffer, offset, data@) {
                Err(error) => r == Err::<(), IrSubmitError>(error) && final(self)@ == old(self)@,
                Ok(next) => (memory.may(true) && r == Ok::<(), IrSubmitError>(()) && final(self)@
                    == next) || (memory.may(false) && r == Err::<(), IrSubmitError>(
                    IrSubmitError::OutOfMemory,
                ) && final(self)@ == old(self)@),
            },
    {
        let descriptor: BufferDesc = match table.buffer(buffer) {
            Ok(descriptor) => descriptor,
            Err(error) => {
                return Err(IrSubmitError::InvalidIr(error));
            },
        };
        if !descriptor.usage().contains(BufferUsage::copy_dst()) {
            return Err(IrSubmitError::InvalidIr(Error::InvalidUsage));
        }
        let end: u128 = offset as u128 + data.len() as u128;
        if end > descriptor.size() as u128 || end > usize::MAX as u128 {
            return Err(IrSubmitError::InvalidVertexData);
        }
        let start: usize = offset as usize;
        let write_end: usize = end as usize;
        let slot: usize = buffer.slot();
        let at: usize = self.position_of(slot);
        let known: bool = at < self.updates.len();
        let ghost earlier = match contents(self@, resources@, slot) {
            Some(bytes) => bytes,
            None => Seq::empty(),
        };
        let previous: &[u8] = if known {
            assert(self@[at as int] == self.updates@[at as int]@);
            self.updates[at].bytes.as_slice()
        } else {
            match resources.shadow(slot) {
                Some(bytes) => bytes,
                None => &[],
            }
        };
        assert(previous@ =~= earlier);
        let length: usize = rewritten_length(previous.len(), write_end);
        let mut bytes: Vec<u8> = Vec::new();
        if !memory.reserve(&mut bytes, length) {
            return Err(IrSubmitError::OutOfMemory);
        }
        let mut i: usize = 0;
        while i < length
            invariant
                i <= length,
                length == overwritten(earlier, start as int, data@).len(),
                previous@ == earlier,
                write_end == start + data@.len(),
                bytes@ == overwritten(earlier, start as int, data@).take(i as int),
            decreases length - i,
        {
            let byte: u8 = if start <= i && i < write_end {
                data[i - start]
            } else if i < previous.len() {
                previous[i]
            } else {
                0
            };
            proof {
                let whole = overwritten(earlier, start as int, data@);
                assert(byte == whole[i as int]);
                assert(whole.take(i + 1) =~= whole.take(i as int).push(byte));
            }
            bytes.push(byte);
            i = i + 1;
        }
        assert(bytes@ =~= overwritten(earlier, start as int, data@));
        let update = BufferShadowUpdate { slot, bytes };
        let ghost before = self@;
        if known {
            self.updates.set(at, update);
            assert(self@ =~= before.update(at as int, update@));
        } else {
            if !memory.reserve(&mut self.updates, 1) {
                return Err(IrSubmitError::OutOfMemory);
            }
            self.updates.push(update);
            assert(self@ =~= before.push(update@));
        }
        Ok(())
    }

    /// Return the contents of a buffer, as rewritten, else as retained.
    pub fn bytes<'a>(&'a self, resources: &'a IrResources, buffer: BufferRef) -> (r: Option<
        &'a [u8],
    >)
        ensures
            match r {
                Some(bytes) => contents(self@, resources@, buffer@.index) == Some(bytes@),
                None => contents(self@, resources@, buffer@.index) is None,
            },
    {
        let at: usize = self.position_of(buffer.slot());
        if at < self.updates.len() {
            assert(self@[at as int] == self.updates@[at as int]@);
            Some(self.updates[at].bytes.as_slice())
        } else {
            resources.shadow(buffer.slot())
        }
    }
}

} // verus!
