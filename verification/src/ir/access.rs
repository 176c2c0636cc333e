//! Storage writes that await a barrier, and accesses that a barrier announced.

use crate::ir::programmable::{BufferAccess, TextureAccess};
use crate::ir::table::{BufferId, TextureId};
use crate::ir::types::Error;
use crate::memory::Memory;
use vstd::prelude::*;

verus! {

/// A part of a resource that accesses are ordered for: a whole buffer, or one
/// mip level of a texture with all its layers.
#[derive(Debug, Clone, Copy, PartialEq, Eq, Structural)]
pub enum ResourcePart {
    /// A buffer.
    Buffer(BufferId),
    /// A mip level of a texture.
    TextureMip(TextureId, u32),
}

/// A way of using a part of a resource.
#[derive(Debug, Clone, Copy, PartialEq, Eq, Structural)]
pub enum Access {
    /// Use of a buffer.
    Buffer(BufferAccess),
    /// Use of a mip level.
    Texture(TextureAccess),
}

/// The mip levels of a texture from `base` up to, but not including, `end`.
pub open spec fn mip_parts(texture: TextureId, base: int, end: int) -> Seq<ResourcePart> {
    Seq::new(
        (end - base) as nat,
        |i: int| ResourcePart::TextureMip(texture, (base + i) as u32),
    )
}

/// Parts that were written and await a barrier, and the accesses that barriers
/// announced and nothing has made yet.
#[verifier::ext_equal]
pub struct AccessView {
    pub pending: Set<ResourcePart>,
    pub announced: Map<ResourcePart, Access>,
}

impl AccessView {
    /// Nothing pending and nothing announced.
    pub open spec fn empty() -> Self {
        AccessView { pending: Set::empty(), announced: Map::empty() }
    }

    /// Whether another access than this one was announced for a part.
    pub open spec fn announces_other(self, part: ResourcePart, access: Access) -> bool {
        self.announced.dom().contains(part) && self.announced[part] != access
    }

    /// Whether one of the parts awaits a barrier.
    pub open spec fn awaits_barrier(self, parts: Seq<ResourcePart>) -> bool {
        exists|i: int| 0 <= i < parts.len() && self.pending.contains(#[trigger] parts[i])
    }

    /// Whether another access was announced for one of the parts.
    pub open spec fn announces_other_for(self, parts: Seq<ResourcePart>, access: Access) -> bool {
        exists|i: int|
            0 <= i < parts.len() && self.announces_other(#[trigger] parts[i], access)
    }

    /// The outcome of accessing parts.
    pub open spec fn check(self, parts: Seq<ResourcePart>, access: Access) -> Result<(), Error> {
        if self.awaits_barrier(parts) {
            Err(Error::MissingBarrier)
        } else if self.announces_other_for(parts, access) {
            Err(Error::InvalidResourceAccess)
        } else {
            Ok(())
        }
    }

    /// The outcome of a barrier on parts from an access, where `writes` says
    /// whether that access is a storage write.
    pub open spec fn check_barrier(
        self,
        parts: Seq<ResourcePart>,
        before: Access,
        writes: bool,
    ) -> Result<(), Error> {
        if (self.awaits_barrier(parts) && !writes) || self.announces_other_for(parts, before) {
            Err(Error::InvalidResourceAccess)
        } else {
            Ok(())
        }
    }

    /// The state once parts were used and some of them written.
    pub open spec fn after_use(self, used: Set<ResourcePart>, written: Set<ResourcePart>) -> Self {
        AccessView {
            pending: self.pending.union(written),
            announced: self.announced.remove_keys(used),
        }
    }

    /// The state after a barrier on parts that announces an access.
    pub open spec fn after_barrier(self, parts: Seq<ResourcePart>, after: Access) -> Self {
        AccessView {
            pending: self.pending.difference(parts.to_set()),
            announced: self.announced.union_prefer_right(
                Map::new(|part: ResourcePart| parts.contains(part), |part: ResourcePart| after),
            ),
        }
    }
}

/// After a storage write, no access to the part succeeds: a barrier is missing.
pub proof fn law_written_parts_need_a_barrier(
    state: AccessView,
    used: Set<ResourcePart>,
    written: Set<ResourcePart>,
    part: ResourcePart,
    access: Access,
)
    requires
        written.contains(part),
    ensures
        state.after_use(used, written).check(seq![part], access) == Err::<(), Error>(
            Error::MissingBarrier,
        ),
{
    assert(state.after_use(used, written).pending.contains(seq![part][0]));
}

/// A barrier lifts the wait for its parts and admits exactly the access that it
/// announces, until a use of the part takes the announcement back.
pub proof fn law_barrier_admits_the_announced_access(
    state: AccessView,
    parts: Seq<ResourcePart>,
    after: Access,
    part: ResourcePart,
    access: Access,
)
    requires
        parts.contains(part),
    ensures
        state.after_barrier(parts, after).check(seq![part], access) == (if access == after {
            Ok::<(), Error>(())
        } else {
            Err(Error::InvalidResourceAccess)
        }),
        state.after_barrier(parts, after).after_use(set![part], Set::empty()).check(
            seq![part],
            access,
        ) == Ok::<(), Error>(()),
{
    let next = state.after_barrier(parts, after);
    assert(parts.to_set().contains(part));
    assert(next.announced.dom().contains(part) && next.announced[part] == after);
    assert(!next.pending.contains(part));
    assert(seq![part][0] == part);
    if access != after {
        assert(next.announces_other(seq![part][0], access));
    }
}

/// A barrier and a use leave the parts that they do not name as they were.
pub proof fn law_other_parts_are_untouched(
    state: AccessView,
    parts: Seq<ResourcePart>,
    after: Access,
    used: Set<ResourcePart>,
    written: Set<ResourcePart>,
    part: ResourcePart,
    access: Access,
)
    requires
        !parts.contains(part),
        !used.contains(part),
        !written.contains(part),
    ensures
        state.after_barrier(parts, after).check(seq![part], access) == state.check(
            seq![part],
            access,
        ),
        state.after_use(used, written).check(seq![part], access) == state.check(
            seq![part],
            access,
        ),
{
    let one = seq![part];
    assert(one[0] == part);
    assert(!parts.to_set().contains(part));
    let barrier = state.after_barrier(parts, after);
    let using = state.after_use(used, written);
    assert(barrier.pending.contains(part) == state.pending.contains(part));
    assert(using.pending.contains(part) == state.pending.contains(part));
    assert(barrier.announces_other(part, access) == state.announces_other(part, access));
    assert(using.announces_other(part, access) == state.announces_other(part, access));
    assert(barrier.awaits_barrier(one) == state.awaits_barrier(one)) by {
        if state.awaits_barrier(one) {
            assert(barrier.pending.contains(one[0]));
        }
        if barrier.awaits_barrier(one) {
            assert(state.pending.contains(one[0]));
        }
    }
    assert(using.awaits_barrier(one) == state.awaits_barrier(one)) by {
        if state.awaits_barrier(one) {
            assert(using.pending.contains(one[0]));
        }
        if using.awaits_barrier(one) {
            assert(state.pending.contains(one[0]));
        }
    }
    assert(barrier.announces_other_for(one, access) == state.announces_other_for(one, access)) by {
        if state.announces_other_for(one, access) {
            assert(barrier.announces_other(one[0], access));
        }
        if barrier.announces_other_for(one, access) {
            assert(state.announces_other(one[0], access));
        }
    }
    assert(using.announces_other_for(one, access) == state.announces_other_for(one, access)) by {
        if state.announces_other_for(one, access) {
            assert(using.announces_other(one[0], access));
        }
        if using.announces_other_for(one, access) {
            assert(state.announces_other(one[0], access));
        }
    }
}

#[derive(Clone, Copy)]
struct Announcement {
    part: ResourcePart,
    access: Access,
}

/// The announcements of a list. A later one replaces an earlier one.
spec fn announcements(list: Seq<Announcement>) -> Map<ResourcePart, Access>
    decreases list.len(),
{
    if list.len() == 0 {
        Map::empty()
    } else {
        announcements(list.drop_last()).insert(list.last().part, list.last().access)
    }
}

/// Pending writes and announced accesses of one command stream.
pub struct AccessTracker {
    pending: Vec<ResourcePart>,
    announced: Vec<Announcement>,
}

impl View for AccessTracker {
    type V = AccessView;

    closed spec fn view(&self) -> AccessView {
        AccessView {
            pending: self.pending@.to_set(),
            announced: announcements(self.announced@),
        }
    }
}

/// Return whether a list holds a part.
pub fn contains_part(list: &Vec<ResourcePart>, part: ResourcePart) -> (r: bool)
    ensures
        r == list@.contains(part),
        r == list@.to_set().contains(part),
{
    let mut i: usize = 0;
    while i < list.len()
        invariant
            i <= list@.len(),
            forall|k: int| 0 <= k < i ==> list@[k] != part,
        decreases list@.len() - i,
    {
        if list[i] == part {
            assert(list@[i as int] == part);
            return true;
        }
        i = i + 1;
    }
    false
}

/// Without the entries of a part, a list announces the rest.
proof fn lemma_announcements_skip(list: Seq<Announcement>, i: int, part: ResourcePart, kept: Seq<
    Announcement,
>)
    requires
        0 <= i < list.len(),
        announcements(kept) == announcements(list.take(i)).remove(part),
    ensures
        list[i].part == part ==> announcements(kept) == announcements(list.take(i + 1)).remove(
            part,
        ),
        list[i].part != part ==> announcements(kept.push(list[i])) == announcements(
            list.take(i + 1),
        ).remove(part),
{
    let longer = list.take(i + 1);
    assert(longer.drop_last() =~= list.take(i));
    assert(longer.last() == list[i]);
    if list[i].part == part {
        assert(announcements(kept) =~= announcements(longer).remove(part));
    } else {
        assert(kept.push(list[i]).drop_last() =~= kept);
        assert(announcements(kept.push(list[i])) =~= announcements(longer).remove(part));
    }
}

impl AccessTracker {
    /// Create a tracker with nothing pending and nothing announced.
    pub fn new() -> (r: Self)
        ensures
            r@ == AccessView::empty(),
    {
        let tracker = Self { pending: Vec::new(), announced: Vec::new() };
        assert(tracker@ =~= AccessView::empty());
        tracker
    }

    /// Return the access announced for a part, if there is one.
    fn announced_access(&self, part: ResourcePart) -> (r: Option<Access>)
        ensures
            match r {
                Some(access) => self@.announced.dom().contains(part) && self@.announced[part]
                    == access,
                None => !self@.announced.dom().contains(part),
            },
    {
        let mut i: usize = self.announced.len();
        assert(self.announced@.take(i as int) =~= self.announced@);
        while i > 0
            invariant
                i <= self.announced@.len(),
                self@.announced == announcements(self.announced@),
                announcements(self.announced@).dom().contains(part) == announcements(
                    self.announced@.take(i as int),
                ).dom().contains(part),
                announcements(self.announced@).dom().contains(part) ==> announcements(
                    self.announced@,
                )[part] == announcements(self.announced@.take(i as int))[part],
            decreases i,
        {
            let entry: Announcement = self.announced[i - 1];
            proof {
                let taken = self.announced@.take(i as int);
                assert(taken.drop_last() =~= self.announced@.take(i - 1));
                assert(taken.last() == entry);
            }
            if entry.part == part {
                return Some(entry.access);
            }
            i = i - 1;
        }
        None
    }

    /// Check an access to parts.
    ///
    /// Returns `Error::MissingBarrier` where a part was written and no barrier
    /// followed, or else `Error::InvalidResourceAccess` where a barrier announced
    /// another access.
    pub fn check(&self, parts: &Vec<ResourcePart>, access: Access) -> (r: Result<(), Error>)
        ensures
            r == self@.check(parts@, access),
    {
        if self.awaits_barrier(parts) {
            return Err(Error::MissingBarrier);
        }
        if self.announces_other_for(parts, access) {
            return Err(Error::InvalidResourceAccess);
        }
        Ok(())
    }

    fn awaits_barrier(&self, parts: &Vec<ResourcePart>) -> (r: bool)
        ensures
            r == self@.awaits_barrier(parts@),
    {
        let mut i: usize = 0;
        while i < parts.len()
            invariant
                i <= parts@.len(),
                self@.pending == self.pending@.to_set(),
                forall|k: int| 0 <= k < i ==> !self@.pending.contains(#[trigger] parts@[k]),
            decreases parts@.len() - i,
        {
            if contains_part(&self.pending, parts[i]) {
                assert(self@.pending.contains(parts@[i as int]));
                return true;
            }
            i = i + 1;
        }
        false
    }

    fn announces_other_for(&self, parts: &Vec<ResourcePart>, access: Access) -> (r: bool)
        ensures
            r == self@.announces_other_for(parts@, access),
    {
        let mut i: usize = 0;
        while i < parts.len()
            invariant
                i <= parts@.len(),
                forall|k: int| 0 <= k < i ==> !self@.announces_other(#[trigger] parts@[k], access),
            decreases parts@.len() - i,
        {
            match self.announced_access(parts[i]) {
                Some(announced) => {
                    if announced != access {
                        assert(self@.announces_other(parts@[i as int], access));
                        return true;
                    }
                },
                None => {},
            }
            i = i + 1;
        }
        false
    }

    /// Check a barrier on parts from an access, where `writes` says whether that
    /// access is a storage write.
    ///
    /// Returns `Error::InvalidResourceAccess` where a part awaits a barrier after
    /// a storage write and `before` is another access, or where an earlier
    /// barrier announced another access than `before`.
    pub fn check_barrier(&self, parts: &Vec<ResourcePart>, before: Access, writes: bool) -> (r:
        Result<(), Error>)
        ensures
            r == self@.check_barrier(parts@, before, writes),
    {
        if (!writes && self.awaits_barrier(parts)) || self.announces_other_for(parts, before) {
            return Err(Error::InvalidResourceAccess);
        }
        Ok(())
    }

    /// Ask for room for pending parts, and return whether it was granted. What is
    /// tracked does not change.
    pub fn reserve_pending(&mut self, additional: usize, memory: Memory) -> (r: bool)
        ensures
            memory.may(r),
            final(self)@ == old(self)@,
    {
        memory.reserve(&mut self.pending, additional)
    }

    /// Ask for room for announcements, and return whether it was granted. What is
    /// tracked does not change.
    pub fn reserve_announced(&mut self, additional: usize, memory: Memory) -> (r: bool)
        ensures
            memory.may(r),
            final(self)@ == old(self)@,
    {
        memory.reserve(&mut self.announced, additional)
    }

    /// Take back what was announced for one part.
    fn consume(&mut self, part: ResourcePart)
        ensures
            final(self)@ == (AccessView { announced: old(self)@.announced.remove(part), ..old(self)@
            }),
    {
        let mut kept: Vec<Announcement> = Vec::new();
        let ghost list = self.announced@;
        let mut i: usize = 0;
        assert(list.take(0) =~= Seq::<Announcement>::empty());
        assert(announcements(kept@) =~= announcements(list.take(0)).remove(part));
        while i < self.announced.len()
            invariant
                i <= self.announced@.len(),
                list == self.announced@,
                announcements(kept@) == announcements(list.take(i as int)).remove(part),
            decreases self.announced@.len() - i,
        {
            let entry: Announcement = self.announced[i];
            proof {
                lemma_announcements_skip(list, i as int, part, kept@);
            }
            if entry.part != part {
                kept.push(entry);
            }
            i = i + 1;
        }
        assert(list.take(i as int) =~= list);
        self.announced = kept;
    }

    /// Note that parts were used and some of them written.
    pub fn note_use(&mut self, used: &Vec<ResourcePart>, written: &Vec<ResourcePart>)
        ensures
            final(self)@ == old(self)@.after_use(used@.to_set(), written@.to_set()),
    {
        let ghost before = self@;
        let mut i: usize = 0;
        assert(self@.announced =~= before.announced.remove_keys(used@.take(0).to_set()));
        while i < used.len()
            invariant
                i <= used@.len(),
                self@.pending == before.pending,
                self@.announced == before.announced.remove_keys(used@.take(i as int).to_set()),
            decreases used@.len() - i,
        {
            self.consume(used[i]);
            proof {
                assert(used@.take(i + 1) =~= used@.take(i as int).push(used@[i as int]));
                lemma_set_of_push(used@.take(i as int), used@[i as int]);
                assert(self@.announced =~= before.announced.remove_keys(
                    used@.take(i + 1).to_set(),
                ));
            }
            i = i + 1;
        }
        assert(used@.take(used@.len() as int) =~= used@);
        let ghost middle = self@;
        let mut j: usize = 0;
        assert(self@.pending =~= before.pending.union(written@.take(0).to_set()));
        while j < written.len()
            invariant
                j <= written@.len(),
                self@.announced == middle.announced,
                self@.pending == before.pending.union(written@.take(j as int).to_set()),
            decreases written@.len() - j,
        {
            let ghost list = self.pending@;
            self.pending.push(written[j]);
            proof {
                lemma_set_of_push(list, written@[j as int]);
                assert(written@.take(j + 1) =~= written@.take(j as int).push(written@[j as int]));
                lemma_set_of_push(written@.take(j as int), written@[j as int]);
                assert(self@.pending =~= before.pending.union(written@.take(j + 1).to_set()));
            }
            j = j + 1;
        }
        assert(written@.take(written@.len() as int) =~= written@);
        assert(self@ =~= before.after_use(used@.to_set(), written@.to_set()));
    }

    /// Note a barrier on parts that announces an access.
    pub fn note_barrier(&mut self, parts: &Vec<ResourcePart>, after: Access)
        ensures
            final(self)@ == old(self)@.after_barrier(parts@, after),
    {
        let ghost before = self@;
        let ghost list = self.pending@;
        let mut kept: Vec<ResourcePart> = Vec::new();
        let mut i: usize = 0;
        assert(kept@.to_set() =~= list.take(0).to_set().difference(parts@.to_set()));
        while i < self.pending.len()
            invariant
                i <= self.pending@.len(),
                list == self.pending@,
                kept@.to_set() == list.take(i as int).to_set().difference(parts@.to_set()),
            decreases self.pending@.len() - i,
        {
            let part: ResourcePart = self.pending[i];
            let ghost previous = kept@;
            proof {
                assert(list.take(i + 1) =~= list.take(i as int).push(part));
                lemma_set_of_push(list.take(i as int), part);
            }
            if !contains_part(parts, part) {
                kept.push(part);
                proof {
                    lemma_set_of_push(previous, part);
                }
            }
            assert(kept@.to_set() =~= list.take(i + 1).to_set().difference(parts@.to_set()));
            i = i + 1;
        }
        assert(list.take(i as int) =~= list);
        self.pending = kept;
        let ghost middle = self@;
        let mut j: usize = 0;
        while j < parts.len()
            invariant
                j <= parts@.len(),
                self@.pending == middle.pending,
                forall|part: ResourcePart| #[trigger]
                    self@.announced.dom().contains(part) <==> (before.announced.dom().contains(
                        part,
                    ) || parts@.take(j as int).contains(part)),
                forall|part: ResourcePart| #[trigger]
                    self@.announced.dom().contains(part) ==> self@.announced[part] == (
                    if parts@.take(j as int).contains(part) {
                        after
                    } else {
                        before.announced[part]
                    }),
            decreases parts@.len() - j,
        {
            let part: ResourcePart = parts[j];
            self.consume(part);
            let ghost shorter = self.announced@;
            self.announced.push(Announcement { part, access: after });
            proof {
                assert(self.announced@.drop_last() =~= shorter);
                let taken = parts@.take(j as int);
                assert(parts@.take(j + 1) =~= taken.push(part));
                assert forall|other: ResourcePart| taken.push(part).contains(other) <==> (
                taken.contains(other) || other == part) by {
                    lemma_set_of_push(taken, part);
                    assert(taken.to_set().contains(other) == taken.contains(other));
                    assert(taken.push(part).to_set().contains(other) == taken.push(part).contains(
                        other,
                    ));
                }
            }
            j = j + 1;
        }
        assert(parts@.take(j as int) =~= parts@);
        assert(self@ =~= before.after_barrier(parts@, after));
    }
}

/// Pushing an item adds it to the set of items.
proof fn lemma_set_of_push(list: Seq<ResourcePart>, part: ResourcePart)
    ensures
        list.push(part).to_set() == list.to_set().insert(part),
{
    let longer = list.push(part);
    assert forall|other: ResourcePart| longer.to_set().contains(other) == list.to_set().insert(
        part,
    ).contains(other) by {
        if list.contains(other) {
            let i = choose|i: int| 0 <= i < list.len() && list[i] == other;
            assert(longer[i] == other);
        }
        if other == part {
            assert(longer[list.len() as int] == other);
        }
        if longer.contains(other) {
            let i = choose|i: int| 0 <= i < longer.len() && longer[i] == other;
            if i < list.len() {
                assert(list[i] == other);
            }
        }
    }
    assert(longer.to_set() =~= list.to_set().insert(part));
}

} // verus!
