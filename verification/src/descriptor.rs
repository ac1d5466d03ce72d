//! Buffers and the references through which they are reached.
//!
//! A buffer lives in a table and is named by a number. Three kinds of
//! reference lead to it. An owning handle ([`RCDesc`], [`MutDesc`]) is held by
//! the host and given up by releasing it. A strong reference ([`StrongDesc`])
//! is stored inside a record that itself lives in a buffer, and keeps its
//! target alive for as long as that record lives. A transient reference
//! ([`TransientDesc`]) carries no ownership and is valid only while the
//! execution scope that issued it is open.

use crate::fixed::{Vec2, Vec4};
use crate::simple_compute::Indirection;
use crate::triangle::Vertex;
use vstd::prelude::*;

verus! {

/// A reference stored in a record; it shares ownership of its target.
#[derive(Copy, Clone, Debug)]
pub struct StrongDesc {
    id: usize,
}

/// A reference bound to one execution scope; it owns nothing.
#[derive(Copy, Clone, Debug, PartialEq, Eq, Structural)]
pub struct TransientDesc {
    id: usize,
    scope: u64,
}

/// The host's owning handle of a read-only buffer.
#[derive(Debug)]
pub struct RCDesc {
    id: usize,
}

/// The host's owning handle of a writable buffer.
#[derive(Debug)]
pub struct MutDesc {
    id: usize,
}

/// The token of an open execution scope.
#[derive(Debug)]
pub struct Scope {
    id: u64,
}

/// What a buffer holds.
pub enum BufferData {
    /// One scalar.
    Scalar(i32),
    /// A run of scalars.
    Scalars(Vec<i32>),
    /// One indirection record.
    Indirection(Indirection),
    /// A writable run of double-precision results.
    Output(Vec<i64>),
    /// A run of vertices.
    Vertices(Vec<Vertex>),
}

struct Slot {
    data: BufferData,
    owned: bool,
}

/// The table of live buffers, with the state of the execution scope.
pub struct Descriptors {
    slots: Vec<Option<Slot>>,
    epoch: u64,
    recording: bool,
}

/// The contents of a buffer, as mathematics.
pub enum BufferView {
    Scalar(i32),
    Scalars(Seq<i32>),
    Indirection(Indirection),
    Output(Seq<i64>),
    Vertices(Seq<Vertex>),
}

/// A live buffer: its contents and whether the host still holds its handle.
pub struct SlotView {
    pub data: BufferView,
    pub owned: bool,
}

/// The table as mathematics: the live buffers by number, the number of the
/// latest execution scope, and whether that scope is still open.
pub struct DescriptorsView {
    pub buffers: Map<int, SlotView>,
    pub epoch: int,
    pub recording: bool,
}

impl StrongDesc {
    /// The number of the buffer referred to.
    pub closed spec fn id(&self) -> int {
        self.id as int
    }
}

impl TransientDesc {
    /// The number of the buffer referred to.
    pub closed spec fn id(&self) -> int {
        self.id as int
    }

    /// The number of the execution scope that issued the reference.
    pub closed spec fn scope(&self) -> int {
        self.scope as int
    }
}

impl Scope {
    /// The number of the scope.
    pub closed spec fn id(&self) -> int {
        self.id as int
    }
}

impl RCDesc {
    /// The number of the buffer owned.
    pub closed spec fn id(&self) -> int {
        self.id as int
    }

    /// A strong reference to the buffer, to be stored in a record.
    pub fn to_strong(&self) -> (strong: StrongDesc)
        ensures
            strong.id() == self.id(),
    {
        StrongDesc { id: self.id }
    }

    /// A reference to the buffer for the duration of `scope`.
    pub fn to_transient(&self, scope: &Scope) -> (transient: TransientDesc)
        ensures
            transient.id() == self.id(),
            transient.scope() == scope.id(),
    {
        TransientDesc { id: self.id, scope: scope.id }
    }
}

impl MutDesc {
    /// The number of the buffer owned.
    pub closed spec fn id(&self) -> int {
        self.id as int
    }

    /// A writing reference to the buffer for the duration of `scope`.
    pub fn to_mut_transient(&self, scope: &Scope) -> (transient: TransientDesc)
        ensures
            transient.id() == self.id(),
            transient.scope() == scope.id(),
    {
        TransientDesc { id: self.id, scope: scope.id }
    }
}

impl BufferData {
    /// The contents as mathematics.
    pub open spec fn view(&self) -> BufferView {
        match *self {
            BufferData::Scalar(value) => BufferView::Scalar(value),
            BufferData::Scalars(values) => BufferView::Scalars(values@),
            BufferData::Indirection(record) => BufferView::Indirection(record),
            BufferData::Output(values) => BufferView::Output(values@),
            BufferData::Vertices(vertices) => BufferView::Vertices(vertices@),
        }
    }
}

impl DescriptorsView {
    /// Whether a buffer of this number is alive.
    pub open spec fn is_live(self, id: int) -> bool {
        self.buffers.contains_key(id)
    }

    /// Whether the host holds the handle of the live buffer `id`.
    pub open spec fn owns(self, id: int) -> bool {
        self.is_live(id) && self.buffers[id].owned
    }

    /// The contents of the buffer `id`.
    pub open spec fn data(self, id: int) -> BufferView {
        self.buffers[id].data
    }

    /// Whether the live buffer `holder` is a record with a strong reference to `id`.
    pub open spec fn holds_reference(self, holder: int, id: int) -> bool {
        &&& self.is_live(holder)
        &&& self.data(holder) matches BufferView::Indirection(record)
        &&& record.c.id() == id
    }

    /// Whether some live record holds a strong reference to `id`.
    pub open spec fn referenced(self, id: int) -> bool {
        exists|holder: int| self.holds_reference(holder, id)
    }

    /// The table's invariant: a live record refers to a live single scalar,
    /// and a buffer without owner and without a record that refers to it is
    /// not kept.
    pub open spec fn wf(self) -> bool {
        &&& forall|holder: int, id: int| #[trigger]
            self.holds_reference(holder, id) ==> self.is_live(id) && self.data(id) is Scalar
        &&& forall|id: int| #[trigger]
            self.is_live(id) ==> self.buffers[id].owned || self.referenced(id)
    }

    /// Whether a transient reference may be used now: its scope is the open
    /// one and its buffer is alive.
    pub open spec fn valid(self, transient: TransientDesc) -> bool {
        &&& self.recording
        &&& transient.scope() == self.epoch
        &&& self.is_live(transient.id())
    }

    /// The scalar in the buffer `id`.
    pub open spec fn scalar(self, id: int) -> i32 {
        match self.data(id) {
            BufferView::Scalar(value) => value,
            _ => 0,
        }
    }

    /// The scalars in the buffer `id`.
    pub open spec fn scalars(self, id: int) -> Seq<i32> {
        match self.data(id) {
            BufferView::Scalars(values) => values,
            _ => Seq::empty(),
        }
    }

    /// The number of the buffer that the record in the buffer `id` refers to.
    pub open spec fn target(self, id: int) -> int {
        match self.data(id) {
            BufferView::Indirection(record) => record.c.id(),
            _ => -1,
        }
    }

    /// The results in the buffer `id`.
    pub open spec fn output(self, id: int) -> Seq<i64> {
        match self.data(id) {
            BufferView::Output(values) => values,
            _ => Seq::empty(),
        }
    }

    /// The vertices in the buffer `id`.
    pub open spec fn vertices(self, id: int) -> Seq<Vertex> {
        match self.data(id) {
            BufferView::Vertices(vertices) => vertices,
            _ => Seq::empty(),
        }
    }

    /// The scalar that the record in the buffer `record` leads to.
    pub open spec fn resolve(self, record: int) -> i32 {
        self.scalar(self.target(record))
    }

    /// The table with the buffer `id` added, owned by the host.
    pub open spec fn with_buffer(self, id: int, data: BufferView) -> DescriptorsView {
        DescriptorsView { buffers: self.buffers.insert(id, SlotView { data, owned: true }), ..self }
    }

    /// The table with other contents in the buffer `id`.
    pub open spec fn with_data(self, id: int, data: BufferView) -> DescriptorsView {
        DescriptorsView {
            buffers: self.buffers.insert(id, SlotView { data, owned: self.buffers[id].owned }),
            ..self
        }
    }

    /// The table without the buffer `id`.
    pub open spec fn without(self, id: int) -> DescriptorsView {
        DescriptorsView { buffers: self.buffers.remove(id), ..self }
    }

    /// The table after the host gave up its handle of the buffer `id`. The
    /// buffer stays while a record refers to it. Otherwise it goes, and with
    /// it the target of its own strong reference, if that target has no owner
    /// and no other record refers to it.
    pub open spec fn release(self, id: int) -> DescriptorsView {
        if self.referenced(id) {
            DescriptorsView {
                buffers: self.buffers.insert(
                    id,
                    SlotView { data: self.buffers[id].data, owned: false },
                ),
                ..self
            }
        } else {
            let rest = self.without(id);
            match self.data(id) {
                BufferView::Indirection(record) => {
                    if !rest.owns(record.c.id()) && !rest.referenced(record.c.id()) {
                        rest.without(record.c.id())
                    } else {
                        rest
                    }
                },
                _ => rest,
            }
        }
    }
}

impl View for Descriptors {
    type V = DescriptorsView;

    closed spec fn view(&self) -> DescriptorsView {
        DescriptorsView {
            buffers: Map::new(
                |id: int| 0 <= id < self.slots.len() && self.slots[id] is Some,
                |id: int|
                    SlotView {
                        data: self.slots[id]->Some_0.data.view(),
                        owned: self.slots[id]->Some_0.owned,
                    },
            ),
            epoch: self.epoch as int,
            recording: self.recording,
        }
    }
}

impl Descriptors {
    /// The invariant of the table.
    pub open spec fn wf(&self) -> bool {
        self@.wf()
    }

    /// An empty table, before its first execution scope.
    pub fn new() -> (table: Descriptors)
        ensures
            table.wf(),
            table@.buffers == Map::<int, SlotView>::empty(),
            table@.epoch == 0,
            !table@.recording,
    {
        let table = Descriptors { slots: Vec::new(), epoch: 0, recording: false };
        table
    }

    /// The first free place of the table, or its length if none is free.
    fn free_place(&self) -> (place: usize)
        ensures
            place <= self.slots.len(),
            place < self.slots.len() ==> self.slots[place as int] is None,
            !self@.is_live(place as int),
    {
        let mut place: usize = 0;
        while place < self.slots.len()
            invariant
                place <= self.slots.len(),
            decreases self.slots.len() - place,
        {
            if self.slots[place].is_none() {
                return place;
            }
            place += 1;
        }
        place
    }

    /// Puts a buffer into the table, owned by the host.
    fn insert(&mut self, data: BufferData) -> (id: usize)
        requires
            old(self).wf(),
            data.view() matches BufferView::Indirection(record) ==> old(self)@.is_live(
                record.c.id(),
            ) && old(self)@.data(record.c.id()) is Scalar,
        ensures
            final(self).wf(),
            !old(self)@.is_live(id as int),
            final(self)@ == old(self)@.with_buffer(id as int, data.view()),
    {
        let place = self.free_place();
        let ghost before = self@;
        let ghost content = data.view();
        let slot = Slot { data, owned: true };
        if place < self.slots.len() {
            self.slots.set(place, Some(slot));
        } else {
            self.slots.push(Some(slot));
        }
        proof {
            let after = self@;
            assert(after.buffers =~= before.buffers.insert(
                place as int,
                SlotView { data: content, owned: true },
            ));
            assert forall|holder: int, id: int| #[trigger]
                after.holds_reference(holder, id) implies after.is_live(id) && after.data(id) is Scalar by {
                if holder != place {
                    assert(before.holds_reference(holder, id));
                }
            }
            assert forall|id: int| #[trigger] after.is_live(id) implies after.buffers[id].owned
                || after.referenced(id) by {
                if id != place {
                    assert(before.is_live(id));
                    if !before.buffers[id].owned {
                        let holder = choose|holder: int| before.holds_reference(holder, id);
                        assert(after.holds_reference(holder, id));
                    }
                }
            }
        }
        place
    }

    /// Allocates a buffer of one scalar.
    pub fn alloc_scalar(&mut self, value: i32) -> (desc: RCDesc)
        requires
            old(self).wf(),
        ensures
            final(self).wf(),
            !old(self)@.is_live(desc.id()),
            final(self)@ == old(self)@.with_buffer(desc.id(), BufferView::Scalar(value)),
    {
        let id = self.insert(BufferData::Scalar(value));
        RCDesc { id }
    }

    /// Allocates a buffer of the given scalars.
    pub fn alloc_scalars(&mut self, values: Vec<i32>) -> (desc: RCDesc)
        requires
            old(self).wf(),
        ensures
            final(self).wf(),
            !old(self)@.is_live(desc.id()),
            final(self)@ == old(self)@.with_buffer(desc.id(), BufferView::Scalars(values@)),
    {
        let id = self.insert(BufferData::Scalars(values));
        RCDesc { id }
    }

    /// Allocates a buffer of one record. From then on the record keeps the
    /// target of its strong reference alive.
    pub fn alloc_indirection(&mut self, record: Indirection) -> (desc: RCDesc)
        requires
            old(self).wf(),
            old(self)@.is_live(record.c.id()),
            old(self)@.data(record.c.id()) is Scalar,
        ensures
            final(self).wf(),
            !old(self)@.is_live(desc.id()),
            final(self)@ == old(self)@.with_buffer(desc.id(), BufferView::Indirection(record)),
    {
        let id = self.insert(BufferData::Indirection(record));
        RCDesc { id }
    }

    /// Allocates a buffer of the given vertices.
    pub fn alloc_vertices(&mut self, vertices: Vec<Vertex>) -> (desc: RCDesc)
        requires
            old(self).wf(),
        ensures
            final(self).wf(),
            !old(self)@.is_live(desc.id()),
            final(self)@ == old(self)@.with_buffer(desc.id(), BufferView::Vertices(vertices@)),
    {
        let id = self.insert(BufferData::Vertices(vertices));
        RCDesc { id }
    }

    /// Allocates a writable buffer of `len` results, all zero.
    pub fn alloc_output(&mut self, len: usize) -> (desc: MutDesc)
        requires
            old(self).wf(),
        ensures
            final(self).wf(),
            !old(self)@.is_live(desc.id()),
            final(self)@ == old(self)@.with_buffer(
                desc.id(),
                BufferView::Output(Seq::new(len as nat, |i: int| 0i64)),
            ),
    {
        let mut values: Vec<i64> = Vec::new();
        while values.len() < len
            invariant
                values.len() <= len,
                forall|i: int| 0 <= i < values.len() ==> values[i] == 0,
            decreases len - values.len(),
        {
            values.push(0);
        }
        assert(values@ =~= Seq::new(len as nat, |i: int| 0i64));
        let id = self.insert(BufferData::Output(values));
        MutDesc { id }
    }

    /// Whether the table holds no buffer.
    pub fn is_empty(&self) -> (empty: bool)
        ensures
            empty == (self@.buffers == Map::<int, SlotView>::empty()),
    {
        let mut place: usize = 0;
        while place < self.slots.len()
            invariant
                place <= self.slots.len(),
                forall|earlier: int| 0 <= earlier < place ==> !self@.is_live(earlier),
            decreases self.slots.len() - place,
        {
            if self.slots[place].is_some() {
                assert(self@.is_live(place as int));
                return false;
            }
            place += 1;
        }
        assert forall|id: int| !self@.buffers.contains_key(id) by {
            assert(!self@.is_live(id));
        }
        assert(self@.buffers =~= Map::<int, SlotView>::empty());
        true
    }

    /// Whether the host holds the handle of the live buffer at `id`.
    fn is_owned(&self, id: usize) -> (owned: bool)
        ensures
            owned == self@.owns(id as int),
    {
        if id < self.slots.len() {
            match &self.slots[id] {
                Some(slot) => slot.owned,
                None => false,
            }
        } else {
            false
        }
    }

    /// Whether some live record holds a strong reference to `id`.
    fn is_referenced(&self, id: usize) -> (referenced: bool)
        ensures
            referenced == self@.referenced(id as int),
    {
        let mut holder: usize = 0;
        while holder < self.slots.len()
            invariant
                holder <= self.slots.len(),
                forall|earlier: int| 0 <= earlier < holder ==> !self@.holds_reference(earlier, id as int),
            decreases self.slots.len() - holder,
        {
            let found = match &self.slots[holder] {
                Some(slot) => match &slot.data {
                    BufferData::Indirection(record) => record.c.id == id,
                    _ => false,
                },
                None => false,
            };
            if found {
                assert(self@.holds_reference(holder as int, id as int));
                return true;
            }
            holder += 1;
        }
        assert forall|any: int| !self@.holds_reference(any, id as int) by {}
        false
    }

    /// Gives up the handle at `id`.
    fn drop_handle(&mut self, id: usize)
        requires
            old(self).wf(),
            old(self)@.owns(id as int),
        ensures
            final(self).wf(),
            final(self)@ == old(self)@.release(id as int),
    {
        let ghost before = self@;
        let referenced = self.is_referenced(id);
        self.slots.push(None);
        let taken = self.slots.swap_remove(id);
        if referenced {
            if let Some(slot) = taken {
                self.slots.set(id, Some(Slot { data: slot.data, owned: false }));
            }
            assert(self@.buffers =~= before.release(id as int).buffers);
        } else {
            assert(self@.buffers =~= before.without(id as int).buffers);
            if let Some(slot) = taken {
                if let BufferData::Indirection(record) = slot.data {
                    let target = record.c.id;
                    assert(before.holds_reference(id as int, target as int));
                    let owned = self.is_owned(target);
                    if !owned {
                        let shared = self.is_referenced(target);
                        if !shared {
                            self.slots.set(target, None);
                            assert(self@.buffers =~= before.without(id as int).without(
                                target as int,
                            ).buffers);
                        }
                    }
                }
            }
        }
        proof {
            before.lemma_release_wf(id as int);
        }
    }

    /// The host gives up its handle of a read-only buffer.
    pub fn release(&mut self, desc: RCDesc)
        requires
            old(self).wf(),
            old(self)@.owns(desc.id()),
        ensures
            final(self).wf(),
            final(self)@ == old(self)@.release(desc.id()),
    {
        self.drop_handle(desc.id);
    }

    /// The host gives up its handle of a writable buffer.
    pub fn release_mut(&mut self, desc: MutDesc)
        requires
            old(self).wf(),
            old(self)@.owns(desc.id()),
        ensures
            final(self).wf(),
            final(self)@ == old(self)@.release(desc.id()),
    {
        self.drop_handle(desc.id);
    }

    /// Opens an execution scope, unless one is open or the scope numbers are
    /// used up. Every transient reference issued before becomes invalid.
    pub fn begin_execution(&mut self) -> (scope: Option<Scope>)
        ensures
            scope is None <==> old(self)@.recording || old(self)@.epoch == u64::MAX,
            scope is None ==> final(self)@ == old(self)@,
            old(self).wf() ==> final(self).wf(),
            scope matches Some(opened) ==> opened.id() == old(self)@.epoch + 1 && final(self)@ == (
            DescriptorsView { epoch: old(self)@.epoch + 1, recording: true, ..old(self)@ }),
    {
        if self.recording || self.epoch == u64::MAX {
            return None;
        }
        let ghost before = self@;
        self.epoch = self.epoch + 1;
        self.recording = true;
        proof {
            if before.wf() {
                before.lemma_wf_of_buffers(self@);
            }
        }
        Some(Scope { id: self.epoch })
    }

    /// Closes the open execution scope. Every transient reference that it
    /// issued becomes invalid.
    pub fn end_execution(&mut self, scope: Scope)
        requires
            old(self)@.recording,
            scope.id() == old(self)@.epoch,
        ensures
            final(self)@ == (DescriptorsView { recording: false, ..old(self)@ }),
            old(self).wf() ==> final(self).wf(),
    {
        let ghost before = self@;
        self.recording = false;
        proof {
            if before.wf() {
                before.lemma_wf_of_buffers(self@);
            }
        }
    }

    /// Whether an execution scope is open.
    pub fn is_recording(&self) -> (recording: bool)
        ensures
            recording == self@.recording,
    {
        self.recording
    }

    /// Whether `scope` is the open execution scope.
    pub fn is_open(&self, scope: &Scope) -> (open: bool)
        ensures
            open == (self@.recording && scope.id() == self@.epoch),
    {
        self.recording && scope.id == self.epoch
    }

    /// Whether the host holds the handle `desc` of a live buffer.
    pub fn owns(&self, desc: &RCDesc) -> (owned: bool)
        ensures
            owned == self@.owns(desc.id()),
    {
        self.is_owned(desc.id)
    }

    /// Whether the host holds the handle `desc` of a live buffer.
    pub fn owns_mut(&self, desc: &MutDesc) -> (owned: bool)
        ensures
            owned == self@.owns(desc.id()),
    {
        self.is_owned(desc.id)
    }

    /// The live buffer that a valid transient reference leads to.
    fn lookup(&self, transient: &TransientDesc) -> (data: Option<&BufferData>)
        ensures
            data is Some <==> self@.valid(*transient),
            data matches Some(found) ==> found.view() == self@.data(transient.id()),
    {
        if self.recording && transient.scope == self.epoch && transient.id < self.slots.len() {
            match &self.slots[transient.id] {
                Some(slot) => Some(&slot.data),
                None => None,
            }
        } else {
            None
        }
    }

    /// The length of the run of scalars that `transient` leads to, if it is
    /// valid and leads to such a run.
    pub fn scalars_len(&self, transient: &TransientDesc) -> (len: Option<usize>)
        ensures
            len is Some <==> self@.valid(*transient) && self@.data(transient.id()) is Scalars,
            len matches Some(n) ==> n == self@.scalars(transient.id()).len(),
    {
        match self.lookup(transient) {
            Some(BufferData::Scalars(values)) => Some(values.len()),
            _ => None,
        }
    }

    /// The length of the run of results that `transient` leads to, if it is
    /// valid and leads to such a run.
    pub fn output_len(&self, transient: &TransientDesc) -> (len: Option<usize>)
        ensures
            len is Some <==> self@.valid(*transient) && self@.data(transient.id()) is Output,
            len matches Some(n) ==> n == self@.output(transient.id()).len(),
    {
        match self.lookup(transient) {
            Some(BufferData::Output(values)) => Some(values.len()),
            _ => None,
        }
    }

    /// The length of the run of vertices that `transient` leads to, if it is
    /// valid and leads to such a run.
    pub fn vertices_len(&self, transient: &TransientDesc) -> (len: Option<usize>)
        ensures
            len is Some <==> self@.valid(*transient) && self@.data(transient.id()) is Vertices,
            len matches Some(n) ==> n == self@.vertices(transient.id()).len(),
    {
        match self.lookup(transient) {
            Some(BufferData::Vertices(vertices)) => Some(vertices.len()),
            _ => None,
        }
    }

    /// Whether `transient` is valid and leads to a record.
    pub fn has_indirection(&self, transient: &TransientDesc) -> (found: bool)
        ensures
            found == (self@.valid(*transient) && self@.data(transient.id()) is Indirection),
    {
        match self.lookup(transient) {
            Some(BufferData::Indirection(_)) => true,
            _ => false,
        }
    }

    /// Whether `strong` leads to a live buffer of one scalar.
    pub fn has_scalar(&self, strong: &StrongDesc) -> (found: bool)
        ensures
            found == (self@.is_live(strong.id()) && self@.data(strong.id()) is Scalar),
    {
        if strong.id < self.slots.len() {
            match &self.slots[strong.id] {
                Some(slot) => match &slot.data {
                    BufferData::Scalar(_) => true,
                    _ => false,
                },
                None => false,
            }
        } else {
            false
        }
    }

    /// Reads the scalar at `index` of a run of scalars.
    pub fn load_scalars(&self, transient: &TransientDesc, index: usize) -> (value: i32)
        requires
            self@.valid(*transient),
            self@.data(transient.id()) is Scalars,
            index < self@.scalars(transient.id()).len(),
        ensures
            value == self@.scalars(transient.id())[index as int],
    {
        match self.lookup(transient) {
            Some(BufferData::Scalars(values)) => values[index],
            _ => 0,
        }
    }

    /// Reads a record.
    pub fn load_indirection(&self, transient: &TransientDesc) -> (record: Indirection)
        requires
            self@.valid(*transient),
            self@.data(transient.id()) is Indirection,
        ensures
            self@.data(transient.id()) == BufferView::Indirection(record),
    {
        match self.lookup(transient) {
            Some(BufferData::Indirection(record)) => *record,
            _ => Indirection { c: StrongDesc { id: 0 } },
        }
    }

    /// Follows a strong reference to its scalar.
    pub fn load_scalar(&self, strong: &StrongDesc) -> (value: i32)
        requires
            self@.is_live(strong.id()),
            self@.data(strong.id()) is Scalar,
        ensures
            value == self@.scalar(strong.id()),
    {
        match &self.slots[strong.id] {
            Some(slot) => match &slot.data {
                BufferData::Scalar(value) => *value,
                _ => 0,
            },
            None => 0,
        }
    }

    /// Reads the vertex at `index` of a run of vertices.
    pub fn load_vertex(&self, transient: &TransientDesc, index: usize) -> (vertex: Vertex)
        requires
            self@.valid(*transient),
            self@.data(transient.id()) is Vertices,
            index < self@.vertices(transient.id()).len(),
        ensures
            vertex == self@.vertices(transient.id())[index as int],
    {
        match self.lookup(transient) {
            Some(BufferData::Vertices(vertices)) => vertices[index],
            _ => Vertex { position: Vec2 { x: 0, y: 0 }, color: Vec4 { x: 0, y: 0, z: 0, w: 0 } },
        }
    }

    /// Writes the result at `index` of a run of results. Nothing else changes.
    pub fn store(&mut self, transient: &TransientDesc, index: usize, value: i64)
        requires
            old(self).wf(),
            old(self)@.valid(*transient),
            old(self)@.data(transient.id()) is Output,
            index < old(self)@.output(transient.id()).len(),
        ensures
            final(self).wf(),
            final(self)@ == old(self)@.with_data(
                transient.id(),
                BufferView::Output(old(self)@.output(transient.id()).update(index as int, value)),
            ),
    {
        let ghost before = self@;
        let id = transient.id;
        self.slots.push(None);
        let taken = self.slots.swap_remove(id);
        if let Some(slot) = taken {
            let owned = slot.owned;
            if let BufferData::Output(mut values) = slot.data {
                values.set(index, value);
                self.slots.set(id, Some(Slot { data: BufferData::Output(values), owned }));
            }
        }
        proof {
            let content = BufferView::Output(before.output(id as int).update(index as int, value));
            assert(self@.buffers =~= before.with_data(id as int, content).buffers);
            before.lemma_with_data_wf(id as int, content);
        }
    }

    /// Reads back the results of a writable buffer, once no execution scope is open.
    pub fn read_output(&self, desc: &MutDesc) -> (values: Vec<i64>)
        requires
            !self@.recording,
            self@.is_live(desc.id()),
            self@.data(desc.id()) is Output,
        ensures
            values@ == self@.output(desc.id()),
    {
        match &self.slots[desc.id] {
            Some(slot) => match &slot.data {
                BufferData::Output(values) => values.clone(),
                _ => Vec::new(),
            },
            None => Vec::new(),
        }
    }
}

impl DescriptorsView {
    /// The invariant speaks of the buffers alone, not of the execution scope.
    pub proof fn lemma_wf_of_buffers(self, other: DescriptorsView)
        requires
            self.wf(),
            other.buffers == self.buffers,
        ensures
            other.wf(),
    {
        assert forall|holder: int, target: int| #[trigger]
            other.holds_reference(holder, target) implies other.is_live(target) && other.data(
            target,
        ) is Scalar by {
            assert(self.holds_reference(holder, target));
        }
        assert forall|id: int| #[trigger] other.is_live(id) implies other.buffers[id].owned
            || other.referenced(id) by {
            assert(self.is_live(id));
            if !self.buffers[id].owned {
                let holder = choose|holder: int| self.holds_reference(holder, id);
                assert(other.holds_reference(holder, id));
            }
        }
    }

    /// Replacing the contents of a buffer that is no record by contents of
    /// its own kind keeps the invariant.
    pub proof fn lemma_with_data_wf(self, id: int, data: BufferView)
        requires
            self.wf(),
            self.is_live(id),
            !(self.data(id) is Indirection),
            !(data is Indirection),
            self.data(id) is Scalar ==> data is Scalar,
        ensures
            self.with_data(id, data).wf(),
    {
        let after = self.with_data(id, data);
        assert forall|holder: int, target: int| #[trigger]
            after.holds_reference(holder, target) implies after.is_live(target) && after.data(
            target,
        ) is Scalar by {
            assert(self.holds_reference(holder, target));
        }
        assert forall|other: int| #[trigger] after.is_live(other) implies after.buffers[other].owned
            || after.referenced(other) by {
            assert(self.is_live(other));
            if !self.buffers[other].owned {
                let holder = choose|holder: int| self.holds_reference(holder, other);
                assert(after.holds_reference(holder, other));
            }
        }
    }

    /// Giving up a handle keeps the invariant.
    pub proof fn lemma_release_wf(self, id: int)
        requires
            self.wf(),
            self.owns(id),
        ensures
            self.release(id).wf(),
    {
        let after = self.release(id);
        if self.referenced(id) {
            assert forall|holder: int, target: int| #[trigger]
                after.holds_reference(holder, target) implies after.is_live(target) && after.data(
                target,
            ) is Scalar by {
                assert(self.holds_reference(holder, target));
            }
            assert forall|other: int| #[trigger] after.is_live(other) implies after.buffers[other].owned
                || after.referenced(other) by {
                assert(self.is_live(other));
                if other == id || !self.buffers[other].owned {
                    let holder = choose|holder: int| self.holds_reference(holder, other);
                    assert(after.holds_reference(holder, other));
                }
            }
        } else {
            let rest = self.without(id);
            assert forall|holder: int, target: int| #[trigger]
                rest.holds_reference(holder, target) implies rest.is_live(target) && rest.data(
                target,
            ) is Scalar by {
                assert(self.holds_reference(holder, target));
            }
            assert forall|other: int|
                #[trigger] rest.is_live(other) && !self.holds_reference(id, other)
                    implies rest.buffers[other].owned || rest.referenced(other) by {
                assert(self.is_live(other));
                if !self.buffers[other].owned {
                    let holder = choose|holder: int| self.holds_reference(holder, other);
                    assert(rest.holds_reference(holder, other));
                }
            }
            if let BufferView::Indirection(record) = self.data(id) {
                let target = record.c.id();
                if !rest.owns(target) && !rest.referenced(target) {
                    assert forall|holder: int, other: int| #[trigger]
                        after.holds_reference(holder, other) implies after.is_live(other)
                        && after.data(other) is Scalar by {
                        assert(rest.holds_reference(holder, other));
                    }
                    assert forall|other: int| #[trigger] after.is_live(other) implies after.buffers[other].owned
                        || after.referenced(other) by {
                        assert(rest.is_live(other));
                        if !rest.buffers[other].owned {
                            let holder = choose|holder: int| rest.holds_reference(holder, other);
                            assert(after.holds_reference(holder, other));
                        }
                    }
                }
            }
        }
    }

    /// A record that stays in the table leads to the same scalar after the
    /// host gave up any other handle, the handle of the record's own target
    /// included.
    pub proof fn lemma_release_keeps_resolution(self, id: int, record: int)
        requires
            self.wf(),
            self.owns(id),
            self.is_live(record),
            self.data(record) is Indirection,
            record != id,
        ensures
            self.release(id).is_live(record),
            self.release(id).data(record) == self.data(record),
            self.release(id).is_live(self.target(record)),
            self.release(id).resolve(record) == self.resolve(record),
    {
        let target = self.target(record);
        assert(self.holds_reference(record, target));
        if !self.referenced(id) {
            assert(self.without(id).holds_reference(record, target));
        }
    }

    /// A record that is added with a strong reference to a buffer of the
    /// single scalar `value` leads to exactly `value`, whatever else the
    /// table holds.
    pub proof fn lemma_record_resolves_to_its_scalar(
        self,
        id: int,
        record: Indirection,
        value: i32,
    )
        requires
            !self.is_live(id),
            self.is_live(record.c.id()),
            self.data(record.c.id()) == BufferView::Scalar(value),
        ensures
            self.with_buffer(id, BufferView::Indirection(record)).resolve(id) == value,
    {
    }

    /// A record leads to the same scalar after any buffer was added.
    pub proof fn lemma_alloc_keeps_resolution(self, id: int, data: BufferView, record: int)
        requires
            self.wf(),
            !self.is_live(id),
            self.is_live(record),
            self.data(record) is Indirection,
        ensures
            self.with_buffer(id, data).is_live(record),
            self.with_buffer(id, data).resolve(record) == self.resolve(record),
    {
        assert(self.holds_reference(record, self.target(record)));
    }

    /// A record leads to the same scalar after the contents of any buffer
    /// that is neither a record nor a single scalar were replaced.
    pub proof fn lemma_store_keeps_resolution(self, id: int, data: BufferView, record: int)
        requires
            self.wf(),
            self.is_live(id),
            self.data(id) is Output,
            self.is_live(record),
            self.data(record) is Indirection,
        ensures
            self.with_data(id, data).is_live(record),
            self.with_data(id, data).resolve(record) == self.resolve(record),
    {
        assert(self.holds_reference(record, self.target(record)));
    }
}

} // verus!
