//! What draws read: the bytes that their vertices come from, and what is bound.

use crate::ir::pipeline::{IndexFormat, VertexAttribute, VertexFormat};
use crate::ir::resource::BufferUsage;
use crate::ir::table::{BufferRef, TableView};
use crate::ir_execute::buffers::UpdateView;
use crate::ir_execute::draw::DrawState;
use crate::ir_execute::resources::ResourcesView;
use vstd::prelude::*;

verus! {

/// The number that bytes hold, least significant first.
pub open spec fn number(bytes: Seq<u8>) -> int
    decreases bytes.len(),
{
    if bytes.len() == 0 {
        0
    } else {
        bytes[0] + 0x100 * number(bytes.skip(1))
    }
}

/// The number in some bytes of a buffer.
pub open spec fn number_at(bytes: Seq<u8>, at: int, width: int) -> int {
    number(bytes.subrange(at, at + width))
}

/// Bytes of one index.
pub open spec fn index_width(format: IndexFormat) -> int {
    match format {
        IndexFormat::Uint16 => 2,
        IndexFormat::Uint32 => 4,
    }
}

proof fn lemma_two_bytes(bytes: Seq<u8>, at: int)
    requires
        0 <= at,
        at + 2 <= bytes.len(),
    ensures
        number_at(bytes, at, 2) == crate::ir_execute::decode::le_u16(bytes, at),
{
    reveal_with_fuel(number, 3);
    let part = bytes.subrange(at, at + 2);
    assert(part.skip(1)[0] == bytes[at + 1]);
    assert(part.skip(1).skip(1).len() == 0);
}

proof fn lemma_four_bytes(bytes: Seq<u8>, at: int)
    requires
        0 <= at,
        at + 4 <= bytes.len(),
    ensures
        number_at(bytes, at, 4) == crate::ir_execute::decode::le_u32(bytes, at),
{
    reveal_with_fuel(number, 5);
    let part = bytes.subrange(at, at + 4);
    assert(part.skip(1)[0] == bytes[at + 1]);
    assert(part.skip(1).skip(1)[0] == bytes[at + 2]);
    assert(part.skip(1).skip(1).skip(1)[0] == bytes[at + 3]);
    assert(part.skip(1).skip(1).skip(1).skip(1).len() == 0);
}

proof fn lemma_index(bytes: Seq<u8>, at: int, format: IndexFormat)
    requires
        0 <= at,
        at + index_width(format) <= bytes.len(),
    ensures
        crate::ir_execute::draw::index_at(bytes, at, format) == number_at(
            bytes,
            at,
            index_width(format),
        ),
        index_width(format) == format.byte_size(),
{
    match format {
        IndexFormat::Uint16 => {
            lemma_two_bytes(bytes, at);
        },
        IndexFormat::Uint32 => {
            lemma_four_bytes(bytes, at);
        },
    }
}

/// The index that an indexed draw reads at a place.
pub open spec fn index_of(
    updates: Seq<UpdateView>,
    resources: ResourcesView,
    index_buffer: (BufferRef, u64, IndexFormat),
    place: int,
) -> int {
    let width = index_width(index_buffer.2);
    number_at(
        crate::ir_execute::buffers::contents(updates, resources, index_buffer.0@.index)->0,
        index_buffer.1 + place * width,
        width,
    )
}

/// Whether all indices of a draw were written.
pub open spec fn indices_written(
    updates: Seq<UpdateView>,
    resources: ResourcesView,
    index_buffer: (BufferRef, u64, IndexFormat),
    first_index: u32,
    index_count: u32,
) -> bool {
    crate::ir_execute::buffers::contents(
        updates,
        resources,
        index_buffer.0@.index,
    ) matches Some(bytes) && index_buffer.1 + (first_index + index_count) * index_width(
        index_buffer.2,
    ) <= bytes.len()
}

proof fn lemma_resolved(
    resources: ResourcesView,
    updates: Seq<UpdateView>,
    index_buffer: (BufferRef, u64, IndexFormat),
    first_index: u32,
    index_count: u32,
    base_vertex: i32,
)
    requires
        indices_written(updates, resources, index_buffer, first_index, index_count),
    ensures
        ({
            let bytes = crate::ir_execute::buffers::contents(
                updates,
                resources,
                index_buffer.0@.index,
            )->0;
            let size = index_buffer.2.byte_size();
            let start = index_buffer.1 + first_index * size;
            let indices = crate::ir_execute::draw::resolved(
                bytes,
                start,
                index_buffer.2,
                index_count,
                base_vertex,
            );
            &&& start + index_count * size <= bytes.len()
            &&& indices.len() == index_count
            &&& forall|i: int|
                0 <= i < index_count ==> (#[trigger] indices[i]) == index_of(
                    updates,
                    resources,
                    index_buffer,
                    first_index + i,
                ) + base_vertex
        }),
{
    let bytes = crate::ir_execute::buffers::contents(updates, resources, index_buffer.0@.index)->0;
    let size = index_buffer.2.byte_size() as int;
    let start = index_buffer.1 + first_index * size;
    assert((first_index + index_count) * size == first_index * size + index_count * size)
        by (nonlinear_arith);
    let indices = crate::ir_execute::draw::resolved(
        bytes,
        start,
        index_buffer.2,
        index_count,
        base_vertex,
    );
    assert forall|i: int| 0 <= i < index_count implies (#[trigger] indices[i]) == index_of(
        updates,
        resources,
        index_buffer,
        first_index + i,
    ) + base_vertex by {
        assert((first_index + i) * size == first_index * size + i * size && 0 <= i * size && i
            * size + size <= index_count * size && 0 <= first_index * size) by (nonlinear_arith)
            requires
                0 <= i,
                i + 1 <= index_count,
                0 <= size,
                0 <= first_index,
        ;
        lemma_index(bytes, start + i * size, index_buffer.2);
    }
}

proof fn lemma_indices_written(
    resources: ResourcesView,
    updates: Seq<UpdateView>,
    table: TableView,
    state: DrawState,
    index_buffer: (BufferRef, u64, IndexFormat),
    first_index: u32,
    index_count: u32,
    base_vertex: i32,
)
    requires
        crate::ir_execute::draw::indexed_source(
            resources,
            updates,
            table,
            state,
            index_buffer,
            first_index,
            index_count,
            base_vertex,
        ) is Ok,
    ensures
        indices_written(updates, resources, index_buffer, first_index, index_count),
{
    let size = index_buffer.2.byte_size() as int;
    assert((first_index + index_count) * size == first_index * size + index_count * size)
        by (nonlinear_arith);
}

/// Every vertex of an indexed draw is the one that a draw of consecutive vertices has
/// at the index read for it plus the base vertex. Indices are read one after the other
/// from the first index on.
pub proof fn law_indices_select_vertices(
    resources: ResourcesView,
    updates: Seq<UpdateView>,
    table: TableView,
    state: DrawState,
    index_buffer: (BufferRef, u64, IndexFormat),
    first_index: u32,
    index_count: u32,
    base_vertex: i32,
    i: int,
    first_vertex: u32,
    vertex_count: u32,
)
    requires
        crate::ir_execute::draw::spec_decode_indexed(
            resources,
            updates,
            table,
            state,
            index_buffer,
            first_index,
            index_count,
            base_vertex,
        ) is Ok,
        0 <= i < index_count,
    ensures
        ({
            let vertices = crate::ir_execute::draw::spec_decode_indexed(
                resources,
                updates,
                table,
                state,
                index_buffer,
                first_index,
                index_count,
                base_vertex,
            )->Ok_0;
            let vertex = index_of(updates, resources, index_buffer, first_index + i) + base_vertex;
            &&& indices_written(updates, resources, index_buffer, first_index, index_count)
            &&& vertices.len() == index_count
            &&& 0 <= vertex
            &&& crate::ir_execute::draw::spec_decode_vertices(
                resources,
                updates,
                table,
                state,
                first_vertex,
                vertex_count,
            ) matches Ok(consecutive) ==> (first_vertex <= vertex < first_vertex + vertex_count
                ==> vertices[i] == consecutive[vertex - first_vertex])
        }),
{
    lemma_indices_written(
        resources,
        updates,
        table,
        state,
        index_buffer,
        first_index,
        index_count,
        base_vertex,
    );
    lemma_resolved(resources, updates, index_buffer, first_index, index_count, base_vertex);
    let indices = crate::ir_execute::draw::indexed_source(
        resources,
        updates,
        table,
        state,
        index_buffer,
        first_index,
        index_count,
        base_vertex,
    )->Ok_0.1;
    let vertex = index_of(updates, resources, index_buffer, first_index + i) + base_vertex;
    assert(indices[i] == vertex);
    let run = crate::ir_execute::draw::consecutive(first_vertex, vertex_count);
    if first_vertex <= vertex < first_vertex + vertex_count {
        assert(run[vertex - first_vertex] == vertex);
    }
}

/// An indexed draw whose indices count up from some number draws what a draw of
/// consecutive vertices from that number plus the base vertex on does, and fails as
/// that does.
pub proof fn law_counting_indices_draw_consecutive_vertices(
    resources: ResourcesView,
    updates: Seq<UpdateView>,
    table: TableView,
    state: DrawState,
    index_buffer: (BufferRef, u64, IndexFormat),
    first_index: u32,
    index_count: u32,
    base_vertex: i32,
    start: int,
)
    requires
        table.buffer(index_buffer.0) matches Ok(desc) && desc@.usage.allows(
            BufferUsage::INDEX_BIT,
        ),
        indices_written(updates, resources, index_buffer, first_index, index_count),
        forall|i: int|
            0 <= i < index_count ==> #[trigger] index_of(
                updates,
                resources,
                index_buffer,
                first_index + i,
            ) == start + i,
        0 <= start + base_vertex <= u32::MAX,
        index_count != 0,
        index_count % 3 == 0,
    ensures
        crate::ir_execute::draw::spec_decode_indexed(
            resources,
            updates,
            table,
            state,
            index_buffer,
            first_index,
            index_count,
            base_vertex,
        ) == crate::ir_execute::draw::spec_decode_vertices(
            resources,
            updates,
            table,
            state,
            (start + base_vertex) as u32,
            index_count,
        ),
{
    lemma_resolved(resources, updates, index_buffer, first_index, index_count, base_vertex);
    let bytes = crate::ir_execute::buffers::contents(updates, resources, index_buffer.0@.index)->0;
    let size = index_buffer.2.byte_size();
    let indices = crate::ir_execute::draw::resolved(
        bytes,
        index_buffer.1 + first_index * size,
        index_buffer.2,
        index_count,
        base_vertex,
    );
    let run = crate::ir_execute::draw::consecutive((start + base_vertex) as u32, index_count);
    assert forall|i: int| 0 <= i < index_count implies indices[i] == run[i] by {
        assert(indices[i] == index_of(updates, resources, index_buffer, first_index + i)
            + base_vertex);
    }
    assert(indices =~= run);
    assert(indices[0] == run[0]);
}

/// Single-precision numbers that an attribute holds.
pub open spec fn component_count(format: VertexFormat) -> int {
    match format {
        VertexFormat::Float32x2 => 2,
        VertexFormat::Float32x3 => 3,
        VertexFormat::Float32x4 => 4,
        VertexFormat::Unorm8x4 => 4,
        VertexFormat::Sint32 => 1,
    }
}

/// One component of an attribute of the record that starts at a byte: a stored number,
/// a byte over its greatest value, or what completes a vector to zeros and a final one.
pub open spec fn component(
    bytes: Seq<u8>,
    record: int,
    attribute: VertexAttribute,
    c: int,
) -> int {
    if c >= component_count(attribute.format) {
        if c == 3 {
            0x3f80_0000
        } else {
            0
        }
    } else if attribute.format is Unorm8x4 {
        (crate::ir::rounding::nearest(
            bytes[record + attribute.offset + c] as nat,
            255,
        ) as u32) as int
    } else {
        number_at(bytes, record + attribute.offset + 4 * c, 4)
    }
}

proof fn lemma_completed(
    bytes: Seq<u8>,
    start: int,
    end: int,
    attribute: VertexAttribute,
    values: Seq<u32>,
)
    requires
        0 <= start <= end <= bytes.len(),
        crate::ir_execute::decode::float_count(attribute.format) > 0,
        attribute.offset + 4 * crate::ir_execute::decode::float_count(attribute.format) <= end
            - start,
        values == crate::ir_execute::decode::completed(
            crate::ir_execute::decode::floats(
                bytes.subrange(start, end),
                attribute.offset as int,
                crate::ir_execute::decode::float_count(attribute.format),
            ),
        ),
    ensures
        values.len() == 4,
        forall|c: int| 0 <= c < 4 ==> #[trigger] values[c] == component(bytes, start, attribute, c),
{
    let record = bytes.subrange(start, end);
    assert forall|c: int| 0 <= c < 4 implies #[trigger] values[c] == component(
        bytes,
        start,
        attribute,
        c,
    ) by {
        if c < component_count(attribute.format) {
            let at = attribute.offset + 4 * c;
            lemma_four_bytes(bytes, start + at);
            assert(record[at] == bytes[start + at]);
            assert(record[at + 1] == bytes[start + at + 1]);
            assert(record[at + 2] == bytes[start + at + 2]);
            assert(record[at + 3] == bytes[start + at + 3]);
        }
    }
}

proof fn lemma_decoded_vertex(bytes: Seq<u8>, state: DrawState, index: int)
    requires
        crate::ir_execute::decode::spec_decode_vertex(
            bytes,
            state.offset,
            index,
            state.info,
        ) is Some,
    ensures
        ({
            let vertex = crate::ir_execute::decode::spec_decode_vertex(
                bytes,
                state.offset,
                index,
                state.info,
            )->0;
            let record = state.offset + index * state.info.stride;
            &&& 0 <= index
            &&& record + state.info.stride <= bytes.len()
            &&& vertex.position.len() == 4 && vertex.secondary.len() == 4
            &&& forall|c: int|
                0 <= c < 4 ==> #[trigger] vertex.position[c] == component(
                    bytes,
                    record,
                    state.info.position,
                    c,
                )
            &&& forall|c: int|
                0 <= c < 4 ==> #[trigger] vertex.secondary[c] == (if state.info.state.fragment
                    is Solid || state.info.secondary is None {
                    0x3f80_0000
                } else {
                    component(bytes, record, state.info.secondary->0, c)
                })
        }),
{
    let start = state.offset + index * state.info.stride;
    let end = start + state.info.stride;
    assert(0 <= index * state.info.stride) by (nonlinear_arith)
        requires
            0 <= index,
            0 <= state.info.stride,
    ;
    let record = bytes.subrange(start, end);
    let vertex = crate::ir_execute::decode::spec_decode_vertex(
        bytes,
        state.offset,
        index,
        state.info,
    )->0;
    lemma_completed(bytes, start, end, state.info.position, vertex.position);
    if !(state.info.state.fragment is Solid || state.info.secondary is None) {
        let attribute = state.info.secondary->0;
        if attribute.format is Unorm8x4 {
            assert forall|c: int| 0 <= c < 4 implies #[trigger] vertex.secondary[c] == component(
                bytes,
                start,
                attribute,
                c,
            ) by {
                assert(record[attribute.offset + c] == bytes[start + attribute.offset + c]);
            }
        } else {
            lemma_completed(bytes, start, end, attribute, vertex.secondary);
        }
    }
}

/// Every vertex of a draw of consecutive vertices holds the numbers of its own record,
/// records lie one stride apart from the bound offset on, and a solid color needs no
/// second input.
pub proof fn law_vertices_hold_their_bytes(
    resources: ResourcesView,
    updates: Seq<UpdateView>,
    table: TableView,
    state: DrawState,
    first_vertex: u32,
    vertex_count: u32,
    i: int,
)
    requires
        crate::ir_execute::draw::spec_decode_vertices(
            resources,
            updates,
            table,
            state,
            first_vertex,
            vertex_count,
        ) is Ok,
        0 <= i < vertex_count,
    ensures
        ({
            let vertices = crate::ir_execute::draw::spec_decode_vertices(
                resources,
                updates,
                table,
                state,
                first_vertex,
                vertex_count,
            )->Ok_0;
            let bytes = crate::ir_execute::buffers::contents(
                updates,
                resources,
                state.buffer@.index,
            )->0;
            let record = state.offset + (first_vertex + i) * state.info.stride;
            &&& vertices.len() == vertex_count
            &&& record + state.info.stride <= bytes.len()
            &&& vertices[i].position.len() == 4 && vertices[i].secondary.len() == 4
            &&& forall|c: int|
                0 <= c < 4 ==> #[trigger] vertices[i].position[c] == component(
                    bytes,
                    record,
                    state.info.position,
                    c,
                )
            &&& forall|c: int|
                0 <= c < 4 ==> #[trigger] vertices[i].secondary[c] == (
                if state.info.state.fragment is Solid || state.info.secondary is None {
                    0x3f80_0000
                } else {
                    component(bytes, record, state.info.secondary->0, c)
                })
        }),
{
    let bytes = crate::ir_execute::buffers::contents(
        updates,
        resources,
        state.buffer@.index,
    )->0;
    let run = crate::ir_execute::draw::consecutive(first_vertex, vertex_count);
    assert(run[i] == first_vertex + i);
    assert(crate::ir_execute::decode::spec_decode_vertex(
        bytes,
        state.offset,
        run[i],
        state.info,
    ) is Some);
    lemma_decoded_vertex(bytes, state, first_vertex + i);
}

} // verus!
