use vstd::prelude::*;
use crate::vertex::{
    is_packed, lemma_packed_size_step, packed_size, tiles, vertex_attr_array, VertexAttribute,
    VertexBufferLayout, VertexFormat, VertexStepMode,
};

verus! {

/// Bytes of the model matrix in a transform record: four columns of four
/// 32-bit floats.
pub const MODEL_BYTES: u64 = 64;

/// Bytes of the normal matrix in a transform record: three columns of three
/// 32-bit floats.
pub const NORMAL_BYTES: u64 = 36;

/// Bytes of one transform record.
pub const RECORD_BYTES: u64 = 100;

/// The shader input fed by the first column of the model matrix; the other
/// columns follow in order, then the columns of the normal matrix.
pub const FIRST_INSTANCE_LOCATION: u32 = 3;

/// The columns of a transform record in order: the four columns of the model
/// matrix, then the three columns of the normal matrix, each with the shader
/// input it feeds.
pub open spec fn record_columns() -> Seq<(u32, VertexFormat)> {
    seq![
        (3u32, VertexFormat::Float32x4),
        (4u32, VertexFormat::Float32x4),
        (5u32, VertexFormat::Float32x4),
        (6u32, VertexFormat::Float32x4),
        (7u32, VertexFormat::Float32x3),
        (8u32, VertexFormat::Float32x3),
        (9u32, VertexFormat::Float32x3),
    ]
}

/// The attributes of a transform record, written out.
pub open spec fn record_attributes() -> Seq<VertexAttribute> {
    seq![
        VertexAttribute { format: VertexFormat::Float32x4, offset: 0, shader_location: 3 },
        VertexAttribute { format: VertexFormat::Float32x4, offset: 16, shader_location: 4 },
        VertexAttribute { format: VertexFormat::Float32x4, offset: 32, shader_location: 5 },
        VertexAttribute { format: VertexFormat::Float32x4, offset: 48, shader_location: 6 },
        VertexAttribute { format: VertexFormat::Float32x3, offset: 64, shader_location: 7 },
        VertexAttribute { format: VertexFormat::Float32x3, offset: 76, shader_location: 8 },
        VertexAttribute { format: VertexFormat::Float32x3, offset: 88, shader_location: 9 },
    ]
}

/// The sizes of the prefixes of a transform record.
proof fn lemma_record_prefix_sizes()
    ensures
        packed_size(record_columns().take(0)) == 0,
        packed_size(record_columns().take(1)) == 16,
        packed_size(record_columns().take(2)) == 32,
        packed_size(record_columns().take(3)) == 48,
        packed_size(record_columns().take(4)) == 64,
        packed_size(record_columns().take(5)) == 76,
        packed_size(record_columns().take(6)) == 88,
        packed_size(record_columns()) == 100,
{
    let c = record_columns();
    assert(c.take(0).len() == 0);
    lemma_packed_size_step(c, 0);
    lemma_packed_size_step(c, 1);
    lemma_packed_size_step(c, 2);
    lemma_packed_size_step(c, 3);
    lemma_packed_size_step(c, 4);
    lemma_packed_size_step(c, 5);
    lemma_packed_size_step(c, 6);
    assert(c.take(7) =~= c);
}

/// The vertex-stream layout of the transform records: one record per
/// instance, the model matrix in the first 64 bytes as four columns, the
/// normal matrix in the 36 bytes after it as three columns, feeding shader
/// inputs 3 to 9.
pub fn desc() -> (layout: VertexBufferLayout)
    ensures
        layout.array_stride == RECORD_BYTES,
        layout.step_mode == VertexStepMode::Instance,
        layout.attributes@ == record_attributes(),
        is_packed(layout.attributes@, record_columns()),
        tiles(layout.attributes@, RECORD_BYTES as nat),
{
    let mut columns: Vec<(u32, VertexFormat)> = Vec::new();
    columns.push((FIRST_INSTANCE_LOCATION, VertexFormat::Float32x4));
    columns.push((FIRST_INSTANCE_LOCATION + 1, VertexFormat::Float32x4));
    columns.push((FIRST_INSTANCE_LOCATION + 2, VertexFormat::Float32x4));
    columns.push((FIRST_INSTANCE_LOCATION + 3, VertexFormat::Float32x4));
    columns.push((FIRST_INSTANCE_LOCATION + 4, VertexFormat::Float32x3));
    columns.push((FIRST_INSTANCE_LOCATION + 5, VertexFormat::Float32x3));
    columns.push((FIRST_INSTANCE_LOCATION + 6, VertexFormat::Float32x3));
    proof {
        assert(columns@ =~= record_columns());
        lemma_record_prefix_sizes();
    }
    let attributes = vertex_attr_array(&columns);
    proof {
        assert(attributes@[0] == record_attributes()[0]);
        assert(attributes@[1] == record_attributes()[1]);
        assert(attributes@[2] == record_attributes()[2]);
        assert(attributes@[3] == record_attributes()[3]);
        assert(attributes@[4] == record_attributes()[4]);
        assert(attributes@[5] == record_attributes()[5]);
        assert(attributes@[6] == record_attributes()[6]);
        assert(attributes@ =~= record_attributes());
    }
    VertexBufferLayout {
        array_stride: MODEL_BYTES + NORMAL_BYTES,
        step_mode: VertexStepMode::Instance,
        attributes,
    }
}

/// The upper-left 3x3 block of a 4x4 matrix given by its columns.
pub fn mat4_to_mat3<T: Copy>(mat: [[T; 4]; 4]) -> (block: [[T; 3]; 3])
    ensures
        forall|c: int, r: int| 0 <= c < 3 && 0 <= r < 3 ==> block@[c]@[r] == mat@[c]@[r],
{
    [
        [mat[0][0], mat[0][1], mat[0][2]],
        [mat[1][0], mat[1][1], mat[1][2]],
        [mat[2][0], mat[2][1], mat[2][2]],
    ]
}

} // verus!
