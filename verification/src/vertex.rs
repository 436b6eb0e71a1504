use vstd::prelude::*;

verus! {

/// The formats of the vertex attributes that the scene uses.
#[derive(Clone, Copy, Debug, PartialEq, Eq, Structural)]
pub enum VertexFormat {
    /// Two 32-bit floats.
    Float32x2,
    /// Three 32-bit floats.
    Float32x3,
    /// Four 32-bit floats.
    Float32x4,
}

/// Whether a vertex stream advances per vertex or per instance.
#[derive(Clone, Copy, Debug, PartialEq, Eq, Structural)]
pub enum VertexStepMode {
    Vertex,
    Instance,
}

/// One attribute of a vertex stream: what it holds, where in the record it
/// starts, and the shader input it feeds.
#[derive(Clone, Copy, Debug, PartialEq, Eq, Structural)]
pub struct VertexAttribute {
    pub format: VertexFormat,
    pub offset: u64,
    pub shader_location: u32,
}

/// The layout of one vertex stream.
#[derive(Clone, Debug)]
pub struct VertexBufferLayout {
    /// Bytes from one record to the next.
    pub array_stride: u64,
    pub step_mode: VertexStepMode,
    pub attributes: Vec<VertexAttribute>,
}

impl VertexFormat {
    /// Bytes that a value of this format takes.
    pub open spec fn spec_size(self) -> nat {
        match self {
            VertexFormat::Float32x2 => 8,
            VertexFormat::Float32x3 => 12,
            VertexFormat::Float32x4 => 16,
        }
    }

    /// Bytes that a value of this format takes.
    pub fn size(&self) -> (n: u64)
        ensures
            n == self.spec_size(),
    {
        match self {
            VertexFormat::Float32x2 => 8,
            VertexFormat::Float32x3 => 12,
            VertexFormat::Float32x4 => 16,
        }
    }
}

impl VertexAttribute {
    /// The first byte after this attribute.
    pub open spec fn end(self) -> nat {
        self.offset as nat + self.format.spec_size()
    }
}

/// Bytes taken by values of the given formats laid out back to back.
pub open spec fn packed_size(entries: Seq<(u32, VertexFormat)>) -> nat
    decreases entries.len(),
{
    if entries.len() == 0 {
        0
    } else {
        packed_size(entries.drop_last()) + entries.last().1.spec_size()
    }
}

/// Whether `attributes` are `entries` laid out back to back from offset 0:
/// attribute `i` has the location and format of entry `i` and starts where
/// the entries before it end.
pub open spec fn is_packed(attributes: Seq<VertexAttribute>, entries: Seq<(u32, VertexFormat)>) -> bool {
    &&& attributes.len() == entries.len()
    &&& forall|i: int|
        0 <= i < entries.len() ==> (#[trigger] attributes[i]) == (VertexAttribute {
            format: entries[i].1,
            offset: packed_size(entries.take(i)) as u64,
            shader_location: entries[i].0,
        }) && packed_size(entries.take(i)) <= u64::MAX
}

/// Whether `attributes` cover the bytes `0..stride` exactly, in order and
/// without gap or overlap.
pub open spec fn tiles(attributes: Seq<VertexAttribute>, stride: nat) -> bool {
    &&& attributes.len() == 0 ==> stride == 0
    &&& attributes.len() > 0 ==> attributes[0].offset == 0 && attributes.last().end() == stride
    &&& forall|i: int|
        0 < i < attributes.len() ==> (#[trigger] attributes[i]).offset == attributes[i - 1].end()
}

/// Adding an entry adds its size.
pub proof fn lemma_packed_size_step(entries: Seq<(u32, VertexFormat)>, i: int)
    requires
        0 <= i < entries.len(),
    ensures
        packed_size(entries.take(i + 1)) == packed_size(entries.take(i)) + entries[i].1.spec_size(),
{
    assert(entries.take(i + 1).drop_last() =~= entries.take(i));
    assert(entries.take(i + 1).last() == entries[i]);
}

/// A prefix takes no more bytes than the whole.
pub proof fn lemma_packed_size_bounds(entries: Seq<(u32, VertexFormat)>, i: int)
    requires
        0 <= i <= entries.len(),
    ensures
        packed_size(entries.take(i)) <= packed_size(entries),
    decreases entries.len(),
{
    if i == entries.len() {
        assert(entries.take(i) =~= entries);
    } else {
        lemma_packed_size_bounds(entries.drop_last(), i);
        assert(entries.drop_last().take(i) =~= entries.take(i));
    }
}

/// Lays attributes out back to back: each `(location, format)` entry becomes
/// an attribute that starts where the one before it ends, the first at
/// offset 0.
pub fn vertex_attr_array(entries: &Vec<(u32, VertexFormat)>) -> (attributes: Vec<VertexAttribute>)
    requires
        packed_size(entries@) <= u64::MAX,
    ensures
        is_packed(attributes@, entries@),
        tiles(attributes@, packed_size(entries@)),
{
    let mut attributes: Vec<VertexAttribute> = Vec::new();
    let mut offset: u64 = 0;
    let mut i: usize = 0;
    while i < entries.len()
        invariant
            i <= entries.len(),
            packed_size(entries@) <= u64::MAX,
            offset == packed_size(entries@.take(i as int)),
            is_packed(attributes@, entries@.take(i as int)),
            tiles(attributes@, offset as nat),
        decreases entries.len() - i,
    {
        let (shader_location, format) = entries[i];
        let ghost before = attributes@;
        proof {
            lemma_packed_size_step(entries@, i as int);
            lemma_packed_size_bounds(entries@, i as int + 1);
        }
        attributes.push(VertexAttribute { format, offset, shader_location });
        offset = offset + format.size();
        i += 1;
        proof {
            let prefix = entries@.take(i as int);
            assert forall|j: int| 0 <= j < prefix.len() implies (#[trigger] attributes@[j]) == (
            VertexAttribute {
                format: prefix[j].1,
                offset: packed_size(prefix.take(j)) as u64,
                shader_location: prefix[j].0,
            }) && packed_size(prefix.take(j)) <= u64::MAX by {
                assert(prefix.take(j) =~= entries@.take(j));
                if j < i - 1 {
                    assert(entries@.take(i - 1).take(j) =~= entries@.take(j));
                    assert(attributes@[j] == before[j]);
                } else {
                    lemma_packed_size_bounds(entries@, j);
                }
            }
            assert forall|j: int| 0 < j < attributes@.len() implies (#[trigger] attributes@[j]).offset
                == attributes@[j - 1].end() by {
                if j < i - 1 {
                    assert(attributes@[j] == before[j]);
                    assert(attributes@[j - 1] == before[j - 1]);
                } else {
                    assert(attributes@[j - 1] == before.last());
                }
            }
        }
    }
    proof {
        assert(entries@.take(i as int) =~= entries@);
    }
    attributes
}

} // verus!
