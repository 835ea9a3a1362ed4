//! Vertex types and the attribute layouts they describe to the GPU.
//!
//! Every component that the GPU reads as a 32-bit float is held here as the
//! IEEE-754 bit pattern of that `f32`, which is what a vertex buffer stores.
use vstd::prelude::*;

verus! {

/// The data type of one vertex attribute, as the vertex shader reads it.
#[derive(Clone, Copy, Debug, PartialEq, Eq, Structural)]
pub enum VertexFormat {
    /// Two 32-bit floats.
    Float32x2,
    /// Three 32-bit floats.
    Float32x3,
    /// Four 32-bit floats.
    Float32x4,
    /// One 32-bit unsigned integer.
    Uint32,
}

impl VertexFormat {
    /// The number of bytes an attribute of this format takes.
    pub open spec fn byte_size(self) -> nat {
        match self {
            VertexFormat::Float32x2 => 8,
            VertexFormat::Float32x3 => 12,
            VertexFormat::Float32x4 => 16,
            VertexFormat::Uint32 => 4,
        }
    }

    /// The number of bytes an attribute of this format takes.
    pub fn size(&self) -> (size: u64)
        ensures
            size == self.byte_size(),
    {
        match self {
            VertexFormat::Float32x2 => 8,
            VertexFormat::Float32x3 => 12,
            VertexFormat::Float32x4 => 16,
            VertexFormat::Uint32 => 4,
        }
    }
}

/// One attribute of a vertex: its format, its byte offset within the vertex and
/// the shader location it is bound to.
#[derive(Clone, Copy, Debug, PartialEq, Eq, Structural)]
pub struct VertexAttribute {
    pub format: VertexFormat,
    pub offset: u64,
    pub shader_location: u32,
}

/// The total number of bytes taken by attributes of the given formats.
pub open spec fn formats_size(formats: Seq<VertexFormat>) -> nat
    decreases formats.len(),
{
    if formats.len() == 0 {
        0
    } else {
        formats_size(formats.drop_last()) + formats.last().byte_size()
    }
}

/// `attrs` lays out attributes of the given formats one after the other, with
/// no gap, starting at byte 0, bound to consecutive shader locations starting
/// at `first_location`.
pub open spec fn is_layout_of(
    attrs: Seq<VertexAttribute>,
    formats: Seq<VertexFormat>,
    first_location: int,
) -> bool {
    &&& attrs.len() == formats.len()
    &&& forall|i: int|
        #![trigger attrs[i]]
        0 <= i < attrs.len() ==> {
            &&& attrs[i].format == formats[i]
            &&& attrs[i].offset == formats_size(formats.take(i))
            &&& attrs[i].shader_location == first_location + i
        }
}

/// The formats of one more attribute add its size.
pub proof fn lemma_formats_size_take(formats: Seq<VertexFormat>, i: int)
    requires
        0 <= i < formats.len(),
    ensures
        formats_size(formats.take(i + 1)) == formats_size(formats.take(i))
            + formats[i].byte_size(),
{
    assert(formats.take(i + 1).drop_last() =~= formats.take(i));
}

/// Attributes are at most 16 bytes each.
pub proof fn lemma_formats_size_bound(formats: Seq<VertexFormat>)
    ensures
        formats_size(formats) <= 16 * formats.len(),
    decreases formats.len(),
{
    if formats.len() > 0 {
        lemma_formats_size_bound(formats.drop_last());
    }
}

/// Lays out attributes of the given formats one after the other, bound to
/// consecutive shader locations from `first_location` on.
pub fn layout_attributes(formats: &Vec<VertexFormat>, first_location: u32) -> (attrs: Vec<
    VertexAttribute,
>)
    requires
        first_location + formats@.len() <= u32::MAX + 1,
    ensures
        is_layout_of(attrs@, formats@, first_location as int),
{
    let mut attrs: Vec<VertexAttribute> = Vec::new();
    let mut offset: u64 = 0;
    let mut i: usize = 0;
    while i < formats.len()
        invariant
            0 <= i <= formats@.len(),
            first_location + formats@.len() <= u32::MAX + 1,
            offset == formats_size(formats@.take(i as int)),
            is_layout_of(attrs@, formats@.take(i as int), first_location as int),
        decreases formats@.len() - i,
    {
        let format = formats[i];
        proof {
            lemma_formats_size_take(formats@, i as int);
            lemma_formats_size_bound(formats@.take(i as int + 1));
        }
        let attr = VertexAttribute {
            format,
            offset,
            shader_location: first_location + i as u32,
        };
        let ghost prev = attrs@;
        attrs.push(attr);
        offset = offset + format.size();
        i = i + 1;
        proof {
            let fs = formats@.take(i as int);
            assert forall|k: int| 0 <= k < attrs@.len() implies {
                &&& #[trigger] attrs@[k].format == fs[k]
                &&& attrs@[k].offset == formats_size(fs.take(k))
                &&& attrs@[k].shader_location == first_location + k
            } by {
                assert(fs.take(k) =~= formats@.take(k));
                if k < attrs@.len() - 1 {
                    assert(attrs@[k] == prev[k]);
                    assert(formats@.take(i - 1).take(k) =~= formats@.take(k));
                }
            }
        }
    }
    assert(formats@.take(formats@.len() as int) =~= formats@);
    attrs
}


/// A vertex type whose layout the GPU pipeline is told about.
pub trait Vertex {
    /// The formats of the attributes of this vertex, in memory order.
    spec fn attribute_formats() -> Seq<VertexFormat>;

    /// The number of 32-bit words one vertex takes.
    fn bit32_count() -> (count: u32)
        ensures
            4 * count == formats_size(Self::attribute_formats()),
    ;

    /// The number of attributes of this vertex.
    fn attribute_count() -> (count: usize)
        ensures
            count == Self::attribute_formats().len(),
    ;

    /// The attributes of this vertex, bound to consecutive shader locations
    /// starting at `offset`.
    fn vertex_attributes(offset: u32) -> (attrs: Vec<VertexAttribute>)
        requires
            offset + Self::attribute_formats().len() <= u32::MAX + 1,
        ensures
            is_layout_of(attrs@, Self::attribute_formats(), offset as int),
    ;
}

/// A vertex without attributes.
#[derive(Clone, Copy, Debug)]
pub struct VertexEmpty {}

impl Vertex for VertexEmpty {
    open spec fn attribute_formats() -> Seq<VertexFormat> {
        seq![]
    }

    fn bit32_count() -> (count: u32)
        ensures
            count == 0,
    {
        0
    }

    fn attribute_count() -> (count: usize) {
        0
    }

    fn vertex_attributes(_offset: u32) -> (attrs: Vec<VertexAttribute>) {
        Vec::new()
    }
}

/// A vertex with a position only.
#[derive(Clone, Copy, Debug)]
pub struct PosOnly {
    pub pos: [u32; 3],
}

impl Vertex for PosOnly {
    open spec fn attribute_formats() -> Seq<VertexFormat> {
        seq![VertexFormat::Float32x3]
    }

    fn bit32_count() -> (count: u32)
        ensures
            count == 3,
    {
        proof {
            reveal_with_fuel(formats_size, 2);
        }
        3
    }

    fn attribute_count() -> (count: usize) {
        1
    }

    fn vertex_attributes(offset: u32) -> (attrs: Vec<VertexAttribute>) {
        let formats = vec![VertexFormat::Float32x3];
        assert(formats@ =~= Self::attribute_formats());
        layout_attributes(&formats, offset)
    }
}

/// A vertex with a position and an RGBA color.
#[derive(Clone, Copy, Debug)]
pub struct PosColor {
    pub pos: [u32; 3],
    pub color: [u32; 4],
}

impl Vertex for PosColor {
    open spec fn attribute_formats() -> Seq<VertexFormat> {
        seq![VertexFormat::Float32x3, VertexFormat::Float32x4]
    }

    fn bit32_count() -> (count: u32)
        ensures
            count == 7,
    {
        proof {
            reveal_with_fuel(formats_size, 3);
            assert(Self::attribute_formats().drop_last() =~= seq![VertexFormat::Float32x3]);
        }
        7
    }

    fn attribute_count() -> (count: usize) {
        2
    }

    fn vertex_attributes(offset: u32) -> (attrs: Vec<VertexAttribute>) {
        let formats = vec![VertexFormat::Float32x3, VertexFormat::Float32x4];
        assert(formats@ =~= Self::attribute_formats());
        layout_attributes(&formats, offset)
    }
}


/// One `PosNormalUv` vertex takes 32 bytes.
pub proof fn lemma_pos_normal_uv_size()
    ensures
        formats_size(PosNormalUv::attribute_formats()) == 32,
{
    reveal_with_fuel(formats_size, 4);
    let fs = PosNormalUv::attribute_formats();
    assert(fs.drop_last() =~= seq![VertexFormat::Float32x3, VertexFormat::Float32x3]);
    assert(fs.drop_last().drop_last() =~= seq![VertexFormat::Float32x3]);
}

/// A vertex with a position, a normal and texture coordinates.
#[derive(Clone, Copy, Debug)]
pub struct PosNormalUv {
    pub pos: [u32; 3],
    pub normal: [u32; 3],
    pub uv: [u32; 2],
}

impl Vertex for PosNormalUv {
    open spec fn attribute_formats() -> Seq<VertexFormat> {
        seq![VertexFormat::Float32x3, VertexFormat::Float32x3, VertexFormat::Float32x2]
    }

    fn bit32_count() -> (count: u32)
        ensures
            count == 8,
    {
        proof {
            lemma_pos_normal_uv_size();
        }
        8
    }

    fn attribute_count() -> (count: usize) {
        3
    }

    fn vertex_attributes(offset: u32) -> (attrs: Vec<VertexAttribute>) {
        let formats = vec![VertexFormat::Float32x3, VertexFormat::Float32x3, VertexFormat::Float32x2];
        assert(formats@ =~= Self::attribute_formats());
        layout_attributes(&formats, offset)
    }
}

/// A vertex with a position, a normal, texture coordinates and an index.
#[derive(Clone, Copy, Debug)]
pub struct PosNormalUvIndex {
    pub pos: [u32; 3],
    pub normal: [u32; 3],
    pub uv: [u32; 2],
    pub index: u32,
}

impl Vertex for PosNormalUvIndex {
    open spec fn attribute_formats() -> Seq<VertexFormat> {
        seq![
            VertexFormat::Float32x3,
            VertexFormat::Float32x3,
            VertexFormat::Float32x2,
            VertexFormat::Uint32,
        ]
    }

    fn bit32_count() -> (count: u32)
        ensures
            count == 9,
    {
        proof {
            reveal_with_fuel(formats_size, 5);
            let fs = Self::attribute_formats();
            assert(fs.drop_last() =~= seq![
                VertexFormat::Float32x3,
                VertexFormat::Float32x3,
                VertexFormat::Float32x2,
            ]);
            assert(fs.drop_last().drop_last() =~= seq![
                VertexFormat::Float32x3,
                VertexFormat::Float32x3,
            ]);
            assert(fs.drop_last().drop_last().drop_last() =~= seq![VertexFormat::Float32x3]);
        }
        9
    }

    fn attribute_count() -> (count: usize) {
        4
    }

    fn vertex_attributes(offset: u32) -> (attrs: Vec<VertexAttribute>) {
        let formats = vec![
            VertexFormat::Float32x3,
            VertexFormat::Float32x3,
            VertexFormat::Float32x2,
            VertexFormat::Uint32,
        ];
        assert(formats@ =~= Self::attribute_formats());
        layout_attributes(&formats, offset)
    }
}

/// The vertex data of the transform tool: the color it is displayed with and the
/// color it is picked by, both stored in the vertex for convenience.
#[derive(Clone, Copy, Debug)]
pub struct ToolColor {
    pub display_color: [u32; 4],
    pub pick_color: [u32; 4],
}

impl Vertex for ToolColor {
    open spec fn attribute_formats() -> Seq<VertexFormat> {
        seq![VertexFormat::Float32x4, VertexFormat::Float32x4]
    }

    fn bit32_count() -> (count: u32)
        ensures
            count == 8,
    {
        proof {
            reveal_with_fuel(formats_size, 3);
            assert(Self::attribute_formats().drop_last() =~= seq![VertexFormat::Float32x4]);
        }
        8
    }

    fn attribute_count() -> (count: usize) {
        2
    }

    fn vertex_attributes(offset: u32) -> (attrs: Vec<VertexAttribute>) {
        let formats = vec![VertexFormat::Float32x4, VertexFormat::Float32x4];
        assert(formats@ =~= Self::attribute_formats());
        layout_attributes(&formats, offset)
    }
}

/// The attributes of a layout follow one another with neither gap nor overlap,
/// and the last one ends where the vertex ends.
/// Each attribute of a layout starts where the one before it ends.
proof fn lemma_layout_step(
    attrs: Seq<VertexAttribute>,
    formats: Seq<VertexFormat>,
    first_location: int,
    i: int,
)
    requires
        is_layout_of(attrs, formats, first_location),
        0 <= i < attrs.len() - 1,
    ensures
        attrs[i].offset + attrs[i].format.byte_size() == attrs[i + 1].offset,
{
    let a = attrs[i];
    let b = attrs[i + 1];
    assert(a.offset == formats_size(formats.take(i)) && a.format == formats[i]);
    assert(b.offset == formats_size(formats.take(i + 1)));
    lemma_formats_size_take(formats, i);
}

/// The first attribute of a layout starts at byte 0 and the last ends where
/// the formats end.
proof fn lemma_layout_ends(
    attrs: Seq<VertexAttribute>,
    formats: Seq<VertexFormat>,
    first_location: int,
)
    requires
        is_layout_of(attrs, formats, first_location),
        attrs.len() > 0,
    ensures
        attrs[0].offset == 0,
        attrs.last().offset + attrs.last().format.byte_size() == formats_size(formats),
{
    let n = attrs.len() - 1;
    let last = attrs[n];
    let first = attrs[0];
    assert(last.offset == formats_size(formats.take(n)) && last.format == formats[n]);
    assert(first.offset == formats_size(formats.take(0)));
    lemma_formats_size_take(formats, n);
    assert(formats.take(n + 1) =~= formats);
    assert(formats.take(0) =~= Seq::<VertexFormat>::empty());
}

/// The attributes of a layout follow one another with neither gap nor overlap,
/// and the last one ends where the vertex ends.
pub proof fn lemma_layout_is_packed(
    attrs: Seq<VertexAttribute>,
    formats: Seq<VertexFormat>,
    first_location: int,
)
    requires
        is_layout_of(attrs, formats, first_location),
    ensures
        forall|i: int, j: int|
            #![trigger attrs[i], attrs[j]]
            0 <= i && j == i + 1 && j < attrs.len() ==> attrs[i].offset
                + attrs[i].format.byte_size() == attrs[j].offset,
        attrs.len() > 0 ==> attrs.last().offset + attrs.last().format.byte_size()
            == formats_size(formats),
        attrs.len() > 0 ==> attrs[0].offset == 0,
{
    assert forall|i: int, j: int|
        #![trigger attrs[i], attrs[j]]
        0 <= i && j == i + 1 && j < attrs.len() implies attrs[i].offset
            + attrs[i].format.byte_size() == attrs[j].offset by {
        lemma_layout_step(attrs, formats, first_location, i);
    }
    if attrs.len() > 0 {
        lemma_layout_ends(attrs, formats, first_location);
    }
}

/// The shader locations of a layout are pairwise distinct.
pub proof fn lemma_layout_locations_distinct(
    attrs: Seq<VertexAttribute>,
    formats: Seq<VertexFormat>,
    first_location: int,
)
    requires
        is_layout_of(attrs, formats, first_location),
    ensures
        forall|i: int, j: int|
            0 <= i < attrs.len() && 0 <= j < attrs.len() && i != j ==> #[trigger] attrs[i].shader_location
                != #[trigger] attrs[j].shader_location,
{
}


/// For every vertex type, the attributes it describes cover its
/// `4 * bit32_count()` bytes exactly: the first starts at byte 0, each starts
/// where the previous one ends, and the last ends at the end of the vertex.
pub proof fn lemma_vertex_attributes_fill_vertex<V: Vertex>(
    attrs: Seq<VertexAttribute>,
    first_location: int,
    count: u32,
)
    requires
        is_layout_of(attrs, V::attribute_formats(), first_location),
        4 * count == formats_size(V::attribute_formats()),
    ensures
        attrs.len() > 0 ==> attrs[0].offset == 0,
        forall|i: int, j: int|
            #![trigger attrs[i], attrs[j]]
            0 <= i && j == i + 1 && j < attrs.len() ==> attrs[i].offset
                + attrs[i].format.byte_size() == attrs[j].offset,
        attrs.len() > 0 ==> attrs.last().offset + attrs.last().format.byte_size() == 4 * count,
        attrs.len() == 0 ==> count == 0,
{
    lemma_layout_is_packed(attrs, V::attribute_formats(), first_location);
}

/// The attributes of `PosOnly`, spelled out: formats, byte offsets and shader
/// locations.
pub proof fn lemma_pos_only_layout(attrs: Seq<VertexAttribute>, first_location: int)
    requires
        is_layout_of(attrs, PosOnly::attribute_formats(), first_location),
        first_location + 1 <= u32::MAX + 1,
        0 <= first_location,
    ensures
        attrs.len() == 1,
        attrs[0] == (VertexAttribute {
            format: VertexFormat::Float32x3,
            offset: 0,
            shader_location: (first_location + 0) as u32,
        }),
{
    reveal_with_fuel(formats_size, 2);
    let fs = PosOnly::attribute_formats();
    assert(fs.take(0) =~= seq![]);
}

/// The attributes of `PosColor`, spelled out: formats, byte offsets and shader
/// locations.
pub proof fn lemma_pos_color_layout(attrs: Seq<VertexAttribute>, first_location: int)
    requires
        is_layout_of(attrs, PosColor::attribute_formats(), first_location),
        first_location + 2 <= u32::MAX + 1,
        0 <= first_location,
    ensures
        attrs.len() == 2,
        attrs[0] == (VertexAttribute {
            format: VertexFormat::Float32x3,
            offset: 0,
            shader_location: (first_location + 0) as u32,
        }),
        attrs[1] == (VertexAttribute {
            format: VertexFormat::Float32x4,
            offset: 12,
            shader_location: (first_location + 1) as u32,
        }),
{
    reveal_with_fuel(formats_size, 3);
    let fs = PosColor::attribute_formats();
    assert(fs.take(0) =~= seq![]);
    assert(fs.take(1) =~= seq![VertexFormat::Float32x3]);
    assert(fs.take(1).drop_last() =~= seq![]);
}

/// The attributes of `PosNormalUv`, spelled out: formats, byte offsets and shader
/// locations.
pub proof fn lemma_pos_normal_uv_layout(attrs: Seq<VertexAttribute>, first_location: int)
    requires
        is_layout_of(attrs, PosNormalUv::attribute_formats(), first_location),
        first_location + 3 <= u32::MAX + 1,
        0 <= first_location,
    ensures
        attrs.len() == 3,
        attrs[0] == (VertexAttribute {
            format: VertexFormat::Float32x3,
            offset: 0,
            shader_location: (first_location + 0) as u32,
        }),
        attrs[1] == (VertexAttribute {
            format: VertexFormat::Float32x3,
            offset: 12,
            shader_location: (first_location + 1) as u32,
        }),
        attrs[2] == (VertexAttribute {
            format: VertexFormat::Float32x2,
            offset: 24,
            shader_location: (first_location + 2) as u32,
        }),
{
    reveal_with_fuel(formats_size, 4);
    let fs = PosNormalUv::attribute_formats();
    assert(fs.take(0) =~= seq![]);
    assert(fs.take(1) =~= seq![VertexFormat::Float32x3]);
    assert(fs.take(1).drop_last() =~= seq![]);
    assert(fs.take(2) =~= seq![VertexFormat::Float32x3, VertexFormat::Float32x3]);
    assert(fs.take(2).drop_last() =~= seq![VertexFormat::Float32x3]);
    assert(fs.take(2).drop_last().drop_last() =~= seq![]);
}

/// The attributes of `PosNormalUvIndex`, spelled out: formats, byte offsets and shader
/// locations.
pub proof fn lemma_pos_normal_uv_index_layout(attrs: Seq<VertexAttribute>, first_location: int)
    requires
        is_layout_of(attrs, PosNormalUvIndex::attribute_formats(), first_location),
        first_location + 4 <= u32::MAX + 1,
        0 <= first_location,
    ensures
        attrs.len() == 4,
        attrs[0] == (VertexAttribute {
            format: VertexFormat::Float32x3,
            offset: 0,
            shader_location: (first_location + 0) as u32,
        }),
        attrs[1] == (VertexAttribute {
            format: VertexFormat::Float32x3,
            offset: 12,
            shader_location: (first_location + 1) as u32,
        }),
        attrs[2] == (VertexAttribute {
            format: VertexFormat::Float32x2,
            offset: 24,
            shader_location: (first_location + 2) as u32,
        }),
        attrs[3] == (VertexAttribute {
            format: VertexFormat::Uint32,
            offset: 32,
            shader_location: (first_location + 3) as u32,
        }),
{
    reveal_with_fuel(formats_size, 5);
    let fs = PosNormalUvIndex::attribute_formats();
    assert(fs.take(0) =~= seq![]);
    assert(fs.take(1) =~= seq![VertexFormat::Float32x3]);
    assert(fs.take(1).drop_last() =~= seq![]);
    assert(fs.take(2) =~= seq![VertexFormat::Float32x3, VertexFormat::Float32x3]);
    assert(fs.take(2).drop_last() =~= seq![VertexFormat::Float32x3]);
    assert(fs.take(2).drop_last().drop_last() =~= seq![]);
    assert(fs.take(3) =~= seq![VertexFormat::Float32x3, VertexFormat::Float32x3, VertexFormat::Float32x2]);
    assert(fs.take(3).drop_last() =~= seq![VertexFormat::Float32x3, VertexFormat::Float32x3]);
    assert(fs.take(3).drop_last().drop_last() =~= seq![VertexFormat::Float32x3]);
    assert(fs.take(3).drop_last().drop_last().drop_last() =~= seq![]);
}

/// The attributes of `ToolColor`, spelled out: formats, byte offsets and shader
/// locations.
pub proof fn lemma_tool_color_layout(attrs: Seq<VertexAttribute>, first_location: int)
    requires
        is_layout_of(attrs, ToolColor::attribute_formats(), first_location),
        first_location + 2 <= u32::MAX + 1,
        0 <= first_location,
    ensures
        attrs.len() == 2,
        attrs[0] == (VertexAttribute {
            format: VertexFormat::Float32x4,
            offset: 0,
            shader_location: (first_location + 0) as u32,
        }),
        attrs[1] == (VertexAttribute {
            format: VertexFormat::Float32x4,
            offset: 16,
            shader_location: (first_location + 1) as u32,
        }),
{
    reveal_with_fuel(formats_size, 3);
    let fs = ToolColor::attribute_formats();
    assert(fs.take(0) =~= seq![]);
    assert(fs.take(1) =~= seq![VertexFormat::Float32x4]);
    assert(fs.take(1).drop_last() =~= seq![]);
}

} // verus!
