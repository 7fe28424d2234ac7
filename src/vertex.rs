//! Vertex formats and the sources of the vertices of a draw.
use vstd::prelude::*;

verus! {

/// The type of a vertex attribute.
#[derive(Clone, Copy, Debug, PartialEq, Eq, Structural)]
pub enum AttributeType {
    I8,
    I8I8,
    I8I8I8,
    I8I8I8I8,
    U8,
    U8U8,
    U8U8U8,
    U8U8U8U8,
    I16,
    I16I16,
    I16I16I16,
    I16I16I16I16,
    U16,
    U16U16,
    U16U16U16,
    U16U16U16U16,
    I32,
    I32I32,
    I32I32I32,
    I32I32I32I32,
    U32,
    U32U32,
    U32U32U32,
    U32U32U32U32,
    F32,
    F32F32,
    F32F32F32,
    F32F32F32F32,
    F32x2x2,
    F32x3x3,
    F32x4x4,
}

/// The attributes of a vertex: each with its name, its offset in bytes and its type.
pub type VertexFormat = Vec<(String, usize, AttributeType)>;

/// A vertex buffer, by its native name and its number of vertices.
#[derive(Clone, Copy, Debug, PartialEq, Eq, Structural)]
pub struct VertexBufferAny {
    pub id: u32,
    pub len: usize,
}

/// A range of the vertices of a buffer.
#[derive(Clone, Copy, Debug)]
pub struct VertexBufferAnySlice<'a> {
    pub buffer: &'a VertexBufferAny,
    pub offset: usize,
    pub len: usize,
}

/// Describes the source to use for the vertices when drawing.
#[derive(Clone, Copy, Debug)]
pub enum VerticesSource<'a> {
    /// A buffer, the offset and the number of the vertices used, and whether the buffer is
    /// read once per instance (`true`) or once per vertex (`false`).
    VertexBuffer(&'a VertexBufferAny, usize, usize, bool),
}

/// Objects that can be used as vertex sources.
pub trait IntoVerticesSource<'a> {
    /// The source that this object describes.
    spec fn vertices_source(&self) -> VerticesSource<'a>;

    /// Builds the `VerticesSource`.
    fn into_vertices_source(self) -> (r: VerticesSource<'a>)
        ensures
            r == self.vertices_source(),
    ;
}

impl<'a> IntoVerticesSource<'a> for VerticesSource<'a> {
    open spec fn vertices_source(&self) -> VerticesSource<'a> {
        *self
    }

    fn into_vertices_source(self) -> (r: VerticesSource<'a>) {
        self
    }
}

impl<'a> IntoVerticesSource<'a> for &'a VertexBufferAny {
    open spec fn vertices_source(&self) -> VerticesSource<'a> {
        VerticesSource::VertexBuffer(*self, 0, self.len, false)
    }

    fn into_vertices_source(self) -> (r: VerticesSource<'a>) {
        VerticesSource::VertexBuffer(self, 0, self.len, false)
    }
}

impl<'a> IntoVerticesSource<'a> for VertexBufferAnySlice<'a> {
    open spec fn vertices_source(&self) -> VerticesSource<'a> {
        VerticesSource::VertexBuffer(self.buffer, self.offset, self.len, false)
    }

    fn into_vertices_source(self) -> (r: VerticesSource<'a>) {
        VerticesSource::VertexBuffer(self.buffer, self.offset, self.len, false)
    }
}

/// Marker that has the vertices of a slice read once per instance.
#[derive(Clone, Copy, Debug)]
pub struct PerInstance<'a>(pub VertexBufferAnySlice<'a>);

impl<'a> IntoVerticesSource<'a> for PerInstance<'a> {
    open spec fn vertices_source(&self) -> VerticesSource<'a> {
        VerticesSource::VertexBuffer(self.0.buffer, self.0.offset, self.0.len, true)
    }

    fn into_vertices_source(self) -> (r: VerticesSource<'a>) {
        match self.0.into_vertices_source() {
            VerticesSource::VertexBuffer(buf, off, len, _) => VerticesSource::VertexBuffer(buf, off, len, true),
        }
    }
}

/// Objects that describe one or more vertex sources.
pub trait MultiVerticesSource<'a> {
    /// The sources, in order.
    spec fn sources(&self) -> Seq<VerticesSource<'a>>;

    /// Lists the sources, in order.
    fn iter(self) -> (r: Vec<VerticesSource<'a>>)
        ensures
            r@ == self.sources(),
    ;
}

impl<'a, T: IntoVerticesSource<'a>> MultiVerticesSource<'a> for T {
    open spec fn sources(&self) -> Seq<VerticesSource<'a>> {
        seq![self.vertices_source()]
    }

    fn iter(self) -> (r: Vec<VerticesSource<'a>>) {
        let r = vec![self.into_vertices_source()];
        assert(r@ =~= seq![self.vertices_source()]);
        r
    }
}

impl<'a, A: IntoVerticesSource<'a>, B: IntoVerticesSource<'a>> MultiVerticesSource<'a> for (A, B) {
    open spec fn sources(&self) -> Seq<VerticesSource<'a>> {
        seq![self.0.vertices_source(), self.1.vertices_source()]
    }

    fn iter(self) -> (r: Vec<VerticesSource<'a>>) {
        let (a, b) = self;
        let r = vec![a.into_vertices_source(), b.into_vertices_source()];
        assert(r@ =~= self.sources());
        r
    }
}

impl<
    'a,
    A: IntoVerticesSource<'a>,
    B: IntoVerticesSource<'a>,
    C: IntoVerticesSource<'a>,
> MultiVerticesSource<'a> for (A, B, C) {
    open spec fn sources(&self) -> Seq<VerticesSource<'a>> {
        seq![self.0.vertices_source(), self.1.vertices_source(), self.2.vertices_source()]
    }

    fn iter(self) -> (r: Vec<VerticesSource<'a>>) {
        let (a, b, c) = self;
        let r = vec![a.into_vertices_source(), b.into_vertices_source(), c.into_vertices_source()];
        assert(r@ =~= self.sources());
        r
    }
}

/// Types that represent a vertex.
pub trait Vertex: Copy + Sized {
    /// Builds the `VertexFormat` representing the layout of this element.
    fn build_bindings() -> VertexFormat;
}

/// Types that can be used as vertex attributes.
pub trait Attribute: Sized {
    /// The type of the data.
    spec fn attribute_type() -> AttributeType;

    /// Gets the type of the data.
    fn get_type() -> (r: AttributeType)
        ensures
            r == Self::attribute_type(),
    ;
}

impl Attribute for i8 {
    open spec fn attribute_type() -> AttributeType {
        AttributeType::I8
    }

    fn get_type() -> (r: AttributeType) {
        AttributeType::I8
    }
}

impl Attribute for u8 {
    open spec fn attribute_type() -> AttributeType {
        AttributeType::U8
    }

    fn get_type() -> (r: AttributeType) {
        AttributeType::U8
    }
}

impl Attribute for i16 {
    open spec fn attribute_type() -> AttributeType {
        AttributeType::I16
    }

    fn get_type() -> (r: AttributeType) {
        AttributeType::I16
    }
}

impl Attribute for u16 {
    open spec fn attribute_type() -> AttributeType {
        AttributeType::U16
    }

    fn get_type() -> (r: AttributeType) {
        AttributeType::U16
    }
}

impl Attribute for i32 {
    open spec fn attribute_type() -> AttributeType {
        AttributeType::I32
    }

    fn get_type() -> (r: AttributeType) {
        AttributeType::I32
    }
}

impl Attribute for u32 {
    open spec fn attribute_type() -> AttributeType {
        AttributeType::U32
    }

    fn get_type() -> (r: AttributeType) {
        AttributeType::U32
    }
}

} // verus!
