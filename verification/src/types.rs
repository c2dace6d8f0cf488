//! The plain types that describe buffer contents and drawing.
use vstd::prelude::*;

verus! {

/// The type of an element in a buffer.
///
/// This deliberately has no default.
#[derive(Debug, Clone, Copy, PartialEq, Eq, Structural)]
pub enum BufferElementType {
    /// 32-bit floating point
    Float32,
    /// 16-bit floating point
    Float16,
    /// Signed 8-bit integers
    SInt8,
    /// Signed 16-bit integers
    SInt16,
    /// Signed 32-bit integers
    SInt32,
    /// Unsigned 8-bit integers
    UInt8,
    /// Unsigned 16-bit integers
    UInt16,
    /// Unsigned 32-bit integers
    UInt32,
}

impl BufferElementType {
    /// The integer type of the given signedness and width in bits.
    pub open spec fn spec_new_int(signed: bool, bits: usize) -> Self {
        if bits == 8 {
            if signed {
                Self::SInt8
            } else {
                Self::UInt8
            }
        } else if bits == 16 {
            if signed {
                Self::SInt16
            } else {
                Self::UInt16
            }
        } else {
            if signed {
                Self::SInt32
            } else {
                Self::UInt32
            }
        }
    }

    /// The number of bytes that one element of the type takes.
    pub open spec fn spec_byte_length(self) -> u32 {
        match self {
            Self::Float32 => 4,
            Self::Float16 => 2,
            Self::SInt8 => 1,
            Self::SInt16 => 2,
            Self::SInt32 => 4,
            Self::UInt8 => 1,
            Self::UInt16 => 2,
            Self::UInt32 => 4,
        }
    }

    /// Whether the type is an unsigned integer, the only kind that can be
    /// an index.
    pub open spec fn spec_is_unsigned_int(self) -> bool {
        self == Self::UInt8 || self == Self::UInt16 || self == Self::UInt32
    }

    /// Create a 16-bit float type
    pub fn float16() -> (t: Self)
        ensures
            t == Self::Float16,
    {
        Self::Float16
    }

    /// Create a 32-bit float type
    pub fn float32() -> (t: Self)
        ensures
            t == Self::Float32,
    {
        Self::Float32
    }

    /// Create a signed or unsigned integer type of 8, 16 or 32 bits
    pub fn new_int(signed: bool, bits: usize) -> (t: Self)
        requires
            bits == 8 || bits == 16 || bits == 32,
        ensures
            t == Self::spec_new_int(signed, bits),
    {
        if bits == 8 {
            if signed {
                Self::SInt8
            } else {
                Self::UInt8
            }
        } else if bits == 16 {
            if signed {
                Self::SInt16
            } else {
                Self::UInt16
            }
        } else {
            if signed {
                Self::SInt32
            } else {
                Self::UInt32
            }
        }
    }

    /// Get the length in bytes of the element type
    pub fn byte_length(self) -> (n: u32)
        ensures
            n == self.spec_byte_length(),
            1 <= n <= 4,
    {
        match self {
            Self::Float32 => 4,
            Self::Float16 => 2,
            Self::SInt8 => 1,
            Self::SInt16 => 2,
            Self::SInt32 => 4,
            Self::UInt8 => 1,
            Self::UInt16 => 2,
            Self::UInt32 => 4,
        }
    }

    /// Return true if the type is an unsigned integer of 8, 16 or 32 bits
    pub fn is_unsigned_int(self) -> (b: bool)
        ensures
            b == self.spec_is_unsigned_int(),
    {
        match self {
            Self::UInt8 => true,
            Self::UInt16 => true,
            Self::UInt32 => true,
            _ => false,
        }
    }
}

/// A possible vertex attribute that can be used by a renderer; a vertex
/// always has a position attribute, but additional attributes may or may
/// not be provided by a model.
///
/// The attributes are ordered as they are declared.
#[derive(Debug, Clone, Copy, PartialOrd, Ord, PartialEq, Eq, Structural)]
pub enum VertexAttr {
    /// Position (3xf32) of the point
    Position,
    /// Normal (3xf32) at the point
    Normal,
    /// Color at the point (4xf32)
    Color,
    /// Tangent at the point (4xf32?)
    Tangent,
    /// A set of joints (n x int)
    Joints,
    /// Weights (n x f16?) to apply to each bone\[joint\[i\]\]
    Weights,
    /// Texture coordinates (2 x f32)
    TexCoords0,
    /// Texture coordinates (2 x f32)
    TexCoords1,
    /// Texture coordinates (2 x f32)
    TexCoords2,
}

impl VertexAttr {
    /// The place of the attribute in the order of the attributes, from 0.
    pub open spec fn spec_ordinal(self) -> u8 {
        match self {
            Self::Position => 0,
            Self::Normal => 1,
            Self::Color => 2,
            Self::Tangent => 3,
            Self::Joints => 4,
            Self::Weights => 5,
            Self::TexCoords0 => 6,
            Self::TexCoords1 => 7,
            Self::TexCoords2 => 8,
        }
    }

    /// Get the place of the attribute in the order of the attributes
    pub fn ordinal(self) -> (n: u8)
        ensures
            n == self.spec_ordinal(),
            n <= 8,
    {
        match self {
            Self::Position => 0,
            Self::Normal => 1,
            Self::Color => 2,
            Self::Tangent => 3,
            Self::Joints => 4,
            Self::Weights => 5,
            Self::TexCoords0 => 6,
            Self::TexCoords1 => 7,
            Self::TexCoords2 => 8,
        }
    }

    /// Two attributes with the same place in the order are the same
    /// attribute.
    pub proof fn lemma_ordinal_injective(a: Self, b: Self)
        requires
            a.spec_ordinal() == b.spec_ordinal(),
        ensures
            a == b,
    {
    }
}

/// A descriptor of the contents of one aspect of data for a vertex; in
/// essence a 'field' of a vertex structure.
///
/// Such a field is a scalar, vector, or matrix of [BufferElementType],
/// starting at a byte offset within the parent structure, and it has a
/// target [VertexAttr] usage.
#[derive(Debug, Clone, Copy)]
pub struct VertexDesc {
    /// Vertex attribute that this describes, e.g. Position, TexCoordsN, Joints
    attr: VertexAttr,
    /// Byte offset within the parent to the first element
    byte_offset: u16,
    /// Dimensions, e.g. [0, 0] for a scalar, [3,0] for a Vec3, [4,4] for a Mat4
    dims: [u8; 2],
    /// Type of each element, e.g. Float32, SInt16, UInt8
    ele_type: BufferElementType,
}

/// What a [VertexDesc] describes.
pub struct VertexDescView {
    /// The attribute that the field is for
    pub attr: VertexAttr,
    /// Byte offset of the field within its record
    pub byte_offset: u16,
    /// First dimension: 0 for a scalar
    pub rows: u8,
    /// Second dimension: 0 for a scalar or a vector
    pub columns: u8,
    /// Type of each element
    pub ele_type: BufferElementType,
}

impl VertexDescView {
    /// The number of elements in the field: one for a scalar, the length
    /// of a vector, the product of the dimensions of a matrix.
    pub open spec fn count(self) -> int {
        if self.rows == 0 {
            1
        } else if self.columns == 0 {
            self.rows as int
        } else {
            self.rows * self.columns
        }
    }

    /// The number of bytes that the field takes.
    pub open spec fn byte_length(self) -> int {
        self.count() * self.ele_type.spec_byte_length()
    }

    /// The byte offset within the record of the first byte after the
    /// field.
    pub open spec fn extent(self) -> int {
        self.byte_offset + self.byte_length()
    }

    /// A field has at most 255 * 255 elements of at most four bytes each.
    pub proof fn lemma_bounds(self)
        ensures
            1 <= self.count() <= 65025,
            1 <= self.byte_length() <= 260100,
            1 <= self.extent() <= 325635,
    {
        let r = self.rows as int;
        let c = self.columns as int;
        assert(0 <= r * c <= 65025) by (nonlinear_arith)
            requires
                0 <= r <= 255,
                0 <= c <= 255,
        ;
        assert(r != 0 && c != 0 ==> 1 <= r * c) by (nonlinear_arith)
            requires
                0 <= r,
                0 <= c,
        ;
        let n = self.count();
        let b = self.ele_type.spec_byte_length() as int;
        assert(1 <= n * b <= 260100) by (nonlinear_arith)
            requires
                1 <= n <= 65025,
                1 <= b <= 4,
        ;
    }
}

impl View for VertexDesc {
    type V = VertexDescView;

    closed spec fn view(&self) -> VertexDescView {
        VertexDescView {
            attr: self.attr,
            byte_offset: self.byte_offset,
            rows: self.dims[0],
            columns: self.dims[1],
            ele_type: self.ele_type,
        }
    }
}

impl VertexDesc {
    /// Create a scalar [VertexDesc] for a [VertexAttr] of a given
    /// [BufferElementType], at an offset within its parent data.
    pub fn scalar(attr: VertexAttr, ele_type: BufferElementType, byte_offset: u16) -> (d: Self)
        ensures
            d@ == (VertexDescView { attr, byte_offset, rows: 0, columns: 0, ele_type }),
    {
        Self { attr, byte_offset, dims: [0, 0], ele_type }
    }

    /// Create a vector of 'len' [VertexDesc] for a [VertexAttr] of a given
    /// [BufferElementType], at an offset within its parent data.
    pub fn vec(attr: VertexAttr, ele_type: BufferElementType, len: u8, byte_offset: u16) -> (d:
        Self)
        ensures
            d@ == (VertexDescView { attr, byte_offset, rows: len, columns: 0, ele_type }),
    {
        Self { attr, byte_offset, dims: [len, 0], ele_type }
    }

    /// Create a matrix of 'dims' [VertexDesc] for a [VertexAttr] of a given
    /// [BufferElementType], at an offset within its parent data.
    pub fn mat(attr: VertexAttr, ele_type: BufferElementType, dims: [u8; 2], byte_offset: u16) -> (d:
        Self)
        ensures
            d@ == (VertexDescView {
                attr,
                byte_offset,
                rows: dims[0],
                columns: dims[1],
                ele_type,
            }),
    {
        Self { attr, byte_offset, dims, ele_type }
    }

    /// Retrieve the vertex attribute this field is for
    pub fn vertex_attr(&self) -> (a: VertexAttr)
        ensures
            a == self@.attr,
    {
        self.attr
    }

    /// Retrieve the byte_offset within the parent structure for this field
    pub fn byte_offset(&self) -> (n: u16)
        ensures
            n == self@.byte_offset,
    {
        self.byte_offset
    }

    /// Retrieve the dimensions of this field - if scalar, for example, this is [0,0]
    pub fn dims(&self) -> (d: [u8; 2])
        ensures
            d[0] == self@.rows,
            d[1] == self@.columns,
    {
        self.dims
    }

    /// Retrieve the [BufferElementType] of the field
    pub fn ele_type(&self) -> (t: BufferElementType)
        ensures
            t == self@.ele_type,
    {
        self.ele_type
    }

    /// Get the count of the number of elements in the field
    pub fn count(&self) -> (n: u32)
        ensures
            n == self@.count(),
    {
        proof {
            self@.lemma_bounds();
        }
        if self.dims[0] == 0 {
            1
        } else if self.dims[1] == 0 {
            self.dims[0] as u32
        } else {
            (self.dims[0] as u32) * (self.dims[1] as u32)
        }
    }

    /// Get the byte length of the field
    pub fn byte_length(&self) -> (n: u32)
        ensures
            n == self@.byte_length(),
    {
        proof {
            self@.lemma_bounds();
        }
        self.count() * self.ele_type.byte_length()
    }

    /// Get the byte offset within the record of the first byte after the
    /// field
    pub fn extent(&self) -> (n: u32)
        ensures
            n == self@.extent(),
    {
        proof {
            self@.lemma_bounds();
        }
        self.byte_offset as u32 + self.byte_length()
    }
}

/// Type of a primitive
///
/// This is set to match the GLTF
#[derive(Debug, Default, Clone, Copy, PartialEq, Eq, Structural)]
pub enum PrimitiveType {
    /// Points (of an indeterminate size?)
    Points,
    /// Lines (n-1) (ab, cd, ef, ...)
    Lines,
    /// Close loop of (n) lines (ab, cd, ef, ..., za)
    LineLoop,
    /// Connected (n-1) lines (ab, bc, cd, de, ...)
    LineStrip,
    /// Individual (n/3) triangles (one for every three indices)
    #[default]
    Triangles,
    /// Strip of (n-2) triangles (abc, bcd, cde, def, ...)
    TriangleStrip,
    /// Fan of (n-2) triangles (abc, acd, ade, aef, ...)
    TriangleFan,
}

/// The aspect of a material
#[derive(Debug, Clone, Copy, PartialEq, Eq, Structural)]
pub enum MaterialAspect {
    /// Color (notionally RGBA as 4xf32)
    Color,
    /// Normal
    Normal,
    /// MetallicRoughness (notionally MR as 2xf32)
    MetallicRoughness,
    /// Occlusion (as f32)
    Occlusion,
    /// Emission (as f32)
    Emission,
}

/// An optional index used within the model system, that is up to 65000
///
/// It can be, effectively, 'None' or Some(usize less than 65535)
///
/// The purpose is to keep the size of indexed structures small and
/// permit the optional aspect; it is used to index Vec of textures,
/// vertices descriptor sets, etc
#[derive(Debug, Clone, Copy, PartialEq, Eq, Structural)]
pub struct ShortIndex(u16);

impl View for ShortIndex {
    type V = Option<usize>;

    /// The index that is held, if there is one.
    closed spec fn view(&self) -> Option<usize> {
        if self.0 == 65535 {
            None
        } else {
            Some(self.0 as usize)
        }
    }
}

impl Default for ShortIndex {
    fn default() -> (s: Self)
        ensures
            s@ is None,
    {
        Self(65535)
    }
}

impl ShortIndex {
    /// Create a 'None' value
    pub fn none() -> (s: Self)
        ensures
            s@ is None,
    {
        Self(65535)
    }

    /// Return the value, which must not be 'None'
    pub fn as_usize(self) -> (n: usize)
        requires
            self@ is Some,
        ensures
            self@ == Some(n),
    {
        self.0 as usize
    }

    /// Return true if the index is None
    pub fn is_none(self) -> (b: bool)
        ensures
            b == (self@ is None),
    {
        self.0 == 65535
    }

    /// Return true if the index is not None
    pub fn is_some(self) -> (b: bool)
        ensures
            b == (self@ is Some),
    {
        self.0 != 65535
    }

    /// Create the index that holds a value, which must be less than 65535
    pub fn from_usize(index: usize) -> (s: Self)
        requires
            index < 65535,
        ensures
            s@ == Some(index),
    {
        Self(index as u16)
    }

    /// Create an index from an optional value, which must be less than
    /// 65535 if it is there
    pub fn from_option(opt_index: Option<usize>) -> (s: Self)
        requires
            opt_index matches Some(index) ==> index < 65535,
        ensures
            s@ == opt_index,
    {
        match opt_index {
            Some(index) => Self(index as u16),
            None => Self(65535),
        }
    }

    /// Return the value as an option
    pub fn to_option(self) -> (o: Option<usize>)
        ensures
            o == self@,
    {
        if self.0 == 65535 {
            None
        } else {
            Some(self.0 as usize)
        }
    }
}

} // verus!
