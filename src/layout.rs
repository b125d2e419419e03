use vstd::prelude::*;

verus! {

/// One corner of a face: the source position index and, where the face
/// names them, the texture-coordinate and normal indices.
#[derive(Clone, Copy, Debug, PartialEq, Eq, Structural)]
pub struct Corner {
    pub position: usize,
    pub texcoord: Option<usize>,
    pub normal: Option<usize>,
}

/// A primitive of the source document. Only triangles can be converted.
#[derive(Clone, Copy, Debug)]
pub enum Shape {
    Point(Corner),
    Line(Corner, Corner),
    Triangle(Corner, Corner, Corner),
}

/// The faces of one object, in document order.
#[derive(Debug)]
pub struct Object {
    pub shapes: Vec<Shape>,
}

/// Why an object could not be converted.
#[derive(Clone, Copy, Debug, PartialEq, Eq, Structural)]
pub enum ConvertError {
    /// The object holds a point or a line.
    UnsupportedPrimitive,
    /// Tangents were requested, but some corner has no texture coordinate.
    TangentsNeedTexcoords,
    /// Tangents were requested, but some corner has no normal.
    TangentsNeedNormals,
    /// The vertex or index count does not fit the 32-bit count fields.
    TooManyElements,
    /// The packed vertex list and the mesh disagree in length.
    VertexCountMismatch,
    /// A packed vertex does not carry exactly the fields of the layout.
    VertexFieldMismatch,
}

/// The fields a vertex record can hold.
#[derive(Clone, Copy, Debug, PartialEq, Eq, Structural)]
pub enum Attribute {
    Position,
    Normal,
    Tangent,
    Tex0,
}

/// Byte offsets of the optional fields inside a vertex record; the
/// position always comes first.
#[derive(Clone, Copy, Debug, PartialEq, Eq, Structural)]
pub struct VertexFieldOffsets {
    pub normal: Option<usize>,
    pub tangent: Option<usize>,
    pub tex0: Option<usize>,
}

/// Size in bytes of a field: three 32-bit floats for the position, one packed
/// word for a normal or a tangent, two half floats for a texture coordinate.
pub open spec fn attribute_size(attr: Attribute) -> nat {
    match attr {
        Attribute::Position => 12,
        Attribute::Normal => 4,
        Attribute::Tangent => 4,
        Attribute::Tex0 => 4,
    }
}

/// Whether a corner supplies an attribute from source data (a tangent is
/// always derived, never supplied).
pub open spec fn supplies(c: Corner, attr: Attribute) -> bool {
    match attr {
        Attribute::Position => true,
        Attribute::Normal => c.normal is Some,
        Attribute::Tex0 => c.texcoord is Some,
        Attribute::Tangent => false,
    }
}

pub open spec fn all_supply(cs: Seq<Corner>, attr: Attribute) -> bool {
    forall|i: int| 0 <= i < cs.len() ==> supplies(#[trigger] cs[i], attr)
}

pub open spec fn is_triangle(s: Shape) -> bool {
    s is Triangle
}

pub open spec fn all_triangles(shapes: Seq<Shape>) -> bool {
    forall|i: int| 0 <= i < shapes.len() ==> is_triangle(#[trigger] shapes[i])
}

pub open spec fn shape_corners(s: Shape) -> Seq<Corner> {
    match s {
        Shape::Triangle(a, b, c) => seq![a, b, c],
        _ => seq![],
    }
}

/// The corners of all triangles, three per triangle, in document order.
pub open spec fn corners_of(shapes: Seq<Shape>) -> Seq<Corner>
    decreases shapes.len(),
{
    if shapes.len() == 0 {
        seq![]
    } else {
        corners_of(shapes.drop_last()) + shape_corners(shapes.last())
    }
}

/// The layout that a list of triangle corners negotiates: a normal or a
/// texture coordinate is present only if every corner supplies it, a tangent
/// only on request, and fields follow the position in the order normal,
/// tangent, texture coordinate.
pub open spec fn layout_of(cs: Seq<Corner>, with_tangent: bool) -> VertexFieldOffsets {
    let n = all_supply(cs, Attribute::Normal);
    let t = all_supply(cs, Attribute::Tex0);
    let after_normal: nat = if n { 16 } else { 12 };
    let after_tangent: nat = if with_tangent { after_normal + 4 } else { after_normal };
    VertexFieldOffsets {
        normal: if n { Some(12) } else { None },
        tangent: if with_tangent { Some(after_normal as usize) } else { None },
        tex0: if t { Some(after_tangent as usize) } else { None },
    }
}

/// Negotiation of a corner list: tangents are derived from texture
/// coordinates and orthogonalised against normals, so a request for them
/// needs both.
pub open spec fn negotiate(cs: Seq<Corner>, with_tangent: bool) -> Result<
    VertexFieldOffsets,
    ConvertError,
> {
    if with_tangent && !all_supply(cs, Attribute::Tex0) {
        Err(ConvertError::TangentsNeedTexcoords)
    } else if with_tangent && !all_supply(cs, Attribute::Normal) {
        Err(ConvertError::TangentsNeedNormals)
    } else {
        Ok(layout_of(cs, with_tangent))
    }
}

/// A layout field for a sourced attribute is all or nothing: if one corner
/// lacks the normal (or the texture coordinate), the whole layout lacks that
/// field; if every corner has it, the layout has it.
pub proof fn lemma_layout_all_or_nothing(cs: Seq<Corner>, with_tangent: bool, i: int)
    requires
        0 <= i < cs.len(),
    ensures
        cs[i].normal is None ==> layout_of(cs, with_tangent).normal is None,
        cs[i].texcoord is None ==> layout_of(cs, with_tangent).tex0 is None,
        all_supply(cs, Attribute::Normal) ==> layout_of(cs, with_tangent).normal is Some,
        all_supply(cs, Attribute::Tex0) ==> layout_of(cs, with_tangent).tex0 is Some,
{
    if cs[i].normal is None {
        assert(!supplies(cs[i], Attribute::Normal));
    }
    if cs[i].texcoord is None {
        assert(!supplies(cs[i], Attribute::Tex0));
    }
}

pub fn size_of_attribute(attr: Attribute) -> (r: usize)
    ensures
        r == attribute_size(attr),
{
    match attr {
        Attribute::Position => 12,
        Attribute::Normal => 4,
        Attribute::Tangent => 4,
        Attribute::Tex0 => 4,
    }
}

pub fn has_attribute(vtni: Corner, attr: Attribute) -> (r: bool)
    ensures
        r == supplies(vtni, attr),
{
    match attr {
        Attribute::Position => true,
        Attribute::Normal => vtni.normal.is_some(),
        Attribute::Tex0 => vtni.texcoord.is_some(),
        Attribute::Tangent => false,
    }
}

/// Whether every corner supplies the attribute.
pub fn has_all(corners: &Vec<Corner>, attr: Attribute) -> (r: bool)
    ensures
        r == all_supply(corners@, attr),
{
    let mut i: usize = 0;
    while i < corners.len()
        invariant
            i <= corners.len(),
            forall|k: int| 0 <= k < i ==> supplies(#[trigger] corners@[k], attr),
        decreases corners.len() - i,
    {
        if !has_attribute(corners[i], attr) {
            return false;
        }
        i += 1;
    }
    true
}

/// Reserves room for the attribute at `offset` if every corner supplies it.
pub fn get_offset(corners: &Vec<Corner>, attr: Attribute, offset: &mut usize) -> (r: Option<usize>)
    requires
        *old(offset) + attribute_size(attr) <= usize::MAX,
    ensures
        all_supply(corners@, attr) ==> r == Some(*old(offset)) && *final(offset) == *old(offset)
            + attribute_size(attr),
        !all_supply(corners@, attr) ==> r is None && *final(offset) == *old(offset),
{
    let orig_offs = *offset;
    if has_all(corners, attr) {
        *offset = *offset + size_of_attribute(attr);
        return Some(orig_offs);
    }
    None
}

/// The triangle corners of an object, three per triangle, or an error if it
/// holds any other primitive.
pub fn collect_corners(obj: &Object) -> (r: Result<Vec<Corner>, ConvertError>)
    ensures
        r is Ok <==> all_triangles(obj.shapes@),
        r is Ok ==> r->Ok_0@ == corners_of(obj.shapes@),
        r is Err ==> r->Err_0 == ConvertError::UnsupportedPrimitive,
{
    let mut out: Vec<Corner> = Vec::new();
    let mut i: usize = 0;
    while i < obj.shapes.len()
        invariant
            i <= obj.shapes.len(),
            all_triangles(obj.shapes@.take(i as int)),
            out@ == corners_of(obj.shapes@.take(i as int)),
        decreases obj.shapes.len() - i,
    {
        let ghost before = obj.shapes@.take(i as int);
        let ghost after = obj.shapes@.take(i + 1);
        assert(after.drop_last() =~= before);
        assert(after.last() == obj.shapes@[i as int]);
        match obj.shapes[i] {
            Shape::Triangle(a, b, c) => {
                out.push(a);
                out.push(b);
                out.push(c);
                assert(out@ =~= corners_of(after));
            },
            _ => {
                assert(!is_triangle(obj.shapes@[i as int]));
                return Err(ConvertError::UnsupportedPrimitive);
            },
        }
        assert(forall|k: int| 0 <= k < i + 1 ==> after[k] == obj.shapes@[k]);
        i += 1;
    }
    assert(obj.shapes@.take(i as int) =~= obj.shapes@);
    Ok(out)
}

impl VertexFieldOffsets {
    /// Negotiates the layout of a list of triangle corners.
    pub fn from_corners(corners: &Vec<Corner>, with_tangent: bool) -> (r: Result<Self, ConvertError>)
        ensures
            r == negotiate(corners@, with_tangent),
    {
        let mut offset = size_of_attribute(Attribute::Position);
        let normal = get_offset(corners, Attribute::Normal, &mut offset);
        let tangent = if with_tangent {
            let orig_offset = offset;
            offset = offset + size_of_attribute(Attribute::Tangent);
            Some(orig_offset)
        } else {
            None
        };
        let tex0 = get_offset(corners, Attribute::Tex0, &mut offset);
        if with_tangent && tex0.is_none() {
            return Err(ConvertError::TangentsNeedTexcoords);
        }
        if with_tangent && normal.is_none() {
            return Err(ConvertError::TangentsNeedNormals);
        }
        Ok(VertexFieldOffsets { normal, tangent, tex0 })
    }

    /// Negotiates the layout of an object; any primitive but a triangle is
    /// refused.
    pub fn from_object(obj: &Object, with_tangent: bool) -> (r: Result<Self, ConvertError>)
        ensures
            !all_triangles(obj.shapes@) ==> r == Err::<Self, ConvertError>(
                ConvertError::UnsupportedPrimitive,
            ),
            all_triangles(obj.shapes@) ==> r == negotiate(corners_of(obj.shapes@), with_tangent),
    {
        let corners = collect_corners(obj)?;
        Self::from_corners(&corners, with_tangent)
    }
}

} // verus!
