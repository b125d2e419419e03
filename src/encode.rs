use vstd::prelude::*;

use crate::layout::{ConvertError, VertexFieldOffsets};
use crate::pack::{le16, le32, push_u16, push_u32};
use crate::weld::{index_size_for, index_width, Mesh};

verus! {

/// A vertex record ready for output: the position as the bit patterns of
/// three 32-bit floats, the packed normal and tangent words, and the two
/// half-float texture coordinates, each present only where the layout has it.
#[derive(Clone, Copy, Debug)]
pub struct PackedVertex {
    pub position: (u32, u32, u32),
    pub normal: Option<u32>,
    pub tangent: Option<u32>,
    pub tex0: Option<(u16, u16)>,
}

/// The bounding box as bit patterns of 32-bit floats.
#[derive(Clone, Copy, Debug)]
pub struct Bounds {
    pub max: (u32, u32, u32),
    pub min: (u32, u32, u32),
}

pub const PRIMITIVE_TRIANGLE_LIST: u8 = 1;

pub open spec fn flag(b: bool) -> u8 {
    if b {
        1
    } else {
        0
    }
}

pub open spec fn le32_triple(t: (u32, u32, u32)) -> Seq<u8> {
    le32(t.0) + le32(t.1) + le32(t.2)
}

/// The bounds that are written: those given, or all zero for a mesh
/// without vertices.
pub open spec fn written_bounds(vertex_count: nat, bounds: Bounds) -> Bounds {
    if vertex_count == 0 {
        Bounds { max: (0, 0, 0), min: (0, 0, 0) }
    } else {
        bounds
    }
}

/// The header: index width, primitive kind, the seven field flags, the
/// bounding box (maximum first) and the two counts.
pub open spec fn header_bytes(
    width: u8,
    format: VertexFieldOffsets,
    bounds: Bounds,
    vertex_count: u32,
    index_count: u32,
) -> Seq<u8> {
    seq![
        width,
        1u8,
        0u8,
        1u8,
        0u8,
        flag(format.normal is Some),
        flag(format.tangent is Some),
        flag(format.tex0 is Some),
        0u8,
    ] + le32_triple(bounds.max) + le32_triple(bounds.min) + le32(vertex_count) + le32(
        index_count,
    )
}

pub open spec fn opt32(w: Option<u32>) -> Seq<u8> {
    match w {
        Some(n) => le32(n),
        None => seq![],
    }
}

pub open spec fn record_bytes(v: PackedVertex) -> Seq<u8> {
    le32_triple(v.position) + opt32(v.normal) + opt32(v.tangent) + match v.tex0 {
        Some(t) => le16(t.0) + le16(t.1),
        None => seq![],
    }
}

pub open spec fn vertex_block(vs: Seq<PackedVertex>) -> Seq<u8>
    decreases vs.len(),
{
    if vs.len() == 0 {
        seq![]
    } else {
        vertex_block(vs.drop_last()) + record_bytes(vs.last())
    }
}

pub open spec fn index_bytes(i: usize, width: u8) -> Seq<u8> {
    if width == 1 {
        seq![i as u8]
    } else if width == 2 {
        le16(i as u16)
    } else {
        le32(i as u32)
    }
}

pub open spec fn index_block(is: Seq<usize>, width: u8) -> Seq<u8>
    decreases is.len(),
{
    if is.len() == 0 {
        seq![]
    } else {
        index_block(is.drop_last(), width) + index_bytes(is.last(), width)
    }
}

/// A packed vertex carries exactly the optional fields of the layout.
pub open spec fn fits_layout(v: PackedVertex, format: VertexFieldOffsets) -> bool {
    &&& (v.normal is Some) == (format.normal is Some)
    &&& (v.tangent is Some) == (format.tangent is Some)
    &&& (v.tex0 is Some) == (format.tex0 is Some)
}

pub open spec fn all_fit(vs: Seq<PackedVertex>, format: VertexFieldOffsets) -> bool {
    forall|i: int| 0 <= i < vs.len() ==> fits_layout(#[trigger] vs[i], format)
}

/// The error that encoding reports, if any, in the order it is checked.
pub open spec fn encode_error(mesh: Mesh, vs: Seq<PackedVertex>) -> Option<ConvertError> {
    if mesh.vertices@.len() > u32::MAX || mesh.indices@.len() > u32::MAX {
        Some(ConvertError::TooManyElements)
    } else if vs.len() != mesh.vertices@.len() {
        Some(ConvertError::VertexCountMismatch)
    } else if !all_fit(vs, mesh.format) {
        Some(ConvertError::VertexFieldMismatch)
    } else {
        None
    }
}

/// The whole encoding of a mesh: header, vertex records, indices.
pub open spec fn encoding(mesh: Mesh, bounds: Bounds, vs: Seq<PackedVertex>) -> Seq<u8> {
    let width = index_width(mesh.vertices@.len());
    header_bytes(
        width,
        mesh.format,
        written_bounds(mesh.vertices@.len(), bounds),
        mesh.vertices@.len() as u32,
        mesh.indices@.len() as u32,
    ) + vertex_block(vs) + index_block(mesh.indices@, width)
}

fn push_triple(data: &mut Vec<u8>, t: (u32, u32, u32))
    ensures
        final(data)@ == old(data)@ + le32_triple(t),
{
    push_u32(data, t.0);
    push_u32(data, t.1);
    push_u32(data, t.2);
    assert(final(data)@ =~= old(data)@ + le32_triple(t));
}

/// Appends one vertex record: position, then normal, tangent and texture
/// coordinate where present.
pub fn write_vertex(v: &PackedVertex, data: &mut Vec<u8>)
    ensures
        final(data)@ == old(data)@ + record_bytes(*v),
{
    let ghost start = data@;
    push_triple(data, v.position);
    if let Some(n) = v.normal {
        push_u32(data, n);
    }
    if let Some(t) = v.tangent {
        push_u32(data, t);
    }
    if let Some(t) = v.tex0 {
        push_u16(data, t.0);
        push_u16(data, t.1);
    }
    assert(final(data)@ =~= start + record_bytes(*v));
}

/// Appends one index at the given width.
pub fn write_index(idx: usize, width: u8, data: &mut Vec<u8>)
    requires
        width == 1 || width == 2 || width == 4,
        width == 1 ==> idx <= 0xff,
        width == 2 ==> idx <= 0xffff,
        width == 4 ==> idx <= u32::MAX,
    ensures
        final(data)@ == old(data)@ + index_bytes(idx, width),
{
    if width == 1 {
        data.push(idx as u8);
        assert(final(data)@ =~= old(data)@ + index_bytes(idx, width));
    } else if width == 2 {
        push_u16(data, idx as u16);
    } else {
        push_u32(data, idx as u32);
    }
}

/// Encodes a welded mesh with its packed vertex records and bounds. A mesh
/// without vertices gets zero bounds. Fails if a count does not fit 32 bits,
/// or if the records do not match the mesh in number or in fields.
pub fn encode_mesh(mesh: &Mesh, bounds: &Bounds, vertices: &Vec<PackedVertex>) -> (r: Result<
    Vec<u8>,
    ConvertError,
>)
    requires
        mesh.well_formed(),
    ensures
        r is Err <==> encode_error(*mesh, vertices@) is Some,
        r is Err ==> Some(r->Err_0) == encode_error(*mesh, vertices@),
        r is Ok ==> r->Ok_0@ == encoding(*mesh, *bounds, vertices@),
{
    let vertex_count = mesh.vertices.len();
    let index_count = mesh.indices.len();
    if vertex_count > 0xffff_ffff || index_count > 0xffff_ffff {
        return Err(ConvertError::TooManyElements);
    }
    if vertices.len() != vertex_count {
        return Err(ConvertError::VertexCountMismatch);
    }
    let mut k: usize = 0;
    while k < vertices.len()
        invariant
            k <= vertices@.len(),
            vertices@.len() == mesh.vertices@.len(),
            mesh.vertices@.len() <= u32::MAX,
            mesh.indices@.len() <= u32::MAX,
            forall|m: int| 0 <= m < k ==> fits_layout(#[trigger] vertices@[m], mesh.format),
        decreases vertices.len() - k,
    {
        let v = &vertices[k];
        if v.normal.is_some() != mesh.format.normal.is_some() || v.tangent.is_some()
            != mesh.format.tangent.is_some() || v.tex0.is_some() != mesh.format.tex0.is_some() {
            return Err(ConvertError::VertexFieldMismatch);
        }
        k += 1;
    }
    let width = index_size_for(vertex_count);
    let written = if vertex_count == 0 {
        Bounds { max: (0, 0, 0), min: (0, 0, 0) }
    } else {
        *bounds
    };
    let mut data: Vec<u8> = Vec::new();
    data.push(width);
    data.push(PRIMITIVE_TRIANGLE_LIST);
    data.push(0);
    data.push(1);
    data.push(0);
    data.push(if mesh.format.normal.is_some() { 1 } else { 0 });
    data.push(if mesh.format.tangent.is_some() { 1 } else { 0 });
    data.push(if mesh.format.tex0.is_some() { 1 } else { 0 });
    data.push(0);
    push_triple(&mut data, written.max);
    push_triple(&mut data, written.min);
    push_u32(&mut data, vertex_count as u32);
    push_u32(&mut data, index_count as u32);
    let ghost header = header_bytes(
        width,
        mesh.format,
        written,
        vertex_count as u32,
        index_count as u32,
    );
    assert(data@ =~= header);

    let mut i: usize = 0;
    while i < vertices.len()
        invariant
            i <= vertices@.len(),
            data@ == header + vertex_block(vertices@.take(i as int)),
        decreases vertices.len() - i,
    {
        assert(vertices@.take(i + 1).drop_last() =~= vertices@.take(i as int));
        write_vertex(&vertices[i], &mut data);
        assert(data@ =~= header + vertex_block(vertices@.take(i + 1)));
        i += 1;
    }
    assert(vertices@.take(i as int) =~= vertices@);
    let ghost body = data@;

    let mut j: usize = 0;
    while j < mesh.indices.len()
        invariant
            mesh.well_formed(),
            vertex_count == mesh.vertices@.len(),
            vertex_count <= u32::MAX,
            width == index_width(vertex_count as nat),
            j <= mesh.indices@.len(),
            data@ == body + index_block(mesh.indices@.take(j as int), width),
        decreases mesh.indices.len() - j,
    {
        assert(mesh.indices@.take(j + 1).drop_last() =~= mesh.indices@.take(j as int));
        let idx = mesh.indices[j];
        assert(mesh.indices@[j as int] < vertex_count);
        write_index(idx, width, &mut data);
        assert(data@ =~= body + index_block(mesh.indices@.take(j + 1), width));
        j += 1;
    }
    assert(mesh.indices@.take(j as int) =~= mesh.indices@);
    Ok(data)
}

} // verus!
