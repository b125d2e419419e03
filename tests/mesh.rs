use objmesh::encode::{encode_mesh, write_index, write_vertex, Bounds, PackedVertex};
use objmesh::layout::{
    collect_corners, get_offset, has_all, has_attribute, size_of_attribute, Attribute,
    ConvertError, Corner, Object, Shape, VertexFieldOffsets,
};
use objmesh::pack::{pack_i2_10_10_10, push_u16, push_u32};
use objmesh::weld::{index_size_for, Mesh};

fn c(p: usize, t: Option<usize>, n: Option<usize>) -> Corner {
    Corner { position: p, texcoord: t, normal: n }
}

fn tri(a: Corner, b: Corner, d: Corner) -> Shape {
    Shape::Triangle(a, b, d)
}

fn obj(shapes: Vec<Shape>) -> Object {
    Object { shapes }
}

#[test]
fn attribute_sizes() {
    assert_eq!(size_of_attribute(Attribute::Position), 12);
    assert_eq!(size_of_attribute(Attribute::Normal), 4);
    assert_eq!(size_of_attribute(Attribute::Tangent), 4);
    assert_eq!(size_of_attribute(Attribute::Tex0), 4);
}

#[test]
fn corner_attributes() {
    let k = c(0, Some(1), None);
    assert!(has_attribute(k, Attribute::Position));
    assert!(has_attribute(k, Attribute::Tex0));
    assert!(!has_attribute(k, Attribute::Normal));
    assert!(!has_attribute(k, Attribute::Tangent));
}

#[test]
fn has_all_needs_every_corner() {
    let cs = vec![c(0, Some(0), Some(0)), c(1, None, Some(1))];
    assert!(has_all(&cs, Attribute::Normal));
    assert!(!has_all(&cs, Attribute::Tex0));
    assert!(has_all(&Vec::new(), Attribute::Tex0));
}

#[test]
fn offset_advances_only_when_present() {
    let cs = vec![c(0, Some(0), None)];
    let mut off: usize = 12;
    assert_eq!(get_offset(&cs, Attribute::Normal, &mut off), None);
    assert_eq!(off, 12);
    assert_eq!(get_offset(&cs, Attribute::Tex0, &mut off), Some(12));
    assert_eq!(off, 16);
}

#[test]
fn layout_full() {
    let o = obj(vec![tri(c(0, Some(0), Some(0)), c(1, Some(1), Some(1)), c(2, Some(2), Some(2)))]);
    let l = VertexFieldOffsets::from_object(&o, true).unwrap();
    assert_eq!(l, VertexFieldOffsets { normal: Some(12), tangent: Some(16), tex0: Some(20) });
    let l = VertexFieldOffsets::from_object(&o, false).unwrap();
    assert_eq!(l, VertexFieldOffsets { normal: Some(12), tangent: None, tex0: Some(16) });
}

#[test]
fn layout_mixed_normals_drop_the_field() {
    let o = obj(vec![
        tri(c(0, Some(0), Some(0)), c(1, Some(1), Some(1)), c(2, Some(2), Some(2))),
        tri(c(0, Some(0), Some(0)), c(2, Some(2), None), c(3, Some(3), Some(3))),
    ]);
    let l = VertexFieldOffsets::from_object(&o, false).unwrap();
    assert_eq!(l, VertexFieldOffsets { normal: None, tangent: None, tex0: Some(12) });
}

#[test]
fn tangents_need_texcoords() {
    let o = obj(vec![tri(c(0, None, Some(0)), c(1, None, Some(1)), c(2, None, Some(2)))]);
    assert_eq!(VertexFieldOffsets::from_object(&o, true), Err(ConvertError::TangentsNeedTexcoords));
    assert!(Mesh::from_object(&o, true).is_err());
}

#[test]
fn tangents_need_normals() {
    let o = obj(vec![tri(c(0, Some(0), None), c(1, Some(1), None), c(2, Some(2), None))]);
    assert_eq!(VertexFieldOffsets::from_object(&o, true), Err(ConvertError::TangentsNeedNormals));
}

#[test]
fn non_triangles_are_refused() {
    let o = obj(vec![
        tri(c(0, None, None), c(1, None, None), c(2, None, None)),
        Shape::Line(c(0, None, None), c(1, None, None)),
    ]);
    assert_eq!(collect_corners(&o).unwrap_err(), ConvertError::UnsupportedPrimitive);
    assert_eq!(VertexFieldOffsets::from_object(&o, false), Err(ConvertError::UnsupportedPrimitive));
    assert_eq!(Mesh::from_object(&o, false).unwrap_err(), ConvertError::UnsupportedPrimitive);
    let p = obj(vec![Shape::Point(c(0, None, None))]);
    assert_eq!(Mesh::from_object(&p, false).unwrap_err(), ConvertError::UnsupportedPrimitive);
}

#[test]
fn collect_corners_in_order() {
    let o = obj(vec![
        tri(c(0, None, None), c(1, None, None), c(2, None, None)),
        tri(c(3, None, None), c(4, None, None), c(5, None, None)),
    ]);
    let cs = collect_corners(&o).unwrap();
    let ps: Vec<usize> = cs.iter().map(|k| k.position).collect();
    assert_eq!(ps, vec![0, 1, 2, 3, 4, 5]);
}

#[test]
fn single_triangle_scenario() {
    let o = obj(vec![tri(c(0, Some(0), None), c(1, Some(0), None), c(2, Some(1), None))]);
    let m = Mesh::from_object(&o, false).unwrap();
    assert_eq!(m.format, VertexFieldOffsets { normal: None, tangent: None, tex0: Some(12) });
    assert_eq!(m.vertices.len(), 3);
    assert_eq!(m.indices, vec![0, 1, 2]);
}

#[test]
fn equal_corners_are_welded() {
    // a quad as two triangles sharing an edge
    let a = c(0, Some(0), Some(0));
    let b = c(1, Some(1), Some(0));
    let d = c(2, Some(2), Some(0));
    let e = c(3, Some(3), Some(0));
    let o = obj(vec![tri(a, b, d), tri(a, d, e)]);
    let m = Mesh::from_object(&o, false).unwrap();
    assert_eq!(m.vertices, vec![a, b, d, e]);
    assert_eq!(m.indices, vec![0, 1, 2, 0, 2, 3]);
    for &i in &m.indices {
        assert!(i < m.vertices.len());
    }
}

#[test]
fn differing_tuples_stay_apart() {
    // same position, different texture coordinates: a seam
    let a = c(0, Some(0), None);
    let b = c(0, Some(1), None);
    let d = c(1, Some(2), None);
    let o = obj(vec![tri(a, b, d), tri(b, a, d)]);
    let m = Mesh::from_object(&o, false).unwrap();
    assert_eq!(m.vertices.len(), 3);
    assert_eq!(m.indices, vec![0, 1, 2, 1, 0, 2]);
}

#[test]
fn disabled_fields_are_cut_from_vertices() {
    let o = obj(vec![tri(c(0, Some(5), Some(7)), c(1, Some(6), None), c(2, Some(8), Some(9)))]);
    let m = Mesh::from_object(&o, false).unwrap();
    assert_eq!(m.vertices[0], c(0, Some(5), None));
    assert_eq!(m.vertices[2], c(2, Some(8), None));
}

#[test]
fn empty_object() {
    let m = Mesh::from_object(&obj(vec![]), false).unwrap();
    assert!(m.vertices.is_empty());
    assert!(m.indices.is_empty());
    assert_eq!(m.get_index_size(), 1);
}

#[test]
fn index_width_selection() {
    assert_eq!(index_size_for(0), 1);
    assert_eq!(index_size_for(255), 1);
    assert_eq!(index_size_for(256), 2);
    assert_eq!(index_size_for(65535), 2);
    assert_eq!(index_size_for(65536), 4);
}

#[test]
fn packed_triple_values() {
    assert_eq!(pack_i2_10_10_10(0, 0, 0), 0);
    assert_eq!(pack_i2_10_10_10(511, 0, 0), 511);
    assert_eq!(pack_i2_10_10_10(511, -511, 0), 511 + 513 * 1024);
    assert_eq!(pack_i2_10_10_10(-1, -1, -1), 0x3fff_ffff);
    assert_eq!(pack_i2_10_10_10(0, 0, 1), 1 << 20);
}

#[test]
fn little_endian_words() {
    let mut d = vec![9u8];
    push_u32(&mut d, 0x0102_0304);
    push_u16(&mut d, 0xa0b0);
    assert_eq!(d, vec![9, 4, 3, 2, 1, 0xb0, 0xa0]);
}

#[test]
fn index_writes_at_width() {
    let mut d = Vec::new();
    write_index(7, 1, &mut d);
    write_index(0x0102, 2, &mut d);
    write_index(0x0102_0304, 4, &mut d);
    assert_eq!(d, vec![7, 2, 1, 4, 3, 2, 1]);
}

#[test]
fn vertex_record_fields() {
    let v = PackedVertex { position: (1, 2, 3), normal: Some(0x0a0b0c0d), tangent: None, tex0: Some((5, 0x0100)) };
    let mut d = Vec::new();
    write_vertex(&v, &mut d);
    assert_eq!(d, vec![1, 0, 0, 0, 2, 0, 0, 0, 3, 0, 0, 0, 0x0d, 0x0c, 0x0b, 0x0a, 5, 0, 0, 1]);
}

#[test]
fn encode_single_triangle() {
    let o = obj(vec![tri(c(0, Some(0), None), c(1, Some(0), None), c(2, Some(1), None))]);
    let m = Mesh::from_object(&o, false).unwrap();
    let one = 0x3f80_0000u32; // 1.0
    let vs = vec![
        PackedVertex { position: (0, 0, 0), normal: None, tangent: None, tex0: Some((0, 0)) },
        PackedVertex { position: (one, 0, 0), normal: None, tangent: None, tex0: Some((0, 0)) },
        PackedVertex { position: (0, one, 0), normal: None, tangent: None, tex0: Some((0x3c00, 0)) },
    ];
    let b = Bounds { max: (one, one, 0), min: (0, 0, 0) };
    let bytes = encode_mesh(&m, &b, &vs).unwrap();
    let mut want: Vec<u8> = vec![1, 1, 0, 1, 0, 0, 0, 1, 0];
    want.extend_from_slice(&[0, 0, 0x80, 0x3f, 0, 0, 0x80, 0x3f, 0, 0, 0, 0]);
    want.extend_from_slice(&[0; 12]);
    want.extend_from_slice(&[3, 0, 0, 0, 3, 0, 0, 0]);
    want.extend_from_slice(&[0; 12]);
    want.extend_from_slice(&[0, 0, 0, 0]);
    want.extend_from_slice(&[0, 0, 0x80, 0x3f, 0, 0, 0, 0, 0, 0, 0, 0]);
    want.extend_from_slice(&[0, 0, 0, 0]);
    want.extend_from_slice(&[0, 0, 0, 0, 0, 0, 0x80, 0x3f, 0, 0, 0, 0]);
    want.extend_from_slice(&[0x00, 0x3c, 0, 0]);
    want.extend_from_slice(&[0, 1, 2]);
    assert_eq!(bytes.len(), 9 + 24 + 8 + 3 * 16 + 3);
    assert_eq!(bytes, want);
}

#[test]
fn encode_empty_mesh_writes_zero_bounds() {
    let m = Mesh::from_object(&obj(vec![]), false).unwrap();
    let b = Bounds { max: (0xff7f_ffff, 0xff7f_ffff, 0xff7f_ffff), min: (0x7f7f_ffff, 0x7f7f_ffff, 0x7f7f_ffff) };
    let bytes = encode_mesh(&m, &b, &Vec::new()).unwrap();
    let mut want = vec![1u8, 1, 0, 1, 0, 1, 0, 1, 0];
    want.extend_from_slice(&[0; 32]);
    assert_eq!(bytes, want);
}

#[test]
fn encode_refuses_wrong_vertex_count() {
    let o = obj(vec![tri(c(0, None, None), c(1, None, None), c(2, None, None))]);
    let m = Mesh::from_object(&o, false).unwrap();
    let v = PackedVertex { position: (0, 0, 0), normal: None, tangent: None, tex0: None };
    let b = Bounds { max: (0, 0, 0), min: (0, 0, 0) };
    assert_eq!(encode_mesh(&m, &b, &vec![v, v]).unwrap_err(), ConvertError::VertexCountMismatch);
}

#[test]
fn encode_refuses_wrong_fields() {
    let o = obj(vec![tri(c(0, None, None), c(1, None, None), c(2, None, None))]);
    let m = Mesh::from_object(&o, false).unwrap();
    let v = PackedVertex { position: (0, 0, 0), normal: None, tangent: None, tex0: None };
    let w = PackedVertex { position: (0, 0, 0), normal: Some(0), tangent: None, tex0: None };
    let b = Bounds { max: (0, 0, 0), min: (0, 0, 0) };
    assert_eq!(encode_mesh(&m, &b, &vec![v, w, v]).unwrap_err(), ConvertError::VertexFieldMismatch);
}
