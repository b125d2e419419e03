use std::collections::HashMap;
use vstd::prelude::*;

use crate::layout::{
    all_triangles, collect_corners, is_triangle, corners_of, negotiate, ConvertError, Corner, Object,
    VertexFieldOffsets,
};

verus! {

broadcast use vstd::std_specs::hash::group_hash_axioms;

/// The distinct corners of `cs`, each at its first occurrence.
pub open spec fn first_occurrences(cs: Seq<Corner>) -> Seq<Corner>
    decreases cs.len(),
{
    if cs.len() == 0 {
        seq![]
    } else {
        let prev = first_occurrences(cs.drop_last());
        if prev.contains(cs.last()) {
            prev
        } else {
            prev.push(cs.last())
        }
    }
}

/// The output vertex made from a corner: its position always, its normal and
/// texture coordinate only where the layout has those fields.
pub open spec fn vertex_of(c: Corner, format: VertexFieldOffsets) -> Corner {
    Corner {
        position: c.position,
        texcoord: if format.tex0 is Some { c.texcoord } else { None },
        normal: if format.normal is Some { c.normal } else { None },
    }
}

pub open spec fn vertices_of(keys: Seq<Corner>, format: VertexFieldOffsets) -> Seq<Corner> {
    keys.map_values(|c: Corner| vertex_of(c, format))
}

pub open spec fn index_width(vertex_count: nat) -> u8 {
    if vertex_count <= 0xff {
        1
    } else if vertex_count <= 0xffff {
        2
    } else {
        4
    }
}

/// Finds the vertex already made for a corner: the corners seen so far, and
/// for each position index the vertices made from corners with that position.
struct CornerTable {
    keys: Vec<Corner>,
    buckets: HashMap<usize, Vec<usize>>,
}

impl CornerTable {
    spec fn wf(&self) -> bool {
        &&& forall|p: usize, k: int|
            #![trigger self.buckets@[p]@[k]]
            self.buckets@.contains_key(p) && 0 <= k < self.buckets@[p]@.len() ==> {
                &&& self.buckets@[p]@[k] < self.keys@.len()
                &&& self.keys@[self.buckets@[p]@[k] as int].position == p
            }
        &&& forall|j: int|
            0 <= j < self.keys@.len() ==> self.buckets@.contains_key(
                (#[trigger] self.keys@[j]).position,
            ) && self.buckets@[self.keys@[j].position]@.contains(j as usize)
        &&& self.keys@.no_duplicates()
        &&& self.keys@.len() <= usize::MAX
    }

    fn new() -> (r: Self)
        ensures
            r.wf(),
            r.keys@ == Seq::<Corner>::empty(),
    {
        CornerTable { keys: Vec::new(), buckets: HashMap::new() }
    }

    fn lookup(&self, c: Corner) -> (r: Option<usize>)
        requires
            self.wf(),
        ensures
            r is Some ==> r->Some_0 < self.keys@.len() && self.keys@[r->Some_0 as int] == c,
            r is None ==> !self.keys@.contains(c),
    {
        match self.buckets.get(&c.position) {
            None => {
                assert(!self.keys@.contains(c));
                None
            },
            Some(bucket) => {
                let mut k: usize = 0;
                while k < bucket.len()
                    invariant
                        self.wf(),
                        self.buckets@.contains_key(c.position),
                        *bucket == self.buckets@[c.position],
                        k <= bucket@.len(),
                        forall|m: int|
                            0 <= m < k ==> self.keys@[#[trigger] bucket@[m] as int] != c,
                    decreases bucket.len() - k,
                {
                    let j = bucket[k];
                    assert(self.buckets@[c.position]@[k as int] == j);
                    if self.keys[j] == c {
                        return Some(j);
                    }
                    k += 1;
                }
                proof {
                    if self.keys@.contains(c) {
                        let j = choose|j: int| 0 <= j < self.keys@.len() && self.keys@[j] == c;
                        assert(bucket@.contains(j as usize));
                        let m = choose|m: int| 0 <= m < bucket@.len() && bucket@[m] == j as usize;
                        assert(self.keys@[bucket@[m] as int] != c);
                    }
                }
                None
            },
        }
    }

    fn insert(&mut self, c: Corner) -> (r: usize)
        requires
            old(self).wf(),
            !old(self).keys@.contains(c),
            old(self).keys@.len() < usize::MAX,
        ensures
            final(self).wf(),
            final(self).keys@ == old(self).keys@.push(c),
            r == old(self).keys@.len(),
    {
        let j = self.keys.len();
        let ghost old_keys = self.keys@;
        let ghost old_buckets = self.buckets@;
        self.keys.push(c);
        let bucket = match self.buckets.remove(&c.position) {
            Some(b) => b,
            None => Vec::new(),
        };
        let ghost old_bucket = bucket@;
        let mut bucket = bucket;
        bucket.push(j);
        self.buckets.insert(c.position, bucket);
        assert(old_keys.push(c) =~= self.keys@);
        assert forall|p: usize, k: int|
            #![trigger self.buckets@[p]@[k]]
            self.buckets@.contains_key(p) && 0 <= k < self.buckets@[p]@.len() implies {
                &&& self.buckets@[p]@[k] < self.keys@.len()
                &&& self.keys@[self.buckets@[p]@[k] as int].position == p
            } by {
            if p != c.position {
                assert(self.buckets@[p] == old_buckets[p]);
                assert(old_buckets[p]@[k] < old_keys.len());
            } else if k < old_bucket.len() {
                assert(old_buckets.contains_key(p));
                assert(self.buckets@[p]@[k] == old_buckets[p]@[k]);
                assert(old_buckets[p]@[k] < old_keys.len());
            }
        }
        assert forall|i: int|
            0 <= i < self.keys@.len() implies self.buckets@.contains_key(
                (#[trigger] self.keys@[i]).position,
            ) && self.buckets@[self.keys@[i].position]@.contains(i as usize) by {
            if i < j {
                assert(self.keys@[i] == old_keys[i]);
                let p = old_keys[i].position;
                assert(old_buckets.contains_key(p) && old_buckets[p]@.contains(i as usize));
                if p == c.position {
                    let m: int = choose|m: int|
                        0 <= m < old_buckets[p]@.len() && old_buckets[p]@[m] == i as usize;
                    assert(self.buckets@[p]@[m] == i as usize);
                }
            } else {
                assert(self.buckets@[c.position]@[old_bucket.len() as int] == j);
            }
        }
        j
    }
}

/// The welded mesh of one object: one vertex per distinct corner, in order
/// of first occurrence, and one index per corner.
#[derive(Debug)]
pub struct Mesh {
    pub vertices: Vec<Corner>,
    pub indices: Vec<usize>,
    pub format: VertexFieldOffsets,
}

impl Mesh {
    /// Every index names a vertex.
    pub open spec fn well_formed(&self) -> bool {
        forall|i: int| 0 <= i < self.indices@.len() ==> #[trigger] self.indices@[i] < self.vertices@.len()
    }

    spec fn welds(&self, table: &CornerTable, cs: Seq<Corner>) -> bool {
        &&& table.wf()
        &&& self.vertices@ == vertices_of(table.keys@, self.format)
        &&& self.indices@.len() == cs.len()
        &&& forall|i: int|
            0 <= i < cs.len() ==> #[trigger] self.indices@[i] < table.keys@.len()
                && table.keys@[self.indices@[i] as int] == cs[i]
    }

    fn create_vertex(&mut self, vtni: Corner) -> (r: usize)
        ensures
            final(self).vertices@ == old(self).vertices@.push(vertex_of(vtni, old(self).format)),
            final(self).indices == old(self).indices,
            final(self).format == old(self).format,
            r == old(self).vertices@.len(),
    {
        let idx = self.vertices.len();
        let v = Corner {
            position: vtni.position,
            texcoord: if self.format.tex0.is_some() { vtni.texcoord } else { None },
            normal: if self.format.normal.is_some() { vtni.normal } else { None },
        };
        self.vertices.push(v);
        idx
    }

    fn add_index(&mut self, table: &mut CornerTable, vtni: Corner, Ghost(cs): Ghost<Seq<Corner>>)
        requires
            old(self).welds(old(table), cs),
            old(table).keys@ == first_occurrences(cs),
            cs.len() < usize::MAX,
        ensures
            final(self).welds(final(table), cs.push(vtni)),
            final(table).keys@ == first_occurrences(cs.push(vtni)),
            final(self).format == old(self).format,
    {
        proof {
            lemma_first_occurrences_len(cs);
        }
        let ghost next = cs.push(vtni);
        assert(next.drop_last() =~= cs);
        if let Some(idx) = table.lookup(vtni) {
            self.indices.push(idx);
            assert(table.keys@.contains(vtni));
            return;
        }
        let ghost old_keys = table.keys@;
        let idx = self.create_vertex(vtni);
        let k = table.insert(vtni);
        self.indices.push(idx);
        assert(vertices_of(table.keys@, self.format) =~= self.vertices@);
        assert forall|i: int| 0 <= i < next.len() implies #[trigger] self.indices@[i]
            < table.keys@.len() && table.keys@[self.indices@[i] as int] == next[i] by {
            if i < cs.len() {
                assert(old_keys[self.indices@[i] as int] == cs[i]);
            }
        }
    }

    /// Welds the triangles of an object: each distinct corner becomes one
    /// vertex, in order of first occurrence, and each corner one index.
    pub fn from_object(obj: &Object, generate_tangents: bool) -> (r: Result<Self, ConvertError>)
        requires
            obj.shapes@.len() < usize::MAX / 3,
        ensures
            !all_triangles(obj.shapes@) ==> r == Err::<Self, ConvertError>(
                ConvertError::UnsupportedPrimitive,
            ),
            all_triangles(obj.shapes@) && negotiate(corners_of(obj.shapes@), generate_tangents) is Err
                ==> r == Err::<Self, ConvertError>(
                negotiate(corners_of(obj.shapes@), generate_tangents)->Err_0,
            ),
            r is Ok ==> all_triangles(obj.shapes@) && negotiate(
                corners_of(obj.shapes@),
                generate_tangents,
            ) == Ok::<VertexFieldOffsets, ConvertError>(r->Ok_0.format),
            all_triangles(obj.shapes@) && negotiate(corners_of(obj.shapes@), generate_tangents) is Ok
                ==> r is Ok,
            r is Ok ==> r->Ok_0.welds_corners(corners_of(obj.shapes@)),
            r is Ok ==> r->Ok_0.well_formed(),
            r is Ok ==> r->Ok_0.indices@.len() == 3 * obj.shapes@.len(),
    {
        let corners = collect_corners(obj)?;
        proof {
            lemma_corners_len(obj.shapes@);
        }
        let format = VertexFieldOffsets::from_corners(&corners, generate_tangents)?;
        let mut mesh = Mesh { vertices: Vec::new(), indices: Vec::new(), format };
        let mut table = CornerTable::new();
        let mut i: usize = 0;
        assert(first_occurrences(corners@.take(0)) =~= Seq::<Corner>::empty());
        assert(mesh.vertices@ =~= vertices_of(table.keys@, format));
        while i < corners.len()
            invariant
                i <= corners@.len(),
                corners@.len() < usize::MAX,
                mesh.format == format,
                mesh.welds(&table, corners@.take(i as int)),
                table.keys@ == first_occurrences(corners@.take(i as int)),
            decreases corners.len() - i,
        {
            assert(corners@.take(i as int).push(corners@[i as int]) =~= corners@.take(i + 1));
            mesh.add_index(&mut table, corners[i], Ghost(corners@.take(i as int)));
            i += 1;
        }
        assert(corners@.take(i as int) =~= corners@);
        proof {
            lemma_welds_exact(&mesh, &table, corners@);
        }
        Ok(mesh)
    }

    /// What welding a corner list yields: the vertices are the distinct
    /// corners in order of first occurrence, cut down to the layout; each
    /// corner's index names the vertex of its corner; two corners share an
    /// index exactly when they are equal.
    pub open spec fn welds_corners(&self, cs: Seq<Corner>) -> bool {
        &&& self.vertices@ == vertices_of(first_occurrences(cs), self.format)
        &&& self.indices@.len() == cs.len()
        &&& forall|i: int|
            0 <= i < cs.len() ==> #[trigger] self.indices@[i] < self.vertices@.len()
                && first_occurrences(cs)[self.indices@[i] as int] == cs[i]
        &&& forall|i: int, j: int|
            0 <= i < cs.len() && 0 <= j < cs.len() ==> (#[trigger] self.indices@[i]
                == #[trigger] self.indices@[j] <==> cs[i] == cs[j])
    }

    /// Index width in bytes: the narrowest of 1, 2 and 4 for the vertex count.
    pub fn get_index_size(&self) -> (r: u8)
        ensures
            r == index_width(self.vertices@.len()),
    {
        index_size_for(self.vertices.len())
    }
}

/// Index width in bytes for a vertex count: 1 up to 255 vertices, 2 up to
/// 65535, 4 above.
pub fn index_size_for(vertex_count: usize) -> (r: u8)
    ensures
        r == index_width(vertex_count as nat),
{
    if vertex_count <= 0xff {
        1
    } else if vertex_count <= 0xffff {
        2
    } else {
        4
    }
}

proof fn lemma_first_occurrences_len(cs: Seq<Corner>)
    ensures
        first_occurrences(cs).len() <= cs.len(),
    decreases cs.len(),
{
    if cs.len() > 0 {
        lemma_first_occurrences_len(cs.drop_last());
    }
}

proof fn lemma_corners_len(shapes: Seq<crate::layout::Shape>)
    requires
        all_triangles(shapes),
    ensures
        corners_of(shapes).len() == 3 * shapes.len(),
    decreases shapes.len(),
{
    if shapes.len() > 0 {
        let rest = shapes.drop_last();
        assert forall|i: int| 0 <= i < rest.len() implies is_triangle(#[trigger] rest[i]) by {
            assert(rest[i] == shapes[i]);
        }
        assert(is_triangle(shapes[shapes.len() - 1]));
        lemma_corners_len(rest);
    }
}

proof fn lemma_welds_exact(mesh: &Mesh, table: &CornerTable, cs: Seq<Corner>)
    requires
        mesh.welds(table, cs),
        table.keys@ == first_occurrences(cs),
    ensures
        mesh.welds_corners(cs),
{
    assert forall|i: int, j: int|
        0 <= i < cs.len() && 0 <= j < cs.len() implies (#[trigger] mesh.indices@[i]
        == #[trigger] mesh.indices@[j] <==> cs[i] == cs[j]) by {
        if cs[i] == cs[j] && mesh.indices@[i] != mesh.indices@[j] {
            assert(table.keys@[mesh.indices@[i] as int] == table.keys@[mesh.indices@[j] as int]);
        }
    }
}

} // verus!
