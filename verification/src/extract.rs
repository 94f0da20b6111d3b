//! Mesh-to-collision extraction: from per-surface vertex and index buffers
//! to validated world-space triangles.
//!
//! An index buffer is walked in non-overlapping triples; trailing one or two
//! indices beyond the last complete triple are ignored by design.  Each
//! triple names three vertices, whose positions are taken through the node's
//! world transform and handed to the triangle constructor; a degenerate
//! triple is skipped and counted, never an error.  A mesh is a list of
//! surfaces, each holding a handle to shared buffer data in a pool; if any
//! handle fails to resolve the whole extraction step is skipped, so a level
//! can still load without collision geometry.

use vstd::prelude::*;

use crate::geometry::StaticGeometry;
use crate::math::{in_input_range, Vec3, V3};
use crate::pool::{Handle, Pool};
use crate::transform::{affine_in_range, apply, Affine, Transform};
use crate::triangle::{is_degenerate, StaticTriangle, Tri};

verus! {

/// One vertex of a render surface.  Rendering attributes other than the
/// position are irrelevant to collision and are not modeled.
#[derive(Clone, Copy, Debug)]
pub struct Vertex {
    /// Local-space position, in integer world units.
    pub position: Vec3,
}

/// The positions of a vertex sequence, as spec vectors.
pub open spec fn positions_of(vs: Seq<Vertex>) -> Seq<V3> {
    vs.map_values(|v: Vertex| v.position@)
}

/// Shared per-surface buffer data: a vertex buffer and an index buffer.
/// Indices reference vertices by position; every three consecutive indices
/// denote one source triangle.
#[derive(Debug)]
pub struct SurfaceSharedData {
    /// The vertex buffer.
    pub vertices: Vec<Vertex>,
    /// The index buffer; its length need not be a multiple of three.
    pub indices: Vec<u32>,
}

impl SurfaceSharedData {
    /// Builds shared surface data from its two buffers.
    pub fn new(vertices: Vec<Vertex>, indices: Vec<u32>) -> (r: SurfaceSharedData)
        ensures
            r.vertices == vertices,
            r.indices == indices,
    {
        SurfaceSharedData { vertices, indices }
    }

    /// The vertex buffer.
    pub fn get_vertices(&self) -> (r: &Vec<Vertex>)
        ensures
            r == &self.vertices,
    {
        &self.vertices
    }

    /// The index buffer.
    pub fn get_indices(&self) -> (r: &Vec<u32>)
        ensures
            r == &self.indices,
    {
        &self.indices
    }
}

/// One surface of a mesh: a handle to its shared buffer data.
#[derive(Clone, Copy, Debug)]
pub struct Surface {
    /// Handle into the surface-data pool.
    pub data_handle: Handle,
}

impl Surface {
    /// Builds a surface over the given shared data.
    pub fn new(data_handle: Handle) -> (r: Surface)
        ensures
            r.data_handle == data_handle,
    {
        Surface { data_handle }
    }

    /// The handle to this surface's shared buffer data.
    pub fn get_data_handle(&self) -> (r: Handle)
        ensures
            r == self.data_handle,
    {
        self.data_handle
    }
}

/// A mesh payload: an ordered list of surfaces.
#[derive(Debug)]
pub struct Mesh {
    /// The surfaces, each with its own buffer pair.
    pub surfaces: Vec<Surface>,
}

impl Mesh {
    /// Builds a mesh from its surfaces.
    pub fn new(surfaces: Vec<Surface>) -> (r: Mesh)
        ensures
            r.surfaces == surfaces,
    {
        Mesh { surfaces }
    }

    /// The mesh's surfaces.
    pub fn get_surfaces(&self) -> (r: &Vec<Surface>)
        ensures
            r == &self.surfaces,
    {
        &self.surfaces
    }
}

/// Buffer data the extractor can consume exactly: vertex positions within
/// the input bound, and every index of a complete triple within the vertex
/// buffer.  Indices of an incomplete trailing triple are unconstrained —
/// they are never read.
pub open spec fn data_wf(d: SurfaceSharedData) -> bool {
    &&& forall|i: int|
        0 <= i < d.vertices@.len() ==> in_input_range((#[trigger] d.vertices@[i]).position@)
    &&& forall|j: int|
        0 <= j < 3 * (d.indices@.len() / 3) ==> (#[trigger] d.indices@[j]) < d.vertices@.len()
}

/// Runtime check for [`data_wf`], for callers that receive buffers from
/// outside and owe the extractor well-formed data.
pub fn check_data_wf(d: &SurfaceSharedData) -> (r: bool)
    ensures
        r == data_wf(*d),
{
    let nv = d.vertices.len();
    let mut i: usize = 0;
    while i < nv
        invariant
            i <= nv,
            nv == d.vertices@.len(),
            forall|k: int| 0 <= k < i ==> in_input_range((#[trigger] d.vertices@[k]).position@),
        decreases nv - i,
    {
        let p = d.vertices[i].position;
        if p.x < -crate::math::MAX_INPUT || p.x > crate::math::MAX_INPUT || p.y
            < -crate::math::MAX_INPUT || p.y > crate::math::MAX_INPUT || p.z
            < -crate::math::MAX_INPUT || p.z > crate::math::MAX_INPUT {
            return false;
        }
        i += 1;
    }
    let last = 3 * (d.indices.len() / 3);
    let mut j: usize = 0;
    while j < last
        invariant
            j <= last,
            last == 3 * (d.indices@.len() / 3),
            last <= d.indices@.len(),
            nv == d.vertices@.len(),
            forall|k: int| 0 <= k < j ==> (#[trigger] d.indices@[k]) < nv,
        decreases last - j,
    {
        if d.indices[j] as usize >= nv {
            return false;
        }
        j += 1;
    }
    true
}

/// The number of candidate triples an index buffer yields: one per complete
/// triple, `floor(len / 3)`.
pub open spec fn candidate_count(indices: Seq<u32>) -> int {
    indices.len() as int / 3
}

/// The candidate triangle of triple `k`: the three indexed vertex
/// positions, in buffer order, taken through the world transform.
pub open spec fn triple_at(tr: Affine, vs: Seq<V3>, indices: Seq<u32>, k: int) -> Tri {
    Tri {
        a: apply(tr, vs[indices[3 * k] as int]),
        b: apply(tr, vs[indices[3 * k + 1] as int]),
        c: apply(tr, vs[indices[3 * k + 2] as int]),
    }
}

/// Whether candidate triple `k` is degenerate.
pub open spec fn degenerate_at(tr: Affine, vs: Seq<V3>, indices: Seq<u32>, k: int) -> bool {
    let t = triple_at(tr, vs, indices, k);
    is_degenerate(t.a, t.b, t.c)
}

/// The validated triangles among the first `n` candidate triples, in
/// buffer order.
pub open spec fn extracted_prefix(tr: Affine, vs: Seq<V3>, indices: Seq<u32>, n: int) -> Seq<Tri>
    decreases n,
{
    if n <= 0 {
        Seq::empty()
    } else if degenerate_at(tr, vs, indices, n - 1) {
        extracted_prefix(tr, vs, indices, n - 1)
    } else {
        extracted_prefix(tr, vs, indices, n - 1).push(triple_at(tr, vs, indices, n - 1))
    }
}

/// How many of the first `n` candidate triples are degenerate.
pub open spec fn degenerate_prefix_count(tr: Affine, vs: Seq<V3>, indices: Seq<u32>, n: int) -> int
    decreases n,
{
    if n <= 0 {
        0
    } else {
        degenerate_prefix_count(tr, vs, indices, n - 1) + if degenerate_at(
            tr,
            vs,
            indices,
            n - 1,
        ) {
            1int
        } else {
            0int
        }
    }
}

/// Everything one surface contributes: the validated triangles of all its
/// complete index triples.
pub open spec fn surface_extracted(tr: Affine, d: SurfaceSharedData) -> Seq<Tri> {
    extracted_prefix(tr, positions_of(d.vertices@), d.indices@, candidate_count(d.indices@))
}

/// How many of one surface's candidate triples are degenerate.
pub open spec fn surface_degenerate_count(tr: Affine, d: SurfaceSharedData) -> int {
    degenerate_prefix_count(tr, positions_of(d.vertices@), d.indices@, candidate_count(d.indices@))
}

/// Exactly `n` minus the degenerate count of the first `n` triples is
/// extracted: the accumulator receives every non-degenerate candidate and
/// nothing else.
pub proof fn lemma_extracted_len(tr: Affine, vs: Seq<V3>, indices: Seq<u32>, n: int)
    requires
        n >= 0,
    ensures
        0 <= degenerate_prefix_count(tr, vs, indices, n) <= n,
        extracted_prefix(tr, vs, indices, n).len() == n - degenerate_prefix_count(
            tr,
            vs,
            indices,
            n,
        ),
    decreases n,
{
    if n > 0 {
        lemma_extracted_len(tr, vs, indices, n - 1);
    }
}

/// Trailing indices beyond the last complete triple are never read: two
/// index buffers of one length that agree on every complete triple extract
/// the same triangles.
pub proof fn lemma_trailing_indices_ignored(
    tr: Affine,
    vs: Seq<V3>,
    idx1: Seq<u32>,
    idx2: Seq<u32>,
)
    requires
        idx1.len() == idx2.len(),
        forall|j: int| 0 <= j < 3 * candidate_count(idx1) ==> idx1[j] == idx2[j],
    ensures
        extracted_prefix(tr, vs, idx1, candidate_count(idx1)) == extracted_prefix(
            tr,
            vs,
            idx2,
            candidate_count(idx2),
        ),
        degenerate_prefix_count(tr, vs, idx1, candidate_count(idx1)) == degenerate_prefix_count(
            tr,
            vs,
            idx2,
            candidate_count(idx2),
        ),
{
    lemma_prefix_agreement(tr, vs, idx1, idx2, candidate_count(idx1));
}

/// Induction step for [`lemma_trailing_indices_ignored`]: agreement on the
/// first `3 * n` indices makes the first `n` extraction steps equal.
proof fn lemma_prefix_agreement(tr: Affine, vs: Seq<V3>, idx1: Seq<u32>, idx2: Seq<u32>, n: int)
    requires
        n <= candidate_count(idx1),
        idx1.len() == idx2.len(),
        forall|j: int| 0 <= j < 3 * candidate_count(idx1) ==> idx1[j] == idx2[j],
    ensures
        extracted_prefix(tr, vs, idx1, n) == extracted_prefix(tr, vs, idx2, n),
        degenerate_prefix_count(tr, vs, idx1, n) == degenerate_prefix_count(tr, vs, idx2, n),
    decreases n,
{
    if n > 0 {
        lemma_prefix_agreement(tr, vs, idx1, idx2, n - 1);
        assert(idx1[3 * (n - 1)] == idx2[3 * (n - 1)]);
        assert(idx1[3 * (n - 1) + 1] == idx2[3 * (n - 1) + 1]);
        assert(idx1[3 * (n - 1) + 2] == idx2[3 * (n - 1) + 2]);
        assert(triple_at(tr, vs, idx1, n - 1) == triple_at(tr, vs, idx2, n - 1));
    }
}

/// A surface-data pool whose every occupied slot holds well-formed buffers.
pub open spec fn storage_wf(storage: Pool<SurfaceSharedData>) -> bool {
    forall|i: int|
        0 <= i < storage@.len() && storage@[i] is Some ==> data_wf((#[trigger] storage@[i]).unwrap())
}

/// Every surface's data handle resolves in the pool.
pub open spec fn surfaces_resolvable(
    surfaces: Seq<Surface>,
    storage: Pool<SurfaceSharedData>,
) -> bool {
    forall|i: int| 0 <= i < surfaces.len() ==> storage.valid((#[trigger] surfaces[i]).data_handle)
}

/// The buffer data a surface's handle resolves to.
pub open spec fn surface_data(storage: Pool<SurfaceSharedData>, s: Surface) -> SurfaceSharedData {
    storage.at(s.data_handle)
}

/// Everything the first `n` surfaces contribute, in surface order.
pub open spec fn mesh_extracted_prefix(
    tr: Affine,
    storage: Pool<SurfaceSharedData>,
    surfaces: Seq<Surface>,
    n: int,
) -> Seq<Tri>
    decreases n,
{
    if n <= 0 {
        Seq::empty()
    } else {
        mesh_extracted_prefix(tr, storage, surfaces, n - 1) + surface_extracted(
            tr,
            surface_data(storage, surfaces[n - 1]),
        )
    }
}

/// Everything a mesh contributes: the concatenation of its surfaces'
/// extractions, in order.
pub open spec fn mesh_extracted(
    tr: Affine,
    storage: Pool<SurfaceSharedData>,
    surfaces: Seq<Surface>,
) -> Seq<Tri> {
    mesh_extracted_prefix(tr, storage, surfaces, surfaces.len() as int)
}

/// Candidate triples of the first `n` surfaces.
pub open spec fn mesh_candidate_prefix(
    storage: Pool<SurfaceSharedData>,
    surfaces: Seq<Surface>,
    n: int,
) -> int
    decreases n,
{
    if n <= 0 {
        0
    } else {
        mesh_candidate_prefix(storage, surfaces, n - 1) + candidate_count(
            surface_data(storage, surfaces[n - 1]).indices@,
        )
    }
}

/// Degenerate triples of the first `n` surfaces.
pub open spec fn mesh_degenerate_prefix(
    tr: Affine,
    storage: Pool<SurfaceSharedData>,
    surfaces: Seq<Surface>,
    n: int,
) -> int
    decreases n,
{
    if n <= 0 {
        0
    } else {
        mesh_degenerate_prefix(tr, storage, surfaces, n - 1) + surface_degenerate_count(
            tr,
            surface_data(storage, surfaces[n - 1]),
        )
    }
}

/// The extraction guarantee: a mesh emits exactly the sum over its surfaces
/// of `floor(len(indices) / 3)`, minus the count of degenerate triples — in
/// particular never more than that sum.
pub proof fn lemma_mesh_extracted_len(
    tr: Affine,
    storage: Pool<SurfaceSharedData>,
    surfaces: Seq<Surface>,
    n: int,
)
    requires
        n >= 0,
    ensures
        0 <= mesh_degenerate_prefix(tr, storage, surfaces, n) <= mesh_candidate_prefix(
            storage,
            surfaces,
            n,
        ),
        mesh_extracted_prefix(tr, storage, surfaces, n).len() == mesh_candidate_prefix(
            storage,
            surfaces,
            n,
        ) - mesh_degenerate_prefix(tr, storage, surfaces, n),
    decreases n,
{
    if n > 0 {
        lemma_mesh_extracted_len(tr, storage, surfaces, n - 1);
        let d = surface_data(storage, surfaces[n - 1]);
        lemma_extracted_len(
            tr,
            positions_of(d.vertices@),
            d.indices@,
            candidate_count(d.indices@),
        );
    }
}

/// Extracts a whole mesh: one [`extract_surface`] pass per surface, over
/// buffers resolved from the pool.  Succeeds with the built geometry and the
/// degenerate-triple diagnostic count exactly when every surface's data
/// handle resolves; if any fails to resolve the step yields nothing, a
/// recoverable condition for the caller.
pub fn extract_mesh_geometry(
    transform: &Transform,
    mesh: &Mesh,
    storage: &Pool<SurfaceSharedData>,
) -> (r: Option<StaticGeometry>)
    requires
        affine_in_range(transform@),
        storage_wf(*storage),
    ensures
        match r {
            Some(geometry) => {
                &&& surfaces_resolvable(mesh.surfaces@, *storage)
                &&& geometry.wf()
                &&& geometry@ == mesh_extracted(transform@, *storage, mesh.surfaces@)
            },
            None => !surfaces_resolvable(mesh.surfaces@, *storage),
        },
{
    let ghost tr = transform@;
    let mut geometry = StaticGeometry::new();
    let count = mesh.surfaces.len();
    let mut s: usize = 0;
    while s < count
        invariant
            s <= count,
            count == mesh.surfaces@.len(),
            tr == transform@,
            affine_in_range(transform@),
            storage_wf(*storage),
            geometry.wf(),
            geometry@ == mesh_extracted_prefix(tr, *storage, mesh.surfaces@, s as int),
            forall|i: int|
                0 <= i < s ==> storage.valid((#[trigger] mesh.surfaces@[i]).data_handle),
        decreases count - s,
    {
        let surface = &mesh.surfaces[s];
        match storage.borrow(&surface.data_handle) {
            Some(data) => {
                proof {
                    storage.lemma_valid_view(surface.data_handle);
                }
                let _skipped: usize = extract_surface(&mut geometry, transform, data);
            },
            None => {
                return None;
            },
        }
        s += 1;
    }
    Some(geometry)
}

/// Walks one surface's index buffer in non-overlapping triples, transforms
/// the indexed vertex positions to world space, and appends every validated
/// triangle to `geometry`.  Returns how many candidate triples were skipped
/// as degenerate — the non-fatal diagnostic of the extraction step.
pub fn extract_surface(
    geometry: &mut StaticGeometry,
    transform: &Transform,
    data: &SurfaceSharedData,
) -> (skipped: usize)
    requires
        old(geometry).wf(),
        affine_in_range(transform@),
        data_wf(*data),
    ensures
        final(geometry).wf(),
        final(geometry)@ == old(geometry)@ + surface_extracted(transform@, *data),
        skipped as int == surface_degenerate_count(transform@, *data),
        final(geometry)@.len() + skipped as int == old(geometry)@.len() + candidate_count(
            data.indices@,
        ),
{
    let ghost tr = transform@;
    let ghost vs = positions_of(data.vertices@);
    let total = data.indices.len();
    let n = total / 3;
    assert(3 * (n as int) <= total as int);
    let mut k: usize = 0;
    let mut skipped: usize = 0;
    while k < n
        invariant
            k <= n,
            skipped <= k,
            total == data.indices@.len(),
            n as int == candidate_count(data.indices@),
            3 * (n as int) <= total as int,
            tr == transform@,
            vs == positions_of(data.vertices@),
            affine_in_range(transform@),
            data_wf(*data),
            geometry.wf(),
            geometry@ == old(geometry)@ + extracted_prefix(tr, vs, data.indices@, k as int),
            skipped as int == degenerate_prefix_count(tr, vs, data.indices@, k as int),
        decreases n - k,
    {
        let i = 3 * k;
        let ia = data.indices[i] as usize;
        let ib = data.indices[i + 1] as usize;
        let ic = data.indices[i + 2] as usize;
        let a = transform.transform_vector(data.vertices[ia].position);
        let b = transform.transform_vector(data.vertices[ib].position);
        let c = transform.transform_vector(data.vertices[ic].position);
        proof {
            assert(vs[data.indices@[3 * (k as int)] as int] == data.vertices@[ia as int].position@);
            assert(vs[data.indices@[3 * (k as int) + 1] as int] == data.vertices@[ib as int].position@);
            assert(vs[data.indices@[3 * (k as int) + 2] as int] == data.vertices@[ic as int].position@);
            assert(triple_at(tr, vs, data.indices@, k as int) == (Tri { a: a@, b: b@, c: c@ }));
        }
        match StaticTriangle::from_points(a, b, c) {
            Some(triangle) => {
                geometry.add_triangle(triangle);
            },
            None => {
                skipped += 1;
            },
        }
        k += 1;
        proof {
            assert(geometry@ == old(geometry)@ + extracted_prefix(tr, vs, data.indices@, k as int));
        }
    }
    proof {
        lemma_extracted_len(tr, vs, data.indices@, n as int);
    }
    skipped
}

} // verus!
