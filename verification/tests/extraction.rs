use level_collision::extract::{
    check_data_wf, extract_mesh_geometry, extract_surface, Mesh, Surface, SurfaceSharedData,
    Vertex,
};
use level_collision::geometry::StaticGeometry;
use level_collision::math::Vec3;
use level_collision::pool::{Handle, Pool};
use level_collision::transform::Transform;
use level_collision::triangle::StaticTriangle;

fn vertex(x: i64, y: i64, z: i64) -> Vertex {
    Vertex { position: Vec3::make(x, y, z) }
}

/// Four vertices of a non-degenerate unit quad in the `z = 0` plane.
fn quad_vertices() -> Vec<Vertex> {
    vec![vertex(0, 0, 0), vertex(1, 0, 0), vertex(1, 1, 0), vertex(0, 1, 0)]
}

#[test]
fn constructor_accepts_nondegenerate_triangle() {
    let t = StaticTriangle::from_points(
        Vec3::make(0, 0, 0),
        Vec3::make(2, 0, 0),
        Vec3::make(0, 3, 0),
    );
    let t = t.expect("non-degenerate triangle must construct");
    assert_eq!(t.corner_a(), Vec3::make(0, 0, 0));
    assert_eq!(t.corner_b(), Vec3::make(2, 0, 0));
    assert_eq!(t.corner_c(), Vec3::make(0, 3, 0));
    let n = t.plane_normal();
    assert!(!n.is_zero());
    assert_eq!((n.x, n.y, n.z), (0, 0, 6));
}

#[test]
fn constructor_rejects_coincident_points() {
    let p = Vec3::make(5, -3, 7);
    let q = Vec3::make(1, 2, 3);
    assert!(StaticTriangle::from_points(p, p, q).is_none());
    assert!(StaticTriangle::from_points(p, q, p).is_none());
    assert!(StaticTriangle::from_points(q, p, p).is_none());
    assert!(StaticTriangle::from_points(p, p, p).is_none());
}

#[test]
fn constructor_rejects_collinear_points() {
    let a = Vec3::make(0, 0, 0);
    let b = Vec3::make(1, 2, 3);
    let c = Vec3::make(3, 6, 9);
    assert!(StaticTriangle::from_points(a, b, c).is_none());
}

#[test]
fn accumulator_keeps_insertion_order() {
    let mut geometry = StaticGeometry::new();
    assert_eq!(geometry.len(), 0);
    let t1 = StaticTriangle::from_points(
        Vec3::make(0, 0, 0),
        Vec3::make(1, 0, 0),
        Vec3::make(0, 1, 0),
    )
    .unwrap();
    let t2 = StaticTriangle::from_points(
        Vec3::make(9, 0, 0),
        Vec3::make(9, 4, 0),
        Vec3::make(9, 0, 4),
    )
    .unwrap();
    geometry.add_triangle(t1);
    geometry.add_triangle(t2);
    assert_eq!(geometry.len(), 2);
    assert_eq!(geometry.triangle_at(0).corner_a(), Vec3::make(0, 0, 0));
    assert_eq!(geometry.triangle_at(1).corner_a(), Vec3::make(9, 0, 0));
}

/// Index buffer `[0,1,2,0,2,3]` over a non-degenerate quad: exactly two
/// validated triangles come out.
#[test]
fn quad_yields_two_triangles() {
    let data = SurfaceSharedData { vertices: quad_vertices(), indices: vec![0, 1, 2, 0, 2, 3] };
    assert!(check_data_wf(&data));
    let mut geometry = StaticGeometry::new();
    let skipped = extract_surface(&mut geometry, &Transform::identity(), &data);
    assert_eq!(skipped, 0);
    assert_eq!(geometry.len(), 2);
    assert_eq!(geometry.triangle_at(0).corner_b(), Vec3::make(1, 0, 0));
    assert_eq!(geometry.triangle_at(1).corner_c(), Vec3::make(0, 1, 0));
}

/// Index buffer `[0,1,1]` (a repeated index): zero validated triangles, and
/// the step completes without error.
#[test]
fn repeated_index_triple_is_skipped() {
    let data = SurfaceSharedData { vertices: quad_vertices(), indices: vec![0, 1, 1] };
    assert!(check_data_wf(&data));
    let mut geometry = StaticGeometry::new();
    let skipped = extract_surface(&mut geometry, &Transform::identity(), &data);
    assert_eq!(skipped, 1);
    assert_eq!(geometry.len(), 0);
}

/// Index buffer of length seven: only the two complete triples are
/// considered; the seventh index is never read, so even an out-of-range
/// value there is harmless.
#[test]
fn trailing_index_is_ignored() {
    let data = SurfaceSharedData {
        vertices: quad_vertices(),
        indices: vec![0, 1, 2, 0, 2, 3, 99],
    };
    assert!(check_data_wf(&data));
    let mut geometry = StaticGeometry::new();
    let skipped = extract_surface(&mut geometry, &Transform::identity(), &data);
    assert_eq!(skipped, 0);
    assert_eq!(geometry.len(), 2);
}

/// A mix of valid and degenerate triples: the count of emitted triangles is
/// exactly the candidate count minus the degenerate count.
#[test]
fn degenerate_triples_only_reduce_the_count() {
    let data = SurfaceSharedData {
        vertices: quad_vertices(),
        // valid, degenerate (repeated), valid, degenerate (coincident corners)
        indices: vec![0, 1, 2, 1, 1, 2, 0, 2, 3, 3, 3, 3],
    };
    let mut geometry = StaticGeometry::new();
    let skipped = extract_surface(&mut geometry, &Transform::identity(), &data);
    assert_eq!(skipped, 2);
    assert_eq!(geometry.len(), 2);
}

/// A pure uniform scale by `k > 0` scales the triangle's edges by `k` and
/// leaves degeneracy unchanged, in both directions.
#[test]
fn uniform_scale_preserves_degeneracy_classification() {
    let scale = Transform::uniform_scale(5);
    let valid = SurfaceSharedData { vertices: quad_vertices(), indices: vec![0, 1, 2] };
    let degenerate = SurfaceSharedData { vertices: quad_vertices(), indices: vec![0, 1, 1] };

    let mut plain = StaticGeometry::new();
    let mut scaled = StaticGeometry::new();
    assert_eq!(extract_surface(&mut plain, &Transform::identity(), &valid), 0);
    assert_eq!(extract_surface(&mut scaled, &scale, &valid), 0);
    assert_eq!(plain.len(), 1);
    assert_eq!(scaled.len(), 1);
    // Linear dimensions scale by k: the unit edge became length 5.
    assert_eq!(scaled.triangle_at(0).corner_b(), Vec3::make(5, 0, 0));
    assert_eq!(scaled.triangle_at(0).corner_c(), Vec3::make(5, 5, 0));
    // The plane normal scales by k * k.
    let n_plain = plain.triangle_at(0).plane_normal();
    let n_scaled = scaled.triangle_at(0).plane_normal();
    assert_eq!((n_scaled.x, n_scaled.y, n_scaled.z), (25 * n_plain.x, 25 * n_plain.y, 25 * n_plain.z));

    let mut plain_d = StaticGeometry::new();
    let mut scaled_d = StaticGeometry::new();
    assert_eq!(extract_surface(&mut plain_d, &Transform::identity(), &degenerate), 1);
    assert_eq!(extract_surface(&mut scaled_d, &scale, &degenerate), 1);
    assert_eq!(plain_d.len(), 0);
    assert_eq!(scaled_d.len(), 0);
}

#[test]
fn transform_applies_rotation_and_translation() {
    // 90-degree rotation about z, then a translation.
    let tr = Transform::from_rows(
        Vec3::make(0, -1, 0),
        Vec3::make(1, 0, 0),
        Vec3::make(0, 0, 1),
        Vec3::make(10, 20, 30),
    );
    let p = tr.transform_vector(Vec3::make(3, 4, 5));
    assert_eq!(p, Vec3::make(6, 23, 35));
}

#[test]
fn extract_mesh_concatenates_surfaces_in_order() {
    let mut storage: Pool<SurfaceSharedData> = Pool::new();
    let h1 = storage.spawn(SurfaceSharedData {
        vertices: quad_vertices(),
        indices: vec![0, 1, 2],
    });
    let h2 = storage.spawn(SurfaceSharedData {
        vertices: vec![vertex(0, 0, 2), vertex(4, 0, 2), vertex(0, 4, 2)],
        indices: vec![0, 1, 2],
    });
    let mesh = Mesh::new(vec![Surface::new(h1), Surface::new(h2)]);
    let geometry = extract_mesh_geometry(&Transform::identity(), &mesh, &storage)
        .expect("all surface data resolves");
    assert_eq!(geometry.len(), 2);
    assert_eq!(geometry.triangle_at(0).corner_a(), Vec3::make(0, 0, 0));
    assert_eq!(geometry.triangle_at(1).corner_a(), Vec3::make(0, 0, 2));
}

#[test]
fn extract_mesh_fails_on_unresolvable_surface_data() {
    let mut storage: Pool<SurfaceSharedData> = Pool::new();
    let h = storage.spawn(SurfaceSharedData { vertices: quad_vertices(), indices: vec![0, 1, 2] });
    let mesh = Mesh::new(vec![Surface::new(h), Surface::new(Handle::none())]);
    assert!(extract_mesh_geometry(&Transform::identity(), &mesh, &storage).is_none());
}

#[test]
fn check_data_wf_rejects_bad_buffers() {
    // An index inside a complete triple that is out of range.
    let bad_index = SurfaceSharedData { vertices: quad_vertices(), indices: vec![0, 1, 4] };
    assert!(!check_data_wf(&bad_index));
    // A vertex position beyond the input bound.
    let bad_vertex = SurfaceSharedData {
        vertices: vec![vertex(level_collision::math::MAX_INPUT + 1, 0, 0)],
        indices: vec![],
    };
    assert!(!check_data_wf(&bad_vertex));
    // Empty buffers are fine.
    let empty = SurfaceSharedData { vertices: vec![], indices: vec![] };
    assert!(check_data_wf(&empty));
}

#[test]
fn surface_accessors_round_trip() {
    let h = Handle::none();
    let s = Surface::new(h);
    assert_eq!(s.get_data_handle(), h);
    let m = Mesh::new(vec![s]);
    assert_eq!(m.get_surfaces().len(), 1);
    let data = SurfaceSharedData::new(quad_vertices(), vec![0, 1, 2]);
    assert_eq!(data.get_vertices().len(), 4);
    assert_eq!(data.get_indices().as_slice(), &[0, 1, 2]);
}
