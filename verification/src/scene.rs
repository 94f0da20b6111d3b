//! Scenes: a pool of named nodes, and the physics world that takes
//! ownership of extracted static geometry.
//!
//! Node lookup is exact string match on node names; a scene node of mesh
//! kind carries the surfaces the extractor walks.  [`attach_static_geometry`]
//! is the whole extraction step: locate the named node, extract its mesh's
//! collision geometry, register it with the scene's physics.  Every failure
//! along the way is recoverable — the step contributes nothing and the
//! scene is left unchanged.

use vstd::prelude::*;

use crate::extract::{
    extract_mesh_geometry, mesh_extracted, storage_wf, surfaces_resolvable, Mesh,
    SurfaceSharedData,
};
use crate::geometry::StaticGeometry;
use crate::math::Vec3;
use crate::pool::{Handle, Pool};
use crate::transform::{affine_in_range, Transform};

verus! {

/// What a scene node is: a plain grouping node, or a mesh with surfaces.
/// The closed set of kinds is matched explicitly at each consumption site.
#[derive(Debug)]
pub enum NodeKind {
    /// A node with no payload relevant to collision.
    Base,
    /// A renderable mesh; the only kind that contributes collision geometry.
    Mesh(Mesh),
}

/// One scene-graph node: a name, a kind, and its resolved world transform.
#[derive(Debug)]
pub struct Node {
    /// Name, matched exactly during lookup.
    pub name: String,
    /// The node's payload.
    pub kind: NodeKind,
    /// Accumulated local-to-world transform, resolved by the scene graph.
    pub global_transform: Transform,
    /// Position relative to the parent node.
    pub local_position: Vec3,
}

impl Node {
    /// Builds a node with the identity world transform at the origin.
    pub fn new(name: String, kind: NodeKind) -> (r: Node)
        ensures
            r.name == name,
            r.kind == kind,
            r.global_transform@ == crate::transform::uniform_scale_model(1),
            r.local_position@ == crate::math::v3_zero(),
    {
        Node {
            name,
            kind,
            global_transform: Transform::identity(),
            local_position: Vec3::zero(),
        }
    }

    /// The node's payload.
    pub fn borrow_kind(&self) -> (r: &NodeKind)
        ensures
            r == &self.kind,
    {
        &self.kind
    }

    /// Moves the node relative to its parent.
    pub fn set_local_position(&mut self, position: Vec3)
        ensures
            final(self).local_position == position,
            final(self).name == old(self).name,
            final(self).kind == old(self).kind,
            final(self).global_transform == old(self).global_transform,
    {
        self.local_position = position;
    }

    /// Sets the node's resolved world transform.
    pub fn set_global_transform(&mut self, transform: Transform)
        ensures
            final(self).global_transform == transform,
            final(self).name == old(self).name,
            final(self).kind == old(self).kind,
            final(self).local_position == old(self).local_position,
    {
        self.global_transform = transform;
    }
}

/// The physics world's view of a scene: the static geometry instances it
/// has taken ownership of, in registration order.  Registered geometry is
/// only ever read afterwards.
#[derive(Debug)]
pub struct Physics {
    /// Registered static geometry, oldest first.
    pub static_geometries: Vec<StaticGeometry>,
}

impl Physics {
    /// A physics world owning no static geometry yet.
    pub fn new() -> (r: Physics)
        ensures
            r.static_geometries@.len() == 0,
    {
        Physics { static_geometries: Vec::new() }
    }

    /// Takes ownership of a static geometry instance.  From here on the
    /// instance is frozen: the physics world only reads it.
    pub fn add_static_geometry(&mut self, geometry: StaticGeometry)
        ensures
            final(self).static_geometries@ == old(self).static_geometries@.push(geometry),
    {
        self.static_geometries.push(geometry);
    }

    /// Number of registered static geometry instances.
    pub fn static_geometry_count(&self) -> (r: usize)
        ensures
            r == self.static_geometries@.len(),
    {
        self.static_geometries.len()
    }

    /// A registered instance, by registration order.
    pub fn static_geometry_at(&self, index: usize) -> (r: &StaticGeometry)
        requires
            index < self.static_geometries@.len(),
        ensures
            r == &self.static_geometries@[index as int],
    {
        &self.static_geometries[index]
    }
}

/// Whether a pool slot holds a node of the given name.
pub open spec fn node_matches(slot: Option<Node>, name: Seq<char>) -> bool {
    slot is Some && slot.unwrap().name@ == name
}

/// A scene: its nodes and its physics world.
#[derive(Debug)]
pub struct Scene {
    /// The scene's nodes, addressed by generation-checked handles.
    pub nodes: Pool<Node>,
    /// The scene's physics world.
    pub physics: Physics,
}

impl Scene {
    /// Some node of the scene carries this name.
    pub open spec fn has_node_named(self, name: Seq<char>) -> bool {
        exists|i: int| 0 <= i < self.nodes@.len() && node_matches(#[trigger] self.nodes@[i], name)
    }

    /// `i` is the first slot holding a node of this name.
    pub open spec fn first_named_index(self, name: Seq<char>, i: int) -> bool {
        &&& 0 <= i < self.nodes@.len()
        &&& node_matches(self.nodes@[i], name)
        &&& forall|j: int| 0 <= j < i ==> !node_matches(#[trigger] self.nodes@[j], name)
    }

    /// The node in slot `i`.
    pub open spec fn node_at(self, i: int) -> Node {
        self.nodes@[i].unwrap()
    }

    /// Every node's world transform has in-range entries, as the extractor
    /// demands.
    pub open spec fn transforms_in_range(self) -> bool {
        forall|i: int|
            0 <= i < self.nodes@.len() && self.nodes@[i] is Some ==> affine_in_range(
                (#[trigger] self.nodes@[i]).unwrap().global_transform@,
            )
    }

    /// An empty scene.
    pub fn new() -> (r: Scene)
        ensures
            r.nodes@.len() == 0,
            r.nodes.wf(),
            r.physics.static_geometries@.len() == 0,
    {
        Scene { nodes: Pool::new(), physics: Physics::new() }
    }

    /// Adds a node and hands back its handle.
    pub fn add_node(&mut self, node: Node) -> (h: Handle)
        requires
            old(self).nodes.wf(),
        ensures
            final(self).nodes.wf(),
            final(self).nodes@ == old(self).nodes@.push(Some(node)),
            final(self).nodes.valid(h),
            final(self).nodes.at(h) == node,
            final(self).physics == old(self).physics,
    {
        self.nodes.spawn(node)
    }

    /// Resolves a node handle.
    pub fn get_node(&self, h: &Handle) -> (r: Option<&Node>)
        ensures
            match r {
                Some(node) => self.nodes.valid(*h) && *node == self.nodes.at(*h),
                None => !self.nodes.valid(*h),
            },
    {
        self.nodes.borrow(h)
    }

    /// Finds the first node carrying exactly this name: its handle if one
    /// exists, the none handle otherwise.
    pub fn find_node_by_name(&self, name: &String) -> (h: Handle)
        ensures
            self.has_node_named(name@) ==> {
                &&& self.nodes.valid(h)
                &&& self.first_named_index(name@, h.index as int)
                &&& self.nodes.at(h).name@ == name@
            },
            !self.has_node_named(name@) ==> h == Handle::none_spec(),
    {
        let count = self.nodes.slot_count();
        let mut i: usize = 0;
        while i < count
            invariant
                i <= count,
                count == self.nodes@.len(),
                forall|j: int| 0 <= j < i ==> !node_matches(#[trigger] self.nodes@[j], name@),
            decreases count - i,
        {
            match self.nodes.entry_at(i) {
                Some(entry) => {
                    if entry.1.name == *name {
                        proof {
                            assert(node_matches(self.nodes@[i as int], name@));
                        }
                        return entry.0;
                    }
                },
                None => {},
            }
            i += 1;
        }
        Handle::none()
    }
}

/// Why an extraction step contributed nothing.  Each case is recoverable:
/// the level still loads, without static collision for this content.
#[derive(Clone, Copy, Debug, PartialEq, Eq, Structural)]
pub enum ExtractError {
    /// No node of the given name exists in the scene.
    NodeNotFound,
    /// The named node is not of mesh kind.
    NotAMesh,
    /// Some surface's shared buffer data did not resolve in the pool.
    UnresolvedSurfaceData,
}

/// The static collision extraction step of level assembly.
///
/// Looks up the named node; if it exists, is of mesh kind, and all of its
/// surfaces' buffer data resolves, extracts the mesh's collision geometry
/// in the node's world transform and registers it with the scene's physics
/// world, returning how many validated triangles were registered.  On any
/// failure the scene is left untouched and the error says which condition
/// held; nothing here is fatal to level assembly.
pub fn attach_static_geometry(
    scene: &mut Scene,
    storage: &Pool<SurfaceSharedData>,
    name: &String,
) -> (r: Result<usize, ExtractError>)
    requires
        old(scene).nodes.wf(),
        old(scene).transforms_in_range(),
        storage_wf(*storage),
    ensures
        final(scene).nodes == old(scene).nodes,
        r is Err ==> *final(scene) == *old(scene),
        r == Err::<usize, ExtractError>(ExtractError::NodeNotFound) <==> !old(scene).has_node_named(
            name@,
        ),
        r == Err::<usize, ExtractError>(ExtractError::NotAMesh) <==> exists|i: int|
            #[trigger] old(scene).first_named_index(name@, i) && !(old(scene).node_at(i).kind
                is Mesh),
        r == Err::<usize, ExtractError>(ExtractError::UnresolvedSurfaceData) <==> exists|i: int|
            #[trigger] old(scene).first_named_index(name@, i) && old(scene).node_at(i).kind is Mesh
                && !surfaces_resolvable(
                old(scene).node_at(i).kind->Mesh_0.surfaces@,
                *storage,
            ),
        r is Ok ==> final(scene).physics.static_geometries@.len() == old(
            scene,
        ).physics.static_geometries@.len() + 1,
        r is Ok ==> final(scene).physics.static_geometries@.drop_last() == old(
            scene,
        ).physics.static_geometries@,
        r is Ok ==> forall|i: int|
            #[trigger] old(scene).first_named_index(name@, i) ==> {
                let node = old(scene).node_at(i);
                &&& node.kind is Mesh
                &&& surfaces_resolvable(node.kind->Mesh_0.surfaces@, *storage)
                &&& final(scene).physics.static_geometries@.last()@ == mesh_extracted(
                    node.global_transform@,
                    *storage,
                    node.kind->Mesh_0.surfaces@,
                )
                &&& final(scene).physics.static_geometries@.last().wf()
                &&& r->Ok_0 == mesh_extracted(
                    node.global_transform@,
                    *storage,
                    node.kind->Mesh_0.surfaces@,
                ).len()
            },
{
    let h = scene.find_node_by_name(name);
    let ghost first: int = h.index as int;
    let built: Option<StaticGeometry> = match scene.get_node(&h) {
        Some(node) => {
            proof {
                scene.nodes.lemma_none_invalid();
                assert(old(scene).has_node_named(name@));
                lemma_first_named_unique(*scene, name@, first);
            }
            match node.borrow_kind() {
                NodeKind::Mesh(mesh) => extract_mesh_geometry(&node.global_transform, mesh, storage),
                NodeKind::Base => {
                    return Err(ExtractError::NotAMesh);
                },
            }
        },
        None => {
            return Err(ExtractError::NodeNotFound);
        },
    };
    match built {
        Some(geometry) => {
            let registered = geometry.len();
            scene.physics.add_static_geometry(geometry);
            proof {
                assert(scene.physics.static_geometries@.drop_last() =~= old(
                    scene,
                ).physics.static_geometries@);
            }
            Ok(registered)
        },
        None => Err(ExtractError::UnresolvedSurfaceData),
    }
}

/// The first matching slot index for a name is unique.
proof fn lemma_first_named_unique(scene: Scene, name: Seq<char>, i: int)
    requires
        scene.first_named_index(name, i),
    ensures
        forall|j: int| #[trigger] scene.first_named_index(name, j) ==> j == i,
{
    assert forall|j: int| #[trigger] scene.first_named_index(name, j) implies j == i by {
        if j < i {
            assert(node_matches(scene.nodes@[j], name));
        }
        if j > i {
            assert(node_matches(scene.nodes@[i], name));
        }
    }
}

} // verus!
