//! The static geometry accumulator: an ordered, append-only container of
//! validated triangles.
//!
//! Its view is the sequence of triangle models in insertion order.  The
//! container performs no validation of its own — appending demands an
//! already-validated triangle — so every triangle it ever holds is
//! non-degenerate.  Once registered with a physics world the instance is
//! only read, never changed.

use vstd::prelude::*;

use crate::triangle::{is_degenerate, StaticTriangle, Tri};

verus! {

/// An append-only, ordered collection of validated collision triangles.
#[derive(Debug)]
pub struct StaticGeometry {
    triangles: Vec<StaticTriangle>,
}

impl View for StaticGeometry {
    type V = Seq<Tri>;

    closed spec fn view(&self) -> Seq<Tri> {
        self.triangles@.map_values(|t: StaticTriangle| t@)
    }
}

impl StaticGeometry {
    /// Every held triangle carries its invariant; in particular none is
    /// degenerate.
    pub closed spec fn wf(self) -> bool {
        forall|i: int| 0 <= i < self.triangles@.len() ==> (#[trigger] self.triangles@[i]).wf()
    }

    /// Creates an empty collection.
    pub fn new() -> (r: StaticGeometry)
        ensures
            r@ == Seq::<Tri>::empty(),
            r.wf(),
    {
        let r = StaticGeometry { triangles: Vec::new() };
        proof {
            assert(r@ =~= Seq::<Tri>::empty());
        }
        r
    }

    /// Appends a validated triangle.  No validation happens here: the
    /// caller owes a triangle that already carries its invariant.
    pub fn add_triangle(&mut self, triangle: StaticTriangle)
        requires
            old(self).wf(),
            triangle.wf(),
        ensures
            final(self).wf(),
            final(self)@ == old(self)@.push(triangle@),
    {
        self.triangles.push(triangle);
        proof {
            assert(self@ =~= old(self)@.push(triangle@));
        }
    }

    /// Number of triangles held.
    pub fn len(&self) -> (r: usize)
        ensures
            r == self@.len(),
    {
        self.triangles.len()
    }

    /// The triangle at `index`, in insertion order.
    pub fn triangle_at(&self, index: usize) -> (r: &StaticTriangle)
        requires
            index < self@.len(),
        ensures
            r@ == self@[index as int],
            self.wf() ==> r.wf(),
    {
        &self.triangles[index]
    }

    /// In a well-formed collection no triangle is degenerate: the
    /// structural invariant of static geometry.
    pub proof fn lemma_all_nondegenerate(self)
        requires
            self.wf(),
        ensures
            forall|i: int|
                0 <= i < self@.len() ==> !is_degenerate(
                    (#[trigger] self@[i]).a,
                    self@[i].b,
                    self@[i].c,
                ),
    {
        assert forall|i: int|
            0 <= i < self@.len() implies !is_degenerate(
            (#[trigger] self@[i]).a,
            self@[i].b,
            self@[i].c,
        ) by {
            assert(self.triangles@[i].wf());
            assert(self@[i] == self.triangles@[i]@);
            self.triangles@[i].lemma_nondegenerate();
        }
    }
}

} // verus!
