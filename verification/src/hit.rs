//! Intersection: which root of a sphere's quadratic is the hit, and which
//! sphere of a scene is hit first.

use crate::scalar::Scalar;
use vstd::prelude::*;

verus! {

/// One of the two roots of a sphere's quadratic. The surface normal at the
/// near root is the normalised offset from the centre; at the far root it
/// is the offset divided by the signed radius. A negative radius thus
/// turns the normal round at the far root and nowhere else, which is what
/// makes a hollow shell of a sphere inside another.
#[derive(Clone, Copy, Debug, PartialEq, Eq, Structural)]
pub enum Root {
    Near,
    Far,
}

/// What one sphere's quadratic in the ray parameter gives for one ray: the
/// discriminant, and the smaller and the larger root as computed from it.
#[derive(Clone, Copy, Debug)]
pub struct Quadratic {
    pub discriminant: Scalar,
    pub near: Scalar,
    pub far: Scalar,
}

/// An accepted intersection: the ray parameter, and the root it came from.
#[derive(Clone, Copy, Debug)]
pub struct Hit {
    pub t: Scalar,
    pub root: Root,
}

/// The nearest intersection of a scene: the sphere's place in the scene,
/// and its hit.
#[derive(Clone, Copy, Debug)]
pub struct Nearest {
    pub index: usize,
    pub hit: Hit,
}

/// Whether `t` lies strictly between `lo` and `hi`.
pub open spec fn inside(t: Scalar, lo: Scalar, hi: Scalar) -> bool {
    lo.spec_lt(t) && t.spec_lt(hi)
}

impl Quadratic {
    /// The hit of the sphere within the open range from `lo` to `hi`: none
    /// unless the discriminant is positive; else the near root if it lies
    /// in the range; else the far root if that does.
    pub open spec fn spec_hit(&self, lo: Scalar, hi: Scalar) -> Option<Hit> {
        if self.discriminant.spec_le(Scalar::spec_zero()) {
            None
        } else if inside(self.near, lo, hi) {
            Some(Hit { t: self.near, root: Root::Near })
        } else if inside(self.far, lo, hi) {
            Some(Hit { t: self.far, root: Root::Far })
        } else {
            None
        }
    }

    /// Whether the far root is not below the near root, as it is for the
    /// roots of a quadratic with a positive leading coefficient.
    pub open spec fn ordered(&self) -> bool {
        !self.far.spec_lt(self.near)
    }

    /// The hit of the sphere within the open range `(range[0], range[1])`.
    pub fn hit(&self, range: [Scalar; 2]) -> (res: Option<Hit>)
        ensures
            res == self.spec_hit(range[0], range[1]),
            res matches Some(h) ==> inside(h.t, range[0], range[1]),
    {
        if self.discriminant.le(Scalar::zero()) {
            return None;
        }
        if self.near.gt(range[0]) && self.near.lt(range[1]) {
            return Some(Hit { t: self.near, root: Root::Near });
        }
        if self.far.gt(range[0]) && self.far.lt(range[1]) {
            return Some(Hit { t: self.far, root: Root::Far });
        }
        None
    }
}

/// A ray that starts outside a sphere and meets it hits it at the near
/// root: where the discriminant is positive and the near root lies in a
/// range that starts at zero or later, the hit is the near root, where
/// the normal is the normalised offset from the centre, and its parameter
/// is positive.
pub proof fn lemma_near_root_from_outside(q: Quadratic, lo: Scalar, hi: Scalar)
    requires
        Scalar::spec_zero().spec_lt(q.discriminant),
        Scalar::spec_zero().spec_le(lo),
        inside(q.near, lo, hi),
    ensures
        q.spec_hit(lo, hi) == Some(Hit { t: q.near, root: Root::Near }),
        Scalar::spec_zero().spec_lt(q.near),
{
}

/// The result of scanning the first `n` spheres of a scene in order, each
/// against a range whose upper end is the closest hit found before it.
pub open spec fn nearest_among(scene: Seq<Quadratic>, lo: Scalar, hi: Scalar, n: nat) -> Option<
    Nearest,
>
    decreases n,
{
    if n == 0 {
        None
    } else {
        let before = nearest_among(scene, lo, hi, (n - 1) as nat);
        let bound = match before {
            Some(best) => best.hit.t,
            None => hi,
        };
        match scene[n - 1].spec_hit(lo, bound) {
            Some(hit) => Some(Nearest { index: (n - 1) as usize, hit }),
            None => before,
        }
    }
}

/// Whether `found` is the closest hit among the first `n` spheres, each
/// taken by itself in the full range: none exactly if no sphere has a hit;
/// else a sphere's own hit, such that no sphere has a hit with a smaller
/// parameter and no sphere before it has one with the same parameter.
pub open spec fn closest_among(
    scene: Seq<Quadratic>,
    lo: Scalar,
    hi: Scalar,
    n: nat,
    found: Option<Nearest>,
) -> bool {
    match found {
        None => forall|j: int| 0 <= j < n ==> (#[trigger] scene[j]).spec_hit(lo, hi) is None,
        Some(best) => {
            &&& best.index < n
            &&& scene[best.index as int].spec_hit(lo, hi) == Some(best.hit)
            &&& forall|j: int|
                0 <= j < n ==> match (#[trigger] scene[j]).spec_hit(lo, hi) {
                    Some(other) => {
                        &&& !other.t.spec_lt(best.hit.t)
                        &&& j < best.index ==> best.hit.t.spec_lt(other.t)
                    },
                    None => true,
                }
        },
    }
}

/// The nearest hit of a scene within the open range `(range[0], range[1])`.
///
/// The spheres are tried in order; every accepted hit becomes the upper
/// end of the range for the spheres after it. An empty scene has no hit.
/// Where every sphere's roots are in order, the result is the closest of
/// the hits that the spheres have by themselves.
pub fn nearest_hit(scene: &Vec<Quadratic>, range: [Scalar; 2]) -> (res: Option<Nearest>)
    ensures
        res == nearest_among(scene@, range[0], range[1], scene@.len()),
        scene@.len() == 0 ==> res is None,
        (forall|i: int| 0 <= i < scene@.len() ==> (#[trigger] scene@[i]).ordered())
            ==> closest_among(scene@, range[0], range[1], scene@.len(), res),
{
    let count: usize = scene.len();
    proof {
        if forall|i: int| 0 <= i < count ==> (#[trigger] scene@[i]).ordered() {
            lemma_nearest_is_closest(scene@, range[0], range[1], count as nat);
        }
    }
    let mut closest: Option<Nearest> = None;
    let mut bound: Scalar = range[1];
    let mut i: usize = 0;
    while i < count
        invariant
            i <= count == scene@.len(),
            closest == nearest_among(scene@, range[0], range[1], i as nat),
            bound == match closest {
                Some(best) => best.hit.t,
                None => range[1],
            },
        decreases count - i,
    {
        let narrowed: [Scalar; 2] = [range[0], bound];
        match scene[i].hit(narrowed) {
            Some(hit) => {
                bound = hit.t;
                closest = Some(Nearest { index: i, hit });
            },
            None => {},
        }
        i += 1;
    }
    closest
}

/// The scan finds the globally closest hit: where every sphere's roots are
/// in order, scanning with a shrinking range gives the closest of the hits
/// that the spheres have by themselves in the full range.
pub proof fn lemma_nearest_is_closest(scene: Seq<Quadratic>, lo: Scalar, hi: Scalar, n: nat)
    requires
        n <= scene.len() <= usize::MAX,
        forall|i: int| 0 <= i < n ==> (#[trigger] scene[i]).ordered(),
    ensures
        closest_among(scene, lo, hi, n, nearest_among(scene, lo, hi, n)),
    decreases n,
{
    if n > 0 {
        let m = (n - 1) as nat;
        lemma_nearest_is_closest(scene, lo, hi, m);
        let last = scene[m as int];
        assert(last.ordered());
        match nearest_among(scene, lo, hi, m) {
            Some(best) => {
                assert(scene[best.index as int].spec_hit(lo, hi) == Some(best.hit));
                assert(inside(best.hit.t, lo, hi));
                assert(last.spec_hit(lo, best.hit.t) matches Some(hit) ==> last.spec_hit(lo, hi)
                    == Some(hit) && hit.t.spec_lt(best.hit.t));
                assert(last.spec_hit(lo, best.hit.t) is None ==> match last.spec_hit(lo, hi) {
                    Some(other) => !other.t.spec_lt(best.hit.t),
                    None => true,
                });
            },
            None => {},
        }
    }
}

} // verus!
