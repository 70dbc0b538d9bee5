//! Rays, intersections and the hit rule.  An intersection names its shape
//! by index into the world's object list, so identity questions (the
//! containment stack of the refraction computation) are questions about
//! indices and ids, not pointers.

use vstd::prelude::*;
use crate::math::{add_s, div_s, mul_s, pow_s, sqrt_s, sub_s, fadd, fdiv, fmul, fpow, fsqrt, fsub,
    SCALE, SHADOW_EPSILON};
use crate::matrix::{mul_tuple_s, Matrix4};
use crate::shape::{shape_material, shape_normal_s};
use crate::tuple::{add_t, dot_t, neg_t, reflect_t, scale_t, sub_t, Tuple};
use crate::world::World;

verus! {

#[derive(Clone, Copy, Debug)]
pub struct Ray {
    pub origin: Tuple,
    pub direction: Tuple,
}

/// A ray/shape hit record: the index of the shape in the world's object
/// list and the parametric distance along the ray.
#[derive(Clone, Copy, PartialEq, Eq, Structural, Debug)]
pub struct Intersection {
    pub obj: usize,
    pub t: i64,
}

/// The point `origin + t * direction`.
pub open spec fn position_s(r: Ray, t: i64) -> Tuple {
    add_t(r.origin, scale_t(r.direction, t))
}

/// Both endpoints of a ray taken through a matrix.
pub open spec fn transform_ray_s(m: Matrix4, r: Ray) -> Ray {
    Ray { origin: mul_tuple_s(m, r.origin), direction: mul_tuple_s(m, r.direction) }
}

impl Ray {
    pub fn new(origin: Tuple, direction: Tuple) -> (r: Ray)
        ensures
            r == (Ray { origin, direction }),
    {
        Ray { origin, direction }
    }

    /// The point reached after travelling `t` along the ray.
    pub fn position(&self, t: i64) -> (p: Tuple)
        ensures
            p == position_s(*self, t),
    {
        self.origin.add(self.direction.mul(t))
    }
}

/// A ray taken through a transform.
pub fn transform(ray: &Ray, transformation: &Matrix4) -> (r: Ray)
    requires
        transformation.wf(),
    ensures
        r == transform_ray_s(*transformation, *ray),
{
    Ray {
        origin: transformation.mul_tuple(&ray.origin),
        direction: transformation.mul_tuple(&ray.direction),
    }
}

/// The hit: the first intersection in list order whose `t` is nonnegative.
/// On a list sorted ascending by `t` this is the nearest visible hit.
pub fn hit(intersections: &Vec<Intersection>) -> (r: Option<usize>)
    ensures
        match r {
            Some(i) => i < intersections@.len() && intersections@[i as int].t >= 0 && forall|j: int|
                0 <= j < i ==> intersections@[j].t < 0,
            None => forall|j: int| 0 <= j < intersections@.len() ==> intersections@[j].t < 0,
        },
{
    let mut i: usize = 0;
    while i < intersections.len()
        invariant
            i <= intersections@.len(),
            forall|j: int| 0 <= j < i ==> intersections@[j].t < 0,
        decreases intersections@.len() - i,
    {
        if intersections[i].t >= 0 {
            return Some(i);
        }
        i = i + 1;
    }
    None
}

/// The index of the hit in a list of intersections: the first entry with a
/// nonnegative `t`, or -1 when every entry is behind the ray.
pub open spec fn hit_index_s(s: Seq<Intersection>) -> int
    decreases s.len(),
{
    if s.len() == 0 {
        -1
    } else if s[0].t >= 0 {
        0
    } else {
        let r = hit_index_s(s.drop_first());
        if r < 0 {
            -1
        } else {
            r + 1
        }
    }
}

/// `hit_index_s` is the first index with nonnegative `t`.
pub proof fn lemma_hit_index(s: Seq<Intersection>)
    ensures
        hit_index_s(s) == -1 ==> forall|j: int| 0 <= j < s.len() ==> s[j].t < 0,
        hit_index_s(s) >= 0 ==> 0 <= hit_index_s(s) < s.len() && s[hit_index_s(s)].t >= 0
            && forall|j: int| 0 <= j < hit_index_s(s) ==> s[j].t < 0,
    decreases s.len(),
{
    if s.len() > 0 && s[0].t < 0 {
        lemma_hit_index(s.drop_first());
        let r = hit_index_s(s.drop_first());
        if r >= 0 {
            assert forall|j: int| 0 <= j < r + 1 implies s[j].t < 0 by {
                if j > 0 {
                    assert(s.drop_first()[j - 1].t < 0);
                }
            }
        } else {
            assert forall|j: int| 0 <= j < s.len() implies s[j].t < 0 by {
                if j > 0 {
                    assert(s.drop_first()[j - 1].t < 0);
                }
            }
        }
    }
}

/// The index of the first occurrence of `x`, or -1 when absent.
pub open spec fn find_first_s(s: Seq<usize>, x: usize) -> int
    decreases s.len(),
{
    if s.len() == 0 {
        -1
    } else if s[0] == x {
        0
    } else {
        let r = find_first_s(s.drop_first(), x);
        if r < 0 {
            -1
        } else {
            r + 1
        }
    }
}

/// `find_first_s` is the first occurrence of `x`.
pub proof fn lemma_find_first(s: Seq<usize>, x: usize)
    ensures
        find_first_s(s, x) == -1 ==> forall|j: int| 0 <= j < s.len() ==> s[j] != x,
        find_first_s(s, x) >= 0 ==> 0 <= find_first_s(s, x) < s.len() && s[find_first_s(s, x)] == x
            && forall|j: int| 0 <= j < find_first_s(s, x) ==> s[j] != x,
    decreases s.len(),
{
    if s.len() > 0 && s[0] != x {
        lemma_find_first(s.drop_first(), x);
        let r = find_first_s(s.drop_first(), x);
        if r >= 0 {
            assert forall|j: int| 0 <= j < r + 1 implies s[j] != x by {
                if j > 0 {
                    assert(s.drop_first()[j - 1] != x);
                }
            }
        } else {
            assert forall|j: int| 0 <= j < s.len() implies s[j] != x by {
                if j > 0 {
                    assert(s.drop_first()[j - 1] != x);
                }
            }
        }
    }
}

/// The container stack after meeting `obj`: if `obj` is on the stack the
/// ray is leaving it (its first occurrence is removed), otherwise the ray
/// is entering it (it is pushed).
pub open spec fn stack_update_s(s: Seq<usize>, obj: usize) -> Seq<usize> {
    let p = find_first_s(s, obj);
    if p >= 0 {
        s.remove(p)
    } else {
        s.push(obj)
    }
}

/// The container stack after walking the first `k` intersections.
pub open spec fn stack_after_s(xs: Seq<Intersection>, k: int) -> Seq<usize>
    decreases k,
{
    if k <= 0 {
        Seq::empty()
    } else {
        stack_update_s(stack_after_s(xs, k - 1), xs[k - 1].obj)
    }
}

/// The refractive index of the medium at the top of the container stack;
/// vacuum when the stack is empty.
pub open spec fn top_n_s(w: World, s: Seq<usize>) -> i64 {
    if s.len() == 0 {
        SCALE
    } else {
        shape_material(w.objects@[s.last() as int]).refractive_index
    }
}

/// The shading context derived from the chosen hit `xs[hit_index]`: the
/// surface point, the epsilon-offset over and under points, the eye,
/// normal and reflection vectors, the inside flag, and the refractive
/// indices of the media left (`n1`) and entered (`n2`), resolved by the
/// container stack walked up to the hit.
#[verifier::opaque]
pub open spec fn prepare_computations_s(
    w: World,
    hit_index: int,
    ray: Ray,
    xs: Seq<Intersection>,
) -> Computation {
    let hit = xs[hit_index];
    let n1 = top_n_s(w, stack_after_s(xs, hit_index));
    let n2 = top_n_s(w, stack_after_s(xs, hit_index + 1));
    let point = position_s(ray, hit.t);
    let eye_direction = neg_t(ray.direction);
    let n0 = shape_normal_s(w.objects@[hit.obj as int], point);
    let is_inside = dot_t(eye_direction, n0) < 0;
    let surface_normalv = if is_inside {
        neg_t(n0)
    } else {
        n0
    };
    let over_point = add_t(point, scale_t(surface_normalv, SHADOW_EPSILON));
    let under_point = sub_t(point, scale_t(surface_normalv, SHADOW_EPSILON));
    let reflectv = reflect_t(ray.direction, surface_normalv);
    Computation {
        object: hit.obj,
        t: hit.t,
        point,
        over_point,
        under_point,
        eye_direction,
        surface_normalv,
        is_inside,
        reflectv,
        n1,
        n2,
    }
}

/// The shading context of one hit: ephemeral, built per ray cast.
#[derive(Clone, Copy, Debug)]
pub struct Computation {
    pub object: usize,
    pub t: i64,
    pub point: Tuple,
    pub over_point: Tuple,
    pub under_point: Tuple,
    pub eye_direction: Tuple,
    pub surface_normalv: Tuple,
    pub is_inside: bool,
    pub reflectv: Tuple,
    pub n1: i64,
    pub n2: i64,
}

proof fn lemma_stack_update_objs(s: Seq<usize>, obj: usize, n: int)
    requires
        forall|q: int| 0 <= q < s.len() ==> s[q] < n,
        obj < n,
    ensures
        forall|q: int| 0 <= q < stack_update_s(s, obj).len() ==> stack_update_s(s, obj)[q] < n,
{
    lemma_find_first(s, obj);
}

fn find_in(stack: &Vec<usize>, x: usize) -> (r: Option<usize>)
    ensures
        match r {
            Some(p) => p as int == find_first_s(stack@, x),
            None => find_first_s(stack@, x) == -1,
        },
{
    proof {
        lemma_find_first(stack@, x);
    }
    let mut i: usize = 0;
    while i < stack.len()
        invariant
            i <= stack@.len(),
            forall|j: int| 0 <= j < i ==> stack@[j] != x,
            find_first_s(stack@, x) == -1 ==> forall|j: int| 0 <= j < stack@.len() ==> stack@[j]
                != x,
            find_first_s(stack@, x) >= 0 ==> 0 <= find_first_s(stack@, x) < stack@.len()
                && stack@[find_first_s(stack@, x)] == x && forall|j: int|
                0 <= j < find_first_s(stack@, x) ==> stack@[j] != x,
        decreases stack@.len() - i,
    {
        if stack[i] == x {
            return Some(i);
        }
        i = i + 1;
    }
    None
}

fn stack_step(containers: &mut Vec<usize>, obj: usize)
    ensures
        final(containers)@ == stack_update_s(old(containers)@, obj),
{
    proof {
        lemma_find_first(old(containers)@, obj);
    }
    match find_in(containers, obj) {
        Some(p) => {
            containers.remove(p);
        },
        None => {
            containers.push(obj);
        },
    }
}

fn top_refractive(world: &World, stack: &Vec<usize>) -> (n: i64)
    requires
        forall|q: int| 0 <= q < stack@.len() ==> stack@[q] < world.objects@.len(),
    ensures
        n == top_n_s(*world, stack@),
{
    if stack.len() == 0 {
        SCALE
    } else {
        world.objects[stack[stack.len() - 1]].get_material().refractive_index
    }
}

/// Build the shading context for the hit `xs[hit_index]` of `ray`, walking
/// the full intersection list to resolve the refractive-index pair.
pub fn prepare_computations(
    world: &World,
    hit_index: usize,
    ray: &Ray,
    xs: &Vec<Intersection>,
) -> (comp: Computation)
    requires
        world.wf(),
        hit_index < xs@.len(),
        forall|k: int| 0 <= k < xs@.len() ==> (#[trigger] xs@[k]).obj < world.objects@.len(),
    ensures
        comp == prepare_computations_s(*world, hit_index as int, *ray, xs@),
        comp.object < world.objects@.len(),
{
    proof {
        reveal(prepare_computations_s);
    }
    let mut containers: Vec<usize> = Vec::new();
    let mut k: usize = 0;
    while k < hit_index
        invariant
            k <= hit_index,
            hit_index < xs@.len(),
            forall|q: int| 0 <= q < xs@.len() ==> (#[trigger] xs@[q]).obj < world.objects@.len(),
            containers@ == stack_after_s(xs@, k as int),
            forall|q: int| 0 <= q < containers@.len() ==> containers@[q] < world.objects@.len(),
        decreases hit_index - k,
    {
        proof {
            lemma_stack_update_objs(containers@, xs@[k as int].obj, world.objects@.len() as int);
        }
        stack_step(&mut containers, xs[k].obj);
        k = k + 1;
    }
    let hit = xs[hit_index];
    let n1 = top_refractive(world, &containers);
    proof {
        lemma_stack_update_objs(containers@, hit.obj, world.objects@.len() as int);
    }
    stack_step(&mut containers, hit.obj);
    let n2 = top_refractive(world, &containers);
    let point = ray.position(hit.t);
    let eye_direction = ray.direction.neg();
    let mut surface_normalv = world.objects[hit.obj].normal_at(&point);
    let mut is_inside = false;
    if eye_direction.dot(&surface_normalv) < 0 {
        is_inside = true;
        surface_normalv = surface_normalv.neg();
    }
    let over_point = point.add(surface_normalv.mul(SHADOW_EPSILON));
    let under_point = point.sub(surface_normalv.mul(SHADOW_EPSILON));
    let reflectv = crate::tuple::reflect(&ray.direction, &surface_normalv);
    Computation {
        object: hit.obj,
        t: hit.t,
        point,
        over_point,
        under_point,
        eye_direction,
        surface_normalv,
        is_inside,
        reflectv,
        n1,
        n2,
    }
}

/// The Schlick estimate of the Fresnel reflectance of the hit: 1.0 under
/// total internal reflection, else `r0 + (1 - r0)(1 - cos)^5` with the
/// angle corrected when the ray leaves the denser medium.
#[verifier::opaque]
pub open spec fn schlick_s(comps: Computation) -> i64 {
    let cos0 = dot_t(comps.eye_direction, comps.surface_normalv);
    if comps.n1 > comps.n2 {
        let n = div_s(comps.n1, comps.n2);
        let sin2_t = mul_s(mul_s(n, n), sub_s(SCALE, mul_s(cos0, cos0)));
        if sin2_t > SCALE {
            SCALE
        } else {
            schlick_formula_s(comps.n1, comps.n2, sqrt_s(sub_s(SCALE, sin2_t)))
        }
    } else {
        schlick_formula_s(comps.n1, comps.n2, cos0)
    }
}

/// The closed-form Schlick blend at a given cosine.
pub open spec fn schlick_formula_s(n1: i64, n2: i64, cos0: i64) -> i64 {
    let r0 = mul_s(div_s(sub_s(n1, n2), add_s(n1, n2)), div_s(sub_s(n1, n2), add_s(n1, n2)));
    add_s(r0, mul_s(sub_s(SCALE, r0), pow_s(sub_s(SCALE, cos0), 5)))
}

/// The Schlick approximation to the Fresnel reflectance.
pub fn schlick(comps: &Computation) -> (r: i64)
    ensures
        r == schlick_s(*comps),
{
    proof {
        reveal(schlick_s);
    }
    let mut cos0 = comps.eye_direction.dot(&comps.surface_normalv);
    if comps.n1 > comps.n2 {
        let n = fdiv(comps.n1, comps.n2);
        let sin2_t = fmul(fmul(n, n), fsub(SCALE, fmul(cos0, cos0)));
        if sin2_t > SCALE {
            return SCALE;
        }
        proof {
            assert(sub_s(SCALE, sin2_t) >= 0);
        }
        cos0 = fsqrt(fsub(SCALE, sin2_t));
    }
    let ratio = fdiv(fsub(comps.n1, comps.n2), fadd(comps.n1, comps.n2));
    let r0 = fmul(ratio, ratio);
    fadd(r0, fmul(fsub(SCALE, r0), fpow(fsub(SCALE, cos0), 5)))
}

} // verus!
