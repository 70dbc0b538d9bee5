//! The scene container and the recursive color resolution: shading,
//! reflection, refraction and shadow testing.  The recursion is bounded by
//! the caller-supplied `remaining` depth counter alone, and the lexicographic
//! `decreases` measures prove that every color query terminates at any fixed
//! depth, mirrors facing mirrors included.

use vstd::prelude::*;
use crate::color::{add_c, black_c, scale_c, black, Color};
use crate::lighting::{lighting, lighting_s, PointLight};
use crate::math::{mul_s, sub_s, fmul, fsub, SCALE};
use crate::matrix::Matrix4;
use crate::ray::{
    hit, hit_index_s, lemma_hit_index, prepare_computations, prepare_computations_s, schlick,
    schlick_s, Computation, Intersection, Ray,
};
use crate::shape::{shape_intersections_s, shape_inv, shape_material, Shape};
use crate::sphere::Sphere;
use crate::tuple::{dot_t, mag_t, normalize_t, scale_t, sub_t, Tuple};

verus! {

/// An ordered collection of shapes and one point light.
pub struct World {
    pub objects: Vec<Shape>,
    pub light: PointLight,
}

impl World {
    /// Every shape in the world is well formed.
    pub open spec fn wf(self) -> bool {
        forall|i: int| 0 <= i < self.objects@.len() ==> (#[trigger] self.objects@[i]).wf()
    }

    /// An empty scene under the given light.
    pub fn new(light: PointLight) -> (w: World)
        ensures
            w.wf(),
            w.objects@.len() == 0,
            w.light == light,
    {
        World { objects: Vec::new(), light }
    }

    /// The default scene frame: the two given shapes under a white light
    /// at (-10, 10, -10).
    pub fn default(s1: Shape, s2: Shape) -> (w: World)
        requires
            s1.wf(),
            s2.wf(),
        ensures
            w.wf(),
            w.objects@ == seq![s1, s2],
            w.light.position == (Tuple { x: -10_000_000i64, y: 10_000_000i64, z: -10_000_000i64, w: SCALE }),
            w.light.intensity == crate::color::white_c(),
    {
        let light = PointLight::new(
            Tuple::new_point(-10_000_000, 10_000_000, -10_000_000),
            Color::new(SCALE, SCALE, SCALE),
        );
        let mut objects: Vec<Shape> = Vec::new();
        objects.push(s1);
        objects.push(s2);
        proof {
            assert(objects@ =~= seq![s1, s2]);
        }
        World { objects, light }
    }

    /// The two spheres of the default scene: a colored outer sphere and an
    /// inner sphere at half scale.
    pub fn default_spheres() -> (r: (Shape, Shape))
        ensures
            r.0.wf(),
            r.1.wf(),
            crate::shape::shape_id(r.0) == 1,
            crate::shape::shape_id(r.1) == 2,
            shape_material(r.0).color == (Color { red: 800_000i64, green: 1_000_000i64, blue: 600_000i64 }),
            shape_material(r.0).diffuse == 700_000i64,
            shape_material(r.0).specular == 200_000i64,
    {
        let mut s1 = Sphere::new(1);
        s1.material.color = Color::new(800_000, 1_000_000, 600_000);
        s1.material.diffuse = 700_000;
        s1.material.specular = 200_000;
        let mut s2 = Sphere::new(2);
        let _accepted = s2.set_transformation(
            Matrix4::identity().scale(500_000, 500_000, 500_000),
        );
        (Shape::Sphere(s1), Shape::Sphere(s2))
    }
}

/// The intersections of one shape, tagged with its index in the world.
pub open spec fn shape_hits_s(i: int, s: Shape, r: Ray) -> Seq<Intersection> {
    shape_intersections_s(s, r).map_values(|t: i64| Intersection { obj: i as usize, t })
}

/// The intersections of the first `n` shapes, in object order.
pub open spec fn all_up_to_s(w: World, r: Ray, n: int) -> Seq<Intersection>
    decreases n,
{
    if n <= 0 {
        Seq::empty()
    } else {
        all_up_to_s(w, r, n - 1) + shape_hits_s(n - 1, w.objects@[n - 1], r)
    }
}

/// The intersections of every shape of the world, in object order.
pub open spec fn all_intersections_s(w: World, r: Ray) -> Seq<Intersection> {
    all_up_to_s(w, r, w.objects@.len() as int)
}

/// `x` inserted before the first entry with a strictly larger `t`, so
/// equal distances keep their arrival order.
pub open spec fn insert_sorted_s(s: Seq<Intersection>, x: Intersection) -> Seq<Intersection>
    decreases s.len(),
{
    if s.len() == 0 {
        seq![x]
    } else if x.t < s[0].t {
        seq![x] + s
    } else {
        seq![s[0]] + insert_sorted_s(s.drop_first(), x)
    }
}

/// Insertion sort by `t`, stable, folding the input left to right.
pub open spec fn sort_s(s: Seq<Intersection>) -> Seq<Intersection>
    decreases s.len(),
{
    if s.len() == 0 {
        Seq::empty()
    } else {
        insert_sorted_s(sort_s(s.drop_last()), s.last())
    }
}

pub open spec fn sorted_by_t(s: Seq<Intersection>) -> bool {
    forall|a: int, b: int| 0 <= a < b < s.len() ==> s[a].t <= s[b].t
}

/// Inserting into a sorted list keeps it sorted.
pub proof fn lemma_insert_sorted_sorted(s: Seq<Intersection>, x: Intersection)
    requires
        sorted_by_t(s),
    ensures
        sorted_by_t(insert_sorted_s(s, x)),
    decreases s.len(),
{
    if s.len() > 0 && !(x.t < s[0].t) {
        assert(sorted_by_t(s.drop_first())) by {
            assert forall|a: int, b: int|
                0 <= a < b < s.drop_first().len() implies s.drop_first()[a].t
                <= s.drop_first()[b].t by {
                assert(s[a + 1].t <= s[b + 1].t);
            }
        }
        lemma_insert_sorted_sorted(s.drop_first(), x);
        let tail = insert_sorted_s(s.drop_first(), x);
        assert forall|b: int| 0 < b < (seq![s[0]] + tail).len() implies s[0].t <= (seq![s[0]]
            + tail)[b].t by {
            lemma_insert_sorted_first(s.drop_first(), x, b - 1);
        }
    }
}

/// Every entry of an inserted list is an entry of the list or the new one.
proof fn lemma_insert_sorted_first(s: Seq<Intersection>, x: Intersection, k: int)
    requires
        0 <= k < insert_sorted_s(s, x).len(),
    ensures
        insert_sorted_s(s, x)[k] == x || s.contains(insert_sorted_s(s, x)[k]),
    decreases s.len(),
{
    if s.len() == 0 {
    } else if x.t < s[0].t {
        if k > 0 {
            assert(s.contains(s[k - 1]));
        }
    } else {
        if k == 0 {
            assert(s.contains(s[0]));
        } else {
            lemma_insert_sorted_first(s.drop_first(), x, k - 1);
            let e = insert_sorted_s(s.drop_first(), x)[k - 1];
            if s.drop_first().contains(e) {
                let j = choose|j: int| 0 <= j < s.drop_first().len() && s.drop_first()[j] == e;
                assert(s[j + 1] == e);
                assert(s.contains(s[j + 1]));
            }
        }
    }
}

/// The sort of a list is sorted.
pub proof fn lemma_sort_sorted(s: Seq<Intersection>)
    ensures
        sorted_by_t(sort_s(s)),
    decreases s.len(),
{
    if s.len() > 0 {
        lemma_sort_sorted(s.drop_last());
        lemma_insert_sorted_sorted(sort_s(s.drop_last()), s.last());
    }
}

/// Every entry of the sort is an entry of the list.
pub proof fn lemma_sort_contains(s: Seq<Intersection>, k: int)
    requires
        0 <= k < sort_s(s).len(),
    ensures
        s.contains(sort_s(s)[k]),
    decreases s.len(),
{
    if s.len() > 0 {
        lemma_insert_sorted_first(sort_s(s.drop_last()), s.last(), k);
        let e = sort_s(s)[k];
        if e == s.last() {
            assert(s.contains(s[s.len() - 1]));
        } else {
            let prev = sort_s(s.drop_last());
            assert(prev.contains(e));
            let j = choose|j: int| 0 <= j < prev.len() && prev[j] == e;
            lemma_sort_contains(s.drop_last(), j);
            let i = choose|i: int|
                0 <= i < s.drop_last().len() && s.drop_last()[i] == e;
            assert(s[i] == e);
            assert(s.contains(s[i]));
        }
    }
}

proof fn lemma_to_multiset_insert0(s: Seq<Intersection>, x: Intersection)
    ensures
        s.insert(0, x).to_multiset() =~= s.to_multiset().insert(x),
{
    broadcast use vstd::seq_lib::group_to_multiset_ensures;

    let n = s.insert(0, x);
    assert(n.remove(0) =~= s);
    assert(n[0] == x);
    assert(n.contains(x));
    assert(s.to_multiset() =~= n.to_multiset().remove(x));
    assert forall|e: Intersection|
        n.to_multiset().count(e) == s.to_multiset().insert(x).count(e) by {
        if e == x {
            assert(n.to_multiset().count(x) > 0);
        }
    }
}

/// Insertion adds exactly the new entry to the collection.
pub proof fn lemma_insert_sorted_multiset(s: Seq<Intersection>, x: Intersection)
    ensures
        insert_sorted_s(s, x).to_multiset() =~= s.to_multiset().insert(x),
    decreases s.len(),
{
    broadcast use vstd::seq_lib::group_to_multiset_ensures;

    if s.len() == 0 {
        assert(seq![x] =~= Seq::empty().push(x));
    } else if x.t < s[0].t {
        assert(seq![x] + s =~= s.insert(0, x));
        lemma_to_multiset_insert0(s, x);
    } else {
        lemma_insert_sorted_multiset(s.drop_first(), x);
        let tail = insert_sorted_s(s.drop_first(), x);
        assert(seq![s[0]] + tail =~= tail.insert(0, s[0]));
        lemma_to_multiset_insert0(tail, s[0]);
        assert(s =~= s.drop_first().insert(0, s[0]));
        lemma_to_multiset_insert0(s.drop_first(), s[0]);
        assert(tail.to_multiset().insert(s[0]) =~= s.to_multiset().insert(x));
    }
}

/// Sorting keeps the collection of intersections: the sort of a list holds
/// exactly the entries of the list, so every shape's hits stay represented
/// and the order affects only tie-breaking.
pub proof fn lemma_sort_multiset(s: Seq<Intersection>)
    ensures
        sort_s(s).to_multiset() =~= s.to_multiset(),
    decreases s.len(),
{
    broadcast use vstd::seq_lib::group_to_multiset_ensures;

    if s.len() > 0 {
        lemma_sort_multiset(s.drop_last());
        lemma_insert_sorted_multiset(sort_s(s.drop_last()), s.last());
        assert(s =~= s.drop_last().push(s.last()));
    }
}

/// Every intersection collected from the world names one of its objects.
pub proof fn lemma_all_up_to_objs(w: World, r: Ray, n: int, k: int)
    requires
        0 <= n <= w.objects@.len(),
        0 <= k < all_up_to_s(w, r, n).len(),
    ensures
        all_up_to_s(w, r, n)[k].obj < w.objects@.len(),
    decreases n,
{
    if n > 0 {
        let prefix = all_up_to_s(w, r, n - 1);
        if k < prefix.len() {
            lemma_all_up_to_objs(w, r, n - 1, k);
        }
    }
}

/// Every entry of the sorted world intersection list names an object.
pub proof fn lemma_world_xs_objs(w: World, r: Ray)
    ensures
        forall|k: int|
            0 <= k < sort_s(all_intersections_s(w, r)).len() ==> (#[trigger] sort_s(
                all_intersections_s(w, r),
            )[k]).obj < w.objects@.len(),
{
    let xs = sort_s(all_intersections_s(w, r));
    assert forall|k: int| 0 <= k < xs.len() implies (#[trigger] xs[k]).obj
        < w.objects@.len() by {
        lemma_sort_contains(all_intersections_s(w, r), k);
        let e = xs[k];
        let j = choose|j: int|
            0 <= j < all_intersections_s(w, r).len() && all_intersections_s(w, r)[j] == e;
        lemma_all_up_to_objs(w, r, w.objects@.len() as int, j);
    }
}

fn insert_pos(out: &Vec<Intersection>, x: Intersection) -> (p: usize)
    ensures
        p <= out@.len(),
        forall|k: int| 0 <= k < p ==> !(x.t < out@[k].t),
        p < out@.len() ==> x.t < out@[p as int].t,
{
    let mut p: usize = 0;
    while p < out.len()
        invariant
            p <= out@.len(),
            forall|k: int| 0 <= k < p ==> !(x.t < out@[k].t),
        decreases out@.len() - p,
    {
        if x.t < out[p].t {
            return p;
        }
        p = p + 1;
    }
    p
}

proof fn lemma_insert_sorted_at(s: Seq<Intersection>, x: Intersection, p: int)
    requires
        0 <= p <= s.len(),
        forall|k: int| 0 <= k < p ==> !(x.t < s[k].t),
        p < s.len() ==> x.t < s[p].t,
    ensures
        insert_sorted_s(s, x) =~= s.insert(p, x),
    decreases s.len(),
{
    if s.len() == 0 {
    } else if x.t < s[0].t {
        assert(p == 0);
    } else {
        lemma_insert_sorted_at(s.drop_first(), x, p - 1);
        assert(seq![s[0]] + s.drop_first().insert(p - 1, x) =~= s.insert(p, x));
    }
}

fn sort_by_t(xs: &Vec<Intersection>) -> (r: Vec<Intersection>)
    ensures
        r@ == sort_s(xs@),
{
    let mut out: Vec<Intersection> = Vec::new();
    let mut i: usize = 0;
    while i < xs.len()
        invariant
            i <= xs@.len(),
            out@ == sort_s(xs@.take(i as int)),
        decreases xs@.len() - i,
    {
        let x = xs[i];
        let p = insert_pos(&out, x);
        proof {
            lemma_insert_sorted_at(out@, x, p as int);
            assert(xs@.take(i as int + 1).drop_last() =~= xs@.take(i as int));
            assert(xs@.take(i as int + 1).last() == xs@[i as int]);
        }
        out.insert(p, x);
        i = i + 1;
    }
    proof {
        assert(xs@.take(xs@.len() as int) =~= xs@);
    }
    out
}

/// Every shape's intersections with the ray, tagged with the shape's
/// index and sorted ascending by `t` (stable insertion order on ties).
pub fn intersect_world(world: &World, ray: &Ray) -> (r: Vec<Intersection>)
    requires
        world.wf(),
    ensures
        r@ == sort_s(all_intersections_s(*world, *ray)),
{
    let mut xs: Vec<Intersection> = Vec::new();
    let mut i: usize = 0;
    while i < world.objects.len()
        invariant
            world.wf(),
            i <= world.objects@.len(),
            xs@ == all_up_to_s(*world, *ray, i as int),
        decreases world.objects@.len() - i,
    {
        let ts = world.objects[i].intersections_by(ray);
        let ghost hits = shape_hits_s(i as int, world.objects@[i as int], *ray);
        let mut j: usize = 0;
        while j < ts.len()
            invariant
                j <= ts@.len(),
                hits == shape_hits_s(i as int, world.objects@[i as int], *ray),
                ts@ == shape_intersections_s(world.objects@[i as int], *ray),
                i < world.objects@.len(),
                xs@ == all_up_to_s(*world, *ray, i as int) + hits.take(j as int),
            decreases ts@.len() - j,
        {
            xs.push(Intersection { obj: i, t: ts[j] });
            proof {
                assert(hits.take(j as int + 1) =~= hits.take(j as int).push(hits[j as int]));
                assert(xs@ =~= all_up_to_s(*world, *ray, i as int) + hits.take(j as int + 1));
            }
            j = j + 1;
        }
        proof {
            assert(hits.take(ts@.len() as int) =~= hits);
            assert(xs@ =~= all_up_to_s(*world, *ray, i as int + 1));
        }
        i = i + 1;
    }
    sort_by_t(&xs)
}

/// The color seen along a ray with `remaining` recursion budget: black on
/// a miss, else the shaded nearest hit.
pub open spec fn color_at_s(w: World, ray: Ray, remaining: u32) -> Color
    decreases remaining, 2int,
{
    let xs = sort_s(all_intersections_s(w, ray));
    let h = hit_index_s(xs);
    if h < 0 {
        black_c()
    } else {
        shade_hit_s(w, prepare_computations_s(w, h, ray, xs), remaining)
    }
}

/// The shade of one hit: the Phong surface term plus the reflected and
/// refracted contributions, Fresnel-blended by the Schlick reflectance
/// when the material is both reflective and transparent.
pub open spec fn shade_hit_s(w: World, comps: Computation, remaining: u32) -> Color
    decreases remaining, 1int,
{
    let material = shape_material(w.objects@[comps.object as int]);
    let surface = lighting_s(
        material,
        shape_inv(w.objects@[comps.object as int]),
        w.light,
        comps.point,
        comps.eye_direction,
        comps.surface_normalv,
        is_shadowed_s(w, comps.over_point),
    );
    let reflected = reflected_color_s(w, comps, remaining);
    let refracted = refracted_color_s(w, comps, remaining);
    if material.reflective > 0 && material.transparency > 0 {
        let reflectance = schlick_s(comps);
        add_c(
            add_c(surface, scale_c(reflected, reflectance)),
            scale_c(refracted, sub_s(SCALE, reflectance)),
        )
    } else {
        add_c(add_c(surface, reflected), refracted)
    }
}

/// The reflected contribution: black when the budget is exhausted or the
/// material is not reflective, else the color along the reflection ray,
/// scaled by the reflectivity.
pub open spec fn reflected_color_s(w: World, comps: Computation, remaining: u32) -> Color
    decreases remaining, 0int,
{
    let reflective = shape_material(w.objects@[comps.object as int]).reflective;
    if remaining <= 0 || reflective == 0 {
        black_c()
    } else {
        scale_c(
            color_at_s(w, Ray { origin: comps.over_point, direction: comps.reflectv }, (remaining - 1) as u32),
            reflective,
        )
    }
}

/// The refracted contribution: black when the budget is exhausted, the
/// material is opaque, or the refraction is total internal reflection;
/// else the color along the Snell ray, scaled by the transparency.
pub open spec fn refracted_color_s(w: World, comps: Computation, remaining: u32) -> Color
    decreases remaining, 0int,
{
    let transparency = shape_material(w.objects@[comps.object as int]).transparency;
    if remaining == 0 {
        black_c()
    } else if transparency == 0 {
        black_c()
    } else {
        let n_ratio = crate::math::div_s(comps.n1, comps.n2);
        let cos_i = dot_t(comps.eye_direction, comps.surface_normalv);
        let sin2_t = mul_s(mul_s(n_ratio, n_ratio), sub_s(SCALE, mul_s(cos_i, cos_i)));
        if sin2_t > SCALE {
            black_c()
        } else {
            let cos_t = crate::math::sqrt_s(sub_s(SCALE, sin2_t));
            let direction = sub_t(
                scale_t(comps.surface_normalv, sub_s(mul_s(n_ratio, cos_i), cos_t)),
                scale_t(comps.eye_direction, n_ratio),
            );
            scale_c(
                color_at_s(
                    w,
                    Ray { origin: comps.under_point, direction },
                    (remaining - 1) as u32,
                ),
                transparency,
            )
        }
    }
}

/// Whether the light is blocked at `point`: some intersection of the ray
/// toward the light lies strictly nearer than the light itself.  (A
/// transparent occluder shadows like an opaque one: the documented
/// simplification.)
#[verifier::opaque]
pub open spec fn is_shadowed_s(w: World, point: Tuple) -> bool {
    let v = sub_t(w.light.position, point);
    let distance = mag_t(v);
    let direction = normalize_t(v);
    let xs = sort_s(all_intersections_s(w, Ray { origin: point, direction }));
    let h = hit_index_s(xs);
    if h < 0 {
        false
    } else {
        xs[h].t < distance
    }
}

/// Whether the light is blocked at `point`.
pub fn is_shadowed(world: &World, point: &Tuple) -> (r: bool)
    requires
        world.wf(),
    ensures
        r == is_shadowed_s(*world, *point),
{
    proof {
        reveal(is_shadowed_s);
    }
    let vector = world.light.position.sub(*point);
    let distance = vector.mag();
    let direction = vector.normalize();
    let ray = Ray::new(*point, direction);
    let intersections = intersect_world(world, &ray);
    proof {
        lemma_hit_index(intersections@);
    }
    let h = hit(&intersections);
    match h {
        Some(i) => {
            proof {
                let hs = hit_index_s(intersections@);
                if hs == -1 {
                    assert(intersections@[i as int].t < 0);
                } else if hs < i as int {
                    assert(intersections@[hs].t >= 0);
                } else if hs > i as int {
                    assert(intersections@[i as int].t < 0);
                }
                assert(hs == i as int);
            }
            intersections[i].t < distance
        },
        None => {
            false
        },
    }
}

/// The color seen along `ray`, with at most `remaining` reflection or
/// refraction bounces.
#[verifier::rlimit(100)]
pub fn color_at(world: &World, ray: &Ray, remaining: u32) -> (c: Color)
    requires
        world.wf(),
    ensures
        c == color_at_s(*world, *ray, remaining),
    decreases remaining, 2int,
{
    let intersections = intersect_world(world, ray);
    proof {
        lemma_hit_index(intersections@);
        lemma_world_xs_objs(*world, *ray);
    }
    let h = hit(&intersections);
    match h {
        Some(i) => {
            proof {
                let hs = hit_index_s(intersections@);
                if hs == -1 {
                    assert(intersections@[i as int].t < 0);
                } else if hs < i as int {
                    assert(intersections@[hs].t >= 0);
                } else if hs > i as int {
                    assert(intersections@[i as int].t < 0);
                }
                assert(hs == i as int);
            }
            let comp = prepare_computations(world, i, ray, &intersections);
            shade_hit(world, &comp, remaining)
        },
        None => black(),
    }
}

/// The shade of one prepared hit.
#[verifier::rlimit(100)]
pub fn shade_hit(world: &World, computation: &Computation, remaining: u32) -> (c: Color)
    requires
        world.wf(),
        computation.object < world.objects@.len(),
    ensures
        c == shade_hit_s(*world, *computation, remaining),
    decreases remaining, 1int,
{
    let in_shadow = is_shadowed(world, &computation.over_point);
    let obj = &world.objects[computation.object];
    let surface = lighting(
        obj.get_material(),
        obj,
        &world.light,
        &computation.point,
        &computation.eye_direction,
        &computation.surface_normalv,
        in_shadow,
    );
    let reflected = reflected_color(world, computation, remaining);
    let refracted = refracted_color(world, computation, remaining);
    let material = world.objects[computation.object].get_material();
    if material.reflective > 0 && material.transparency > 0 {
        let reflectance = schlick(computation);
        return surface.add(reflected.mul(reflectance)).add(
            refracted.mul(fsub(SCALE, reflectance)),
        );
    }
    surface.add(reflected).add(refracted)
}

/// The reflected contribution of a hit.
#[verifier::rlimit(100)]
pub fn reflected_color(world: &World, comps: &Computation, remaining: u32) -> (c: Color)
    requires
        world.wf(),
        comps.object < world.objects@.len(),
    ensures
        c == reflected_color_s(*world, *comps, remaining),
        remaining == 0 ==> c == black_c(),
    decreases remaining, 0int,
{
    let reflective = world.objects[comps.object].get_material().reflective;
    if remaining <= 0 || reflective == 0 {
        return black();
    }
    let reflected_ray = Ray::new(comps.over_point, comps.reflectv);
    let color = color_at(world, &reflected_ray, remaining - 1);
    color.mul(reflective)
}

/// The refracted contribution of a hit.
#[verifier::rlimit(100)]
pub fn refracted_color(world: &World, comps: &Computation, remaining: u32) -> (c: Color)
    requires
        world.wf(),
        comps.object < world.objects@.len(),
    ensures
        c == refracted_color_s(*world, *comps, remaining),
        remaining == 0 ==> c == black_c(),
    decreases remaining, 0int,
{
    if remaining == 0 {
        return black();
    }
    let transparency = world.objects[comps.object].get_material().transparency;
    if transparency == 0 {
        return black();
    }
    let n_ratio = crate::math::fdiv(comps.n1, comps.n2);
    let cos_i = comps.eye_direction.dot(&comps.surface_normalv);
    let sin2_t = fmul(fmul(n_ratio, n_ratio), fsub(SCALE, fmul(cos_i, cos_i)));
    if sin2_t > SCALE {
        return black();
    }
    let cos_t = crate::math::fsqrt(fsub(SCALE, sin2_t));
    let direction = comps.surface_normalv.mul(fsub(fmul(n_ratio, cos_i), cos_t)).sub(
        comps.eye_direction.mul(n_ratio),
    );
    let refract_ray = Ray::new(comps.under_point, direction);
    let color = color_at(world, &refract_ray, remaining - 1);
    color.mul(transparency)
}

} // verus!
