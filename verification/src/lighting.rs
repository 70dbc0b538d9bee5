//! The Phong illumination of a single point light, with shadow gating.

use vstd::prelude::*;
use crate::color::{add_c, black_c, hadamard_c, scale_c, Color};
use crate::material::Material;
use crate::math::SCALE;
use crate::pattern::pattern_color_obj_s;
use crate::shape::{shape_inv, shape_material, Shape};
use crate::tuple::{dot_t, neg_t, normalize_t, reflect_t, sub_t, Tuple};

verus! {

/// A point light: a position and an intensity.
#[derive(Clone, Copy, Debug)]
pub struct PointLight {
    pub position: Tuple,
    pub intensity: Color,
}

impl PointLight {
    pub fn new(position: Tuple, intensity: Color) -> (l: PointLight)
        ensures
            l == (PointLight { position, intensity }),
    {
        PointLight { position, intensity }
    }
}

/// The surface color at a point: the pattern's color when the material has
/// one, else the flat material color.
pub open spec fn resolved_color_s(material: Material, shape_inverse: crate::matrix::Matrix4, point: Tuple) -> Color {
    match material.pattern {
        Some(p) => pattern_color_obj_s(p, shape_inverse, point),
        None => material.color,
    }
}

/// The Phong sum: ambient plus diffuse plus specular, where diffuse and
/// specular are black when the light is behind the surface or the point is
/// in shadow, and specular is black when the reflection misses the eye.
#[verifier::opaque]
pub open spec fn lighting_s(
    material: Material,
    shape_inverse: crate::matrix::Matrix4,
    light: PointLight,
    point: Tuple,
    eye_dir: Tuple,
    surface_normal: Tuple,
    in_shadow: bool,
) -> Color {
    let color = resolved_color_s(material, shape_inverse, point);
    let effective_color = hadamard_c(color, light.intensity);
    let light_vector = normalize_t(sub_t(light.position, point));
    let ambient = scale_c(effective_color, material.ambient);
    let light_dot_normal = dot_t(light_vector, surface_normal);
    let diffuse = if light_dot_normal < 0 || in_shadow {
        black_c()
    } else {
        scale_c(scale_c(effective_color, material.diffuse), light_dot_normal)
    };
    let specular = if light_dot_normal < 0 || in_shadow {
        black_c()
    } else {
        let reflect_v = reflect_t(neg_t(light_vector), surface_normal);
        let reflect_dot_eye = dot_t(reflect_v, eye_dir);
        if reflect_dot_eye <= 0 {
            black_c()
        } else {
            let factor = crate::math::pow_s(
                reflect_dot_eye,
                ((material.shininess as int) / (SCALE as int)) as nat,
            );
            scale_c(scale_c(light.intensity, material.specular), factor)
        }
    };
    add_c(add_c(ambient, diffuse), specular)
}

/// The Phong illumination of `point` on `obj`, whose material is passed
/// alongside as the callers resolve it.
pub fn lighting(
    material: &Material,
    obj: &Shape,
    light: &PointLight,
    point: &Tuple,
    eye_dir: &Tuple,
    surface_normal: &Tuple,
    in_shadow: bool,
) -> (c: Color)
    requires
        material.wf(),
        obj.wf(),
    ensures
        c == lighting_s(
            *material,
            shape_inv(*obj),
            *light,
            *point,
            *eye_dir,
            *surface_normal,
            in_shadow,
        ),
{
    proof {
        reveal(lighting_s);
    }
    let color = match &material.pattern {
        Some(p) => p.color_at_obj(obj.get_inverse_transformation(), point),
        None => material.color,
    };
    let effective_color = color.hadamard(light.intensity);
    let light_vector = light.position.sub(*point).normalize();
    let ambient = effective_color.mul(material.ambient);
    let light_dot_normal = light_vector.dot(surface_normal);
    let diffuse: Color;
    let specular: Color;
    if light_dot_normal < 0 || in_shadow {
        diffuse = crate::color::black();
        specular = crate::color::black();
    } else {
        diffuse = effective_color.mul(material.diffuse).mul(light_dot_normal);
        let reflect_v = crate::tuple::reflect(&light_vector.neg(), surface_normal);
        let reflect_dot_eye = reflect_v.dot(eye_dir);
        if reflect_dot_eye <= 0 {
            specular = crate::color::black();
        } else {
            let exponent_units = material.shininess / SCALE;
            let factor = crate::math::fpow(reflect_dot_eye, exponent_units as u32);
            specular = light.intensity.mul(material.specular).mul(factor);
        }
    }
    ambient.add(diffuse).add(specular)
}

} // verus!
