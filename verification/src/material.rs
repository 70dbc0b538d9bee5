//! Surface materials: the Phong coefficients, the reflection and refraction
//! parameters, and an optional pattern.

use vstd::prelude::*;
use crate::color::{white_c, Color};
use crate::math::SCALE;
use crate::pattern::Pattern;

verus! {

/// Refractive index of vacuum.
pub const VACCUM_REFRACTIVE_INDEX: i64 = 1_000_000;

/// Refractive index of air.
pub const AIR_REFRACTIVE_INDEX: i64 = 1_000_290;

/// Refractive index of water.
pub const WATER_REFRACTIVE_INDEX: i64 = 1_333_000;

/// Refractive index of glass.
pub const GLASS_REFRACTIVE_INDEX: i64 = 1_500_000;

/// Refractive index of diamond.
pub const DIAMOND_REFRACTIVE_INDEX: i64 = 2_417_000;

/// The default material as a value: ambient 0.1, diffuse 0.9, specular
/// 0.9, shininess 200, no reflection, no transparency, vacuum index, flat
/// white, no pattern.
pub open spec fn default_material_s() -> Material {
    Material {
        ambient: 100_000i64,
        diffuse: 900_000i64,
        specular: 900_000i64,
        shininess: 200_000_000i64,
        reflective: 0i64,
        transparency: 0i64,
        refractive_index: 1_000_000i64,
        color: white_c(),
        pattern: None,
    }
}

#[derive(Clone, Debug)]
pub struct Material {
    pub ambient: i64,
    pub diffuse: i64,
    pub specular: i64,
    pub shininess: i64,
    pub reflective: i64,
    pub transparency: i64,
    pub refractive_index: i64,
    pub color: Color,
    pub pattern: Option<Pattern>,
}

impl Material {
    /// The documented ranges: the Phong coefficients, the reflectivity and
    /// the transparency lie in [0, 1]; the refractive index is positive;
    /// the shininess exponent is nonnegative (and kept below one thousand,
    /// the working range of the specular power); a pattern, if any,
    /// carries a well-formed inverse transform.
    pub open spec fn wf(self) -> bool {
        &&& 0 <= self.ambient <= SCALE
    &&& 0 <= self.diffuse <= SCALE
    &&& 0 <= self.specular <= SCALE
    &&& 0 <= self.shininess <= 1_000_000_000
    &&& 0 <= self.reflective <= SCALE
    &&& 0 <= self.transparency <= SCALE
    &&& 0 < self.refractive_index
    &&& match self.pattern {
            Some(p) => p.wf(),
            None => true,
        }
    }

    /// The default material: ambient 0.1, diffuse 0.9, specular 0.9,
    /// shininess 200, no reflection, no transparency, vacuum index, white.
    pub fn default() -> (m: Material)
        ensures
            m.wf(),
            m == default_material_s(),
    {
        Material {
            ambient: 100_000,
            diffuse: 900_000,
            specular: 900_000,
            shininess: 200_000_000,
            reflective: 0,
            refractive_index: SCALE,
            transparency: 0,
            color: Color { red: SCALE, green: SCALE, blue: SCALE },
            pattern: None,
        }
    }
}

} // verus!
