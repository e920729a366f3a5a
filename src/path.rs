//! The decisions of the recursive radiance estimator.
//!
//! At every bounce the estimator increments the path's depth, decides whether
//! the path survives (always near the camera, by Russian roulette deeper in,
//! never past the backstop), and then lets the material say which rays are
//! traced next. The caller does the floating-point work in between: the draw
//! against the albedo, the bounce directions, the Fresnel weights.

use vstd::prelude::*;

verus! {

/// Depths up to this one always continue; deeper paths face Russian roulette.
pub const ROULETTE_DEPTH: u8 = 5;

/// The hard backstop: a path whose depth reaches this value ends.
pub const MAX_DEPTH: u8 = 127;

/// Up to this depth a glass surface traces both the reflected and the
/// transmitted ray; deeper, it picks one of them at random.
pub const SPLIT_DEPTH: u8 = 2;

/// How a sphere's surface scatters light.
#[derive(Clone, Copy, Debug, PartialEq, Eq, Structural)]
pub enum Material {
    /// Lambertian: one cosine-weighted direction about the facing normal.
    Diffuse,
    /// Ideal mirror.
    Specular,
    /// Dielectric glass of index 1.5.
    Refractive,
}

/// What becomes of a path at a bounce.
#[derive(Clone, Copy, Debug, PartialEq, Eq, Structural)]
pub enum Survival {
    /// The path continues at `depth`, its albedo unchanged.
    Continue { depth: u8 },
    /// The path continues at `depth` only if a uniform draw in [0, 1) falls
    /// below the largest channel `p` of the albedo; a surviving path has its
    /// albedo divided by `p`, and any other returns the sphere's emission.
    Roulette { depth: u8 },
    /// The path ends: the estimate is the sphere's emission alone.
    Terminate,
}

/// What happens to a path that reaches a surface at `depth`.
pub open spec fn survival_of(depth: u8) -> Survival {
    let next = depth + 1;
    if next <= ROULETTE_DEPTH {
        Survival::Continue { depth: next as u8 }
    } else if next < MAX_DEPTH {
        Survival::Roulette { depth: next as u8 }
    } else {
        Survival::Terminate
    }
}

/// The depth at which a path goes on, if it may.
pub open spec fn next_depth(s: Survival) -> Option<u8> {
    match s {
        Survival::Continue { depth } => Some(depth),
        Survival::Roulette { depth } => Some(depth),
        Survival::Terminate => None,
    }
}

/// Decides the fate of a path that has just hit a surface at `depth`.
/// The depth is incremented first, so a primary ray (depth 0) continues at 1.
pub fn survival(depth: u8) -> (r: Survival)
    ensures
        r == survival_of(depth),
{
    if depth >= MAX_DEPTH - 1 {
        Survival::Terminate
    } else if depth < ROULETTE_DEPTH {
        Survival::Continue { depth: depth + 1 }
    } else {
        Survival::Roulette { depth: depth + 1 }
    }
}

/// Every recursive call of the estimator goes one level deeper and stays
/// below the backstop, so no path is ever traced past `MAX_DEPTH` bounces.
pub proof fn lemma_depth_bounded(depth: u8)
    ensures
        next_depth(survival_of(depth)) matches Some(d) ==> d == depth + 1 && d < MAX_DEPTH,
        depth + 1 >= MAX_DEPTH ==> survival_of(depth) == Survival::Terminate,
{
}

/// Which rays leave a surface, once the path has survived.
#[derive(Clone, Copy, Debug, PartialEq, Eq, Structural)]
pub enum Scatter {
    /// One cosine-weighted direction over the hemisphere about the normal
    /// that faces the incoming ray.
    CosineSample,
    /// The mirror direction.
    Mirror,
    /// Glass that refracts nothing at this angle: the mirror direction only.
    InternalReflection,
    /// Glass near the camera: both rays, weighted by reflectance `Re` and
    /// transmittance `1 - Re`.
    Both,
    /// Glass deeper in: the reflected ray with probability `P = 0.25 + Re/2`,
    /// weighted by `Re/P`, else the transmitted ray, weighted by `(1-Re)/(1-P)`.
    ChooseOne,
}

/// The rays that a surface of `material` sends on from a path at `depth`
/// (the depth after the increment). `total_internal` says whether the
/// refraction discriminant is negative; only glass consults it.
pub open spec fn scatter_of(material: Material, depth: u8, total_internal: bool) -> Scatter {
    match material {
        Material::Diffuse => Scatter::CosineSample,
        Material::Specular => Scatter::Mirror,
        Material::Refractive => if total_internal {
            Scatter::InternalReflection
        } else if depth <= SPLIT_DEPTH {
            Scatter::Both
        } else {
            Scatter::ChooseOne
        },
    }
}

/// Chooses the rays that leave a surface of `material` on a path at `depth`.
pub fn scatter(material: Material, depth: u8, total_internal: bool) -> (r: Scatter)
    ensures
        r == scatter_of(material, depth, total_internal),
{
    match material {
        Material::Diffuse => Scatter::CosineSample,
        Material::Specular => Scatter::Mirror,
        Material::Refractive => {
            if total_internal {
                Scatter::InternalReflection
            } else if depth <= SPLIT_DEPTH {
                Scatter::Both
            } else {
                Scatter::ChooseOne
            }
        },
    }
}

} // verus!
