//! The control side of a Monte Carlo path tracer over a scene of spheres.
//!
//! The geometry and the shading are floating-point work that stays with the
//! caller. What this crate holds, and proves, is every decision that does not
//! need a float: which sphere a ray hits first, how deep a path may go and
//! when Russian roulette applies, which rays a material sends on, and how the
//! pixel buffer is cut into scanline bands.

pub mod frame;
pub mod hit;
pub mod path;

pub use frame::{band, film_row, samples_per_pixel, STRATA};
pub use hit::nearest_hit;
pub use path::{scatter, survival, Material, Scatter, Survival, MAX_DEPTH, ROULETTE_DEPTH, SPLIT_DEPTH};
