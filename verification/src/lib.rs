//! Verified core of a CPU-usage sidecar: a text-exposition metrics registry
//! holding a single gauge, the sampler's per-tick decision logic, and the
//! shared cell through which the sampler publishes and the endpoint reads.
//!
//! The gauge's current value is carried as its decimal text, exactly as it
//! appears in the rendered exposition body; the surrounding binary converts
//! the sampled number to text before handing it in.

pub mod laws;
pub mod metrics;
pub mod sampler;
pub mod shared;
