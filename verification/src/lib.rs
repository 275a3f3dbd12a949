//! Reservoir-based spatio-temporal importance resampling for a real-time
//! renderer.
//!
//! Every pixel keeps a reservoir with one light for its direct lighting and
//! reservoirs with one bounce of light for its indirect lighting. Each
//! frame the reservoirs are filled with new samples, merged with those of
//! the previous frame and of neighbouring pixels, and turned into radiance.
//!
//! The library decides; tracing rays, evaluating lights and talking to the
//! GPU is left to its caller. Quantities are held in fixed point, see
//! [`fixed`].

// Numbers and noise.
pub mod fixed;
pub mod noise;

// What the passes work on.
pub mod camera;
pub mod color;
pub mod reprojection;
pub mod reservoir;
pub mod ring;
pub mod sample;
pub mod surface;

// The passes of a frame, pixel by pixel.
pub mod direct_temporal_resampling;
pub mod indirect_diffuse_temporal_resampling;
pub mod indirect_initial_shading;
pub mod indirect_spatial_resampling;
pub mod indirect_temporal_resampling;
pub mod indirect_tracing;
pub mod lighting;
pub mod pattern;
pub mod pixel;
pub mod reference;
pub mod resolving;
pub mod spatial_resampling;

// The acceleration structure and its traversal's telemetry.
pub mod bvh;
pub mod heatmap;

// What the GPU is asked for.
pub mod passes;
pub mod text;
pub mod texture;
