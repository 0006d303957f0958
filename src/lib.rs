//! Frame-graph logic of a depth-peeling renderer: render-target descriptors and
//! their resize rules, bind-group schemas, the per-frame pass plan, a fixed-point
//! first-person camera and the panorama texture sizing rule.
pub mod target;
pub mod texture;
pub mod binding;
pub mod target_set;
pub mod camera;
pub mod frame;
pub mod pipeline;
pub mod state;
pub mod peel;
pub mod instance;
pub mod context;
