// Control state of a free-fly camera, in exact integer arithmetic: where the camera
// looks, which ways it is asked to travel, what the pointer did, and a configuration
// that is always a valid frustum. The vectors and matrices that follow from this state
// are floating-point work and belong to the host. Every quantity is an integer, in the
// units that the module `units` names.
pub mod angle;
pub mod camera;
pub mod host;
pub mod input;
pub mod mesh;
pub mod settings;
pub mod units;
