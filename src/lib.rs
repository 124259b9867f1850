//! Free-camera control for a running game: the pointer-chain resolver, the
//! code-patch manager and the camera transform, with the decisions of each
//! stated and proved. The host side (process access, key and mouse polling,
//! floating-point arithmetic) drives these through plain values.
pub mod camera;
pub mod chain;
pub mod controller;
pub mod input;
pub mod layout;
pub mod names;
pub mod patch;
