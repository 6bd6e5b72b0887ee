//! Core of a client that runs an untrusted guest program and turns the drawing
//! commands it records into a scene description for an external renderer.
//!
//! Coordinates are a type parameter `C` throughout: the library only moves
//! them from the command stream into the scene, and never does arithmetic on
//! them.
pub mod artifact;
pub mod command;
pub mod lifecycle;
pub mod scene;
