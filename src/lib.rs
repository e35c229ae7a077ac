//! Locates the texture assets declared by the class metadata of a compiled
//! animation document, and plans how each one is captured from a shared render
//! surface.
pub mod pool;
pub mod document;
pub mod matcher;
pub mod atlas;
pub mod capture;
