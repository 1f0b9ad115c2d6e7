//! Rendering of bibliographic records as citations in six academic styles.
pub mod markup;
pub mod names;
pub mod reference;
pub mod html;
pub mod laws;
pub mod routes;
pub mod screenshot;
pub mod search;
pub mod server;
