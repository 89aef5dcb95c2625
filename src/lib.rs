//! Request planning and answer extraction for a desktop assistant that asks a
//! remote multimodal model about typed questions and screenshots.
//!
//! Apart from drawing record identifiers the library is pure: the host program performs the screen capture, the
//! HTTP exchange, the window toggle and the storage write, and hands the
//! outcomes to the functions of this crate, which decide what happens next.
pub mod capture;
pub mod message;
pub mod query;
pub mod record;
pub mod response;
pub mod text;
pub mod window;
