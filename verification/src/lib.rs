pub mod error;
pub mod cursor;
pub mod blockdata;
pub mod biomes;
pub mod extra;
pub mod text;
pub mod world;

pub use error::DecodeError;
pub use world::{DanWorld, DanChunk, DanChunkSection, DanDimension};
