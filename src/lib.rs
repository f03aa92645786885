//! Protocol byte buffer, entity components and the terrain density field
//! of a voxel-world game server.

pub mod bytebuf;
pub mod noise;
pub mod squid;

pub use bytebuf::ByteBuf;
pub use noise::{index, NoiseError, SampleRequest, Wrapped3DPerlinNoise};
pub use squid::SquidComponent;
