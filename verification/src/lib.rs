//! A small generic numeric library: a four-component vector type with
//! component-wise arithmetic, identities and partial ordering over any
//! scalar that supplies the needed capabilities, and a family of
//! distance-unit types connected by conversions with exact integer
//! scale factors.

pub mod dist;
pub mod scalar;
pub mod vec4;

pub use scalar::Scalar;
pub use vec4::Vec4;
