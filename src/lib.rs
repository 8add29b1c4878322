pub mod array;
pub mod detector;
pub mod family;
pub mod image;

pub use array::Array;
pub use detector::{Detection, Detector};
pub use family::{Family, FamilyRegistry, TagFamily};
pub use image::{Image, ImageU8};
