//! Installing an executable, or a whole archive, from a downloaded release asset: classifying
//! the asset by its suffix, stripping its compression, picking the executable among an
//! archive's members, and deciding whether an unpacked tree loses its top-level directory.

pub mod archive;
pub mod codec;
pub mod error;
pub mod format;
pub mod installer;
pub mod matcher;
pub mod text;
