//! Classification of SDK build identifiers.
//!
//! An SDK catalog names each build with a vendor-specific identifier string
//! (for example `21.0.9.fx-librca` or `25.0.1-graalvm`). This crate models
//! one build's metadata as a record and derives the build's functional
//! categories — plain JDK, JavaFX-enabled, Native-Image-capable — from the
//! identifier alone, by case-insensitive substring markers.

pub mod category;
pub mod record;
pub mod text;

pub use category::JdkCategory;
pub use record::SdkVersion;
