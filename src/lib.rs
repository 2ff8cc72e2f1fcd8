//! Attach translucent "glass" effect surfaces to native windows and manage
//! them by opaque integer ids.
//!
//! The library holds the decisions: which surface strategy to use, how a
//! tint colour is parsed, which setter name carries an integer property, and
//! which ids are alive. The native toolkit work is handed out as actions and
//! its outcomes come back as events, so every rule is verified.

pub mod attach;
pub mod color;
pub mod error;
pub mod platform;
pub mod setter;
pub mod variant;

pub use attach::{AddAction, AddEvent, AddSession, AddStage, AddStep, EffectOptions, FallbackConfig};
pub use color::{parse_hex_color, parse_hex_digits, parse_trimmed_hex, Rgba8};
pub use error::GlassError;
pub use platform::{GlassViewManager, ManagerModel, RegistryOp};
pub use setter::{private_setter_name, public_setter_name, public_setter_name_from, PropertyRequest, SetterForm};
pub use variant::GlassMaterialVariant;
