//! Client side of a graphics-hook capture: the names of the objects shared
//! with the hook, the layout of its control block, the offsets it needs, the
//! injector's interface, and the launch and frame-acquisition sequences as
//! verified state machines whose steps an OS layer performs.

pub mod bytes;
pub mod capture;
pub mod color;
pub mod error;
pub mod hook_info;
pub mod inject;
pub mod loader;
pub mod names;
pub mod offsets;
pub mod pipe;

pub use capture::{Capture, CaptureConfig, Context};
pub use color::BGRA8;
pub use error::ObsError;
pub use hook_info::{CaptureType, HookInfo, SharedTextureData};
pub use inject::{ExitStatus, InjectHelperError};
pub use loader::{parse_graphic_offsets, GraphicOffsetsError};
pub use offsets::{GraphicOffsets, ParsedGraphicOffsets, DDraw, D3D8, D3D9, DXGI};
