use vstd::prelude::*;
use crate::inject::InjectHelperError;
use crate::loader::GraphicOffsetsError;

verus! {

/// An I/O error of the OS layer; carried, never inspected.
#[verifier::external_type_specification]
#[verifier::external_body]
pub struct ExIoError(std::io::Error);

/// Why a capture could not be launched or a frame not acquired.
#[derive(Debug)]
pub enum ObsError {
    /// No top-level window has the title, or it has no thread or process.
    ProcessNotFound,
    /// Injecting the hook failed.
    Inject(InjectHelperError),
    /// The graphics offsets could not be loaded.
    LoadGraphicOffsets(GraphicOffsetsError),
    /// The diagnostics pipe could not be created.
    CreatePipe,
    /// The keep-alive mutex could not be created.
    CreateMutex,
    /// A coordination event could not be opened.
    CreateEvent,
    /// A shared mapping could not be opened; carries the OS error code.
    CreateFileMapping(u32),
    /// The GPU device could not be created.
    CreateDevice,
    /// The shared texture could not be opened by the device.
    OpenSharedResource,
    /// The CPU-readable staging texture could not be created.
    CreateTexture,
    /// The staging surface could not be mapped for reading.
    MapSurface,
}

} // verus!
