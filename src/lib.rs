//! Runtime loading layer over the VOICEVOX CORE speech-synthesis engine.
//!
//! The library holds the decisions of the layer: which downloader to fetch for
//! a platform, when assets must be provisioned, how text and options are put in
//! the shape that the engine's C interface expects, how status codes are read,
//! when the engine still has to be initialized, and when a buffer that the
//! engine handed out must be given back to it.
pub mod buffer;
pub mod cstring;
pub mod error;
pub mod options;
pub mod platform;
pub mod provision;
pub mod result_code;
pub mod session;

pub use buffer::ReleaseGuard;
pub use error::Error;
pub use options::{AccelerationMode, InitOptions, TtsOptions};
pub use platform::{library_file_name, voicevox_downloader_url};
pub use provision::{downloader_args, downloader_outcome, plan_provision, ProvisionPlan};
pub use result_code::ResultCode;
pub use session::{encode_tts_text, finish_load_model, finish_tts, InitStep, Session};
