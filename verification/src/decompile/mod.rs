//! Main decompilation pipeline.

pub mod backend;
pub mod debug;
pub mod options;
pub mod pipeline;
pub mod products;
pub mod stages;
pub mod state;

pub use backend::DecompileBackend;
pub use debug::{DebugOptions, StageDebugOutput};
pub use options::{DecompileDialect, DecompileOptions};
pub use pipeline::{DecompileResult, decompile};
pub use stages::run_decompile_stages;
pub use state::{DecompileStage, DecompileState};
