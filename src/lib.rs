//! Provisioning of a local model file and invocation of an external
//! inference executable against it.
//!
//! The library holds the decisions: where the model file lives, how a
//! download session reacts to what the network hands it, how progress is
//! counted, which arguments the inference executable receives and how its
//! output and exit status become a result. Filesystem, network and process
//! work is done by the caller, who feeds the outcomes back in.
pub mod store;
pub mod download;
pub mod invoke;

pub use store::{model_exists, model_file_path, partial_file_path};
pub use download::{
    is_success_status, DownloadAction, DownloadError, DownloadEvent, DownloadProgress,
    DownloadSession, Phase,
};
pub use invoke::{
    build_args, chat_prompt, collect_lines, complete, decimal, Completion, InvokeError,
    InvokerConfig, OutputCollector,
};
