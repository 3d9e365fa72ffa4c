//! Core of a utility that loads a browser session-store file, lets the user
//! pick which open and closed window groups to keep, and exports them as links.
//!
//! The library holds the load pipeline, the selection model and the message
//! dispatcher. Reading files, decompressing, parsing and rendering are done by
//! the caller and handed in as closures or as plain values.
pub mod dispatcher;
pub mod file_data;
pub mod format;
pub mod groups;
pub mod path;
pub mod profile;
pub mod selection;
pub mod wizard;

pub use dispatcher::{Message, SessionDataUtility, Status, Step, Task};
pub use file_data::{Destination, FileData, FileInfo, PipelineError, WebSendable};
pub use format::{FormatInfo, LinkSettings, OutputOptions};
pub use groups::{AllTabGroups, TabGroup};
pub use profile::{FirefoxProfileInfo, PresentFiles, SessionStoreFile};
pub use selection::GenerateOptions;
pub use wizard::State;
