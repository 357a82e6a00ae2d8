//! A local clipboard history: capture of the clipboard into a SQLite
//! database, search and ranking of the history, restore of an item to the
//! clipboard, and the state and texts of the picker that browses it.
pub mod clipboard;
pub mod clipboard_read;
pub mod config;
pub mod hash;
pub mod html;
pub mod instance;
pub mod ipc;
pub mod item;
pub mod mime;
pub mod paste;
pub mod preview;
pub mod restore;
pub mod replies;
pub mod search;
pub mod service;
pub mod storage;
pub mod text;
pub mod view_model;

pub use clipboard::{ClipboardError, MemoryClipboard, X11Clipboard};
pub use config::AppConfig;
pub use hash::content_hash;
pub use ipc::{IpcClient, IpcRequest, IpcResponse};
pub use item::{ClipboardItem, ClipboardPayload};
pub use mime::{select_supported_mimes, MimeKind};
pub use paste::{DisabledPasteBackend, PasteError, XdotoolPasteBackend};
pub use search::rank_items;
pub use service::{CaptureResponse, DaemonService, RestoreResponse, ServiceError};
pub use storage::{Repository, StorageError};
pub use view_model::PickerModel;
