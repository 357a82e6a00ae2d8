//! Application settings.
use vstd::prelude::*;

verus! {

/// Settings of the daemon and the picker.
#[derive(Clone, Debug, PartialEq, Eq)]
pub struct AppConfig {
    pub database_path: String,
    pub max_history_items: usize,
    pub auto_paste: bool,
    pub paste_command: String,
    pub capture_text: bool,
    pub capture_html: bool,
    pub capture_images: bool,
}

impl Default for AppConfig {
    /// History in `rcopy.db`, at most 10000 items, automatic paste with
    /// `wtype`, and capture of plain text, HTML and images.
    fn default() -> (c: Self)
        ensures
            c.database_path@ == "rcopy.db"@,
            c.max_history_items == 10_000,
            c.auto_paste,
            c.paste_command@ == "wtype"@,
            c.capture_text,
            c.capture_html,
            c.capture_images,
    {
        AppConfig {
            database_path: String::from_str("rcopy.db"),
            max_history_items: 10_000,
            auto_paste: true,
            paste_command: String::from_str("wtype"),
            capture_text: true,
            capture_html: true,
            capture_images: true,
        }
    }
}

} // verus!
