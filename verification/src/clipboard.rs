//! Clipboard access: the in-memory clipboard, the `xclip` commands, and how
//! their failures are read.
use vstd::prelude::*;
use crate::item::{ClipboardPayload, PayloadView};
use crate::text::{chars_of, string_of, trim, trimmed};

verus! {

/// A failed clipboard access.
#[derive(Clone, Debug, PartialEq, Eq)]
pub enum ClipboardError {
    Command(String),
    StateUnavailable,
}

impl ClipboardError {
    /// The error's message.
    pub open spec fn message_view(&self) -> Seq<char> {
        match self {
            ClipboardError::Command(m) => "clipboard command failed: "@ + m@,
            ClipboardError::StateUnavailable => "clipboard state unavailable"@,
        }
    }

    /// The error's message.
    pub fn message(&self) -> (m: String)
        ensures
            m@ == self.message_view(),
    {
        match self {
            ClipboardError::Command(detail) => {
                let mut m = String::from_str("clipboard command failed: ");
                m.append(detail.as_str());
                m
            },
            ClipboardError::StateUnavailable => String::from_str("clipboard state unavailable"),
        }
    }
}

/// A clipboard held in memory: what reading it gives, and what was last
/// written to it.
#[derive(Clone, Debug)]
pub struct MemoryClipboard {
    current: ClipboardPayload,
    written: Option<ClipboardPayload>,
}

impl MemoryClipboard {
    /// What reading the clipboard gives.
    pub closed spec fn current_view(&self) -> PayloadView {
        self.current@
    }

    /// What was last written, if anything.
    pub closed spec fn written_view(&self) -> Option<PayloadView> {
        match self.written {
            Some(p) => Some(p@),
            None => None,
        }
    }

    /// A clipboard holding `payload`, with nothing written yet.
    pub fn new(payload: ClipboardPayload) -> (c: Self)
        ensures
            c.current_view() == payload@,
            c.written_view() is None,
    {
        MemoryClipboard { current: payload, written: None }
    }

    /// The payload on the clipboard.
    pub fn read_supported(&self) -> (r: Result<ClipboardPayload, ClipboardError>)
        ensures
            r matches Ok(p) && p@ == self.current_view(),
    {
        Ok(self.current.duplicate())
    }

    /// Records `payload` as written.
    pub fn write_payload(&mut self, payload: &ClipboardPayload) -> (r: Result<(), ClipboardError>)
        ensures
            r is Ok,
            final(self).written_view() == Some(payload@),
            final(self).current_view() == old(self).current_view(),
    {
        self.written = Some(payload.duplicate());
        Ok(())
    }

    /// The payload last written; `StateUnavailable` when nothing was.
    pub fn last_written(&self) -> (r: Result<ClipboardPayload, ClipboardError>)
        ensures
            match self.written_view() {
                Some(p) => r matches Ok(q) && q@ == p,
                None => r == Err::<ClipboardPayload, ClipboardError>(
                    ClipboardError::StateUnavailable,
                ),
            },
    {
        match &self.written {
            Some(p) => Ok(p.duplicate()),
            None => Err(ClipboardError::StateUnavailable),
        }
    }
}

/// The X11 clipboard, read and written through `xclip`-compatible commands.
#[derive(Clone, Debug)]
pub struct X11Clipboard {
    paste_command: String,
    copy_command: String,
}

impl X11Clipboard {
    /// The command that reads the clipboard.
    pub closed spec fn paste_command_view(&self) -> Seq<char> {
        self.paste_command@
    }

    /// The command that writes the clipboard.
    pub closed spec fn copy_command_view(&self) -> Seq<char> {
        self.copy_command@
    }

    /// The clipboard through `xclip`.
    pub fn new() -> (c: Self)
        ensures
            c.paste_command_view() == "xclip"@,
            c.copy_command_view() == "xclip"@,
    {
        Self::with_commands("xclip", "xclip")
    }

    /// The clipboard through the given commands.
    pub fn with_commands(paste_command: &str, copy_command: &str) -> (c: Self)
        ensures
            c.paste_command_view() == paste_command@,
            c.copy_command_view() == copy_command@,
    {
        X11Clipboard {
            paste_command: String::from_str(paste_command),
            copy_command: String::from_str(copy_command),
        }
    }

    /// The command that reads the clipboard.
    pub fn paste_command(&self) -> (c: &str)
        ensures
            c@ == self.paste_command_view(),
    {
        self.paste_command.as_str()
    }

    /// The command that writes the clipboard.
    pub fn copy_command(&self) -> (c: &str)
        ensures
            c@ == self.copy_command_view(),
    {
        self.copy_command.as_str()
    }
}

/// The outcome of reading one target.
#[derive(Clone, Debug, PartialEq, Eq)]
pub enum ReadResult<T> {
    Available(T),
    Unsupported,
}

fn trimmed_text(s: &str) -> (t: String)
    ensures
        t@ == trim(s@),
{
    let cs = chars_of(s);
    let v = trimmed(&cs);
    string_of(&v)
}

/// A failed read of target `mime`: exit code 1 means the target is not
/// available; anything else is an error carrying the trimmed stderr.
pub fn classify_xclip_failure<T>(mime: &str, exit_code: Option<i32>, stderr: &str) -> (r: Result<
    ReadResult<T>,
    ClipboardError,
>)
    ensures
        exit_code == Some(1i32) ==> r matches Ok(ReadResult::Unsupported),
        exit_code != Some(1i32) ==> (r matches Err(ClipboardError::Command(m)) && m@
            == "xclip failed for "@ + mime@ + ": "@ + trim(stderr@)),
{
    if exit_code == Some(1i32) {
        Ok(ReadResult::Unsupported)
    } else {
        let mut m = String::from_str("xclip failed for ");
        m.append(mime);
        m.append(": ");
        let t = trimmed_text(stderr);
        m.append(t.as_str());
        Err(ClipboardError::Command(m))
    }
}

/// A failed `TARGETS` query, carrying the trimmed stderr.
pub fn targets_failure(stderr: &str) -> (e: ClipboardError)
    ensures
        e matches ClipboardError::Command(m) && m@ == "xclip TARGETS failed: "@ + trim(stderr@),
{
    let mut m = String::from_str("xclip TARGETS failed: ");
    let t = trimmed_text(stderr);
    m.append(t.as_str());
    ClipboardError::Command(m)
}

} // verus!
