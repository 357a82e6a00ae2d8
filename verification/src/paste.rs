//! Automatic paste after a restore.
use vstd::prelude::*;

verus! {

/// A failed automatic paste.
#[derive(Clone, Debug, PartialEq, Eq)]
pub enum PasteError {
    Unavailable(String),
    Command(String),
}

impl PasteError {
    /// The error's message.
    pub open spec fn message_view(&self) -> Seq<char> {
        match self {
            PasteError::Unavailable(m) => "paste backend unavailable: "@ + m@,
            PasteError::Command(m) => "paste command failed: "@ + m@,
        }
    }

    /// The error's message.
    pub fn message(&self) -> (m: String)
        ensures
            m@ == self.message_view(),
    {
        match self {
            PasteError::Unavailable(detail) => {
                let mut m = String::from_str("paste backend unavailable: ");
                m.append(detail.as_str());
                m
            },
            PasteError::Command(detail) => {
                let mut m = String::from_str("paste command failed: ");
                m.append(detail.as_str());
                m
            },
        }
    }
}

/// A paste backend that never pastes.
#[derive(Clone, Copy, Debug)]
pub struct DisabledPasteBackend;

impl DisabledPasteBackend {
    /// Always reports that automatic paste is disabled.
    pub fn paste(&self) -> (r: Result<(), PasteError>)
        ensures
            r matches Err(PasteError::Unavailable(m)) && m@ == "automatic paste disabled"@,
    {
        Err(PasteError::Unavailable(String::from_str("automatic paste disabled")))
    }
}

/// Pastes by sending Ctrl+V with an `xdotool`-compatible command.
#[derive(Clone, Debug)]
pub struct XdotoolPasteBackend {
    command: String,
}

impl XdotoolPasteBackend {
    /// The command run to paste.
    pub closed spec fn command_view(&self) -> Seq<char> {
        self.command@
    }

    /// A backend running `command`.
    pub fn new(command: &str) -> (b: Self)
        ensures
            b.command_view() == command@,
    {
        XdotoolPasteBackend { command: String::from_str(command) }
    }

    /// The command run to paste.
    pub fn command(&self) -> (c: &str)
        ensures
            c@ == self.command_view(),
    {
        self.command.as_str()
    }
}

/// Why the paste command could not be started.
#[derive(Clone, Copy, Debug, PartialEq, Eq)]
pub enum SpawnFailure {
    NotFound,
    PermissionDenied,
    Other,
}

/// A command that could not be started: missing or not permitted means
/// paste is unavailable; anything else is a command failure.
pub fn spawn_failure_error(kind: SpawnFailure, detail: String) -> (e: PasteError)
    ensures
        (kind == SpawnFailure::NotFound || kind == SpawnFailure::PermissionDenied) ==> e
            == PasteError::Unavailable(detail),
        kind == SpawnFailure::Other ==> e == PasteError::Command(detail),
{
    match kind {
        SpawnFailure::NotFound | SpawnFailure::PermissionDenied => PasteError::Unavailable(detail),
        SpawnFailure::Other => PasteError::Command(detail),
    }
}

/// A paste command that ran and failed with the exit status `status`.
pub fn exit_status_error(command: &str, status: &str) -> (e: PasteError)
    ensures
        e matches PasteError::Command(m) && m@ == command@ + " exited with "@ + status@,
{
    let mut m = String::from_str(command);
    m.append(" exited with ");
    m.append(status);
    PasteError::Command(m)
}

} // verus!
