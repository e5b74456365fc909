//! What the agent asks of the outside world, and how it can fail.

use vstd::prelude::*;

use crate::domain::study_id::StudyId;
use crate::text::decimal;

verus! {

/// Wire channels.
#[derive(Debug, Clone, Copy, PartialEq, Eq, Structural)]
pub enum Channel {
    /// Requests and heartbeat.
    Control,
    /// Everything else.
    Event,
}

/// Publish failures.
#[derive(Debug, PartialEq, Eq)]
pub enum BrokerError {
    /// The connection is down.
    ConnectionLost,
    /// A local sink could not store the message.
    Persistence(String),
}

/// Clock manipulation failures.
#[derive(Debug, PartialEq, Eq)]
pub enum ClockShiftError {
    /// Not possible in this build.
    Unavailable(String),
    /// The system refused.
    System(String),
}

/// What to launch.
#[derive(Debug, PartialEq, Eq)]
pub struct LaunchSpec {
    /// Program path.
    pub path: String,
    /// Its arguments.
    pub args: Vec<String>,
    /// Its working directory; `None` = inherited.
    pub working_dir: Option<String>,
}

/// What a launch reports.
#[derive(Debug, Clone, Copy, PartialEq, Eq, Structural)]
pub struct LaunchOutcome {
    /// Process id, when the mechanism reports one.
    pub pid: Option<u32>,
}

/// Launch failures.
#[derive(Debug, PartialEq, Eq)]
pub enum LaunchError {
    /// Nobody is logged on.
    NoInteractiveSession,
    /// The session user's token could not be had.
    Token(String),
    /// The process could not be created.
    Spawn(String),
}

/// What a cleanup sweep did.
#[derive(Debug, Clone, Copy, PartialEq, Eq, Structural)]
pub struct KillOutcome {
    /// Processes terminated.
    pub killed: u32,
    /// Processes that could not be.
    pub failed: u32,
}

/// Shell-association failures.
#[derive(Debug, PartialEq, Eq)]
pub enum ShellAssociationError {
    /// No usable association for this document.
    NotFound(String),
    /// The association is registered but unusable.
    Unusable {
        /// The document's extension, with its dot.
        extension: String,
        /// What is wrong.
        detail: String,
    },
    /// The registry could not be asked.
    Registry(String),
}

/// Upload failures.
#[derive(Debug, PartialEq, Eq)]
pub enum UploadError {
    /// The file is not there.
    NotFound(String),
    /// The file is larger than allowed.
    TooLarge {
        /// What is allowed, bytes.
        limit: u64,
        /// What was seen, bytes.
        read: u64,
    },
    /// The file could not be read.
    Io(String),
    /// The collector could not be reached, or refused.
    Transport(String),
}

/// What an upload says of its file.
#[derive(Debug, PartialEq, Eq)]
pub struct UploadMeta {
    /// Wire name of the file.
    pub path: String,
    /// Study.
    pub study: StudyId,
    /// Session.
    pub session: u32,
}

/// A directory of the host.
#[derive(Debug, PartialEq, Eq)]
pub enum Directory {
    /// The configured one.
    Configured(String),
    /// The host's directory for temporary files.
    Temporary,
}

/// One upload.
#[derive(Debug, PartialEq, Eq)]
pub struct UploadRequest {
    /// Where to.
    pub endpoint: String,
    /// What it says of the file.
    pub meta: UploadMeta,
    /// The directory the file is in; its name there is its wire name.
    pub directory: Directory,
    /// Largest number of bytes that may be sent.
    pub max_blob_bytes: u64,
}

/// A text with another behind it.
pub fn joined_text(head: &str, tail: &str) -> (text: String)
    ensures
        text@ == head@ + tail@,
{
    let mut text = head.to_owned();
    text.append(tail);
    text
}

impl BrokerError {
    /// The failure in words.
    pub open spec fn words(self) -> Seq<char> {
        match self {
            BrokerError::ConnectionLost => "broker connection lost"@,
            BrokerError::Persistence(detail) => "event persistence failed: "@ + detail@,
        }
    }

    /// The failure in words.
    pub fn message(&self) -> (text: String)
        ensures
            text@ == self.words(),
    {
        match self {
            BrokerError::ConnectionLost => "broker connection lost".to_owned(),
            BrokerError::Persistence(detail) => joined_text("event persistence failed: ", detail.as_str()),
        }
    }
}

impl ClockShiftError {
    /// The failure in words.
    pub open spec fn words(self) -> Seq<char> {
        match self {
            ClockShiftError::Unavailable(detail) => "clock manipulation unavailable: "@ + detail@,
            ClockShiftError::System(detail) => "clock manipulation failed: "@ + detail@,
        }
    }

    /// The failure in words.
    pub fn message(&self) -> (text: String)
        ensures
            text@ == self.words(),
    {
        match self {
            ClockShiftError::Unavailable(detail) => joined_text(
                "clock manipulation unavailable: ",
                detail.as_str(),
            ),
            ClockShiftError::System(detail) => joined_text("clock manipulation failed: ", detail.as_str()),
        }
    }
}

impl LaunchError {
    /// The failure in words.
    pub open spec fn words(self) -> Seq<char> {
        match self {
            LaunchError::NoInteractiveSession => "no interactive session"@,
            LaunchError::Token(detail) => "session token unavailable: "@ + detail@,
            LaunchError::Spawn(detail) => "process creation failed: "@ + detail@,
        }
    }

    /// The failure in words.
    pub fn message(&self) -> (text: String)
        ensures
            text@ == self.words(),
    {
        match self {
            LaunchError::NoInteractiveSession => "no interactive session".to_owned(),
            LaunchError::Token(detail) => joined_text("session token unavailable: ", detail.as_str()),
            LaunchError::Spawn(detail) => joined_text("process creation failed: ", detail.as_str()),
        }
    }
}

impl ShellAssociationError {
    /// The failure in words.
    pub open spec fn words(self) -> Seq<char> {
        match self {
            ShellAssociationError::NotFound(document) => "no association for "@ + document@,
            ShellAssociationError::Unusable { extension, detail } => "association of "@ + extension@
                + " is unusable: "@ + detail@,
            ShellAssociationError::Registry(detail) => "association lookup failed: "@ + detail@,
        }
    }

    /// The failure in words.
    pub fn message(&self) -> (text: String)
        ensures
            text@ == self.words(),
    {
        match self {
            ShellAssociationError::NotFound(document) => joined_text(
                "no association for ",
                document.as_str(),
            ),
            ShellAssociationError::Unusable { extension, detail } => {
                let mut text = joined_text("association of ", extension.as_str());
                text.append(" is unusable: ");
                text.append(detail.as_str());
                text
            },
            ShellAssociationError::Registry(detail) => joined_text(
                "association lookup failed: ",
                detail.as_str(),
            ),
        }
    }
}

impl UploadError {
    /// The failure in words.
    pub open spec fn words(self) -> Seq<char> {
        match self {
            UploadError::NotFound(path) => "file not found: "@ + path@,
            UploadError::TooLarge { limit, read } => "file exceeds the upload cap: "@
                + crate::text::decimal_digits(read as nat) + " of "@ + crate::text::decimal_digits(
                limit as nat,
            ) + " bytes"@,
            UploadError::Io(detail) => "file could not be read: "@ + detail@,
            UploadError::Transport(detail) => "upload failed: "@ + detail@,
        }
    }

    /// The failure in words.
    pub fn message(&self) -> (text: String)
        ensures
            text@ == self.words(),
    {
        match self {
            UploadError::NotFound(path) => joined_text("file not found: ", path.as_str()),
            UploadError::TooLarge { limit, read } => {
                let mut text = joined_text("file exceeds the upload cap: ", decimal(*read).as_str());
                text.append(" of ");
                text.append(decimal(*limit).as_str());
                text.append(" bytes");
                text
            },
            UploadError::Io(detail) => joined_text("file could not be read: ", detail.as_str()),
            UploadError::Transport(detail) => joined_text("upload failed: ", detail.as_str()),
        }
    }
}

} // verus!
