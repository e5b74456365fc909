//! What wire events carry.

use vstd::prelude::*;

use crate::protocol::events::EventType;

verus! {

/// A copy of an optional text.
pub fn cloned_text(text: &Option<String>) -> (copy: Option<String>)
    ensures
        copy == *text,
{
    match text {
        Some(text) => Some(text.clone()),
        None => None,
    }
}

/// Why a session is finalized.
#[derive(Debug, Clone, Copy, PartialEq, Eq, Structural)]
pub enum FinalizeReason {
    /// The scheduled uptime elapsed.
    Deadline,
    /// The service or console host asked for it.
    InboundRequest,
    /// Every scoped process died.
    DeadScope,
}

impl FinalizeReason {
    /// The reason as control requests carry it.
    pub open spec fn name(self) -> Seq<char> {
        match self {
            FinalizeReason::Deadline => "deadline"@,
            FinalizeReason::InboundRequest => "inboundrequest"@,
            FinalizeReason::DeadScope => "deadscope"@,
        }
    }

    /// The reason as control requests carry it.
    pub fn as_str(self) -> (text: &'static str)
        ensures
            text@ == self.name(),
    {
        match self {
            FinalizeReason::Deadline => "deadline",
            FinalizeReason::InboundRequest => "inboundrequest",
            FinalizeReason::DeadScope => "deadscope",
        }
    }
}

/// Why the clock was set.
#[derive(Debug, Clone, Copy, PartialEq, Eq, Structural)]
pub enum ClockCause {
    /// The study's fake start time.
    StudyStart,
    /// The offset added at each finalization.
    SessionOffset,
}

/// The launch mechanism that was used.
#[derive(Debug, Clone, Copy, PartialEq, Eq, Structural)]
pub enum Launcher {
    /// The session user's token.
    Token,
    /// A scheduled task.
    SchedTask,
}

/// A process started (`process.started`).
#[derive(Debug, PartialEq, Eq)]
pub struct ProcessStartedData {
    /// OS process id.
    pub pid: u32,
    /// Parent process id, when reported.
    pub parent_pid: Option<u32>,
    /// Image name with extension.
    pub name: String,
    /// Full image path, when reported.
    pub image_path: Option<String>,
    /// Command line, when reported.
    pub command_line: Option<String>,
    /// Windows session id, when reported.
    pub os_session_id: Option<u32>,
}

impl Clone for ProcessStartedData {
    fn clone(&self) -> (copy: Self)
        ensures
            copy == *self,
    {
        ProcessStartedData {
            pid: self.pid,
            parent_pid: self.parent_pid,
            name: self.name.clone(),
            image_path: cloned_text(&self.image_path),
            command_line: cloned_text(&self.command_line),
            os_session_id: self.os_session_id,
        }
    }
}

/// A process stopped (`process.stopped`).
#[derive(Debug, PartialEq, Eq)]
pub struct ProcessStoppedData {
    /// OS process id.
    pub pid: u32,
    /// Image name with extension.
    pub name: String,
}

impl Clone for ProcessStoppedData {
    fn clone(&self) -> (copy: Self)
        ensures
            copy == *self,
    {
        ProcessStoppedData {
            pid: self.pid,
            name: self.name.clone(),
        }
    }
}

/// A thread started (`thread.started`).
#[derive(Debug, PartialEq, Eq)]
pub struct ThreadStartedData {
    /// Owning process id.
    pub pid: u32,
    /// Thread id.
    pub tid: u32,
    /// Creating thread id, when reported.
    pub parent_tid: Option<u32>,
}

impl Clone for ThreadStartedData {
    fn clone(&self) -> (copy: Self)
        ensures
            copy == *self,
    {
        ThreadStartedData {
            pid: self.pid,
            tid: self.tid,
            parent_tid: self.parent_tid,
        }
    }
}

/// A thread stopped (`thread.stopped`).
#[derive(Debug, PartialEq, Eq)]
pub struct ThreadStoppedData {
    /// Owning process id.
    pub pid: u32,
    /// Thread id.
    pub tid: u32,
}

impl Clone for ThreadStoppedData {
    fn clone(&self) -> (copy: Self)
        ensures
            copy == *self,
    {
        ThreadStoppedData {
            pid: self.pid,
            tid: self.tid,
        }
    }
}

/// An image was loaded (`image.loaded`).
#[derive(Debug, PartialEq, Eq)]
pub struct ImageLoadedData {
    /// Loading process id.
    pub pid: u32,
    /// Image file name.
    pub name: String,
    /// Full image path, when reported.
    pub image_path: Option<String>,
    /// Image size, when reported.
    pub image_size: Option<u64>,
    /// Image checksum, when reported.
    pub image_checksum: Option<u32>,
}

impl Clone for ImageLoadedData {
    fn clone(&self) -> (copy: Self)
        ensures
            copy == *self,
    {
        ImageLoadedData {
            pid: self.pid,
            name: self.name.clone(),
            image_path: cloned_text(&self.image_path),
            image_size: self.image_size,
            image_checksum: self.image_checksum,
        }
    }
}

/// An image was unloaded (`image.unloaded`).
#[derive(Debug, PartialEq, Eq)]
pub struct ImageUnloadedData {
    /// Process id.
    pub pid: u32,
    /// Image file name.
    pub name: String,
}

impl Clone for ImageUnloadedData {
    fn clone(&self) -> (copy: Self)
        ensures
            copy == *self,
    {
        ImageUnloadedData {
            pid: self.pid,
            name: self.name.clone(),
        }
    }
}

/// A registry key operation (`registry.key_*`).
#[derive(Debug, PartialEq, Eq)]
pub struct RegistryKeyData {
    /// Acting process id.
    pub pid: u32,
    /// Key name.
    pub key_name: String,
    /// Key handle, when reported.
    pub key_handle: Option<u64>,
}

impl Clone for RegistryKeyData {
    fn clone(&self) -> (copy: Self)
        ensures
            copy == *self,
    {
        RegistryKeyData {
            pid: self.pid,
            key_name: self.key_name.clone(),
            key_handle: self.key_handle,
        }
    }
}

/// A registry value was read (`registry.value_queried`).
#[derive(Debug, PartialEq, Eq)]
pub struct RegistryValueQueriedData {
    /// Acting process id.
    pub pid: u32,
    /// Key name.
    pub key_name: String,
    /// Value name, when reported.
    pub value_name: Option<String>,
    /// Key handle, when reported.
    pub key_handle: Option<u64>,
}

impl Clone for RegistryValueQueriedData {
    fn clone(&self) -> (copy: Self)
        ensures
            copy == *self,
    {
        RegistryValueQueriedData {
            pid: self.pid,
            key_name: self.key_name.clone(),
            value_name: cloned_text(&self.value_name),
            key_handle: self.key_handle,
        }
    }
}

/// A registry value was written (`registry.value_set`).
#[derive(Debug, PartialEq, Eq)]
pub struct RegistryValueSetData {
    /// Acting process id.
    pub pid: u32,
    /// Key name.
    pub key_name: String,
    /// Value name, when reported.
    pub value_name: Option<String>,
    /// Key handle, when reported.
    pub key_handle: Option<u64>,
    /// Value type, when reported.
    pub value_type: Option<String>,
    /// Data size, when reported.
    pub data_size: Option<u32>,
}

impl Clone for RegistryValueSetData {
    fn clone(&self) -> (copy: Self)
        ensures
            copy == *self,
    {
        RegistryValueSetData {
            pid: self.pid,
            key_name: self.key_name.clone(),
            value_name: cloned_text(&self.value_name),
            key_handle: self.key_handle,
            value_type: cloned_text(&self.value_type),
            data_size: self.data_size,
        }
    }
}

/// A file was created or opened (`file.created`).
#[derive(Debug, PartialEq, Eq)]
pub struct FileCreatedData {
    /// Acting process id.
    pub pid: u32,
    /// File object, when reported.
    pub file_object: Option<u64>,
    /// File name, when reported.
    pub file_name: Option<String>,
    /// Create options, when reported.
    pub create_options: Option<u32>,
    /// Create disposition, when reported.
    pub create_disposition: Option<u32>,
}

impl Clone for FileCreatedData {
    fn clone(&self) -> (copy: Self)
        ensures
            copy == *self,
    {
        FileCreatedData {
            pid: self.pid,
            file_object: self.file_object,
            file_name: cloned_text(&self.file_name),
            create_options: self.create_options,
            create_disposition: self.create_disposition,
        }
    }
}

/// A file was written (`file.written`).
#[derive(Debug, PartialEq, Eq)]
pub struct FileWrittenData {
    /// Writing process id.
    pub pid: u32,
    /// File object, when reported.
    pub file_object: Option<u64>,
    /// File key, when reported.
    pub file_key: Option<u64>,
    /// File name, when reported.
    pub file_name: Option<String>,
    /// Bytes written, when reported.
    pub io_size: Option<u64>,
    /// Write offset, when reported.
    pub offset: Option<u64>,
}

impl Clone for FileWrittenData {
    fn clone(&self) -> (copy: Self)
        ensures
            copy == *self,
    {
        FileWrittenData {
            pid: self.pid,
            file_object: self.file_object,
            file_key: self.file_key,
            file_name: cloned_text(&self.file_name),
            io_size: self.io_size,
            offset: self.offset,
        }
    }
}

/// A file handle went away (`file.closed`, `file.cleaned_up`).
#[derive(Debug, PartialEq, Eq)]
pub struct FileReleasedData {
    /// Acting process id.
    pub pid: u32,
    /// File object, when reported.
    pub file_object: Option<u64>,
    /// File key, when reported.
    pub file_key: Option<u64>,
    /// File name, when reported.
    pub file_name: Option<String>,
}

impl Clone for FileReleasedData {
    fn clone(&self) -> (copy: Self)
        ensures
            copy == *self,
    {
        FileReleasedData {
            pid: self.pid,
            file_object: self.file_object,
            file_key: self.file_key,
            file_name: cloned_text(&self.file_name),
        }
    }
}

/// A file was deleted (`file.deleted`).
#[derive(Debug, PartialEq, Eq)]
pub struct FileDeletedData {
    /// Acting process id.
    pub pid: u32,
    /// File object, when reported.
    pub file_object: Option<u64>,
    /// File key, when reported.
    pub file_key: Option<u64>,
    /// File name, when reported.
    pub file_name: Option<String>,
}

impl Clone for FileDeletedData {
    fn clone(&self) -> (copy: Self)
        ensures
            copy == *self,
    {
        FileDeletedData {
            pid: self.pid,
            file_object: self.file_object,
            file_key: self.file_key,
            file_name: cloned_text(&self.file_name),
        }
    }
}

/// A file was renamed (`file.renamed`).
#[derive(Debug, PartialEq, Eq)]
pub struct FileRenamedData {
    /// Acting process id.
    pub pid: u32,
    /// File object, when reported.
    pub file_object: Option<u64>,
    /// Old name, when reported.
    pub file_name: Option<String>,
    /// New name, when reported.
    pub new_name: Option<String>,
    /// File key, when reported.
    pub file_key: Option<u64>,
}

impl Clone for FileRenamedData {
    fn clone(&self) -> (copy: Self)
        ensures
            copy == *self,
    {
        FileRenamedData {
            pid: self.pid,
            file_object: self.file_object,
            file_name: cloned_text(&self.file_name),
            new_name: cloned_text(&self.new_name),
            file_key: self.file_key,
        }
    }
}

/// A file system control (`file.fsctl`).
#[derive(Debug, PartialEq, Eq)]
pub struct FileFsctlData {
    /// Acting process id.
    pub pid: u32,
    /// File object, when reported.
    pub file_object: Option<u64>,
    /// File name, when reported.
    pub file_name: Option<String>,
    /// File key, when reported.
    pub file_key: Option<u64>,
}

impl Clone for FileFsctlData {
    fn clone(&self) -> (copy: Self)
        ensures
            copy == *self,
    {
        FileFsctlData {
            pid: self.pid,
            file_object: self.file_object,
            file_name: cloned_text(&self.file_name),
            file_key: self.file_key,
        }
    }
}

/// A TCP connection event (`net.tcp.*`).
#[derive(Debug, PartialEq, Eq)]
pub struct TcpConnectionData {
    /// Owning process id, when reported.
    pub pid: Option<u32>,
    /// Source address.
    pub source_addr: String,
    /// Source port.
    pub source_port: u16,
    /// Destination address.
    pub dest_addr: String,
    /// Destination port.
    pub dest_port: u16,
}

impl Clone for TcpConnectionData {
    fn clone(&self) -> (copy: Self)
        ensures
            copy == *self,
    {
        TcpConnectionData {
            pid: self.pid,
            source_addr: self.source_addr.clone(),
            source_port: self.source_port,
            dest_addr: self.dest_addr.clone(),
            dest_port: self.dest_port,
        }
    }
}

/// The agent came up (`agent.state`).
#[derive(Debug, PartialEq, Eq)]
pub struct AgentStateData {
    /// Agent version.
    pub agent_version: String,
}

/// A session started (`session.started`).
#[derive(Debug, PartialEq, Eq)]
pub struct SessionStartedData {
    /// Scheduled duration in seconds; `None` = dynamic mode.
    pub scheduled_duration_secs: Option<u64>,
}

/// A session is being finalized (`session.finalizing`).
#[derive(Debug, PartialEq, Eq)]
pub struct SessionFinalizingData {
    /// Why.
    pub reason: FinalizeReason,
}

/// A session ended (`session.ended`).
#[derive(Debug, Clone, Copy, PartialEq, Eq)]
pub struct SessionEndedData {}

/// The session's score (`study.score`).
#[derive(Debug, PartialEq, Eq)]
pub struct StudyScoreData {
    /// Maximum over the session's signals.
    pub score: u32,
    /// What the score covers.
    pub reason: Option<String>,
}

/// The session's drops by extension (`study.drops_summary`).
#[derive(Debug, PartialEq, Eq)]
pub struct StudyDropsSummaryData {
    /// Extension (empty = extensionless) and count, by extension.
    pub extensions: Vec<(String, u32)>,
}

/// The study wants a reboot (`study.reboot_requested`).
#[derive(Debug, PartialEq, Eq)]
pub struct StudyRebootRequestedData {
    /// Why.
    pub reason: Option<String>,
}

/// The study is over (`study.shutdown_requested`).
#[derive(Debug, PartialEq, Eq)]
pub struct StudyShutdownRequestedData {
    /// Why.
    pub reason: Option<String>,
}

/// The clock was set (`clock.adjusted`).
#[derive(Debug, PartialEq, Eq)]
pub struct ClockAdjustedData {
    /// New time, unix milliseconds.
    pub to_ts: i64,
    /// Shift in seconds.
    pub offset_secs: i64,
    /// Why.
    pub cause: ClockCause,
}

/// The control-plane heartbeat (`control.keepalive`).
#[derive(Debug, Clone, Copy, PartialEq, Eq)]
pub struct ControlKeepaliveData {}

/// The target was launched (`target.launched`).
#[derive(Debug, PartialEq, Eq)]
pub struct TargetLaunchedData {
    /// Process id, when the mechanism reports one.
    pub pid: Option<u32>,
    /// Launched program.
    pub path: String,
    /// Its arguments, joined by blanks; `None` = none.
    pub args: Option<String>,
    /// The mechanism.
    pub launcher: Launcher,
}

/// The user actor shook hands (`user_actor.started`).
#[derive(Debug, PartialEq, Eq)]
pub struct UserActorStartedData {
    /// Its version, as it says.
    pub module_version: String,
    /// Its process id, when known.
    pub pid: Option<u32>,
}

/// The user actor went away (`user_actor.stopped`).
#[derive(Debug, PartialEq, Eq)]
pub struct UserActorStoppedData {
    /// The failure, when there was one.
    pub reason: Option<String>,
}

/// Every scoped process died (`scope.died`).
#[derive(Debug, Clone, Copy, PartialEq, Eq)]
pub struct ScopeDiedData {}

/// A drop was observed (`drop.observed`).
#[derive(Debug, PartialEq, Eq)]
pub struct DropObservedData {
    /// File path.
    pub path: String,
    /// Writing process id.
    pub pid: Option<u32>,
}

/// A drop was closed (`drop.closed`).
#[derive(Debug, PartialEq, Eq)]
pub struct DropClosedData {
    /// File path.
    pub path: String,
}

/// A drop was copied (`drop.copied`).
#[derive(Debug, PartialEq, Eq)]
pub struct DropCopiedData {
    /// Where it was.
    pub source: String,
    /// The copy's name.
    pub copy: String,
    /// The copy's size.
    pub size_bytes: u64,
}

/// A drop was uploaded (`drop.uploaded`).
#[derive(Debug, PartialEq, Eq)]
pub struct DropUploadedData {
    /// The copy's name.
    pub copy: String,
    /// The copy's size.
    pub size_bytes: u64,
}

/// A screenshot arrived (`screenshot.received`).
#[derive(Debug, PartialEq, Eq)]
pub struct ScreenshotReceivedData {
    /// Its sequence number.
    pub seq: u32,
    /// Its size.
    pub size_bytes: u64,
}

/// A screenshot was uploaded (`screenshot.uploaded`).
#[derive(Debug, PartialEq, Eq)]
pub struct ScreenshotUploadedData {
    /// Its sequence number.
    pub seq: u32,
}

/// The payload of a wire event.
#[derive(Debug, PartialEq, Eq)]
pub enum Payload {
    /// `agent.state`.
    AgentState(AgentStateData),
    /// `session.started`.
    SessionStarted(SessionStartedData),
    /// `session.finalizing`.
    SessionFinalizing(SessionFinalizingData),
    /// `session.ended`.
    SessionEnded(SessionEndedData),
    /// `study.score`.
    StudyScore(StudyScoreData),
    /// `study.drops_summary`.
    StudyDropsSummary(StudyDropsSummaryData),
    /// `study.reboot_requested`.
    StudyRebootRequested(StudyRebootRequestedData),
    /// `study.shutdown_requested`.
    StudyShutdownRequested(StudyShutdownRequestedData),
    /// `clock.adjusted`.
    ClockAdjusted(ClockAdjustedData),
    /// `control.keepalive`.
    ControlKeepalive(ControlKeepaliveData),
    /// `target.launched`.
    TargetLaunched(TargetLaunchedData),
    /// `user_actor.started`.
    UserActorStarted(UserActorStartedData),
    /// `user_actor.stopped`.
    UserActorStopped(UserActorStoppedData),
    /// `scope.died`.
    ScopeDied(ScopeDiedData),
    /// `drop.observed`.
    DropObserved(DropObservedData),
    /// `drop.closed`.
    DropClosed(DropClosedData),
    /// `drop.copied`.
    DropCopied(DropCopiedData),
    /// `drop.uploaded`.
    DropUploaded(DropUploadedData),
    /// `screenshot.received`.
    ScreenshotReceived(ScreenshotReceivedData),
    /// `screenshot.uploaded`.
    ScreenshotUploaded(ScreenshotUploadedData),
    /// `process.started`.
    ProcessStarted(ProcessStartedData),
    /// `process.stopped`.
    ProcessStopped(ProcessStoppedData),
    /// `thread.started`.
    ThreadStarted(ThreadStartedData),
    /// `thread.stopped`.
    ThreadStopped(ThreadStoppedData),
    /// `image.loaded`.
    ImageLoaded(ImageLoadedData),
    /// `image.unloaded`.
    ImageUnloaded(ImageUnloadedData),
    /// `registry.key_created`.
    RegistryKeyCreated(RegistryKeyData),
    /// `registry.key_deleted`.
    RegistryKeyDeleted(RegistryKeyData),
    /// `registry.key_opened`.
    RegistryKeyOpened(RegistryKeyData),
    /// `registry.key_closed`.
    RegistryKeyClosed(RegistryKeyData),
    /// `registry.key_queried`.
    RegistryKeyQueried(RegistryKeyData),
    /// `registry.value_queried`.
    RegistryValueQueried(RegistryValueQueriedData),
    /// `registry.value_set`.
    RegistryValueSet(RegistryValueSetData),
    /// `file.created`.
    FileCreated(FileCreatedData),
    /// `file.written`.
    FileWritten(FileWrittenData),
    /// `file.closed`.
    FileClosed(FileReleasedData),
    /// `file.cleaned_up`.
    FileCleanedUp(FileReleasedData),
    /// `file.deleted`.
    FileDeleted(FileDeletedData),
    /// `file.renamed`.
    FileRenamed(FileRenamedData),
    /// `file.fsctl`.
    FileFsctl(FileFsctlData),
    /// `net.tcp.connected`.
    NetTcpConnected(TcpConnectionData),
    /// `net.tcp.accepted`.
    NetTcpAccepted(TcpConnectionData),
    /// `net.tcp.disconnected`.
    NetTcpDisconnected(TcpConnectionData),
}

impl Payload {
    /// The event type that a payload belongs to.
    pub open spec fn kind(self) -> EventType {
        match self {
            Payload::AgentState(_) => EventType::AgentState,
            Payload::SessionStarted(_) => EventType::SessionStarted,
            Payload::SessionFinalizing(_) => EventType::SessionFinalizing,
            Payload::SessionEnded(_) => EventType::SessionEnded,
            Payload::StudyScore(_) => EventType::StudyScore,
            Payload::StudyDropsSummary(_) => EventType::StudyDropsSummary,
            Payload::StudyRebootRequested(_) => EventType::StudyRebootRequested,
            Payload::StudyShutdownRequested(_) => EventType::StudyShutdownRequested,
            Payload::ClockAdjusted(_) => EventType::ClockAdjusted,
            Payload::ControlKeepalive(_) => EventType::ControlKeepalive,
            Payload::TargetLaunched(_) => EventType::TargetLaunched,
            Payload::UserActorStarted(_) => EventType::UserActorStarted,
            Payload::UserActorStopped(_) => EventType::UserActorStopped,
            Payload::ScopeDied(_) => EventType::ScopeDied,
            Payload::DropObserved(_) => EventType::DropObserved,
            Payload::DropClosed(_) => EventType::DropClosed,
            Payload::DropCopied(_) => EventType::DropCopied,
            Payload::DropUploaded(_) => EventType::DropUploaded,
            Payload::ScreenshotReceived(_) => EventType::ScreenshotReceived,
            Payload::ScreenshotUploaded(_) => EventType::ScreenshotUploaded,
            Payload::ProcessStarted(_) => EventType::ProcessStarted,
            Payload::ProcessStopped(_) => EventType::ProcessStopped,
            Payload::ThreadStarted(_) => EventType::ThreadStarted,
            Payload::ThreadStopped(_) => EventType::ThreadStopped,
            Payload::ImageLoaded(_) => EventType::ImageLoaded,
            Payload::ImageUnloaded(_) => EventType::ImageUnloaded,
            Payload::RegistryKeyCreated(_) => EventType::RegistryKeyCreated,
            Payload::RegistryKeyDeleted(_) => EventType::RegistryKeyDeleted,
            Payload::RegistryKeyOpened(_) => EventType::RegistryKeyOpened,
            Payload::RegistryKeyClosed(_) => EventType::RegistryKeyClosed,
            Payload::RegistryKeyQueried(_) => EventType::RegistryKeyQueried,
            Payload::RegistryValueQueried(_) => EventType::RegistryValueQueried,
            Payload::RegistryValueSet(_) => EventType::RegistryValueSet,
            Payload::FileCreated(_) => EventType::FileCreated,
            Payload::FileWritten(_) => EventType::FileWritten,
            Payload::FileClosed(_) => EventType::FileClosed,
            Payload::FileCleanedUp(_) => EventType::FileCleanedUp,
            Payload::FileDeleted(_) => EventType::FileDeleted,
            Payload::FileRenamed(_) => EventType::FileRenamed,
            Payload::FileFsctl(_) => EventType::FileFsctl,
            Payload::NetTcpConnected(_) => EventType::NetTcpConnected,
            Payload::NetTcpAccepted(_) => EventType::NetTcpAccepted,
            Payload::NetTcpDisconnected(_) => EventType::NetTcpDisconnected,
        }
    }
}

} // verus!
