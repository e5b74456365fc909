//! Inbound events of the agent, and the derived events that plugins exchange.

use vstd::prelude::*;

use crate::protocol::events::EventType;
use crate::protocol::payload::{
    FileCreatedData, FileDeletedData, FileFsctlData, FileReleasedData, FileRenamedData, FileWrittenData,
    ImageLoadedData, ImageUnloadedData, Payload, ProcessStartedData, ProcessStoppedData, RegistryKeyData,
    RegistryValueQueriedData, RegistryValueSetData, TcpConnectionData, ThreadStartedData, ThreadStoppedData,
};

verus! {

/// An inbound event of the agent core. Fire-and-forget: outputs happen only via
/// driven ports.
#[derive(Debug)]
pub enum SandboxEvent {
    /// Source telemetry (kernel trace, or a scripted feed in simulation).
    Source(SourceEvent),
    /// The current session's scheduled uptime elapsed.
    SessionDeadline,
    /// An interactive session was detected (marker process seen).
    InteractiveSessionReady,
    /// The service/console host asked the agent to stop.
    ServiceStop,
    /// A decoded screenshot frame arrived from the user-actor.
    ScreenshotReceived(ScreenshotFrame),
    /// Periodic persistence tick.
    PersistTick,
    /// Periodic statistics tick.
    StatsTick,
}

/// Do the two events say the same?
pub open spec fn same_event(left: SandboxEvent, right: SandboxEvent) -> bool {
    match (left, right) {
        (SandboxEvent::ScreenshotReceived(a), SandboxEvent::ScreenshotReceived(b)) => a.seq == b.seq
            && a.jpeg@ == b.jpeg@,
        _ => left == right,
    }
}

impl Clone for SandboxEvent {
    fn clone(&self) -> (copy: Self)
        ensures
            same_event(copy, *self),
    {
        match self {
            SandboxEvent::Source(source) => SandboxEvent::Source(source.clone()),
            SandboxEvent::SessionDeadline => SandboxEvent::SessionDeadline,
            SandboxEvent::InteractiveSessionReady => SandboxEvent::InteractiveSessionReady,
            SandboxEvent::ServiceStop => SandboxEvent::ServiceStop,
            SandboxEvent::ScreenshotReceived(frame) => SandboxEvent::ScreenshotReceived(frame.clone()),
            SandboxEvent::PersistTick => SandboxEvent::PersistTick,
            SandboxEvent::StatsTick => SandboxEvent::StatsTick,
        }
    }
}

/// One screenshot frame handed over by the user-actor.
#[derive(Debug, PartialEq, Eq)]
pub struct ScreenshotFrame {
    /// Per-session screenshot sequence number (chosen by the user-actor).
    pub seq: u32,
    /// Raw JPEG bytes.
    pub jpeg: Vec<u8>,
}

impl Clone for ScreenshotFrame {
    fn clone(&self) -> (copy: Self)
        ensures
            copy.seq == self.seq,
            copy.jpeg@ == self.jpeg@,
    {
        ScreenshotFrame { seq: self.seq, jpeg: self.jpeg.clone() }
    }
}

impl Default for ScreenshotFrame {
    fn default() -> (frame: Self)
        ensures
            frame.seq == 0,
            frame.jpeg@.len() == 0,
    {
        ScreenshotFrame { seq: 0, jpeg: Vec::new() }
    }
}

/// Source-observable telemetry; each variant carries the payload of the wire
/// event of the same name.
#[derive(Debug, PartialEq, Eq)]
pub enum SourceEvent {
    /// `process.started`.
    ProcessStarted(ProcessStartedData),
    /// `process.stopped`.
    ProcessStopped(ProcessStoppedData),
    /// `thread.started`.
    ThreadStarted(ThreadStartedData),
    /// `thread.stopped`.
    ThreadStopped(ThreadStoppedData),
    /// `image.loaded`.
    ImageLoaded(ImageLoadedData),
    /// `image.unloaded`.
    ImageUnloaded(ImageUnloadedData),
    /// `registry.key_created`.
    RegistryKeyCreated(RegistryKeyData),
    /// `registry.key_deleted`.
    RegistryKeyDeleted(RegistryKeyData),
    /// `registry.key_opened`.
    RegistryKeyOpened(RegistryKeyData),
    /// `registry.key_closed`.
    RegistryKeyClosed(RegistryKeyData),
    /// `registry.key_queried`.
    RegistryKeyQueried(RegistryKeyData),
    /// `registry.value_queried`.
    RegistryValueQueried(RegistryValueQueriedData),
    /// `registry.value_set`.
    RegistryValueSet(RegistryValueSetData),
    /// `file.created`.
    FileCreated(FileCreatedData),
    /// `file.written`.
    FileWritten(FileWrittenData),
    /// `file.closed`.
    FileClosed(FileReleasedData),
    /// `file.cleaned_up`.
    FileCleanedUp(FileReleasedData),
    /// `file.deleted`.
    FileDeleted(FileDeletedData),
    /// `file.renamed`.
    FileRenamed(FileRenamedData),
    /// `file.fsctl`.
    FileFsctl(FileFsctlData),
    /// `net.tcp.connected`.
    NetTcpConnected(TcpConnectionData),
    /// `net.tcp.accepted`.
    NetTcpAccepted(TcpConnectionData),
    /// `net.tcp.disconnected`.
    NetTcpDisconnected(TcpConnectionData),
}

impl Clone for SourceEvent {
    fn clone(&self) -> (copy: Self)
        ensures
            copy == *self,
    {
        match self {
            SourceEvent::ProcessStarted(data) => SourceEvent::ProcessStarted(data.clone()),
            SourceEvent::ProcessStopped(data) => SourceEvent::ProcessStopped(data.clone()),
            SourceEvent::ThreadStarted(data) => SourceEvent::ThreadStarted(data.clone()),
            SourceEvent::ThreadStopped(data) => SourceEvent::ThreadStopped(data.clone()),
            SourceEvent::ImageLoaded(data) => SourceEvent::ImageLoaded(data.clone()),
            SourceEvent::ImageUnloaded(data) => SourceEvent::ImageUnloaded(data.clone()),
            SourceEvent::RegistryKeyCreated(data) => SourceEvent::RegistryKeyCreated(data.clone()),
            SourceEvent::RegistryKeyDeleted(data) => SourceEvent::RegistryKeyDeleted(data.clone()),
            SourceEvent::RegistryKeyOpened(data) => SourceEvent::RegistryKeyOpened(data.clone()),
            SourceEvent::RegistryKeyClosed(data) => SourceEvent::RegistryKeyClosed(data.clone()),
            SourceEvent::RegistryKeyQueried(data) => SourceEvent::RegistryKeyQueried(data.clone()),
            SourceEvent::RegistryValueQueried(data) => SourceEvent::RegistryValueQueried(data.clone()),
            SourceEvent::RegistryValueSet(data) => SourceEvent::RegistryValueSet(data.clone()),
            SourceEvent::FileCreated(data) => SourceEvent::FileCreated(data.clone()),
            SourceEvent::FileWritten(data) => SourceEvent::FileWritten(data.clone()),
            SourceEvent::FileClosed(data) => SourceEvent::FileClosed(data.clone()),
            SourceEvent::FileCleanedUp(data) => SourceEvent::FileCleanedUp(data.clone()),
            SourceEvent::FileDeleted(data) => SourceEvent::FileDeleted(data.clone()),
            SourceEvent::FileRenamed(data) => SourceEvent::FileRenamed(data.clone()),
            SourceEvent::FileFsctl(data) => SourceEvent::FileFsctl(data.clone()),
            SourceEvent::NetTcpConnected(data) => SourceEvent::NetTcpConnected(data.clone()),
            SourceEvent::NetTcpAccepted(data) => SourceEvent::NetTcpAccepted(data.clone()),
            SourceEvent::NetTcpDisconnected(data) => SourceEvent::NetTcpDisconnected(data.clone()),
        }
    }
}

impl SourceEvent {
    /// The canonical wire event type this source event maps to.
    pub open spec fn kind(self) -> EventType {
        match self {
            SourceEvent::ProcessStarted(_) => EventType::ProcessStarted,
            SourceEvent::ProcessStopped(_) => EventType::ProcessStopped,
            SourceEvent::ThreadStarted(_) => EventType::ThreadStarted,
            SourceEvent::ThreadStopped(_) => EventType::ThreadStopped,
            SourceEvent::ImageLoaded(_) => EventType::ImageLoaded,
            SourceEvent::ImageUnloaded(_) => EventType::ImageUnloaded,
            SourceEvent::RegistryKeyCreated(_) => EventType::RegistryKeyCreated,
            SourceEvent::RegistryKeyDeleted(_) => EventType::RegistryKeyDeleted,
            SourceEvent::RegistryKeyOpened(_) => EventType::RegistryKeyOpened,
            SourceEvent::RegistryKeyClosed(_) => EventType::RegistryKeyClosed,
            SourceEvent::RegistryKeyQueried(_) => EventType::RegistryKeyQueried,
            SourceEvent::RegistryValueQueried(_) => EventType::RegistryValueQueried,
            SourceEvent::RegistryValueSet(_) => EventType::RegistryValueSet,
            SourceEvent::FileCreated(_) => EventType::FileCreated,
            SourceEvent::FileWritten(_) => EventType::FileWritten,
            SourceEvent::FileClosed(_) => EventType::FileClosed,
            SourceEvent::FileCleanedUp(_) => EventType::FileCleanedUp,
            SourceEvent::FileDeleted(_) => EventType::FileDeleted,
            SourceEvent::FileRenamed(_) => EventType::FileRenamed,
            SourceEvent::FileFsctl(_) => EventType::FileFsctl,
            SourceEvent::NetTcpConnected(_) => EventType::NetTcpConnected,
            SourceEvent::NetTcpAccepted(_) => EventType::NetTcpAccepted,
            SourceEvent::NetTcpDisconnected(_) => EventType::NetTcpDisconnected,
        }
    }

    /// The wire payload of this source event: the variant of the same name with
    /// the same data.
    pub open spec fn payload(self) -> Payload {
        match self {
            SourceEvent::ProcessStarted(data) => Payload::ProcessStarted(data),
            SourceEvent::ProcessStopped(data) => Payload::ProcessStopped(data),
            SourceEvent::ThreadStarted(data) => Payload::ThreadStarted(data),
            SourceEvent::ThreadStopped(data) => Payload::ThreadStopped(data),
            SourceEvent::ImageLoaded(data) => Payload::ImageLoaded(data),
            SourceEvent::ImageUnloaded(data) => Payload::ImageUnloaded(data),
            SourceEvent::RegistryKeyCreated(data) => Payload::RegistryKeyCreated(data),
            SourceEvent::RegistryKeyDeleted(data) => Payload::RegistryKeyDeleted(data),
            SourceEvent::RegistryKeyOpened(data) => Payload::RegistryKeyOpened(data),
            SourceEvent::RegistryKeyClosed(data) => Payload::RegistryKeyClosed(data),
            SourceEvent::RegistryKeyQueried(data) => Payload::RegistryKeyQueried(data),
            SourceEvent::RegistryValueQueried(data) => Payload::RegistryValueQueried(data),
            SourceEvent::RegistryValueSet(data) => Payload::RegistryValueSet(data),
            SourceEvent::FileCreated(data) => Payload::FileCreated(data),
            SourceEvent::FileWritten(data) => Payload::FileWritten(data),
            SourceEvent::FileClosed(data) => Payload::FileClosed(data),
            SourceEvent::FileCleanedUp(data) => Payload::FileCleanedUp(data),
            SourceEvent::FileDeleted(data) => Payload::FileDeleted(data),
            SourceEvent::FileRenamed(data) => Payload::FileRenamed(data),
            SourceEvent::FileFsctl(data) => Payload::FileFsctl(data),
            SourceEvent::NetTcpConnected(data) => Payload::NetTcpConnected(data),
            SourceEvent::NetTcpAccepted(data) => Payload::NetTcpAccepted(data),
            SourceEvent::NetTcpDisconnected(data) => Payload::NetTcpDisconnected(data),
        }
    }

    /// The canonical wire event type this source event maps to.
    pub fn event_type(&self) -> (kind: EventType)
        ensures
            kind == self.kind(),
    {
        match self {
            SourceEvent::ProcessStarted(_) => EventType::ProcessStarted,
            SourceEvent::ProcessStopped(_) => EventType::ProcessStopped,
            SourceEvent::ThreadStarted(_) => EventType::ThreadStarted,
            SourceEvent::ThreadStopped(_) => EventType::ThreadStopped,
            SourceEvent::ImageLoaded(_) => EventType::ImageLoaded,
            SourceEvent::ImageUnloaded(_) => EventType::ImageUnloaded,
            SourceEvent::RegistryKeyCreated(_) => EventType::RegistryKeyCreated,
            SourceEvent::RegistryKeyDeleted(_) => EventType::RegistryKeyDeleted,
            SourceEvent::RegistryKeyOpened(_) => EventType::RegistryKeyOpened,
            SourceEvent::RegistryKeyClosed(_) => EventType::RegistryKeyClosed,
            SourceEvent::RegistryKeyQueried(_) => EventType::RegistryKeyQueried,
            SourceEvent::RegistryValueQueried(_) => EventType::RegistryValueQueried,
            SourceEvent::RegistryValueSet(_) => EventType::RegistryValueSet,
            SourceEvent::FileCreated(_) => EventType::FileCreated,
            SourceEvent::FileWritten(_) => EventType::FileWritten,
            SourceEvent::FileClosed(_) => EventType::FileClosed,
            SourceEvent::FileCleanedUp(_) => EventType::FileCleanedUp,
            SourceEvent::FileDeleted(_) => EventType::FileDeleted,
            SourceEvent::FileRenamed(_) => EventType::FileRenamed,
            SourceEvent::FileFsctl(_) => EventType::FileFsctl,
            SourceEvent::NetTcpConnected(_) => EventType::NetTcpConnected,
            SourceEvent::NetTcpAccepted(_) => EventType::NetTcpAccepted,
            SourceEvent::NetTcpDisconnected(_) => EventType::NetTcpDisconnected,
        }
    }

    /// Convert into the wire payload for reporting.
    pub fn into_payload(self) -> (payload: Payload)
        ensures
            payload == self.payload(),
    {
        match self {
            SourceEvent::ProcessStarted(data) => Payload::ProcessStarted(data),
            SourceEvent::ProcessStopped(data) => Payload::ProcessStopped(data),
            SourceEvent::ThreadStarted(data) => Payload::ThreadStarted(data),
            SourceEvent::ThreadStopped(data) => Payload::ThreadStopped(data),
            SourceEvent::ImageLoaded(data) => Payload::ImageLoaded(data),
            SourceEvent::ImageUnloaded(data) => Payload::ImageUnloaded(data),
            SourceEvent::RegistryKeyCreated(data) => Payload::RegistryKeyCreated(data),
            SourceEvent::RegistryKeyDeleted(data) => Payload::RegistryKeyDeleted(data),
            SourceEvent::RegistryKeyOpened(data) => Payload::RegistryKeyOpened(data),
            SourceEvent::RegistryKeyClosed(data) => Payload::RegistryKeyClosed(data),
            SourceEvent::RegistryKeyQueried(data) => Payload::RegistryKeyQueried(data),
            SourceEvent::RegistryValueQueried(data) => Payload::RegistryValueQueried(data),
            SourceEvent::RegistryValueSet(data) => Payload::RegistryValueSet(data),
            SourceEvent::FileCreated(data) => Payload::FileCreated(data),
            SourceEvent::FileWritten(data) => Payload::FileWritten(data),
            SourceEvent::FileClosed(data) => Payload::FileClosed(data),
            SourceEvent::FileCleanedUp(data) => Payload::FileCleanedUp(data),
            SourceEvent::FileDeleted(data) => Payload::FileDeleted(data),
            SourceEvent::FileRenamed(data) => Payload::FileRenamed(data),
            SourceEvent::FileFsctl(data) => Payload::FileFsctl(data),
            SourceEvent::NetTcpConnected(data) => Payload::NetTcpConnected(data),
            SourceEvent::NetTcpAccepted(data) => Payload::NetTcpAccepted(data),
            SourceEvent::NetTcpDisconnected(data) => Payload::NetTcpDisconnected(data),
        }
    }
}

/// The wire type and the wire payload of a source event always belong together.
pub proof fn law_type_and_payload_agree(event: SourceEvent)
    ensures
        event.payload().kind() == event.kind(),
{
}

/// Nothing is lost on the way to the wire: two source events with the same
/// payload are the same event.
pub proof fn law_payload_keeps_everything(left: SourceEvent, right: SourceEvent)
    requires
        left.payload() == right.payload(),
    ensures
        left == right,
{
}

/// Derived, plugin-owned events carried on the agent bus. Never raw inbound
/// events.
#[derive(Debug, PartialEq, Eq)]
pub enum AgentBusEvent {
    /// The target sample entered the scope.
    TargetLaunched {
        /// Target image name (with extension).
        name: String,
    },
    /// A process joined the analysis scope.
    ProcessEnteredScope {
        /// OS process id.
        pid: u32,
        /// Image name (with extension).
        name: String,
    },
    /// A scoped process exited.
    ProcessExitedScope {
        /// OS process id.
        pid: u32,
        /// Image name (with extension).
        name: String,
    },
    /// A drop (matching file written by a scoped process) was first observed.
    DropObserved {
        /// File path.
        path: String,
        /// Writing process id, when scoped.
        pid: Option<u32>,
    },
    /// An observed drop's handles closed: safe to copy.
    DropClosed {
        /// File path.
        path: String,
    },
    /// Every scoped process of the current session died (empty scope is not
    /// dead).
    ScopeDied,
    /// The launcher resolved a target program image whose process name should
    /// seed the scope expectation.
    ExtendScopeExpectation {
        /// Image name (with extension) to expect in the scope.
        name: String,
    },
    /// The scoring plugin raised the session maximum score.
    SessionScoreRaised {
        /// New session maximum.
        score: u32,
    },
}

impl Clone for AgentBusEvent {
    fn clone(&self) -> (copy: Self)
        ensures
            copy == *self,
    {
        match self {
            AgentBusEvent::TargetLaunched { name } => AgentBusEvent::TargetLaunched {
                name: name.clone(),
            },
            AgentBusEvent::ProcessEnteredScope { pid, name } => AgentBusEvent::ProcessEnteredScope {
                pid: *pid,
                name: name.clone(),
            },
            AgentBusEvent::ProcessExitedScope { pid, name } => AgentBusEvent::ProcessExitedScope {
                pid: *pid,
                name: name.clone(),
            },
            AgentBusEvent::DropObserved { path, pid } => AgentBusEvent::DropObserved {
                path: path.clone(),
                pid: *pid,
            },
            AgentBusEvent::DropClosed { path } => AgentBusEvent::DropClosed { path: path.clone() },
            AgentBusEvent::ScopeDied => AgentBusEvent::ScopeDied,
            AgentBusEvent::ExtendScopeExpectation { name } => AgentBusEvent::ExtendScopeExpectation {
                name: name.clone(),
            },
            AgentBusEvent::SessionScoreRaised { score } => AgentBusEvent::SessionScoreRaised {
                score: *score,
            },
        }
    }
}

} // verus!
