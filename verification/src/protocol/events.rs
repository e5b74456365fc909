//! The canonical event taxonomy.

use vstd::prelude::*;

verus! {

/// Every event that the agent puts on the wire.
#[derive(Debug, Clone, Copy, PartialEq, Eq, Structural)]
pub enum EventType {
    /// `agent.state`.
    AgentState,
    /// `session.started`.
    SessionStarted,
    /// `session.finalizing`.
    SessionFinalizing,
    /// `session.ended`.
    SessionEnded,
    /// `study.score`.
    StudyScore,
    /// `study.drops_summary`.
    StudyDropsSummary,
    /// `study.reboot_requested`.
    StudyRebootRequested,
    /// `study.shutdown_requested`.
    StudyShutdownRequested,
    /// `clock.adjusted`.
    ClockAdjusted,
    /// `control.keepalive`.
    ControlKeepalive,
    /// `target.launched`.
    TargetLaunched,
    /// `user_actor.started`.
    UserActorStarted,
    /// `user_actor.stopped`.
    UserActorStopped,
    /// `scope.died`.
    ScopeDied,
    /// `drop.observed`.
    DropObserved,
    /// `drop.closed`.
    DropClosed,
    /// `drop.copied`.
    DropCopied,
    /// `drop.uploaded`.
    DropUploaded,
    /// `screenshot.received`.
    ScreenshotReceived,
    /// `screenshot.uploaded`.
    ScreenshotUploaded,
    /// `process.started`.
    ProcessStarted,
    /// `process.stopped`.
    ProcessStopped,
    /// `thread.started`.
    ThreadStarted,
    /// `thread.stopped`.
    ThreadStopped,
    /// `image.loaded`.
    ImageLoaded,
    /// `image.unloaded`.
    ImageUnloaded,
    /// `registry.key_created`.
    RegistryKeyCreated,
    /// `registry.key_deleted`.
    RegistryKeyDeleted,
    /// `registry.key_opened`.
    RegistryKeyOpened,
    /// `registry.key_closed`.
    RegistryKeyClosed,
    /// `registry.key_queried`.
    RegistryKeyQueried,
    /// `registry.value_queried`.
    RegistryValueQueried,
    /// `registry.value_set`.
    RegistryValueSet,
    /// `file.created`.
    FileCreated,
    /// `file.written`.
    FileWritten,
    /// `file.closed`.
    FileClosed,
    /// `file.cleaned_up`.
    FileCleanedUp,
    /// `file.deleted`.
    FileDeleted,
    /// `file.renamed`.
    FileRenamed,
    /// `file.fsctl`.
    FileFsctl,
    /// `net.tcp.connected`.
    NetTcpConnected,
    /// `net.tcp.accepted`.
    NetTcpAccepted,
    /// `net.tcp.disconnected`.
    NetTcpDisconnected,
}

impl EventType {
    /// The event's name on the wire.
    pub open spec fn name(self) -> Seq<char> {
        match self {
            EventType::AgentState => "agent.state"@,
            EventType::SessionStarted => "session.started"@,
            EventType::SessionFinalizing => "session.finalizing"@,
            EventType::SessionEnded => "session.ended"@,
            EventType::StudyScore => "study.score"@,
            EventType::StudyDropsSummary => "study.drops_summary"@,
            EventType::StudyRebootRequested => "study.reboot_requested"@,
            EventType::StudyShutdownRequested => "study.shutdown_requested"@,
            EventType::ClockAdjusted => "clock.adjusted"@,
            EventType::ControlKeepalive => "control.keepalive"@,
            EventType::TargetLaunched => "target.launched"@,
            EventType::UserActorStarted => "user_actor.started"@,
            EventType::UserActorStopped => "user_actor.stopped"@,
            EventType::ScopeDied => "scope.died"@,
            EventType::DropObserved => "drop.observed"@,
            EventType::DropClosed => "drop.closed"@,
            EventType::DropCopied => "drop.copied"@,
            EventType::DropUploaded => "drop.uploaded"@,
            EventType::ScreenshotReceived => "screenshot.received"@,
            EventType::ScreenshotUploaded => "screenshot.uploaded"@,
            EventType::ProcessStarted => "process.started"@,
            EventType::ProcessStopped => "process.stopped"@,
            EventType::ThreadStarted => "thread.started"@,
            EventType::ThreadStopped => "thread.stopped"@,
            EventType::ImageLoaded => "image.loaded"@,
            EventType::ImageUnloaded => "image.unloaded"@,
            EventType::RegistryKeyCreated => "registry.key_created"@,
            EventType::RegistryKeyDeleted => "registry.key_deleted"@,
            EventType::RegistryKeyOpened => "registry.key_opened"@,
            EventType::RegistryKeyClosed => "registry.key_closed"@,
            EventType::RegistryKeyQueried => "registry.key_queried"@,
            EventType::RegistryValueQueried => "registry.value_queried"@,
            EventType::RegistryValueSet => "registry.value_set"@,
            EventType::FileCreated => "file.created"@,
            EventType::FileWritten => "file.written"@,
            EventType::FileClosed => "file.closed"@,
            EventType::FileCleanedUp => "file.cleaned_up"@,
            EventType::FileDeleted => "file.deleted"@,
            EventType::FileRenamed => "file.renamed"@,
            EventType::FileFsctl => "file.fsctl"@,
            EventType::NetTcpConnected => "net.tcp.connected"@,
            EventType::NetTcpAccepted => "net.tcp.accepted"@,
            EventType::NetTcpDisconnected => "net.tcp.disconnected"@,
        }
    }

    /// The event's name on the wire.
    pub fn as_str(self) -> (text: &'static str)
        ensures
            text@ == self.name(),
    {
        match self {
            EventType::AgentState => "agent.state",
            EventType::SessionStarted => "session.started",
            EventType::SessionFinalizing => "session.finalizing",
            EventType::SessionEnded => "session.ended",
            EventType::StudyScore => "study.score",
            EventType::StudyDropsSummary => "study.drops_summary",
            EventType::StudyRebootRequested => "study.reboot_requested",
            EventType::StudyShutdownRequested => "study.shutdown_requested",
            EventType::ClockAdjusted => "clock.adjusted",
            EventType::ControlKeepalive => "control.keepalive",
            EventType::TargetLaunched => "target.launched",
            EventType::UserActorStarted => "user_actor.started",
            EventType::UserActorStopped => "user_actor.stopped",
            EventType::ScopeDied => "scope.died",
            EventType::DropObserved => "drop.observed",
            EventType::DropClosed => "drop.closed",
            EventType::DropCopied => "drop.copied",
            EventType::DropUploaded => "drop.uploaded",
            EventType::ScreenshotReceived => "screenshot.received",
            EventType::ScreenshotUploaded => "screenshot.uploaded",
            EventType::ProcessStarted => "process.started",
            EventType::ProcessStopped => "process.stopped",
            EventType::ThreadStarted => "thread.started",
            EventType::ThreadStopped => "thread.stopped",
            EventType::ImageLoaded => "image.loaded",
            EventType::ImageUnloaded => "image.unloaded",
            EventType::RegistryKeyCreated => "registry.key_created",
            EventType::RegistryKeyDeleted => "registry.key_deleted",
            EventType::RegistryKeyOpened => "registry.key_opened",
            EventType::RegistryKeyClosed => "registry.key_closed",
            EventType::RegistryKeyQueried => "registry.key_queried",
            EventType::RegistryValueQueried => "registry.value_queried",
            EventType::RegistryValueSet => "registry.value_set",
            EventType::FileCreated => "file.created",
            EventType::FileWritten => "file.written",
            EventType::FileClosed => "file.closed",
            EventType::FileCleanedUp => "file.cleaned_up",
            EventType::FileDeleted => "file.deleted",
            EventType::FileRenamed => "file.renamed",
            EventType::FileFsctl => "file.fsctl",
            EventType::NetTcpConnected => "net.tcp.connected",
            EventType::NetTcpAccepted => "net.tcp.accepted",
            EventType::NetTcpDisconnected => "net.tcp.disconnected",
        }
    }
}

} // verus!
