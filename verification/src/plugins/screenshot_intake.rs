//! `screenshot-intake`: receives decoded screenshot frames from the user-actor,
//! has them saved and uploaded as configured, and reports both.
//!
//! - Frames are refused while capture is off, although the user-actor must not
//!   send any then.
//! - The per-session quota is enforced here, not only pushed to the user-actor.

use vstd::prelude::*;

use crate::app::event::{SandboxEvent, ScreenshotFrame};
use crate::domain::scope::{ScopeModel, ScopeState};
use crate::domain::study_id::StudyId;
use crate::plugins::wire::{compose, envelope_raw, following, message, next_seq};
use crate::ports::{Directory, UploadMeta, UploadRequest};
use crate::protocol::config::ScreenshotsConfig;
use crate::protocol::events::EventType;
use crate::protocol::nats::{Envelope, PROTOCOL_VERSION};
use crate::protocol::payload::{cloned_text, Payload, ScreenshotReceivedData, ScreenshotUploadedData};
use crate::text::{decimal, decimal_digits};

verus! {

/// Intake queue capacity.
pub const QUEUE_CAPACITY: usize = 64;

/// Screenshot intake plugin.
#[derive(Debug)]
pub struct ScreenshotIntakePlugin {
    /// Screenshot policy (path/save/quota/endpoint).
    pub config: ScreenshotsConfig,
    /// Master gate: frames are refused when off.
    pub capture_enabled: bool,
    /// Screenshots accepted this session.
    pub accepted: u32,
}

/// A job: one frame to persist and/or upload.
#[derive(Debug)]
pub struct FrameJob {
    /// Study.
    pub study_id: StudyId,
    /// Session.
    pub session_id: u32,
    /// The frame.
    pub frame: ScreenshotFrame,
}

/// Is the next frame accepted: capture is on, and the quota is not used up?
pub open spec fn admits(plugin: ScreenshotIntakePlugin) -> bool {
    plugin.capture_enabled && plugin.accepted < plugin.config.max_per_session
}

/// The name of a screenshot on the wire and on disk.
pub open spec fn wire_name(session_id: u32, seq: u32) -> Seq<char> {
    "screenshot-"@ + decimal_digits(session_id as nat) + seq!['-'] + decimal_digits(seq as nat)
        + ".jpeg"@
}

/// What the plugin makes of an event: an admitted frame is reported and becomes a
/// job, with an empty frame left in the event; anything else is left alone.
pub open spec fn takes_in(
    before: ScreenshotIntakePlugin,
    state: ScopeModel,
    seq: u64,
    now_ms: i64,
    event: SandboxEvent,
    after: ScreenshotIntakePlugin,
    seq_after: u64,
    event_after: SandboxEvent,
    job: Option<(Envelope, FrameJob)>,
) -> bool {
    match (event, job) {
        (SandboxEvent::ScreenshotReceived(frame), Some((envelope, job))) => {
            &&& admits(before)
            &&& after == ScreenshotIntakePlugin { accepted: (before.accepted + 1) as u32, ..before }
            &&& seq_after == following(seq)
            &&& envelope == message(
                state,
                seq,
                now_ms,
                Payload::ScreenshotReceived(
                    ScreenshotReceivedData {
                        seq: frame.seq,
                        size_bytes: frame.jpeg@.len() as u64,
                    },
                ),
            )
            &&& job == FrameJob { study_id: state.study_id, session_id: state.session_id(), frame }
            &&& (event_after matches SandboxEvent::ScreenshotReceived(rest) && rest.seq == 0
                && rest.jpeg@.len() == 0)
        },
        (_, Some(_)) => false,
        (_, None) => {
            &&& event is ScreenshotReceived ==> !admits(before)
            &&& after == before
            &&& seq_after == seq
            &&& event_after == event
        },
    }
}

impl ScreenshotIntakePlugin {
    /// The quota is never overspent.
    pub open spec fn wf(&self) -> bool {
        self.accepted <= self.config.max_per_session
    }

    /// Assemble the plugin.
    pub fn new(config: ScreenshotsConfig, capture_enabled: bool) -> (plugin: Self)
        ensures
            plugin.wf(),
            plugin == (ScreenshotIntakePlugin { config, capture_enabled, accepted: 0 }),
    {
        ScreenshotIntakePlugin { config, capture_enabled, accepted: 0 }
    }

    /// Take in a pipeline event. An accepted frame is reported on the event
    /// channel and becomes a job; it is moved out of the event, which keeps an
    /// empty frame.
    pub fn pre(
        &mut self,
        state: &ScopeState,
        seq: &mut u64,
        now_ms: i64,
        event: &mut SandboxEvent,
    ) -> (job: Option<(Envelope, FrameJob)>)
        requires
            old(self).wf(),
        ensures
            final(self).wf(),
            takes_in(
                *old(self),
                state@,
                *old(seq),
                now_ms,
                *old(event),
                *final(self),
                *final(seq),
                *final(event),
                job,
            ),
    {
        match event {
            SandboxEvent::ScreenshotReceived(frame) => {
                if !self.capture_enabled || self.accepted >= self.config.max_per_session {
                    return None;
                }
                self.accepted = self.accepted + 1;
                let data = ScreenshotReceivedData {
                    seq: frame.seq,
                    size_bytes: frame.jpeg.len() as u64,
                };
                let envelope = compose(
                    state,
                    seq,
                    now_ms,
                    EventType::ScreenshotReceived,
                    Payload::ScreenshotReceived(data),
                );
                let mut taken = ScreenshotFrame { seq: 0, jpeg: Vec::new() };
                std::mem::swap(&mut taken, frame);
                let job = FrameJob {
                    study_id: state.study_id,
                    session_id: state.session_id(),
                    frame: taken,
                };
                Some((envelope, job))
            },
            _ => None,
        }
    }
}

// ---- The job ----

/// A frame on its way; the bytes are with the host from the write on.
#[derive(Debug)]
pub struct FrameRun {
    /// Study.
    pub study_id: StudyId,
    /// Session.
    pub session_id: u32,
    /// The frame's sequence number.
    pub seq: u32,
    /// The frame's size.
    pub size_bytes: u64,
    /// How far it is.
    pub phase: FramePhase,
}

/// How far a frame is: each phase waits for the host's report on the action that
/// led to it.
#[derive(Debug, PartialEq, Eq)]
pub enum FramePhase {
    /// The screenshots directory is being made; the bytes to write are kept.
    Making(Vec<u8>),
    /// The file is being written.
    Writing,
    /// The file is being uploaded.
    Uploading,
    /// `screenshot.uploaded` is being published.
    Publishing,
    /// The staged file is being removed.
    Removing,
    /// Nothing is left.
    Finished,
}

/// What the host does next.
#[derive(Debug)]
pub enum FrameAction {
    /// Make the screenshots directory.
    MakeDirectory(String),
    /// Write the file.
    Write {
        /// Where.
        directory: Directory,
        /// Under which name.
        name: String,
        /// What.
        jpeg: Vec<u8>,
    },
    /// Upload the file.
    Upload(UploadRequest),
    /// Publish on the event channel.
    Publish(Envelope),
    /// Remove the staged file.
    Remove {
        /// Where.
        directory: Directory,
        /// Its name.
        name: String,
    },
    /// The job is over.
    Done,
}

/// Where a frame's file goes: where saving is on to the configured directory,
/// else to a temporary place.
pub open spec fn frame_directory(config: ScreenshotsConfig) -> Directory {
    if config.save {
        Directory::Configured(config.path)
    } else {
        Directory::Temporary
    }
}

/// Removal of the staged file where saving is off, else the end.
pub open spec fn cleans_up(
    config: ScreenshotsConfig,
    run: FrameRun,
    after: FramePhase,
    action: FrameAction,
) -> bool {
    if config.save {
        after is Finished && action is Done
    } else {
        after is Removing && (action matches FrameAction::Remove { directory, name } && directory
            is Temporary && name@ == wire_name(run.session_id, run.seq))
    }
}

/// How a frame's job begins: where neither saving nor uploading is configured,
/// not at all; where saving is, with the directory; else with the staged file.
pub open spec fn begins_frame(
    config: ScreenshotsConfig,
    job: FrameJob,
    begun: Option<(FrameRun, FrameAction)>,
) -> bool {
    match begun {
        None => !config.save && config.upload_uri is None,
        Some((run, action)) => {
            &&& config.save || config.upload_uri is Some
            &&& run.study_id == job.study_id
            &&& run.session_id == job.session_id
            &&& run.seq == job.frame.seq
            &&& run.size_bytes == job.frame.jpeg@.len()
            &&& if config.save {
                &&& run.phase == FramePhase::Making(job.frame.jpeg)
                &&& action == FrameAction::MakeDirectory(config.path)
            } else {
                &&& run.phase is Writing
                &&& (action matches FrameAction::Write { directory, name, jpeg } && directory
                    is Temporary && name@ == wire_name(job.session_id, job.frame.seq) && jpeg
                    == job.frame.jpeg)
            }
        },
    }
}

/// One step of a frame's job: `ok` is the host's report on the last action.
pub open spec fn handles_frame(
    config: ScreenshotsConfig,
    run: FrameRun,
    ok: bool,
    seq: u64,
    now_ms: i64,
    after: FramePhase,
    action: FrameAction,
    seq_after: u64,
) -> bool {
    let name = wire_name(run.session_id, run.seq);
    match run.phase {
        FramePhase::Making(jpeg) => {
            &&& seq_after == seq
            &&& if ok {
                &&& after is Writing
                &&& (action matches FrameAction::Write { directory, name: written, jpeg: bytes }
                    && directory == frame_directory(config) && written@ == name && bytes == jpeg)
            } else {
                after is Finished && action is Done
            }
        },
        FramePhase::Writing => {
            &&& seq_after == seq
            &&& if !ok {
                after is Finished && action is Done
            } else if config.upload_uri is Some {
                &&& after is Uploading
                &&& (action matches FrameAction::Upload(request) && request.endpoint
                    == config.upload_uri->0 && request.meta.path@ == name && request.meta.study
                    == run.study_id && request.meta.session == run.session_id && request.directory
                    == frame_directory(config) && request.max_blob_bytes == run.size_bytes)
            } else {
                cleans_up(config, run, after, action)
            }
        },
        FramePhase::Uploading => if ok {
            &&& seq_after == following(seq)
            &&& after is Publishing
            &&& action == FrameAction::Publish(
                Envelope {
                    v: PROTOCOL_VERSION,
                    event_type: EventType::ScreenshotUploaded,
                    ts: now_ms,
                    study: run.study_id,
                    session: run.session_id,
                    seq,
                    data: Payload::ScreenshotUploaded(ScreenshotUploadedData { seq: run.seq }),
                },
            )
        } else {
            seq_after == seq && cleans_up(config, run, after, action)
        },
        FramePhase::Publishing => seq_after == seq && cleans_up(config, run, after, action),
        _ => seq_after == seq && after is Finished && action is Done,
    }
}

impl ScreenshotIntakePlugin {
    /// Begin a frame's job. `None` = neither saved nor uploaded: the report was
    /// all.
    pub fn process_frame(config: &ScreenshotsConfig, job: FrameJob) -> (begun: Option<
        (FrameRun, FrameAction),
    >)
        ensures
            begins_frame(*config, job, begun),
    {
        let size: usize = job.frame.jpeg.len();
        let seq: u32 = job.frame.seq;
        let study_id = job.study_id;
        let session_id: u32 = job.session_id;
        if config.save {
            let run = FrameRun {
                study_id,
                session_id,
                seq,
                size_bytes: size as u64,
                phase: FramePhase::Making(job.frame.jpeg),
            };
            Some((run, FrameAction::MakeDirectory(config.path.clone())))
        } else if config.upload_uri.is_some() {
            let run = FrameRun {
                study_id,
                session_id,
                seq,
                size_bytes: size as u64,
                phase: FramePhase::Writing,
            };
            let action = FrameAction::Write {
                directory: Directory::Temporary,
                name: frame_file_name(session_id, seq),
                jpeg: job.frame.jpeg,
            };
            Some((run, action))
        } else {
            None
        }
    }

    /// Take in the host's report on the last action.
    pub fn frame_step(
        config: &ScreenshotsConfig,
        run: &mut FrameRun,
        ok: bool,
        seq: &mut u64,
        now_ms: i64,
    ) -> (action: FrameAction)
        ensures
            handles_frame(
                *config,
                *old(run),
                ok,
                *old(seq),
                now_ms,
                final(run).phase,
                action,
                *final(seq),
            ),
            *final(run) == (FrameRun { phase: final(run).phase, ..*old(run) }),
    {
        let mut phase = FramePhase::Finished;
        std::mem::swap(&mut phase, &mut run.phase);
        match phase {
            FramePhase::Making(jpeg) => {
                if !ok {
                    return FrameAction::Done;
                }
                run.phase = FramePhase::Writing;
                FrameAction::Write {
                    directory: directory_of(config),
                    name: frame_file_name(run.session_id, run.seq),
                    jpeg,
                }
            },
            FramePhase::Writing => {
                if !ok {
                    return FrameAction::Done;
                }
                match cloned_text(&config.upload_uri) {
                    Some(endpoint) => {
                        run.phase = FramePhase::Uploading;
                        FrameAction::Upload(
                            UploadRequest {
                                endpoint,
                                meta: UploadMeta {
                                    path: frame_file_name(run.session_id, run.seq),
                                    study: run.study_id,
                                    session: run.session_id,
                                },
                                directory: directory_of(config),
                                max_blob_bytes: run.size_bytes,
                            },
                        )
                    },
                    None => clean_up(config, run),
                }
            },
            FramePhase::Uploading => {
                if !ok {
                    return clean_up(config, run);
                }
                run.phase = FramePhase::Publishing;
                let taken: u64 = next_seq(seq);
                FrameAction::Publish(
                    envelope_raw(
                        now_ms,
                        taken,
                        run.study_id,
                        run.session_id,
                        EventType::ScreenshotUploaded,
                        Payload::ScreenshotUploaded(ScreenshotUploadedData { seq: run.seq }),
                    ),
                )
            },
            FramePhase::Publishing => clean_up(config, run),
            _ => FrameAction::Done,
        }
    }
}

fn directory_of(config: &ScreenshotsConfig) -> (directory: Directory)
    ensures
        directory == frame_directory(*config),
{
    if config.save {
        Directory::Configured(config.path.clone())
    } else {
        Directory::Temporary
    }
}

fn clean_up(config: &ScreenshotsConfig, run: &mut FrameRun) -> (action: FrameAction)
    ensures
        cleans_up(*config, *old(run), final(run).phase, action),
        *final(run) == (FrameRun { phase: final(run).phase, ..*old(run) }),
{
    if config.save {
        run.phase = FramePhase::Finished;
        FrameAction::Done
    } else {
        run.phase = FramePhase::Removing;
        FrameAction::Remove {
            directory: Directory::Temporary,
            name: frame_file_name(run.session_id, run.seq),
        }
    }
}

/// The name of a screenshot on the wire and on disk.
pub fn frame_file_name(session_id: u32, seq: u32) -> (name: String)
    ensures
        name@ == wire_name(session_id, seq),
{
    let mut name = "screenshot-".to_owned();
    name.append(decimal(session_id as u64).as_str());
    name.push('-');
    name.append(decimal(seq as u64).as_str());
    name.append(".jpeg");
    proof {
        assert(name@ =~= wire_name(session_id, seq));
    }
    name
}

/// While capture is off, and once the quota is used up, nothing is accepted.
pub proof fn law_gate_and_quota(plugin: ScreenshotIntakePlugin)
    ensures
        !plugin.capture_enabled ==> !admits(plugin),
        plugin.accepted >= plugin.config.max_per_session ==> !admits(plugin),
{
}

/// A file that was staged only for its upload is removed after it, whether or
/// not the upload and its report worked; a saved file is never removed.
pub proof fn law_staged_files_are_removed(
    config: ScreenshotsConfig,
    run: FrameRun,
    ok: bool,
    seq: u64,
    now_ms: i64,
    after: FramePhase,
    action: FrameAction,
    seq_after: u64,
)
    requires
        handles_frame(config, run, ok, seq, now_ms, after, action, seq_after),
    ensures
        action is Remove ==> !config.save,
        !config.save && run.phase is Publishing ==> action is Remove,
        !config.save && run.phase is Uploading && !ok ==> action is Remove,
        !config.save && run.phase is Writing && ok && config.upload_uri is None ==> action is Remove,
{
}

} // verus!
