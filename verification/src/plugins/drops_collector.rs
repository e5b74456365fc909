//! `drops-collector`: copies matching dropped files out of harm's way and has
//! them uploaded to the Controller.
//!
//! It acts on closes (the file is handle-free then), removes duplicates by
//! content hash, enforces the size cap before and during the copy, and spends
//! the session's budget only on copies that were really kept. The collector
//! decides; its host does the file and network work and reports back.

use vstd::prelude::*;

use crate::app::event::AgentBusEvent;
use crate::collections::TextSet;
use crate::domain::drop_copy::{copy_file_name, copy_name, hash8, sanitize_extension, sanitized};
use crate::domain::image_name::{extension, path_extension};
use crate::domain::scope::{ScopeModel, ScopeState};
use crate::domain::study_id::StudyId;
use crate::plugins::wire::{envelope_raw, following, next_seq};
use crate::ports::{Directory, UploadMeta, UploadRequest};
use crate::protocol::config::DropsConfig;
use crate::protocol::events::EventType;
use crate::protocol::nats::{Envelope, PROTOCOL_VERSION};
use crate::protocol::payload::{cloned_text, DropCopiedData, DropUploadedData, Payload};
use crate::text::{decimal, decimal_digits, hex_digits};

verus! {

/// Copy chunk size while streaming a drop out of the VM filesystem.
pub const COPY_CHUNK_BYTES: usize = 65536;

/// Collection queue capacity.
pub const QUEUE_CAPACITY: usize = 256;

/// Messages of this many bytes and more do not have a SHA-256 digest: their
/// length in bits is not a 64-bit number.
pub const MAX_HASHED_BYTES: u64 = 0x2000_0000_0000_0000;

// ---- The capped copy ----

/// The streaming SHA-256 state of the `sha2` crate.
#[verifier::external_type_specification]
#[verifier::external_body]
pub struct ExSha256(sha2::Sha256);

/// The bytes that a hasher has taken in, in order.
pub uninterp spec fn absorbed(hasher: sha2::Sha256) -> Seq<u8>;

/// The SHA-256 digest of a message.
pub uninterp spec fn sha256(bytes: Seq<u8>) -> Seq<u8>;

/// Calls `sha2::Sha256::new`: a hasher that has taken in nothing.
#[verifier::external_body]
fn new_hasher() -> (hasher: sha2::Sha256)
    ensures
        absorbed(hasher) == Seq::<u8>::empty(),
{
    sha2::Digest::new()
}

/// Calls `sha2::Digest::update`: the hasher takes in the chunk behind what it has
/// taken in before.
#[verifier::external_body]
fn absorb(hasher: &mut sha2::Sha256, chunk: &[u8])
    requires
        absorbed(*old(hasher)).len() + chunk@.len() <= u64::MAX,
    ensures
        absorbed(*final(hasher)) == absorbed(*old(hasher)) + chunk@,
{
    sha2::Digest::update(hasher, chunk);
}

/// Calls `sha2::Digest::finalize`: the digest of everything that was taken in.
/// It depends on those bytes alone, not on how they were cut into chunks.
#[verifier::external_body]
fn finish(hasher: sha2::Sha256) -> (digest: [u8; 32])
    requires
        absorbed(hasher).len() < MAX_HASHED_BYTES,
    ensures
        digest@ == sha256(absorbed(hasher)),
{
    sha2::Digest::finalize(hasher).into()
}

/// A copy in progress, with its cap: the file can grow between the size check
/// and the read.
pub struct CappedCopy {
    hasher: sha2::Sha256,
    total: u64,
    limit: u64,
}

/// What a copy holds after one more chunk, and whether the chunk fitted.
pub open spec fn takes_in_chunk(
    before: Seq<u8>,
    cap: u64,
    chunk: Seq<u8>,
    after: Seq<u8>,
    within: bool,
) -> bool {
    &&& within == (before.len() + chunk.len() <= cap)
    &&& after == if within {
        before + chunk
    } else {
        before
    }
}

impl CappedCopy {
    /// The bytes copied so far.
    pub closed spec fn copied(&self) -> Seq<u8> {
        absorbed(self.hasher)
    }

    /// The cap.
    pub closed spec fn cap(&self) -> u64 {
        self.limit
    }

    /// The count is that of the bytes, and it is within the cap.
    pub closed spec fn wf(&self) -> bool {
        self.total == self.copied().len() && self.total <= self.limit
    }

    /// What well-formedness says: never more than the cap was copied.
    pub proof fn law_copy_stays_within_the_cap(&self)
        requires
            self.wf(),
        ensures
            self.copied().len() <= self.cap(),
    {
    }

    /// A copy of at most `max_bytes`.
    pub fn new(max_bytes: u64) -> (copy: Self)
        ensures
            copy.wf(),
            copy.copied() == Seq::<u8>::empty(),
            copy.cap() == max_bytes,
    {
        CappedCopy { hasher: new_hasher(), total: 0, limit: max_bytes }
    }

    /// Take in the next chunk; `false` = it would go past the cap, and nothing of
    /// it was taken in.
    pub fn accept(&mut self, chunk: &[u8]) -> (within: bool)
        requires
            old(self).wf(),
        ensures
            final(self).wf(),
            final(self).cap() == old(self).cap(),
            takes_in_chunk(
                old(self).copied(),
                old(self).cap(),
                chunk@,
                final(self).copied(),
                within,
            ),
    {
        let size: usize = chunk.len();
        if size as u64 > self.limit - self.total {
            return false;
        }
        absorb(&mut self.hasher, chunk);
        self.total = self.total + size as u64;
        true
    }

    /// How many bytes were copied.
    pub fn total(&self) -> (total: u64)
        requires
            self.wf(),
        ensures
            total == self.copied().len(),
    {
        self.total
    }

    /// The digest of the copied bytes.
    pub fn digest(self) -> (digest: [u8; 32])
        requires
            self.copied().len() < MAX_HASHED_BYTES,
        ensures
            digest@ == sha256(self.copied()),
    {
        finish(self.hasher)
    }
}

/// Why a copy was aborted, in words.
pub fn cap_message(max_bytes: u64) -> (text: String)
    ensures
        text@ == "drop grew past cap "@ + decimal_digits(max_bytes as nat) + " while copying"@,
{
    let mut text = "drop grew past cap ".to_owned();
    text.append(decimal(max_bytes).as_str());
    text.append(" while copying");
    text
}

// ---- The collection ----

/// One drop on its way.
#[derive(Debug)]
pub struct DropJob {
    /// Where the drop is.
    pub source: String,
    /// Study at the time of collection.
    pub study_id: StudyId,
    /// Session at the time of collection.
    pub session_id: u32,
}

/// How far the current collection is: each phase waits for the host's report on
/// the action that led to it.
#[derive(Debug)]
pub enum Phase {
    /// No collection is under way.
    Idle,
    /// The drop's size is asked for.
    Sizing(DropJob),
    /// The drops directory is being made; the number names the copy.
    Preparing(DropJob, u64),
    /// The drop is being copied to the part file.
    Copying(DropJob, u64),
    /// The part file is being removed: the collection has failed, or the content
    /// is known.
    Discarding,
    /// The part file gets its name; its hash comes first.
    Renaming(DropJob, u64, String, String),
    /// The copy's size is asked for.
    Measuring(DropJob, String),
    /// `drop.copied` is being published.
    Announcing(DropJob, String, u64),
    /// The copy is being uploaded.
    Uploading(DropJob, String, u64),
    /// `drop.uploaded` is being published.
    Closing,
}

/// What the host does next.
#[derive(Debug)]
pub enum CollectAction {
    /// Ask for the size of this file.
    Stat(String),
    /// Make the drops directory.
    MakeDirectory,
    /// Copy the file, capped, to the part file in the drops directory.
    Copy {
        /// What to copy.
        source: String,
        /// The part file's name.
        part: String,
        /// The cap.
        max_bytes: u64,
    },
    /// Remove the part file.
    RemovePart(String),
    /// Give the part file its name.
    Rename {
        /// The part file's name.
        part: String,
        /// The copy's name.
        name: String,
    },
    /// Ask for the size of the copy.
    Measure(String),
    /// Publish on the event channel.
    Publish(Envelope),
    /// Upload the copy.
    Upload(UploadRequest),
    /// The collection is over.
    Done,
}

/// What the host reports.
#[derive(Debug)]
pub enum CollectEvent {
    /// The file's size; `None` = it is gone.
    Size(Option<u64>),
    /// The directory is there, or cannot be had.
    Directory(bool),
    /// The digest of the copy; `None` = the copy was aborted.
    Copied(Option<[u8; 32]>),
    /// The part file was removed, or could not be.
    Removed,
    /// The part file has its name, or could not get it.
    Renamed(bool),
    /// The copy's size, 0 where it cannot be told.
    Measured(u64),
    /// The message was handed to the broker.
    Published,
    /// The upload was accepted, or not.
    Uploaded(bool),
}

/// Drop collection plugin.
#[derive(Debug)]
pub struct DropsCollectorPlugin {
    /// Drop collection policy.
    pub config: DropsConfig,
    /// Hashes of the contents collected this boot.
    pub seen_hashes: TextSet,
    /// Drops collected this session.
    pub collected: u32,
    /// Number of the next copy's name.
    pub name_seq: u64,
    /// The current collection.
    pub phase: Phase,
}

/// The name of the part file.
pub open spec fn part_name(session_id: u32, number: u64) -> Seq<char> {
    decimal_digits(session_id as nat) + seq!['-'] + decimal_digits(number as nat) + ".part"@
}

/// The name of the copy of a drop with this content.
pub open spec fn kept_name(job: DropJob, number: u64, digest: Seq<u8>) -> Seq<char> {
    copy_name(
        job.session_id as nat,
        number as nat,
        hex_digits(digest.take(4)),
        sanitized(source_extension(job.source@)),
    )
}

/// The extension of a source, empty where it has none.
pub open spec fn source_extension(source: Seq<char>) -> Seq<char> {
    match path_extension(source) {
        Some(text) => text,
        None => Seq::empty(),
    }
}

/// The number of the next copy.
pub open spec fn next_number(number: u64) -> u64 {
    following(number)
}

/// A report on a drop.
pub open spec fn drop_report(job: DropJob, seq: u64, now_ms: i64, data: Payload) -> Envelope {
    Envelope {
        v: PROTOCOL_VERSION,
        event_type: data.kind(),
        ts: now_ms,
        study: job.study_id,
        session: job.session_id,
        seq,
        data,
    }
}

/// Only the phase differs.
pub open spec fn only_phase_differs(before: DropsCollectorPlugin, after: DropsCollectorPlugin) -> bool {
    &&& after.config == before.config
    &&& after.seen_hashes@ == before.seen_hashes@
    &&& after.collected == before.collected
    &&& after.name_seq == before.name_seq
}

/// How the collector takes on a drop: while the session's budget lasts it asks
/// for the file's size first, and after that it does nothing.
pub open spec fn takes_on(
    before: DropsCollectorPlugin,
    state: ScopeModel,
    source: String,
    after: DropsCollectorPlugin,
    action: Option<CollectAction>,
) -> bool {
    &&& only_phase_differs(before, after)
    &&& match action {
        Some(action) => {
            &&& before.collected < before.config.limit_per_session
            &&& action == CollectAction::Stat(source)
            &&& after.phase == Phase::Sizing(
                DropJob { source, study_id: state.study_id, session_id: state.session_id() },
            )
        },
        None => {
            &&& before.collected >= before.config.limit_per_session
            &&& after.phase is Idle
        },
    }
}

/// One step of a collection: what the collector does and becomes on a report of
/// its host. A report that the phase does not wait for ends the collection.
pub open spec fn collects(
    before: DropsCollectorPlugin,
    event: CollectEvent,
    seq: u64,
    now_ms: i64,
    after: DropsCollectorPlugin,
    action: CollectAction,
    seq_after: u64,
) -> bool {
    match (before.phase, event) {
        (Phase::Sizing(job), CollectEvent::Size(Some(size))) => {
            &&& seq_after == seq
            &&& if size <= before.config.max_size {
                &&& after.config == before.config
                &&& after.seen_hashes@ == before.seen_hashes@
                &&& after.collected == before.collected
                &&& after.name_seq == next_number(before.name_seq)
                &&& after.phase == Phase::Preparing(job, before.name_seq)
                &&& action is MakeDirectory
            } else {
                &&& only_phase_differs(before, after)
                &&& after.phase is Idle
                &&& action is Done
            }
        },
        (Phase::Preparing(job, number), CollectEvent::Directory(true)) => {
            &&& seq_after == seq
            &&& only_phase_differs(before, after)
            &&& after.phase == Phase::Copying(job, number)
            &&& (action matches CollectAction::Copy { source, part, max_bytes } && source == job.source
                && part@ == part_name(job.session_id, number) && max_bytes == before.config.max_size)
        },
        (Phase::Copying(job, number), CollectEvent::Copied(Some(digest))) => {
            &&& seq_after == seq
            &&& only_phase_differs(before, after)
            &&& if before.seen_hashes@.contains(hex_digits(digest@.take(4))) {
                &&& after.phase is Discarding
                &&& (action matches CollectAction::RemovePart(part) && part@ == part_name(
                    job.session_id,
                    number,
                ))
            } else {
                &&& (after.phase matches Phase::Renaming(same, kept, hash, name) && same == job && kept
                    == number && hash@ == hex_digits(digest@.take(4)) && name@ == kept_name(
                    job,
                    number,
                    digest@,
                ))
                &&& (action matches CollectAction::Rename { part, name } && part@ == part_name(
                    job.session_id,
                    number,
                ) && name@ == kept_name(job, number, digest@))
            }
        },
        (Phase::Copying(job, number), CollectEvent::Copied(None)) => {
            &&& seq_after == seq
            &&& only_phase_differs(before, after)
            &&& after.phase is Discarding
            &&& (action matches CollectAction::RemovePart(part) && part@ == part_name(
                job.session_id,
                number,
            ))
        },
        (Phase::Renaming(job, number, hash, name), CollectEvent::Renamed(true)) => {
            &&& seq_after == seq
            &&& after.config == before.config
            &&& after.seen_hashes@ == before.seen_hashes@.insert(hash@)
            &&& after.collected == before.collected + 1
            &&& after.name_seq == before.name_seq
            &&& (after.phase matches Phase::Measuring(same, copy) && same == job && copy == name)
            &&& (action matches CollectAction::Measure(copy) && copy == name)
        },
        (Phase::Renaming(job, number, hash, name), CollectEvent::Renamed(false)) => {
            &&& seq_after == seq
            &&& only_phase_differs(before, after)
            &&& after.phase is Discarding
            &&& (action matches CollectAction::RemovePart(part) && part@ == part_name(
                job.session_id,
                number,
            ))
        },
        (Phase::Measuring(job, name), CollectEvent::Measured(size)) => {
            &&& seq_after == following(seq)
            &&& only_phase_differs(before, after)
            &&& after.phase == Phase::Announcing(job, name, size)
            &&& action == CollectAction::Publish(
                drop_report(
                    job,
                    seq,
                    now_ms,
                    Payload::DropCopied(
                        DropCopiedData { source: job.source, copy: name, size_bytes: size },
                    ),
                ),
            )
        },
        (Phase::Announcing(job, name, size), CollectEvent::Published) => {
            &&& seq_after == seq
            &&& only_phase_differs(before, after)
            &&& if before.config.upload_uri is Some {
                &&& after.phase == Phase::Uploading(job, name, size)
                &&& action == CollectAction::Upload(
                    UploadRequest {
                        endpoint: before.config.upload_uri->0,
                        meta: UploadMeta { path: name, study: job.study_id, session: job.session_id },
                        directory: Directory::Configured(before.config.path),
                        max_blob_bytes: before.config.max_size,
                    },
                )
            } else {
                &&& after.phase is Idle
                &&& action is Done
            }
        },
        (Phase::Uploading(job, name, size), CollectEvent::Uploaded(true)) => {
            &&& seq_after == following(seq)
            &&& only_phase_differs(before, after)
            &&& after.phase is Closing
            &&& action == CollectAction::Publish(
                drop_report(
                    job,
                    seq,
                    now_ms,
                    Payload::DropUploaded(DropUploadedData { copy: name, size_bytes: size }),
                ),
            )
        },
        _ => {
            &&& seq_after == seq
            &&& only_phase_differs(before, after)
            &&& after.phase is Idle
            &&& action is Done
        },
    }
}

impl DropsCollectorPlugin {
    /// Every collected drop has a content of its own, and the session's budget is
    /// never overspent: there is room for the collection under way.
    pub open spec fn wf(&self) -> bool {
        &&& self.seen_hashes.wf()
        &&& self.seen_hashes.listed().len() == self.collected
        &&& self.collected <= self.config.limit_per_session
        &&& match self.phase {
            Phase::Sizing(_) => self.collected < self.config.limit_per_session,
            Phase::Preparing(_, _) => self.collected < self.config.limit_per_session,
            Phase::Copying(_, _) => self.collected < self.config.limit_per_session,
            Phase::Renaming(_, _, hash, _) => {
                &&& self.collected < self.config.limit_per_session
                &&& !self.seen_hashes@.contains(hash@)
            },
            _ => true,
        }
    }

    /// Assemble the plugin.
    pub fn new(config: DropsConfig) -> (plugin: Self)
        ensures
            plugin.wf(),
            plugin.config == config,
            plugin.seen_hashes@ == Set::<Seq<char>>::empty(),
            plugin.collected == 0,
            plugin.name_seq == 0,
            plugin.phase is Idle,
    {
        DropsCollectorPlugin {
            config,
            seen_hashes: TextSet::new(),
            collected: 0,
            name_seq: 0,
            phase: Phase::Idle,
        }
    }

    /// Take in a bus event: a closed drop is a job for the queue.
    pub fn on_bus(event: AgentBusEvent) -> (job: Option<String>)
        ensures
            job == match event {
                AgentBusEvent::DropClosed { path } => Some(path),
                _ => None,
            },
    {
        match event {
            AgentBusEvent::DropClosed { path } => Some(path),
            _ => None,
        }
    }

    /// Begin to collect a drop. `None` = the session's budget is spent. The
    /// budget is a gate only: vanished, oversized, failed and duplicate drops
    /// cost nothing.
    pub fn collect_drop(&mut self, state: &ScopeState, source: String) -> (action: Option<CollectAction>)
        requires
            old(self).wf(),
            old(self).phase is Idle,
        ensures
            final(self).wf(),
            takes_on(*old(self), state@, source, *final(self), action),
    {
        if self.collected >= self.config.limit_per_session {
            return None;
        }
        self.phase = Phase::Sizing(
            DropJob {
                source: source.clone(),
                study_id: state.study_id,
                session_id: state.session_id(),
            },
        );
        Some(CollectAction::Stat(source))
    }

    /// Take in the host's report on the last action.
    pub fn collect_step(&mut self, event: CollectEvent, seq: &mut u64, now_ms: i64) -> (action: CollectAction)
        requires
            old(self).wf(),
        ensures
            final(self).wf(),
            collects(*old(self), event, *old(seq), now_ms, *final(self), action, *final(seq)),
    {
        let mut phase = Phase::Idle;
        std::mem::swap(&mut phase, &mut self.phase);
        match (phase, event) {
            (Phase::Sizing(job), CollectEvent::Size(Some(size))) => {
                if size > self.config.max_size {
                    return CollectAction::Done;
                }
                let number: u64 = next_seq(&mut self.name_seq);
                self.phase = Phase::Preparing(job, number);
                CollectAction::MakeDirectory
            },
            (Phase::Preparing(job, number), CollectEvent::Directory(true)) => {
                let source = job.source.clone();
                let part = part_file_name(job.session_id, number);
                self.phase = Phase::Copying(job, number);
                CollectAction::Copy { source, part, max_bytes: self.config.max_size }
            },
            (Phase::Copying(job, number), CollectEvent::Copied(Some(digest))) => {
                let hash = hash8(&digest);
                let part = part_file_name(job.session_id, number);
                if self.seen_hashes.contains(hash.as_str()) {
                    self.phase = Phase::Discarding;
                    return CollectAction::RemovePart(part);
                }
                let found = match extension(job.source.as_str()) {
                    Some(text) => text,
                    None => String::new(),
                };
                proof {
                    assert(found@ =~= source_extension(job.source@));
                }
                let name = copy_file_name(
                    job.session_id,
                    number,
                    hash.as_str(),
                    sanitize_extension(found.as_str()).as_str(),
                );
                self.phase = Phase::Renaming(job, number, hash, name.clone());
                CollectAction::Rename { part, name }
            },
            (Phase::Copying(job, number), CollectEvent::Copied(None)) => {
                self.phase = Phase::Discarding;
                CollectAction::RemovePart(part_file_name(job.session_id, number))
            },
            (Phase::Renaming(job, number, hash, name), CollectEvent::Renamed(kept)) => {
                if kept {
                    let _fresh = self.seen_hashes.insert(hash);
                    self.collected = self.collected + 1;
                    self.phase = Phase::Measuring(job, name.clone());
                    CollectAction::Measure(name)
                } else {
                    self.phase = Phase::Discarding;
                    CollectAction::RemovePart(part_file_name(job.session_id, number))
                }
            },
            (Phase::Measuring(job, name), CollectEvent::Measured(size)) => {
                let data = DropCopiedData {
                    source: job.source.clone(),
                    copy: name.clone(),
                    size_bytes: size,
                };
                let envelope = report(&job, seq, now_ms, EventType::DropCopied, Payload::DropCopied(data));
                self.phase = Phase::Announcing(job, name, size);
                CollectAction::Publish(envelope)
            },
            (Phase::Announcing(job, name, size), CollectEvent::Published) => {
                match cloned_text(&self.config.upload_uri) {
                    None => CollectAction::Done,
                    Some(endpoint) => {
                        let request = UploadRequest {
                            endpoint,
                            meta: UploadMeta {
                                path: name.clone(),
                                study: job.study_id,
                                session: job.session_id,
                            },
                            directory: Directory::Configured(self.config.path.clone()),
                            max_blob_bytes: self.config.max_size,
                        };
                        self.phase = Phase::Uploading(job, name, size);
                        CollectAction::Upload(request)
                    },
                }
            },
            (Phase::Uploading(job, name, size), CollectEvent::Uploaded(true)) => {
                let data = DropUploadedData { copy: name, size_bytes: size };
                let envelope = report(
                    &job,
                    seq,
                    now_ms,
                    EventType::DropUploaded,
                    Payload::DropUploaded(data),
                );
                self.phase = Phase::Closing;
                CollectAction::Publish(envelope)
            },
            _ => CollectAction::Done,
        }
    }
}

/// A report on a drop.
fn report(job: &DropJob, seq: &mut u64, now_ms: i64, event_type: EventType, data: Payload) -> (envelope: Envelope)
    requires
        event_type == data.kind(),
    ensures
        envelope == drop_report(*job, *old(seq), now_ms, data),
        *final(seq) == following(*old(seq)),
{
    let taken: u64 = next_seq(seq);
    envelope_raw(now_ms, taken, job.study_id, job.session_id, event_type, data)
}

/// The name of the part file.
pub fn part_file_name(session_id: u32, number: u64) -> (name: String)
    ensures
        name@ == part_name(session_id, number),
{
    let mut name = decimal(session_id as u64);
    name.push('-');
    name.append(decimal(number).as_str());
    name.append(".part");
    proof {
        assert(name@ =~= part_name(session_id, number));
    }
    name
}

/// The budget counts contents, not attempts: it grows by one exactly when a part
/// file got its name, the hash of that content was new, and it is remembered
/// from then on. Nothing else changes the budget or the known hashes.
pub proof fn law_budget_is_spent_on_kept_copies(
    before: DropsCollectorPlugin,
    event: CollectEvent,
    seq: u64,
    now_ms: i64,
    after: DropsCollectorPlugin,
    action: CollectAction,
    seq_after: u64,
)
    requires
        before.wf(),
        collects(before, event, seq, now_ms, after, action, seq_after),
    ensures
        if before.phase is Renaming && event == CollectEvent::Renamed(true) {
            &&& after.collected == before.collected + 1
            &&& exists|hash: Seq<char>|
                !before.seen_hashes@.contains(hash) && after.seen_hashes@
                    == #[trigger] before.seen_hashes@.insert(hash)
        } else {
            &&& after.collected == before.collected
            &&& after.seen_hashes@ == before.seen_hashes@
        },
        after.collected <= before.config.limit_per_session,
{
}

/// A drop whose content was collected before is discarded, never kept a second
/// time.
pub proof fn law_known_content_is_discarded(
    before: DropsCollectorPlugin,
    digest: [u8; 32],
    seq: u64,
    now_ms: i64,
    after: DropsCollectorPlugin,
    action: CollectAction,
    seq_after: u64,
)
    requires
        before.phase is Copying,
        before.seen_hashes@.contains(hex_digits(digest@.take(4))),
        collects(before, CollectEvent::Copied(Some(digest)), seq, now_ms, after, action, seq_after),
    ensures
        action is RemovePart,
        after.phase is Discarding,
        after.collected == before.collected,
{
}

/// No part file is left behind: a collection that has asked for a copy either
/// gives the part file its name or asks for its removal, whatever the host
/// reports on the copy and on the renaming.
pub proof fn law_part_files_are_cleaned_up(
    before: DropsCollectorPlugin,
    copied: Option<[u8; 32]>,
    renamed: bool,
    seq: u64,
    now_ms: i64,
    after: DropsCollectorPlugin,
    action: CollectAction,
    seq_after: u64,
)
    ensures
        before.phase is Copying && collects(
            before,
            CollectEvent::Copied(copied),
            seq,
            now_ms,
            after,
            action,
            seq_after,
        ) ==> action is Rename || action is RemovePart,
        before.phase is Renaming && collects(
            before,
            CollectEvent::Renamed(renamed),
            seq,
            now_ms,
            after,
            action,
            seq_after,
        ) ==> if renamed {
            action is Measure
        } else {
            action is RemovePart
        },
{
}

} // verus!
