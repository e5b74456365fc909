//! Parsing of kernel trace records.
//!
//! A record holds its properties as plain values. Classic kernel schemas changed
//! property names across Windows versions, so each value is looked up under its
//! candidate names in order.

use vstd::prelude::*;

use crate::adapters::etw_mapping::{event_type, mapped, EtwProvider};
use crate::app::event::SourceEvent;
use crate::domain::image_name::{image_name, last_segment};
use crate::plugins::wire::following;
use crate::protocol::events::EventType;
use crate::protocol::payload::{
    cloned_text, FileCreatedData, FileDeletedData, FileFsctlData, FileReleasedData, FileRenamedData,
    FileWrittenData, ImageLoadedData, ImageUnloadedData, ProcessStartedData, ProcessStoppedData,
    RegistryKeyData, RegistryValueQueriedData, RegistryValueSetData, TcpConnectionData, ThreadStartedData,
    ThreadStoppedData,
};

verus! {

/// Default trace session name.
pub const SESSION_NAME: &'static str = "SecOutfall";

/// One property of a record: its value as each of the types it can be read as.
#[derive(Debug, PartialEq, Eq)]
pub struct EtwProperty {
    /// Name in the record's schema.
    pub name: String,
    /// As a 32-bit number, if it is one.
    pub as_u32: Option<u32>,
    /// As a 64-bit number, if it is one.
    pub as_u64: Option<u64>,
    /// As a text, if it is one.
    pub as_text: Option<String>,
}

/// One raw trace record.
#[derive(Debug, PartialEq, Eq)]
pub struct EtwRecord {
    /// The provider's GUID, as the trace prints it.
    pub provider_id: String,
    /// The event's opcode.
    pub opcode: u8,
    /// The process the record was written in.
    pub process_id: u32,
    /// The thread the record was written in.
    pub thread_id: u32,
    /// The properties that could be read.
    pub properties: Vec<EtwProperty>,
}

/// The place of the first property of a name, the number of properties when
/// there is none.
pub open spec fn property_at(properties: Seq<EtwProperty>, name: Seq<char>) -> int
    decreases properties.len(),
{
    if properties.len() == 0 {
        0
    } else {
        let earlier = property_at(properties.drop_last(), name);
        if earlier < properties.len() - 1 || properties.last().name@ == name {
            earlier
        } else {
            properties.len() as int
        }
    }
}

impl EtwRecord {
    /// The first property of a name.
    pub open spec fn property(self, name: Seq<char>) -> Option<EtwProperty> {
        let at = property_at(self.properties@, name);
        if at < self.properties@.len() {
            Some(self.properties@[at])
        } else {
            None
        }
    }

    /// A property as a 32-bit number.
    pub open spec fn u32_of(self, name: Seq<char>) -> Option<u32> {
        match self.property(name) {
            Some(property) => property.as_u32,
            None => None,
        }
    }

    /// A property as a 64-bit number.
    pub open spec fn u64_of(self, name: Seq<char>) -> Option<u64> {
        match self.property(name) {
            Some(property) => property.as_u64,
            None => None,
        }
    }

    /// A property as a text.
    pub open spec fn text_of(self, name: Seq<char>) -> Option<String> {
        match self.property(name) {
            Some(property) => property.as_text,
            None => None,
        }
    }

    fn find(&self, name: &str) -> (found: Option<&EtwProperty>)
        ensures
            match found {
                Some(found) => self.property(name@) == Some(*found),
                None => self.property(name@) is None,
            },
    {
        let ghost all = self.properties@;
        let mut at: usize = 0;
        while at < self.properties.len()
            invariant
                at <= all.len(),
                all == self.properties@,
                property_at(all.take(at as int), name@) == at,
            decreases all.len() - at,
        {
            proof {
                assert(all.take(at + 1).drop_last() =~= all.take(at as int));
            }
            if *self.properties[at].name.as_str() == *name {
                proof {
                    lemma_property_prefix(all, at + 1, name@);
                }
                return Some(&self.properties[at]);
            }
            at = at + 1;
        }
        proof {
            assert(all.take(all.len() as int) =~= all);
        }
        None
    }

    fn opt_u32(&self, name: &str) -> (value: Option<u32>)
        ensures
            value == self.u32_of(name@),
    {
        match self.find(name) {
            Some(property) => property.as_u32,
            None => None,
        }
    }

    fn opt_u64(&self, name: &str) -> (value: Option<u64>)
        ensures
            value == self.u64_of(name@),
    {
        match self.find(name) {
            Some(property) => property.as_u64,
            None => None,
        }
    }

    fn opt_string(&self, name: &str) -> (value: Option<String>)
        ensures
            value == self.text_of(name@),
    {
        match self.find(name) {
            Some(property) => cloned_text(&property.as_text),
            None => None,
        }
    }
}

proof fn lemma_property_prefix(properties: Seq<EtwProperty>, count: int, name: Seq<char>)
    requires
        0 < count <= properties.len(),
        property_at(properties.take(count), name) == count - 1,
    ensures
        property_at(properties, name) == count - 1,
    decreases properties.len(),
{
    if count < properties.len() {
        assert(properties.drop_last().take(count) =~= properties.take(count));
        lemma_property_prefix(properties.drop_last(), count, name);
    } else {
        assert(properties.take(count) =~= properties);
    }
}

/// The first of two values that is there.
pub open spec fn either<T>(first: Option<T>, second: Option<T>) -> Option<T> {
    if first is Some {
        first
    } else {
        second
    }
}

fn first_of<T>(first: Option<T>, second: Option<T>) -> (value: Option<T>)
    ensures
        value == either(first, second),
{
    match first {
        Some(value) => Some(value),
        None => second,
    }
}

/// Is this the text that a property held, or empty where it held none?
pub open spec fn text_or_empty(text: String, found: Option<String>) -> bool {
    match found {
        Some(found) => text == found,
        None => text@.len() == 0,
    }
}

fn or_empty(found: Option<String>) -> (text: String)
    ensures
        text_or_empty(text, found),
{
    match found {
        Some(text) => text,
        None => String::new(),
    }
}

/// Last path segment, for image `name` fields.
pub fn file_name_of(path: &str) -> (name: String)
    ensures
        name@ == last_segment(path@),
{
    image_name(path).to_owned()
}

/// Is this the last segment of the path that a property held, or empty where it
/// held none?
pub open spec fn segment_or_empty(text: String, found: Option<String>) -> bool {
    match found {
        Some(path) => text@ == last_segment(path@),
        None => text@.len() == 0,
    }
}

fn segment_of(found: &Option<String>) -> (text: String)
    ensures
        segment_or_empty(text, *found),
{
    match found {
        Some(path) => file_name_of(path.as_str()),
        None => String::new(),
    }
}

/// A port that fits 16 bits; 0 otherwise, and where there is none.
pub open spec fn port(value: Option<u32>) -> u16 {
    match value {
        Some(value) => if value <= u16::MAX {
            value as u16
        } else {
            0
        },
        None => 0,
    }
}

fn port_of(value: Option<u32>) -> (number: u16)
    ensures
        number == port(value),
{
    match value {
        Some(value) => if value <= u16::MAX as u32 {
            value as u16
        } else {
            0
        },
        None => 0,
    }
}

// ---- Registry ----

/// The key operation of a record; `None` = a mandatory value is missing.
pub open spec fn key_data(record: EtwRecord) -> Option<RegistryKeyData> {
    match (actor(record), record.text_of("KeyName"@)) {
        (Some(pid), Some(key_name)) => Some(
            RegistryKeyData { pid, key_name, key_handle: record.u64_of("KeyHandle"@) },
        ),
        _ => None,
    }
}

/// The process that acted, as a record tells it.
pub open spec fn actor(record: EtwRecord) -> Option<u32> {
    either(record.u32_of("PID"@), record.u32_of("ProcessId"@))
}

/// The shared payload of the registry key operations; `None` when a mandatory
/// value is missing.
pub fn registry_key_data(
    pid: Option<u32>,
    key_name: Option<String>,
    key_handle: Option<u64>,
) -> (data: Option<RegistryKeyData>)
    ensures
        data == match (pid, key_name) {
            (Some(pid), Some(key_name)) => Some(RegistryKeyData { pid, key_name, key_handle }),
            _ => None,
        },
{
    match (pid, key_name) {
        (Some(pid), Some(key_name)) => Some(RegistryKeyData { pid, key_name, key_handle }),
        _ => None,
    }
}

/// What a registry record of this type is. A type that is no registry event
/// yields nothing: it is never taken for another one.
pub open spec fn registry_event(record: EtwRecord, event: EventType) -> Option<SourceEvent> {
    match (event, key_data(record)) {
        (EventType::RegistryKeyCreated, Some(data)) => Some(SourceEvent::RegistryKeyCreated(data)),
        (EventType::RegistryKeyOpened, Some(data)) => Some(SourceEvent::RegistryKeyOpened(data)),
        (EventType::RegistryKeyDeleted, Some(data)) => Some(SourceEvent::RegistryKeyDeleted(data)),
        (EventType::RegistryKeyQueried, Some(data)) => Some(SourceEvent::RegistryKeyQueried(data)),
        (EventType::RegistryKeyClosed, Some(data)) => Some(SourceEvent::RegistryKeyClosed(data)),
        (EventType::RegistryValueQueried, Some(data)) => Some(
            SourceEvent::RegistryValueQueried(
                RegistryValueQueriedData {
                    pid: data.pid,
                    key_name: data.key_name,
                    value_name: record.text_of("ValueName"@),
                    key_handle: data.key_handle,
                },
            ),
        ),
        (EventType::RegistryValueSet, Some(data)) => Some(
            SourceEvent::RegistryValueSet(
                RegistryValueSetData {
                    pid: data.pid,
                    key_name: data.key_name,
                    value_name: record.text_of("ValueName"@),
                    key_handle: data.key_handle,
                    value_type: record.text_of("ValueType"@),
                    data_size: record.u32_of("DataSize"@),
                },
            ),
        ),
        _ => None,
    }
}

/// Map one registry record, variant for variant.
pub fn parse_registry(record: &EtwRecord, event: EventType) -> (parsed: Option<SourceEvent>)
    ensures
        parsed == registry_event(*record, event),
{
    let key_name = record.opt_string("KeyName");
    let key_handle = record.opt_u64("KeyHandle");
    let pid = first_of(record.opt_u32("PID"), record.opt_u32("ProcessId"));
    let data = match registry_key_data(pid, key_name, key_handle) {
        Some(data) => data,
        None => return None,
    };
    match event {
        EventType::RegistryKeyCreated => Some(SourceEvent::RegistryKeyCreated(data)),
        EventType::RegistryKeyOpened => Some(SourceEvent::RegistryKeyOpened(data)),
        EventType::RegistryKeyDeleted => Some(SourceEvent::RegistryKeyDeleted(data)),
        EventType::RegistryKeyQueried => Some(SourceEvent::RegistryKeyQueried(data)),
        EventType::RegistryKeyClosed => Some(SourceEvent::RegistryKeyClosed(data)),
        EventType::RegistryValueQueried => Some(
            SourceEvent::RegistryValueQueried(
                RegistryValueQueriedData {
                    pid: data.pid,
                    key_name: data.key_name,
                    value_name: record.opt_string("ValueName"),
                    key_handle: data.key_handle,
                },
            ),
        ),
        EventType::RegistryValueSet => Some(
            SourceEvent::RegistryValueSet(
                RegistryValueSetData {
                    pid: data.pid,
                    key_name: data.key_name,
                    value_name: record.opt_string("ValueName"),
                    key_handle: data.key_handle,
                    value_type: record.opt_string("ValueType"),
                    data_size: record.opt_u32("DataSize"),
                },
            ),
        ),
        _ => None,
    }
}

// ---- Files ----

/// What a file record of this type is.
pub open spec fn file_event(record: EtwRecord, event: EventType) -> Option<SourceEvent> {
    let file_object = record.u64_of("FileObject"@);
    let file_key = record.u64_of("FileKey"@);
    let file_name = record.text_of("FileName"@);
    match (event, actor(record)) {
        (EventType::FileCreated, Some(pid)) => Some(
            SourceEvent::FileCreated(
                FileCreatedData {
                    pid,
                    file_object,
                    file_name,
                    create_options: record.u32_of("CreateOptions"@),
                    create_disposition: record.u32_of("CreateDisposition"@),
                },
            ),
        ),
        (EventType::FileWritten, Some(pid)) => Some(
            SourceEvent::FileWritten(
                FileWrittenData {
                    pid,
                    file_object,
                    file_key,
                    file_name,
                    io_size: record.u64_of("IoSize"@),
                    offset: record.u64_of("Offset"@),
                },
            ),
        ),
        (EventType::FileClosed, Some(pid)) => Some(
            SourceEvent::FileClosed(FileReleasedData { pid, file_object, file_key, file_name }),
        ),
        (EventType::FileCleanedUp, Some(pid)) => Some(
            SourceEvent::FileCleanedUp(FileReleasedData { pid, file_object, file_key, file_name }),
        ),
        (EventType::FileDeleted, Some(pid)) => Some(
            SourceEvent::FileDeleted(FileDeletedData { pid, file_object, file_key, file_name }),
        ),
        (EventType::FileRenamed, Some(pid)) => Some(
            SourceEvent::FileRenamed(
                FileRenamedData {
                    pid,
                    file_object,
                    file_name,
                    new_name: either(
                        record.text_of("NewPath"@),
                        record.text_of("NewFileName"@),
                    ),
                    file_key,
                },
            ),
        ),
        (EventType::FileFsctl, Some(pid)) => Some(
            SourceEvent::FileFsctl(FileFsctlData { pid, file_object, file_name, file_key }),
        ),
        _ => None,
    }
}

/// Map one file record, variant for variant.
pub fn parse_file_io(record: &EtwRecord, event: EventType) -> (parsed: Option<SourceEvent>)
    ensures
        parsed == file_event(*record, event),
{
    let pid: u32 = match first_of(record.opt_u32("PID"), record.opt_u32("ProcessId")) {
        Some(pid) => pid,
        None => return None,
    };
    let file_object = record.opt_u64("FileObject");
    let file_key = record.opt_u64("FileKey");
    let file_name = record.opt_string("FileName");
    match event {
        EventType::FileCreated => Some(
            SourceEvent::FileCreated(
                FileCreatedData {
                    pid,
                    file_object,
                    file_name,
                    create_options: record.opt_u32("CreateOptions"),
                    create_disposition: record.opt_u32("CreateDisposition"),
                },
            ),
        ),
        EventType::FileWritten => Some(
            SourceEvent::FileWritten(
                FileWrittenData {
                    pid,
                    file_object,
                    file_key,
                    file_name,
                    io_size: record.opt_u64("IoSize"),
                    offset: record.opt_u64("Offset"),
                },
            ),
        ),
        EventType::FileClosed => Some(
            SourceEvent::FileClosed(FileReleasedData { pid, file_object, file_key, file_name }),
        ),
        EventType::FileCleanedUp => Some(
            SourceEvent::FileCleanedUp(FileReleasedData { pid, file_object, file_key, file_name }),
        ),
        EventType::FileDeleted => Some(
            SourceEvent::FileDeleted(FileDeletedData { pid, file_object, file_key, file_name }),
        ),
        EventType::FileRenamed => Some(
            SourceEvent::FileRenamed(
                FileRenamedData {
                    pid,
                    file_object,
                    file_name,
                    new_name: first_of(
                        record.opt_string("NewPath"),
                        record.opt_string("NewFileName"),
                    ),
                    file_key,
                },
            ),
        ),
        EventType::FileFsctl => Some(
            SourceEvent::FileFsctl(FileFsctlData { pid, file_object, file_name, file_key }),
        ),
        _ => None,
    }
}

// ---- TCP ----

/// The connection of a record; `None` = an address is missing.
pub open spec fn connection(record: EtwRecord) -> Option<TcpConnectionData> {
    let source = either(
        record.text_of("saddr"@),
        either(record.text_of("SourceAddress"@), record.text_of("SrcAddr"@)),
    );
    let dest = either(
        record.text_of("daddr"@),
        either(record.text_of("DestinationAddress"@), record.text_of("DestAddr"@)),
    );
    match (source, dest) {
        (Some(source_addr), Some(dest_addr)) => Some(
            TcpConnectionData {
                pid: record.u32_of("PID"@),
                source_addr,
                source_port: port(either(record.u32_of("sport"@), record.u32_of("SourcePort"@))),
                dest_addr,
                dest_port: port(either(record.u32_of("dport"@), record.u32_of("DestPort"@))),
            },
        ),
        _ => None,
    }
}

/// What a TCP record of this type is.
pub open spec fn tcp_event(record: EtwRecord, event: EventType) -> Option<SourceEvent> {
    match (event, connection(record)) {
        (EventType::NetTcpConnected, Some(data)) => Some(SourceEvent::NetTcpConnected(data)),
        (EventType::NetTcpAccepted, Some(data)) => Some(SourceEvent::NetTcpAccepted(data)),
        (EventType::NetTcpDisconnected, Some(data)) => Some(SourceEvent::NetTcpDisconnected(data)),
        _ => None,
    }
}

/// Map one TCP record, variant for variant.
pub fn parse_tcp_ip(record: &EtwRecord, event: EventType) -> (parsed: Option<SourceEvent>)
    ensures
        parsed == tcp_event(*record, event),
{
    let source = first_of(
        record.opt_string("saddr"),
        first_of(record.opt_string("SourceAddress"), record.opt_string("SrcAddr")),
    );
    let dest = first_of(
        record.opt_string("daddr"),
        first_of(record.opt_string("DestinationAddress"), record.opt_string("DestAddr")),
    );
    let data = match (source, dest) {
        (Some(source_addr), Some(dest_addr)) => TcpConnectionData {
            pid: record.opt_u32("PID"),
            source_addr,
            source_port: port_of(first_of(record.opt_u32("sport"), record.opt_u32("SourcePort"))),
            dest_addr,
            dest_port: port_of(first_of(record.opt_u32("dport"), record.opt_u32("DestPort"))),
        },
        _ => return None,
    };
    match event {
        EventType::NetTcpConnected => Some(SourceEvent::NetTcpConnected(data)),
        EventType::NetTcpAccepted => Some(SourceEvent::NetTcpAccepted(data)),
        EventType::NetTcpDisconnected => Some(SourceEvent::NetTcpDisconnected(data)),
        _ => None,
    }
}

// ---- All of it ----

/// The process that a thread event is about: as the record tells it, else the one
/// it was written in.
pub open spec fn owner(record: EtwRecord, told: Option<u32>) -> u32 {
    match told {
        Some(pid) => pid,
        None => record.process_id,
    }
}

/// The image name that a process record holds.
pub open spec fn image_text(record: EtwRecord) -> Option<String> {
    either(record.text_of("ImageFileName"@), record.text_of("ImageName"@))
}

/// What a record of this provider is.
pub open spec fn describes(
    record: EtwRecord,
    provider: EtwProvider,
    parsed: Option<SourceEvent>,
) -> bool {
    match mapped(provider, record.opcode) {
        None => parsed is None,
        Some(event) => match event {
            EventType::ProcessStarted => parsed matches Some(SourceEvent::ProcessStarted(data)) && {
                &&& data.pid == record.process_id
                &&& data.parent_pid == either(
                    record.u32_of("ParentId"@),
                    record.u32_of("ParentProcessID"@),
                )
                &&& text_or_empty(data.name, image_text(record))
                &&& data.image_path == record.text_of("ImagePath"@)
                &&& data.command_line == record.text_of("CommandLine"@)
                &&& data.os_session_id == either(
                    record.u32_of("SessionId"@),
                    record.u32_of("SessionID"@),
                )
            },
            EventType::ProcessStopped => parsed matches Some(SourceEvent::ProcessStopped(data)) && {
                &&& data.pid == record.process_id
                &&& text_or_empty(data.name, image_text(record))
            },
            EventType::ThreadStarted => parsed == Some(
                SourceEvent::ThreadStarted(
                    ThreadStartedData {
                        pid: owner(
                            record,
                            either(record.u32_of("ProcessId"@), record.u32_of("TProcessId"@)),
                        ),
                        tid: record.thread_id,
                        parent_tid: None,
                    },
                ),
            ),
            EventType::ThreadStopped => parsed == Some(
                SourceEvent::ThreadStopped(
                    ThreadStoppedData {
                        pid: owner(record, record.u32_of("ProcessId"@)),
                        tid: record.thread_id,
                    },
                ),
            ),
            EventType::ImageLoaded => parsed matches Some(SourceEvent::ImageLoaded(data)) && {
                &&& data.pid == record.process_id
                &&& segment_or_empty(data.name, record.text_of("FileName"@))
                &&& data.image_path == record.text_of("FileName"@)
                &&& data.image_size == record.u64_of("ImageSize"@)
                &&& data.image_checksum == either(
                    record.u32_of("ImageCheckSum"@),
                    record.u32_of("ImageChecksum"@),
                )
            },
            EventType::ImageUnloaded => parsed matches Some(SourceEvent::ImageUnloaded(data)) && {
                &&& data.pid == record.process_id
                &&& segment_or_empty(data.name, record.text_of("FileName"@))
            },
            _ => match provider {
                EtwProvider::Registry => parsed == registry_event(record, event),
                EtwProvider::FileIo => parsed == file_event(record, event),
                EtwProvider::TcpIp => parsed == tcp_event(record, event),
                _ => false,
            },
        },
    }
}

/// Map one raw record onto a [`SourceEvent`] (`None` = unmapped/unparseable).
pub fn parse_event(record: &EtwRecord) -> (parsed: Option<SourceEvent>)
    ensures
        ({
            let guid = crate::text::lowercase(
                crate::adapters::etw_mapping::unbraced(record.provider_id@),
            );
            ||| exists|provider: EtwProvider| #[trigger]
                provider.name() == guid && describes(*record, provider, parsed)
            ||| parsed is None && forall|provider: EtwProvider| #[trigger] provider.name() != guid
        }),
{
    match EtwProvider::from_guid(record.provider_id.as_str()) {
        Some(provider) => parse_from(record, provider),
        None => None,
    }
}

/// [`parse_event`] for a record whose provider is known.
pub fn parse_from(record: &EtwRecord, provider: EtwProvider) -> (parsed: Option<SourceEvent>)
    ensures
        describes(*record, provider, parsed),
{
    let event = match event_type(provider, record.opcode) {
        Some(event) => event,
        None => return None,
    };
    match event {
        EventType::ProcessStarted => Some(
            SourceEvent::ProcessStarted(
                ProcessStartedData {
                    pid: record.process_id,
                    parent_pid: first_of(
                        record.opt_u32("ParentId"),
                        record.opt_u32("ParentProcessID"),
                    ),
                    name: or_empty(
                        first_of(record.opt_string("ImageFileName"), record.opt_string("ImageName")),
                    ),
                    image_path: record.opt_string("ImagePath"),
                    command_line: record.opt_string("CommandLine"),
                    os_session_id: first_of(
                        record.opt_u32("SessionId"),
                        record.opt_u32("SessionID"),
                    ),
                },
            ),
        ),
        EventType::ProcessStopped => Some(
            SourceEvent::ProcessStopped(
                ProcessStoppedData {
                    pid: record.process_id,
                    name: or_empty(
                        first_of(record.opt_string("ImageFileName"), record.opt_string("ImageName")),
                    ),
                },
            ),
        ),
        EventType::ThreadStarted => {
            let told = first_of(record.opt_u32("ProcessId"), record.opt_u32("TProcessId"));
            Some(
                SourceEvent::ThreadStarted(
                    ThreadStartedData {
                        pid: told.unwrap_or(record.process_id),
                        tid: record.thread_id,
                        parent_tid: None,
                    },
                ),
            )
        },
        EventType::ThreadStopped => {
            let told = record.opt_u32("ProcessId");
            Some(
                SourceEvent::ThreadStopped(
                    ThreadStoppedData {
                        pid: told.unwrap_or(record.process_id),
                        tid: record.thread_id,
                    },
                ),
            )
        },
        EventType::ImageLoaded => {
            let path = record.opt_string("FileName");
            Some(
                SourceEvent::ImageLoaded(
                    ImageLoadedData {
                        pid: record.process_id,
                        name: segment_of(&path),
                        image_path: path,
                        image_size: record.opt_u64("ImageSize"),
                        image_checksum: first_of(
                            record.opt_u32("ImageCheckSum"),
                            record.opt_u32("ImageChecksum"),
                        ),
                    },
                ),
            )
        },
        EventType::ImageUnloaded => {
            let path = record.opt_string("FileName");
            Some(
                SourceEvent::ImageUnloaded(
                    ImageUnloadedData { pid: record.process_id, name: segment_of(&path) },
                ),
            )
        },
        _ => match provider {
            EtwProvider::Registry => parse_registry(record, event),
            EtwProvider::FileIo => parse_file_io(record, event),
            EtwProvider::TcpIp => parse_tcp_ip(record, event),
            _ => None,
        },
    }
}

/// A record never becomes an event of another kind than the one its provider and
/// opcode stand for.
pub proof fn law_records_are_never_mislabeled(
    record: EtwRecord,
    provider: EtwProvider,
    parsed: Option<SourceEvent>,
)
    requires
        describes(record, provider, parsed),
    ensures
        parsed is Some ==> mapped(provider, record.opcode) == Some(parsed->0.kind()),
{
}

/// Live kernel trace: the bounded hand-over between the trace's thread and the
/// runtime. The trace is never blocked: what does not fit is dropped and counted.
#[derive(Debug)]
pub struct EtwKernelTraceAdapter {
    /// Events that may wait between the trace and the runtime.
    pub capacity: usize,
    /// Name of the trace session.
    pub session_name: String,
    /// Events dropped.
    pub loss: u64,
}

impl EtwKernelTraceAdapter {
    /// Bounded queue of `capacity` events.
    pub fn new(capacity: usize, session_name: String) -> (adapter: Self)
        ensures
            adapter == (EtwKernelTraceAdapter { capacity, session_name, loss: 0 }),
    {
        EtwKernelTraceAdapter { capacity, session_name, loss: 0 }
    }

    /// Events dropped due to a full queue, or to one that is no longer read.
    pub fn loss_count(&self) -> (count: u64)
        ensures
            count == self.loss,
    {
        self.loss
    }

    /// An event was offered to the queue, which took it or not.
    pub fn offered(&mut self, taken: bool)
        ensures
            *final(self) == if taken {
                *old(self)
            } else {
                EtwKernelTraceAdapter { loss: following(old(self).loss), ..*old(self) }
            },
    {
        if !taken {
            self.loss = self.loss.wrapping_add(1);
        }
    }
}

} // verus!
