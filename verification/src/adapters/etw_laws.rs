//! What an event tells of the trace record that it came from, property by
//! property.

use vstd::prelude::*;

use crate::adapters::etw::{describes, property_at, EtwProperty, EtwRecord};
use crate::adapters::etw_mapping::{mapped, EtwProvider};
use crate::app::event::SourceEvent;
use crate::domain::image_name::last_segment;
use crate::protocol::events::EventType;
use crate::protocol::payload::{RegistryKeyData, TcpConnectionData};

verus! {

/// Is this the place of the record's first property of a name?
pub open spec fn first_named(record: EtwRecord, name: Seq<char>, at: int) -> bool {
    &&& 0 <= at < record.properties@.len()
    &&& record.properties@[at].name@ == name
    &&& forall|j: int| 0 <= j < at ==> (#[trigger] record.properties@[j]).name@ != name
}

/// Has the record no property of a name?
pub open spec fn unnamed(record: EtwRecord, name: Seq<char>) -> bool {
    forall|j: int|
        0 <= j < record.properties@.len() ==> (#[trigger] record.properties@[j]).name@ != name
}

/// Is this what the record holds under a name, as a 32-bit number?
pub open spec fn is_u32(record: EtwRecord, name: Seq<char>, value: Option<u32>) -> bool {
    &&& forall|at: int| #[trigger]
        first_named(record, name, at) ==> value == record.properties@[at].as_u32
    &&& unnamed(record, name) ==> value is None
}

/// Is this what the record holds under a name, as a 64-bit number?
pub open spec fn is_u64(record: EtwRecord, name: Seq<char>, value: Option<u64>) -> bool {
    &&& forall|at: int| #[trigger]
        first_named(record, name, at) ==> value == record.properties@[at].as_u64
    &&& unnamed(record, name) ==> value is None
}

/// Is this what the record holds under a name, as text?
pub open spec fn is_text(record: EtwRecord, name: Seq<char>, value: Option<String>) -> bool {
    &&& forall|at: int| #[trigger]
        first_named(record, name, at) ==> value == record.properties@[at].as_text
    &&& unnamed(record, name) ==> value is None
}

/// Does the record hold a 32-bit number under a name?
pub open spec fn tells_u32(record: EtwRecord, name: Seq<char>) -> bool {
    exists|at: int| #[trigger] first_named(record, name, at) && record.properties@[at].as_u32 is Some
}

/// Does the record hold text under a name?
pub open spec fn tells_text(record: EtwRecord, name: Seq<char>) -> bool {
    exists|at: int| #[trigger] first_named(record, name, at) && record.properties@[at].as_text is Some
}

/// Is this the number under the first name, or, where there is none, that under
/// the second?
pub open spec fn is_u32_under(
    record: EtwRecord,
    first: Seq<char>,
    second: Seq<char>,
    value: Option<u32>,
) -> bool {
    if tells_u32(record, first) {
        is_u32(record, first, value)
    } else {
        is_u32(record, second, value)
    }
}

/// Is this the text under the first name, or, where there is none, that under
/// the second?
pub open spec fn is_text_under(
    record: EtwRecord,
    first: Seq<char>,
    second: Seq<char>,
    value: Option<String>,
) -> bool {
    if tells_text(record, first) {
        is_text(record, first, value)
    } else {
        is_text(record, second, value)
    }
}

/// The place looked up is that of the first property of the name.
pub proof fn lemma_property_at(properties: Seq<EtwProperty>, name: Seq<char>)
    ensures
        0 <= property_at(properties, name) <= properties.len(),
        property_at(properties, name) < properties.len() ==> properties[property_at(
            properties,
            name,
        )].name@ == name,
        forall|j: int|
            0 <= j < property_at(properties, name) ==> (#[trigger] properties[j]).name@ != name,
    decreases properties.len(),
{
    if properties.len() > 0 {
        let front = properties.drop_last();
        lemma_property_at(front, name);
        assert forall|j: int| 0 <= j < property_at(properties, name) implies (
        #[trigger] properties[j]).name@ != name by {
            if j < front.len() {
                assert(front[j] == properties[j]);
            }
        }
    }
}

/// A lookup gives what the record's first property of the name holds, and
/// nothing where no property has the name.
pub proof fn law_lookups_find_the_first_property(record: EtwRecord, name: Seq<char>)
    ensures
        is_u32(record, name, record.u32_of(name)),
        is_u64(record, name, record.u64_of(name)),
        is_text(record, name, record.text_of(name)),
        tells_u32(record, name) <==> record.u32_of(name) is Some,
        tells_text(record, name) <==> record.text_of(name) is Some,
{
    let properties = record.properties@;
    let found = property_at(properties, name);
    lemma_property_at(properties, name);
    assert forall|at: int| #[trigger] first_named(record, name, at) implies at == found by {
        if found < at {
            assert(properties[found].name@ != name);
        }
        if at < found {
            assert(properties[at].name@ != name);
        }
    }
    if found < properties.len() {
        assert(first_named(record, name, found));
        assert(properties[found].name@ == name);
    }
}

/// The connection that a network event tells of.
pub open spec fn connection_of(event: SourceEvent) -> Option<TcpConnectionData> {
    match event {
        SourceEvent::NetTcpConnected(data) => Some(data),
        SourceEvent::NetTcpAccepted(data) => Some(data),
        SourceEvent::NetTcpDisconnected(data) => Some(data),
        _ => None,
    }
}

/// A connection keeps its ends apart: what the record holds as the source's
/// address and port is the event's source, and what it holds as the
/// destination's is the event's destination. A port that is told as a number of
/// at most 16 bits is that number, and 0 where it is told larger or not at all.
pub proof fn law_a_connection_keeps_its_ends(
    record: EtwRecord,
    provider: EtwProvider,
    event: SourceEvent,
    at: int,
)
    requires
        describes(record, provider, Some(event)),
        connection_of(event) is Some,
    ensures
        ({
            let data = connection_of(event)->0;
            let text = record.properties@[at].as_text;
            let number = record.properties@[at].as_u32;
            &&& first_named(record, "saddr"@, at) && text is Some ==> data.source_addr == text->0
            &&& first_named(record, "daddr"@, at) && text is Some ==> data.dest_addr == text->0
            &&& !tells_text(record, "saddr"@) ==> {
                &&& first_named(record, "SourceAddress"@, at) && text is Some ==> data.source_addr
                    == text->0
                &&& first_named(record, "SrcAddr"@, at) && text is Some && !tells_text(
                    record,
                    "SourceAddress"@,
                ) ==> data.source_addr == text->0
            }
            &&& !tells_text(record, "daddr"@) ==> {
                &&& first_named(record, "DestinationAddress"@, at) && text is Some ==> data.dest_addr
                    == text->0
                &&& first_named(record, "DestAddr"@, at) && text is Some && !tells_text(
                    record,
                    "DestinationAddress"@,
                ) ==> data.dest_addr == text->0
            }
            &&& first_named(record, "sport"@, at) && number is Some ==> data.source_port == (
            if number->0 <= 65535 { number->0 as int } else { 0 })
            &&& first_named(record, "dport"@, at) && number is Some ==> data.dest_port == (
            if number->0 <= 65535 { number->0 as int } else { 0 })
            &&& !tells_u32(record, "sport"@) ==> {
                &&& first_named(record, "SourcePort"@, at) && number is Some ==> data.source_port == (
                if number->0 <= 65535 { number->0 as int } else { 0 })
                &&& !tells_u32(record, "SourcePort"@) ==> data.source_port == 0
            }
            &&& !tells_u32(record, "dport"@) ==> {
                &&& first_named(record, "DestPort"@, at) && number is Some ==> data.dest_port == (
                if number->0 <= 65535 { number->0 as int } else { 0 })
                &&& !tells_u32(record, "DestPort"@) ==> data.dest_port == 0
            }
            &&& is_u32(record, "PID"@, data.pid)
        }),
{
    law_lookups_find_the_first_property(record, "saddr"@);
    law_lookups_find_the_first_property(record, "SourceAddress"@);
    law_lookups_find_the_first_property(record, "SrcAddr"@);
    law_lookups_find_the_first_property(record, "daddr"@);
    law_lookups_find_the_first_property(record, "DestinationAddress"@);
    law_lookups_find_the_first_property(record, "DestAddr"@);
    law_lookups_find_the_first_property(record, "sport"@);
    law_lookups_find_the_first_property(record, "SourcePort"@);
    law_lookups_find_the_first_property(record, "dport"@);
    law_lookups_find_the_first_property(record, "DestPort"@);
    law_lookups_find_the_first_property(record, "PID"@);
}

/// A network record that names both ends is never passed over, and one that
/// leaves an end out always is.
pub proof fn law_connections_need_both_ends(record: EtwRecord, parsed: Option<SourceEvent>)
    requires
        describes(record, EtwProvider::TcpIp, parsed),
        mapped(EtwProvider::TcpIp, record.opcode) is Some,
    ensures
        parsed is Some <==> {
            &&& tells_text(record, "saddr"@) || tells_text(record, "SourceAddress"@) || tells_text(
                record,
                "SrcAddr"@,
            )
            &&& tells_text(record, "daddr"@) || tells_text(record, "DestinationAddress"@) || tells_text(
                record,
                "DestAddr"@,
            )
        },
        parsed is Some ==> connection_of(parsed->0) is Some,
{
    law_lookups_find_the_first_property(record, "saddr"@);
    law_lookups_find_the_first_property(record, "SourceAddress"@);
    law_lookups_find_the_first_property(record, "SrcAddr"@);
    law_lookups_find_the_first_property(record, "daddr"@);
    law_lookups_find_the_first_property(record, "DestinationAddress"@);
    law_lookups_find_the_first_property(record, "DestAddr"@);
}

/// A process event tells of the process that its record was written in, and the
/// rest of it is what the record holds under the matching names.
pub proof fn law_a_process_event_tells_its_record(
    record: EtwRecord,
    provider: EtwProvider,
    event: SourceEvent,
)
    requires
        describes(record, provider, Some(event)),
    ensures
        event matches SourceEvent::ProcessStarted(data) ==> {
            &&& data.pid == record.process_id
            &&& is_u32_under(record, "ParentId"@, "ParentProcessID"@, data.parent_pid)
            &&& is_u32_under(record, "SessionId"@, "SessionID"@, data.os_session_id)
            &&& is_text(record, "ImagePath"@, data.image_path)
            &&& is_text(record, "CommandLine"@, data.command_line)
            &&& data.name@.len() == 0 || is_text_under(
                record,
                "ImageFileName"@,
                "ImageName"@,
                Some(data.name),
            )
            &&& tells_text(record, "ImageFileName"@) || tells_text(record, "ImageName"@)
                ==> is_text_under(record, "ImageFileName"@, "ImageName"@, Some(data.name))
        },
        event matches SourceEvent::ProcessStopped(data) ==> {
            &&& data.pid == record.process_id
            &&& data.name@.len() == 0 || is_text_under(
                record,
                "ImageFileName"@,
                "ImageName"@,
                Some(data.name),
            )
            &&& tells_text(record, "ImageFileName"@) || tells_text(record, "ImageName"@)
                ==> is_text_under(record, "ImageFileName"@, "ImageName"@, Some(data.name))
        },
{
    law_lookups_find_the_first_property(record, "ParentId"@);
    law_lookups_find_the_first_property(record, "ParentProcessID"@);
    law_lookups_find_the_first_property(record, "SessionId"@);
    law_lookups_find_the_first_property(record, "SessionID"@);
    law_lookups_find_the_first_property(record, "ImagePath"@);
    law_lookups_find_the_first_property(record, "CommandLine"@);
    law_lookups_find_the_first_property(record, "ImageFileName"@);
    law_lookups_find_the_first_property(record, "ImageName"@);
}

/// A thread event tells of the thread that its record was written in and of the
/// process that the record names, or else of the one it was written in.
pub proof fn law_a_thread_event_tells_its_record(
    record: EtwRecord,
    provider: EtwProvider,
    event: SourceEvent,
)
    requires
        describes(record, provider, Some(event)),
    ensures
        event matches SourceEvent::ThreadStarted(data) ==> {
            &&& data.tid == record.thread_id
            &&& if tells_u32(record, "ProcessId"@) || tells_u32(record, "TProcessId"@) {
                is_u32_under(record, "ProcessId"@, "TProcessId"@, Some(data.pid))
            } else {
                data.pid == record.process_id
            }
        },
        event matches SourceEvent::ThreadStopped(data) ==> {
            &&& data.tid == record.thread_id
            &&& if tells_u32(record, "ProcessId"@) {
                is_u32(record, "ProcessId"@, Some(data.pid))
            } else {
                data.pid == record.process_id
            }
        },
{
    law_lookups_find_the_first_property(record, "ProcessId"@);
    law_lookups_find_the_first_property(record, "TProcessId"@);
}

/// An image event tells of the process that its record was written in; its name
/// is the last segment of the path that the record holds.
pub proof fn law_an_image_event_tells_its_record(
    record: EtwRecord,
    provider: EtwProvider,
    event: SourceEvent,
    at: int,
)
    requires
        describes(record, provider, Some(event)),
    ensures
        event matches SourceEvent::ImageLoaded(data) ==> {
            &&& data.pid == record.process_id
            &&& is_text(record, "FileName"@, data.image_path)
            &&& is_u64(record, "ImageSize"@, data.image_size)
            &&& is_u32_under(record, "ImageCheckSum"@, "ImageChecksum"@, data.image_checksum)
            &&& data.image_path is Some ==> data.name@ == last_segment(data.image_path->0@)
            &&& data.image_path is None ==> data.name@.len() == 0
        },
        event matches SourceEvent::ImageUnloaded(data) ==> {
            &&& data.pid == record.process_id
            &&& first_named(record, "FileName"@, at) && record.properties@[at].as_text is Some
                ==> data.name@ == last_segment(record.properties@[at].as_text->0@)
            &&& !tells_text(record, "FileName"@) ==> data.name@.len() == 0
        },
{
    law_lookups_find_the_first_property(record, "FileName"@);
    law_lookups_find_the_first_property(record, "ImageSize"@);
    law_lookups_find_the_first_property(record, "ImageCheckSum"@);
    law_lookups_find_the_first_property(record, "ImageChecksum"@);
}

/// What every registry event tells: who, which key, by which handle.
pub open spec fn key_of(event: SourceEvent) -> Option<RegistryKeyData> {
    match event {
        SourceEvent::RegistryKeyCreated(data) => Some(data),
        SourceEvent::RegistryKeyOpened(data) => Some(data),
        SourceEvent::RegistryKeyDeleted(data) => Some(data),
        SourceEvent::RegistryKeyQueried(data) => Some(data),
        SourceEvent::RegistryKeyClosed(data) => Some(data),
        SourceEvent::RegistryValueQueried(data) => Some(
            RegistryKeyData { pid: data.pid, key_name: data.key_name, key_handle: data.key_handle },
        ),
        SourceEvent::RegistryValueSet(data) => Some(
            RegistryKeyData { pid: data.pid, key_name: data.key_name, key_handle: data.key_handle },
        ),
        _ => None,
    }
}

/// A registry event tells of the process, the key, the handle and the value that
/// its record holds. A record that names its process and its key is never passed
/// over, and one that leaves either out always is.
pub proof fn law_a_registry_event_tells_its_record(record: EtwRecord, parsed: Option<SourceEvent>)
    requires
        describes(record, EtwProvider::Registry, parsed),
        mapped(EtwProvider::Registry, record.opcode) is Some,
    ensures
        parsed is Some <==> (tells_u32(record, "PID"@) || tells_u32(record, "ProcessId"@))
            && tells_text(record, "KeyName"@),
        parsed matches Some(event) ==> {
            &&& key_of(event) is Some
            &&& is_u32_under(record, "PID"@, "ProcessId"@, Some(key_of(event)->0.pid))
            &&& is_text(record, "KeyName"@, Some(key_of(event)->0.key_name))
            &&& is_u64(record, "KeyHandle"@, key_of(event)->0.key_handle)
            &&& event matches SourceEvent::RegistryValueQueried(data) ==> is_text(
                record,
                "ValueName"@,
                data.value_name,
            )
            &&& event matches SourceEvent::RegistryValueSet(data) ==> {
                &&& is_text(record, "ValueName"@, data.value_name)
                &&& is_text(record, "ValueType"@, data.value_type)
                &&& is_u32(record, "DataSize"@, data.data_size)
            }
        },
{
    law_lookups_find_the_first_property(record, "PID"@);
    law_lookups_find_the_first_property(record, "ProcessId"@);
    law_lookups_find_the_first_property(record, "KeyName"@);
    law_lookups_find_the_first_property(record, "KeyHandle"@);
    law_lookups_find_the_first_property(record, "ValueName"@);
    law_lookups_find_the_first_property(record, "ValueType"@);
    law_lookups_find_the_first_property(record, "DataSize"@);
}

/// Who a file event tells of, and which file.
pub ghost struct FileTold {
    pub pid: u32,
    pub file_object: Option<u64>,
    pub file_name: Option<String>,
}

/// What every file event tells.
pub open spec fn file_of(event: SourceEvent) -> Option<FileTold> {
    match event {
        SourceEvent::FileCreated(data) => Some(
            FileTold { pid: data.pid, file_object: data.file_object, file_name: data.file_name },
        ),
        SourceEvent::FileWritten(data) => Some(
            FileTold { pid: data.pid, file_object: data.file_object, file_name: data.file_name },
        ),
        SourceEvent::FileClosed(data) => Some(
            FileTold { pid: data.pid, file_object: data.file_object, file_name: data.file_name },
        ),
        SourceEvent::FileCleanedUp(data) => Some(
            FileTold { pid: data.pid, file_object: data.file_object, file_name: data.file_name },
        ),
        SourceEvent::FileDeleted(data) => Some(
            FileTold { pid: data.pid, file_object: data.file_object, file_name: data.file_name },
        ),
        SourceEvent::FileRenamed(data) => Some(
            FileTold { pid: data.pid, file_object: data.file_object, file_name: data.file_name },
        ),
        SourceEvent::FileFsctl(data) => Some(
            FileTold { pid: data.pid, file_object: data.file_object, file_name: data.file_name },
        ),
        _ => None,
    }
}

/// A file event tells of the process, the file and the sizes that its record
/// holds. A record that names its process is never passed over, and one that
/// does not always is.
pub proof fn law_a_file_event_tells_its_record(record: EtwRecord, parsed: Option<SourceEvent>)
    requires
        describes(record, EtwProvider::FileIo, parsed),
        mapped(EtwProvider::FileIo, record.opcode) is Some,
    ensures
        parsed is Some <==> tells_u32(record, "PID"@) || tells_u32(record, "ProcessId"@),
        parsed matches Some(event) ==> {
            &&& file_of(event) is Some
            &&& is_u32_under(record, "PID"@, "ProcessId"@, Some(file_of(event)->0.pid))
            &&& is_u64(record, "FileObject"@, file_of(event)->0.file_object)
            &&& is_text(record, "FileName"@, file_of(event)->0.file_name)
            &&& event matches SourceEvent::FileCreated(data) ==> {
                &&& is_u32(record, "CreateOptions"@, data.create_options)
                &&& is_u32(record, "CreateDisposition"@, data.create_disposition)
            }
            &&& event matches SourceEvent::FileWritten(data) ==> {
                &&& is_u64(record, "FileKey"@, data.file_key)
                &&& is_u64(record, "IoSize"@, data.io_size)
                &&& is_u64(record, "Offset"@, data.offset)
            }
            &&& event matches SourceEvent::FileClosed(data) ==> is_u64(
                record,
                "FileKey"@,
                data.file_key,
            )
            &&& event matches SourceEvent::FileCleanedUp(data) ==> is_u64(
                record,
                "FileKey"@,
                data.file_key,
            )
            &&& event matches SourceEvent::FileDeleted(data) ==> is_u64(
                record,
                "FileKey"@,
                data.file_key,
            )
            &&& event matches SourceEvent::FileRenamed(data) ==> {
                &&& is_u64(record, "FileKey"@, data.file_key)
                &&& is_text_under(record, "NewPath"@, "NewFileName"@, data.new_name)
            }
            &&& event matches SourceEvent::FileFsctl(data) ==> is_u64(
                record,
                "FileKey"@,
                data.file_key,
            )
        },
{
    law_lookups_find_the_first_property(record, "PID"@);
    law_lookups_find_the_first_property(record, "ProcessId"@);
    law_lookups_find_the_first_property(record, "FileObject"@);
    law_lookups_find_the_first_property(record, "FileKey"@);
    law_lookups_find_the_first_property(record, "FileName"@);
    law_lookups_find_the_first_property(record, "CreateOptions"@);
    law_lookups_find_the_first_property(record, "CreateDisposition"@);
    law_lookups_find_the_first_property(record, "IoSize"@);
    law_lookups_find_the_first_property(record, "Offset"@);
    law_lookups_find_the_first_property(record, "NewPath"@);
    law_lookups_find_the_first_property(record, "NewFileName"@);
}

/// Process, thread and image records are never passed over once their opcode is
/// known.
pub proof fn law_known_opcodes_are_reported(
    record: EtwRecord,
    provider: EtwProvider,
    parsed: Option<SourceEvent>,
)
    requires
        describes(record, provider, parsed),
        provider is Process || provider is Thread || provider is Image,
    ensures
        parsed is Some <==> mapped(provider, record.opcode) is Some,
{
}

/// Each event type comes from one provider alone; a rundown opcode tells what the
/// opcode two below it tells, and an IPv6 opcode what the opcode sixteen below.
pub proof fn law_opcodes_come_in_families(
    provider: EtwProvider,
    other: EtwProvider,
    opcode: u8,
    other_opcode: u8,
)
    ensures
        mapped(provider, opcode) is Some && mapped(provider, opcode) == mapped(other, other_opcode)
            ==> provider == other,
        (provider is Process || provider is Thread) && 1 <= opcode <= 2 ==> mapped(
            provider,
            (opcode + 2) as u8,
        ) == mapped(provider, opcode) && mapped(provider, opcode) is Some,
        provider is TcpIp && opcode < 16 ==> mapped(provider, (opcode + 16) as u8) == mapped(
            provider,
            opcode,
        ),
{
}

/// An opcode stands for one event, and an event for one opcode, but for the
/// families: no other opcode of a provider tells the same.
pub proof fn law_opcodes_tell_events_apart(provider: EtwProvider, left: u8, right: u8)
    requires
        mapped(provider, left) is Some,
        mapped(provider, left) == mapped(provider, right),
    ensures
        provider is Image || provider is FileIo ==> left == right,
        provider is Registry ==> left == right || mapped(provider, left)
            == Some(EventType::RegistryValueQueried) && left - right == if left > right {
            6
        } else {
            -6
        },
        provider is Process || provider is Thread ==> 1 <= left <= 4 && left % 2 == right % 2,
        provider is TcpIp ==> left < 32 && left % 16 == right % 16,
{
}

} // verus!
