//! Mapping of the classic Windows kernel logger onto the canonical taxonomy.
//!
//! Opcode values are the documented `EVENT_TRACE_TYPE_*` constants. Opcodes that
//! are deliberately not consumed (file reads, TCP sends and receives) are
//! unmapped.

use vstd::prelude::*;

use crate::protocol::events::EventType;
use crate::text::{chars_of, lowercase, text_between, to_lowercase, trim, trim_end, trim_start, trimmed};

verus! {

/// Classic kernel logger providers we consume.
#[derive(Debug, Clone, Copy, PartialEq, Eq, Hash, Structural)]
pub enum EtwProvider {
    /// `Process`: process lifecycle.
    Process,
    /// `Thread`: thread lifecycle.
    Thread,
    /// `Image`: PE image load/unload.
    Image,
    /// `Registry`: registry operations.
    Registry,
    /// `FileIo`: file operations (reads are not consumed).
    FileIo,
    /// `TcpIp`: TCP connections (sends and receives are not consumed).
    TcpIp,
}

impl EtwProvider {
    /// Canonical GUID (lowercase, no braces).
    pub open spec fn name(self) -> Seq<char> {
        match self {
            EtwProvider::Process => "3d6fa8d0-fe05-11d0-9dda-00c04fd7ba7c"@,
            EtwProvider::Thread => "3d6fa8d1-fe05-11d0-9dda-00c04fd7ba7c"@,
            EtwProvider::Image => "2cb15d1d-5fc1-11d2-abe1-00a0c911f518"@,
            EtwProvider::Registry => "ae53722e-c863-11d2-8659-00c04fa321a1"@,
            EtwProvider::FileIo => "90dcb41a-4483-41a8-87b4-735a11b3b0e4"@,
            EtwProvider::TcpIp => "9a280ac0-c8e0-11d1-84e2-00c04fb998a2"@,
        }
    }

    /// Canonical GUID string (lowercase, no braces).
    pub fn guid(self) -> (text: &'static str)
        ensures
            text@ == self.name(),
    {
        match self {
            EtwProvider::Process => "3d6fa8d0-fe05-11d0-9dda-00c04fd7ba7c",
            EtwProvider::Thread => "3d6fa8d1-fe05-11d0-9dda-00c04fd7ba7c",
            EtwProvider::Image => "2cb15d1d-5fc1-11d2-abe1-00a0c911f518",
            EtwProvider::Registry => "ae53722e-c863-11d2-8659-00c04fa321a1",
            EtwProvider::FileIo => "90dcb41a-4483-41a8-87b4-735a11b3b0e4",
            EtwProvider::TcpIp => "9a280ac0-c8e0-11d1-84e2-00c04fb998a2",
        }
    }

    /// All providers, taxonomy order.
    pub fn all() -> (providers: [EtwProvider; 6])
        ensures
            providers@ == seq![
                EtwProvider::Process,
                EtwProvider::Thread,
                EtwProvider::Image,
                EtwProvider::Registry,
                EtwProvider::FileIo,
                EtwProvider::TcpIp,
            ],
    {
        [
            EtwProvider::Process,
            EtwProvider::Thread,
            EtwProvider::Image,
            EtwProvider::Registry,
            EtwProvider::FileIo,
            EtwProvider::TcpIp,
        ]
    }

    /// Resolve a provider from a GUID string (case-insensitive, braces and
    /// whitespace tolerated).
    pub fn from_guid(guid: &str) -> (provider: Option<Self>)
        ensures
            match provider {
                Some(provider) => provider.name() == lowercase(unbraced(guid@)),
                None => forall|provider: EtwProvider| #[trigger]
                    provider.name() != lowercase(unbraced(guid@)),
            },
    {
        let bare = without_braces(trim(guid));
        EtwProvider::from_bare(to_lowercase(bare.as_str()).as_str())
    }

    /// Resolve a provider from its canonical GUID string.
    pub fn from_bare(guid: &str) -> (provider: Option<Self>)
        ensures
            match provider {
                Some(provider) => provider.name() == guid@,
                None => forall|provider: EtwProvider| #[trigger] provider.name() != guid@,
            },
    {
        if *guid == *EtwProvider::Process.guid() {
            return Some(EtwProvider::Process);
        }
        if *guid == *EtwProvider::Thread.guid() {
            return Some(EtwProvider::Thread);
        }
        if *guid == *EtwProvider::Image.guid() {
            return Some(EtwProvider::Image);
        }
        if *guid == *EtwProvider::Registry.guid() {
            return Some(EtwProvider::Registry);
        }
        if *guid == *EtwProvider::FileIo.guid() {
            return Some(EtwProvider::FileIo);
        }
        if *guid == *EtwProvider::TcpIp.guid() {
            return Some(EtwProvider::TcpIp);
        }
        proof {
            assert forall|provider: EtwProvider| #[trigger] provider.name() != guid@ by {
                match provider {
                    EtwProvider::Process => {},
                    EtwProvider::Thread => {},
                    EtwProvider::Image => {},
                    EtwProvider::Registry => {},
                    EtwProvider::FileIo => {},
                    EtwProvider::TcpIp => {},
                }
            }
        }
        None
    }
}

/// A GUID as it is looked at: without white space around it, opening braces in
/// front and closing braces behind.
pub open spec fn unbraced(guid: Seq<char>) -> Seq<char> {
    trim_end(trim_start(trimmed(guid), |c: char| c == '{'), |c: char| c == '}')
}

/// The text without opening braces in front and closing braces behind.
fn without_braces(text: &str) -> (rest: String)
    ensures
        rest@ == trim_end(trim_start(text@, |c: char| c == '{'), |c: char| c == '}'),
{
    let chars = chars_of(text);
    let ghost opening = |c: char| c == '{';
    let ghost closing = |c: char| c == '}';
    let mut from: usize = 0;
    proof {
        assert(chars@.skip(0) =~= text@);
    }
    while from < chars.len() && chars[from] == '{'
        invariant
            from <= chars@.len(),
            opening == (|c: char| c == '{'),
            trim_start(text@, opening) == trim_start(chars@.skip(from as int), opening),
        decreases chars@.len() - from,
    {
        proof {
            assert(chars@.skip(from as int).skip(1) =~= chars@.skip(from + 1));
        }
        from = from + 1;
    }
    let mut to: usize = chars.len();
    let ghost opened = trim_start(text@, opening);
    proof {
        assert(chars@.skip(from as int) =~= chars@.subrange(from as int, to as int));
        assert(opened == chars@.subrange(from as int, to as int));
    }
    while to > from && chars[to - 1] == '}'
        invariant
            from <= to <= chars@.len(),
            closing == (|c: char| c == '}'),
            trim_end(opened, closing) == trim_end(chars@.subrange(from as int, to as int), closing),
        decreases to,
    {
        proof {
            assert(chars@.subrange(from as int, to as int).drop_last() =~= chars@.subrange(
                from as int,
                to - 1,
            ));
        }
        to = to - 1;
    }
    text_between(&chars, from, to)
}

/// The event type of a provider's opcode.
pub open spec fn mapped(provider: EtwProvider, opcode: u8) -> Option<EventType> {
    match provider {
        EtwProvider::Process => if opcode == 1 || opcode == 3 {
            Some(EventType::ProcessStarted)
        } else if opcode == 2 || opcode == 4 {
            Some(EventType::ProcessStopped)
        } else {
            None
        },
        EtwProvider::Thread => if opcode == 1 || opcode == 3 {
            Some(EventType::ThreadStarted)
        } else if opcode == 2 || opcode == 4 {
            Some(EventType::ThreadStopped)
        } else {
            None
        },
        EtwProvider::Image => if opcode == 10 {
            Some(EventType::ImageLoaded)
        } else if opcode == 11 {
            Some(EventType::ImageUnloaded)
        } else {
            None
        },
        EtwProvider::Registry => if opcode == 10 {
            Some(EventType::RegistryKeyCreated)
        } else if opcode == 11 {
            Some(EventType::RegistryKeyOpened)
        } else if opcode == 12 {
            Some(EventType::RegistryKeyDeleted)
        } else if opcode == 13 {
            Some(EventType::RegistryKeyQueried)
        } else if opcode == 14 {
            Some(EventType::RegistryValueSet)
        } else if opcode == 16 || opcode == 22 {
            Some(EventType::RegistryValueQueried)
        } else if opcode == 27 {
            Some(EventType::RegistryKeyClosed)
        } else {
            None
        },
        EtwProvider::FileIo => if opcode == 32 {
            Some(EventType::FileCreated)
        } else if opcode == 20 {
            Some(EventType::FileWritten)
        } else if opcode == 35 {
            Some(EventType::FileClosed)
        } else if opcode == 36 {
            Some(EventType::FileCleanedUp)
        } else if opcode == 33 {
            Some(EventType::FileDeleted)
        } else if opcode == 34 {
            Some(EventType::FileRenamed)
        } else if opcode == 42 {
            Some(EventType::FileFsctl)
        } else {
            None
        },
        EtwProvider::TcpIp => if opcode == 12 || opcode == 28 {
            Some(EventType::NetTcpConnected)
        } else if opcode == 15 || opcode == 31 {
            Some(EventType::NetTcpAccepted)
        } else if opcode == 13 || opcode == 29 {
            Some(EventType::NetTcpDisconnected)
        } else {
            None
        },
    }
}

/// Map `(provider, opcode)` onto the canonical event type.
///
/// The kernel replays existing processes and threads through opcodes 3 and 4 when
/// a trace starts; they count as started and stopped.
pub fn event_type(provider: EtwProvider, opcode: u8) -> (event: Option<EventType>)
    ensures
        event == mapped(provider, opcode),
{
    match provider {
        EtwProvider::Process => if opcode == 1 || opcode == 3 {
            Some(EventType::ProcessStarted)
        } else if opcode == 2 || opcode == 4 {
            Some(EventType::ProcessStopped)
        } else {
            None
        },
        EtwProvider::Thread => if opcode == 1 || opcode == 3 {
            Some(EventType::ThreadStarted)
        } else if opcode == 2 || opcode == 4 {
            Some(EventType::ThreadStopped)
        } else {
            None
        },
        EtwProvider::Image => if opcode == 10 {
            Some(EventType::ImageLoaded)
        } else if opcode == 11 {
            Some(EventType::ImageUnloaded)
        } else {
            None
        },
        EtwProvider::Registry => if opcode == 10 {
            Some(EventType::RegistryKeyCreated)
        } else if opcode == 11 {
            Some(EventType::RegistryKeyOpened)
        } else if opcode == 12 {
            Some(EventType::RegistryKeyDeleted)
        } else if opcode == 13 {
            Some(EventType::RegistryKeyQueried)
        } else if opcode == 14 {
            Some(EventType::RegistryValueSet)
        } else if opcode == 16 || opcode == 22 {
            Some(EventType::RegistryValueQueried)
        } else if opcode == 27 {
            Some(EventType::RegistryKeyClosed)
        } else {
            None
        },
        EtwProvider::FileIo => if opcode == 32 {
            Some(EventType::FileCreated)
        } else if opcode == 20 {
            Some(EventType::FileWritten)
        } else if opcode == 35 {
            Some(EventType::FileClosed)
        } else if opcode == 36 {
            Some(EventType::FileCleanedUp)
        } else if opcode == 33 {
            Some(EventType::FileDeleted)
        } else if opcode == 34 {
            Some(EventType::FileRenamed)
        } else if opcode == 42 {
            Some(EventType::FileFsctl)
        } else {
            None
        },
        EtwProvider::TcpIp => if opcode == 12 || opcode == 28 {
            Some(EventType::NetTcpConnected)
        } else if opcode == 15 || opcode == 31 {
            Some(EventType::NetTcpAccepted)
        } else if opcode == 13 || opcode == 29 {
            Some(EventType::NetTcpDisconnected)
        } else {
            None
        },
    }
}

/// Every provider is found again by its own GUID, as it is and in braces: the
/// GUIDs are all different, and none of them is touched by the tolerance.
pub proof fn law_guid_round_trips(provider: EtwProvider)
    ensures
        unbraced(provider.name()) == provider.name(),
        unbraced(seq!['{'] + provider.name() + seq!['}']) == provider.name(),
        forall|other: EtwProvider| #[trigger] other.name() == provider.name() ==> other == provider,
{
    reveal_strlit("3d6fa8d0-fe05-11d0-9dda-00c04fd7ba7c");
    reveal_strlit("3d6fa8d1-fe05-11d0-9dda-00c04fd7ba7c");
    reveal_strlit("2cb15d1d-5fc1-11d2-abe1-00a0c911f518");
    reveal_strlit("ae53722e-c863-11d2-8659-00c04fa321a1");
    reveal_strlit("90dcb41a-4483-41a8-87b4-735a11b3b0e4");
    reveal_strlit("9a280ac0-c8e0-11d1-84e2-00c04fb998a2");
    let text = provider.name();
    let braced = seq!['{'] + text + seq!['}'];
    lemma_untouched(text);
    assert(crate::text::is_space('{') == false && crate::text::is_space('}') == false);
    lemma_trimmed_keeps(braced);
    let opening = |c: char| c == '{';
    let closing = |c: char| c == '}';
    assert(braced[0] == '{');
    assert(braced.skip(1) =~= text + seq!['}']);
    assert((text + seq!['}'])[0] == text[0]);
    assert(trim_start(braced.skip(1), opening) == text + seq!['}']);
    assert((text + seq!['}']).drop_last() =~= text);
    assert(trim_end(text, closing) == text);
    assert forall|other: EtwProvider| #[trigger] other.name() == provider.name() implies other
        == provider by {
        let left = other.name();
        assert(left[0] == text[0] && left[1] == text[1] && left[7] == text[7]);
    }
}

/// A text that starts and ends with other characters loses nothing.
proof fn lemma_untouched(text: Seq<char>)
    requires
        text.len() > 0,
        !crate::text::is_space(text[0]),
        !crate::text::is_space(text.last()),
        text[0] != '{',
        text.last() != '}',
    ensures
        unbraced(text) == text,
{
    lemma_trimmed_keeps(text);
}

/// A text that starts and ends without white space is trimmed already.
proof fn lemma_trimmed_keeps(text: Seq<char>)
    requires
        text.len() > 0,
        !crate::text::is_space(text[0]),
        !crate::text::is_space(text.last()),
    ensures
        trimmed(text) == text,
{
}

} // verus!
