//! Shell associations: which command opens a document.
//!
//! The lookup follows the shell: a direct override of the extension first, then
//! the extension's `ProgID`. A registry failure (missing key, unreadable value)
//! means "no usable association", as it does when a document is opened by hand.

use vstd::prelude::*;

use crate::domain::image_name::{extension, path_extension};
use crate::domain::shell_command::{substitute_command, substituted};
use crate::ports::{joined_text, ShellAssociationError};
use crate::protocol::ipc::from_le16;
use crate::text::{lowercase, opt_view, to_lowercase, trimmed};
use crate::utf16::{decode_utf16, decoded};

verus! {

/// Registry lookup.
#[derive(Debug, Clone, Copy, PartialEq, Eq, Structural)]
pub struct RegistryShellAssociationAdapter;

/// The UTF-16 units of a registry buffer, little endian; an odd trailing byte is
/// ignored.
pub open spec fn buffer_units(buffer: Seq<u8>) -> Seq<u16> {
    Seq::new((buffer.len() / 2) as nat, |i: int| from_le16(buffer, 2 * i))
}

/// The text without one terminator.
pub open spec fn unterminated(text: Seq<char>) -> Seq<char> {
    if text.len() > 0 && text.last() == '\0' {
        text.drop_last()
    } else {
        text
    }
}

/// The text of a registry buffer: invalid UTF-16 and nothing at all are no value.
pub open spec fn buffer_text(buffer: Seq<u8>) -> Option<Seq<char>> {
    match decoded(buffer_units(buffer)) {
        None => None,
        Some(text) => if unterminated(text).len() == 0 {
            None
        } else {
            Some(unterminated(text))
        },
    }
}

/// Decode a `REG_SZ` buffer: UTF-16LE units with a single trailing NUL
/// terminator. The odd trailing byte of a truncated buffer is ignored; invalid
/// UTF-16 and an empty result (no bytes, or a lone terminator) yield `None`. Only
/// one terminator is trimmed: embedded NULs beyond it stay visible.
pub fn decode_utf16_reg_sz(buffer: &[u8]) -> (text: Option<String>)
    ensures
        opt_view(text) == buffer_text(buffer@),
{
    let mut units: Vec<u16> = Vec::new();
    let bytes: usize = buffer.len();
    let mut at: usize = 0;
    while bytes - at >= 2
        invariant
            at <= bytes == buffer@.len(),
            at == 2 * units@.len(),
            units@ == buffer_units(buffer@).take(units@.len() as int),
        decreases bytes - at,
    {
        let ghost done = units@.len() as int;
        units.push(crate::protocol::ipc::read_le16(buffer, at));
        proof {
            assert(units@.last() == from_le16(buffer@, 2 * done));
            assert(units@ =~= buffer_units(buffer@).take(done + 1));
        }
        at = at + 2;
    }
    proof {
        assert(units@ =~= buffer_units(buffer@));
    }
    let text = match decode_utf16(&units) {
        Some(text) => text,
        None => return None,
    };
    let chars = crate::text::chars_of(text.as_str());
    let count: usize = chars.len();
    let kept = if count > 0 && chars[count - 1] == '\0' {
        crate::text::text_between(&chars, 0, count - 1)
    } else {
        text
    };
    proof {
        assert(kept@ =~= unterminated(decoded(units@)->0));
    }
    if kept.as_str().is_empty() {
        None
    } else {
        Some(kept)
    }
}

/// The extension of a document, lowercased with the leading dot.
pub open spec fn dotted(document: Seq<char>) -> Option<Seq<char>> {
    match path_extension(document) {
        None => None,
        Some(extension) => Some("."@ + lowercase(extension)),
    }
}

/// The extension of a document as the registry knows it: an empty one is none.
pub open spec fn registered(document: Seq<char>) -> Option<Seq<char>> {
    match path_extension(document) {
        None => None,
        Some(extension) => if extension.len() == 0 {
            None
        } else {
            dotted(document)
        },
    }
}

/// The extension of a document, lowercased with the leading dot.
fn dotted_extension(document: &str) -> (found: Option<String>)
    ensures
        opt_view(found) == dotted(document@),
{
    match extension(document) {
        None => None,
        Some(extension) => Some(joined_text(".", to_lowercase(extension.as_str()).as_str())),
    }
}

/// The extension of a document as the registry knows it: lowercased, with the
/// leading dot, and `None` where it is empty.
pub fn extension_of(document: &str) -> (found: Option<String>)
    ensures
        opt_view(found) == registered(document@),
{
    match extension(document) {
        None => None,
        Some(extension) => if extension.as_str().is_empty() {
            None
        } else {
            dotted_extension(document)
        },
    }
}

/// Where the open command of a class is registered.
pub open spec fn open_key(sub_key: Seq<char>) -> Seq<char> {
    sub_key + "\\shell\\open\\command"@
}

/// Where the open command of a class is registered.
pub fn open_command_key(sub_key: &str) -> (key: String)
    ensures
        key@ == open_key(sub_key@),
{
    joined_text(sub_key, "\\shell\\open\\command")
}

/// A lookup in progress: the value whose reading it waits for.
#[derive(Debug)]
pub enum LookupStage {
    /// The open command of the extension itself.
    Direct(String),
    /// The `ProgID` of the extension.
    ProgId(String),
    /// The open command of the `ProgID`.
    Indirect(String),
}

/// What the host does next.
#[derive(Debug)]
pub enum LookupAction {
    /// Read the default value of this key below `HKEY_CLASSES_ROOT`.
    Read(String),
    /// The lookup is over.
    Over(Result<String, ShellAssociationError>),
}

/// Does a lookup end with "not found"?
pub open spec fn not_found(action: LookupAction, document: Seq<char>) -> bool {
    action matches LookupAction::Over(Err(ShellAssociationError::NotFound(named))) && named@ == document
}

/// Does a lookup end with the document put into the command, or with the
/// complaint that the command is empty?
pub open spec fn command_found(
    action: LookupAction,
    extension: Seq<char>,
    command: Seq<char>,
    document: Seq<char>,
) -> bool {
    if trimmed(command).len() > 0 {
        action matches LookupAction::Over(Ok(line)) && line@ == substituted(command, document)
    } else {
        action matches LookupAction::Over(
            Err(ShellAssociationError::Unusable { extension: named, detail }),
        ) && named@ == extension && detail@ == "registered command is empty"@
    }
}

/// How a lookup begins: with the open command of the extension itself.
pub open spec fn lookup_begins(
    document: Seq<char>,
    begun: (Option<LookupStage>, LookupAction),
) -> bool {
    match registered(document) {
        None => begun.0 is None && not_found(begun.1, document),
        Some(extension) => {
            &&& (begun.0 matches Some(LookupStage::Direct(named)) && named@ == extension)
            &&& (begun.1 matches LookupAction::Read(key) && key@ == open_key(extension))
        },
    }
}

/// How a lookup goes on after one value was read, or was not there.
pub open spec fn lookup_follows(
    document: Seq<char>,
    stage: LookupStage,
    value: Option<String>,
    next: (Option<LookupStage>, LookupAction),
) -> bool {
    match (stage, value) {
        (LookupStage::Direct(extension), Some(command)) => next.0 is None && command_found(
            next.1,
            extension@,
            command@,
            document,
        ),
        (LookupStage::Direct(extension), None) => {
            &&& next.0 == Some(LookupStage::ProgId(extension))
            &&& (next.1 matches LookupAction::Read(key) && key@ == extension@)
        },
        (LookupStage::ProgId(extension), Some(prog_id)) => {
            &&& next.0 == Some(LookupStage::Indirect(extension))
            &&& (next.1 matches LookupAction::Read(key) && key@ == open_key(prog_id@))
        },
        (LookupStage::Indirect(extension), Some(command)) => next.0 is None && command_found(
            next.1,
            extension@,
            command@,
            document,
        ),
        (_, None) => next.0 is None && not_found(next.1, document),
    }
}

impl RegistryShellAssociationAdapter {
    /// Assemble the adapter.
    pub fn new() -> (adapter: Self)
        ensures
            adapter == RegistryShellAssociationAdapter,
    {
        RegistryShellAssociationAdapter
    }

    /// Begin the lookup of the command that opens a document.
    pub fn resolve(document: &str) -> (begun: (Option<LookupStage>, LookupAction))
        ensures
            lookup_begins(document@, begun),
    {
        match extension_of(document) {
            None => (
                None,
                LookupAction::Over(Err(ShellAssociationError::NotFound(document.to_owned()))),
            ),
            Some(extension) => {
                let key = open_command_key(extension.as_str());
                (Some(LookupStage::Direct(extension)), LookupAction::Read(key))
            },
        }
    }

    /// Take in the value that was read (`None` = missing or unreadable). A direct
    /// override wins, then the command of the `ProgID`.
    pub fn resolve_step(document: &str, stage: LookupStage, value: Option<String>) -> (next: (
        Option<LookupStage>,
        LookupAction,
    ))
        ensures
            lookup_follows(document@, stage, value, next),
    {
        match (stage, value) {
            (LookupStage::Direct(extension), Some(command)) => (
                None,
                finish(document, extension, command.as_str()),
            ),
            (LookupStage::Direct(extension), None) => {
                let key = extension.clone();
                (Some(LookupStage::ProgId(extension)), LookupAction::Read(key))
            },
            (LookupStage::ProgId(extension), Some(prog_id)) => (
                Some(LookupStage::Indirect(extension)),
                LookupAction::Read(open_command_key(prog_id.as_str())),
            ),
            (LookupStage::Indirect(extension), Some(command)) => (
                None,
                finish(document, extension, command.as_str()),
            ),
            (_, None) => (
                None,
                LookupAction::Over(Err(ShellAssociationError::NotFound(document.to_owned()))),
            ),
        }
    }
}

/// The end of a lookup that found a command.
fn finish(document: &str, extension: String, command: &str) -> (action: LookupAction)
    ensures
        command_found(action, extension@, command@, document@),
{
    match substitute_command(command, document) {
        Ok(line) => LookupAction::Over(Ok(line)),
        Err(_) => LookupAction::Over(
            Err(
                ShellAssociationError::Unusable {
                    extension,
                    detail: "registered command is empty".to_owned(),
                },
            ),
        ),
    }
}

/// Map-based resolver; unknown extensions resolve to "not found".
#[derive(Debug)]
pub struct FakeShellAssociation {
    /// Extension (lowercase, with dot) and open command, the latest last.
    entries: Vec<(String, String)>,
}

/// The command of the latest registration of an extension.
pub open spec fn latest(entries: Seq<(String, String)>, extension: Seq<char>) -> Option<Seq<char>>
    decreases entries.len(),
{
    if entries.len() == 0 {
        None
    } else if entries.last().0@ == extension {
        Some(entries.last().1@)
    } else {
        latest(entries.drop_last(), extension)
    }
}

impl FakeShellAssociation {
    /// The command that an extension is registered with.
    pub closed spec fn command_of(&self, extension: Seq<char>) -> Option<Seq<char>> {
        latest(self.entries@, extension)
    }

    /// Resolver that knows nothing.
    pub fn new() -> (resolver: Self)
        ensures
            forall|extension: Seq<char>| #[trigger] resolver.command_of(extension) is None,
    {
        FakeShellAssociation { entries: Vec::new() }
    }

    /// Register one association; a later one for the same extension replaces it.
    pub fn register(&mut self, extension: &str, command: &str)
        ensures
            forall|other: Seq<char>| #[trigger]
                final(self).command_of(other) == if other == lowercase(extension@) {
                    Some(command@)
                } else {
                    old(self).command_of(other)
                },
    {
        let ghost before = self.entries@;
        self.entries.push((to_lowercase(extension), command.to_owned()));
        proof {
            assert(self.entries@.drop_last() =~= before);
        }
    }

    /// The command that opens a document, with the document already in it.
    pub fn resolve_open_command(&self, document_path: &str) -> (line: Result<
        String,
        ShellAssociationError,
    >)
        ensures
            match line {
                Ok(text) => {
                    &&& dotted(document_path@) is Some
                    &&& (self.command_of(dotted(document_path@)->0) matches Some(command) && trimmed(
                        command,
                    ).len() > 0 && text@ == substituted(command, document_path@))
                },
                Err(ShellAssociationError::NotFound(named)) => {
                    &&& named@ == document_path@
                    &&& dotted(document_path@) is None || match self.command_of(
                        dotted(document_path@)->0,
                    ) {
                        None => true,
                        Some(command) => trimmed(command).len() == 0,
                    }
                },
                Err(_) => false,
            },
    {
        let extension = match dotted_extension(document_path) {
            Some(extension) => extension,
            None => return Err(ShellAssociationError::NotFound(document_path.to_owned())),
        };
        let mut at: usize = self.entries.len();
        proof {
            assert(self.entries@.take(at as int) =~= self.entries@);
        }
        while at > 0
            invariant
                at <= self.entries@.len(),
                dotted(document_path@) == Some(extension@),
                latest(self.entries@, extension@) == latest(self.entries@.take(at as int), extension@),
            decreases at,
        {
            proof {
                assert(self.entries@.take(at as int).drop_last() =~= self.entries@.take(at - 1));
            }
            if *self.entries[at - 1].0.as_str() == *extension.as_str() {
                return match substitute_command(self.entries[at - 1].1.as_str(), document_path) {
                    Ok(line) => Ok(line),
                    Err(_) => Err(ShellAssociationError::NotFound(document_path.to_owned())),
                };
            }
            at = at - 1;
        }
        Err(ShellAssociationError::NotFound(document_path.to_owned()))
    }
}

impl Default for FakeShellAssociation {
    fn default() -> (resolver: Self)
        ensures
            forall|extension: Seq<char>| #[trigger] resolver.command_of(extension) is None,
    {
        FakeShellAssociation::new()
    }
}

/// Stand-in when the registry lookup is not compiled in: every resolution fails
/// with a typed, explanatory error.
#[derive(Debug, Clone, Copy, PartialEq, Eq, Structural)]
pub struct UnavailableShellAssociation;

impl UnavailableShellAssociation {
    /// Always refuses, naming the document.
    pub fn resolve_open_command(&self, document_path: &str) -> (line: Result<
        String,
        ShellAssociationError,
    >)
        ensures
            line matches Err(ShellAssociationError::Registry(text)) && text@
                == "shell associations are unavailable (build with --features associations to resolve "@
                + document_path@ + ")"@,
    {
        let mut text = joined_text(
            "shell associations are unavailable (build with --features associations to resolve ",
            document_path,
        );
        text.append(")");
        Err(ShellAssociationError::Registry(text))
    }
}

/// The bytes of UTF-16 units, little endian.
pub open spec fn unit_bytes(units: Seq<u16>) -> Seq<u8> {
    Seq::new(
        2 * units.len(),
        |i: int|
            if i % 2 == 0 {
                (units[i / 2] % 256) as u8
            } else {
                (units[i / 2] / 256) as u8
            },
    )
}

/// The bytes of units, and a stray byte behind them, are read as those units.
proof fn lemma_units_round_trip(units: Seq<u16>, stray: Seq<u8>)
    requires
        stray.len() <= 1,
    ensures
        buffer_units(unit_bytes(units) + stray) == units,
{
    let bytes = unit_bytes(units) + stray;
    assert forall|i: int| 0 <= i < units.len() implies #[trigger] buffer_units(bytes)[i] == units[i] by {
        let unit = units[i];
        assert(bytes[2 * i] == (unit % 256) as u8);
        assert((2 * i + 1) / 2 == i && (2 * i + 1) % 2 == 1);
        assert(bytes[2 * i + 1] == (unit / 256) as u8);
        lemma_unit(unit);
    }
    assert(buffer_units(bytes) =~= units);
}

/// A unit is its two bytes.
proof fn lemma_unit(unit: u16)
    ensures
        ((unit % 256) as u8 + 256 * (unit / 256) as u8) as u16 == unit,
{
}

/// A text that is not empty is read from the registry as it was stored, whatever
/// characters it holds, and whether or not its terminator, or a stray byte behind
/// it, was stored with it. Only a text that itself ends in a NUL loses one where
/// the terminator is missing.
pub proof fn law_registry_text_round_trips(text: Seq<char>, stray: Seq<u8>)
    requires
        text.len() > 0,
        stray.len() <= 1,
    ensures
        buffer_text(unit_bytes(crate::utf16::encoded(text.push('\0'))) + stray) == Some(text),
        text.last() != '\0' ==> buffer_text(unit_bytes(crate::utf16::encoded(text)) + stray) == Some(text),
{
    crate::utf16::law_utf16_round_trips(text.push('\0'));
    crate::utf16::law_utf16_round_trips(text);
    lemma_units_round_trip(crate::utf16::encoded(text.push('\0')), stray);
    lemma_units_round_trip(crate::utf16::encoded(text), stray);
    assert(text.push('\0').drop_last() =~= text);
}

} // verus!
