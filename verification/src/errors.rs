//! The closed failure taxonomy: variants, their rendered messages, and the
//! lifting rules from generic cause values.

use vstd::prelude::*;
use vstd::string::StringExecFns;

verus! {

/// A generic byte-stream or file-system failure, recorded as the rendered
/// one-line message of the underlying cause.
#[derive(Clone, Debug, PartialEq, Eq)]
pub struct IoCause {
    pub message: String,
}

/// A system-call failure, recorded as the raw error number together with the
/// rendered one-line message of the underlying cause.
#[derive(Clone, Debug, PartialEq, Eq)]
pub struct NixCause {
    pub errno: i32,
    pub message: String,
}

/// Every way a GPIO operation can fail. Exactly one variant is active per
/// value; variants that carry a cause or a path always carry it.
#[derive(Clone, Debug, PartialEq, Eq)]
pub enum Error {
    /// Generic I/O failure with no operation-specific context.
    Io { source: IoCause },
    /// Generic system-call failure with no operation-specific context.
    Nix { source: NixCause },
    /// A requested line offset is not below the chip's line count. Originates
    /// from a local range check only and never carries an underlying cause.
    OffsetOutOfRange,
    /// The device directory could not be enumerated.
    ReadDevDirectory { source: IoCause },
    /// A chip device file could not be opened.
    OpenChip { source: IoCause, path: String },
    /// The chip-info ioctl failed.
    GetChipInfo { source: NixCause, path: String },
    /// The line-event-request ioctl failed.
    LineeventIoctl { source: NixCause },
    /// The line-info ioctl failed.
    LineinfoIoctl { source: NixCause },
    /// The line-handle-request ioctl failed.
    LinehandleRequestIoctl { source: NixCause },
    /// Reading a line's value failed.
    GetLineValue { source: NixCause },
    /// Writing a line's value failed.
    SetLineValue { source: NixCause },
}

/// The variant tag alone, for structural inspection of an [`Error`].
#[derive(Clone, Copy, Debug, PartialEq, Eq, Structural)]
pub enum ErrorKind {
    Io,
    Nix,
    OffsetOutOfRange,
    ReadDevDirectory,
    OpenChip,
    GetChipInfo,
    LineeventIoctl,
    LineinfoIoctl,
    LinehandleRequestIoctl,
    GetLineValue,
    SetLineValue,
}

/// The return shape of every fallible operation in the surrounding binding.
pub type Result<T> = core::result::Result<T, Error>;

impl Error {
    /// The one-line message each variant renders: the generic catch-alls
    /// render exactly their cause's own message, the local validation failure
    /// and the directory failure render fixed literals, the two path-bearing
    /// variants interpolate the chip path, and the remaining operation
    /// variants render their name followed by their cause's message.
    pub open spec fn message_spec(self) -> Seq<char> {
        match self {
            Error::Io { source } => source.message@,
            Error::Nix { source } => source.message@,
            Error::OffsetOutOfRange => "Offset out of range"@,
            Error::ReadDevDirectory { .. } => "unable to read /dev directory"@,
            Error::OpenChip { path, .. } => "unable to open chip at path "@ + path@,
            Error::GetChipInfo { path, .. } => "unable to get chip info for "@ + path@,
            Error::LineeventIoctl { source } => "LineeventIoctl: "@ + source.message@,
            Error::LineinfoIoctl { source } => "LineinfoIoctl: "@ + source.message@,
            Error::LinehandleRequestIoctl { source } => "LinehandleRequestIoctl: "@
                + source.message@,
            Error::GetLineValue { source } => "GetLineValue: "@ + source.message@,
            Error::SetLineValue { source } => "SetLineValue: "@ + source.message@,
        }
    }

    /// The variant tag of this error.
    pub open spec fn kind_spec(self) -> ErrorKind {
        match self {
            Error::Io { .. } => ErrorKind::Io,
            Error::Nix { .. } => ErrorKind::Nix,
            Error::OffsetOutOfRange => ErrorKind::OffsetOutOfRange,
            Error::ReadDevDirectory { .. } => ErrorKind::ReadDevDirectory,
            Error::OpenChip { .. } => ErrorKind::OpenChip,
            Error::GetChipInfo { .. } => ErrorKind::GetChipInfo,
            Error::LineeventIoctl { .. } => ErrorKind::LineeventIoctl,
            Error::LineinfoIoctl { .. } => ErrorKind::LineinfoIoctl,
            Error::LinehandleRequestIoctl { .. } => ErrorKind::LinehandleRequestIoctl,
            Error::GetLineValue { .. } => ErrorKind::GetLineValue,
            Error::SetLineValue { .. } => ErrorKind::SetLineValue,
        }
    }

    /// The rendered message of the underlying cause, if the variant carries
    /// one. Only `OffsetOutOfRange` carries none.
    pub open spec fn cause_spec(self) -> Option<Seq<char>> {
        match self {
            Error::Io { source } => Some(source.message@),
            Error::Nix { source } => Some(source.message@),
            Error::OffsetOutOfRange => None,
            Error::ReadDevDirectory { source } => Some(source.message@),
            Error::OpenChip { source, .. } => Some(source.message@),
            Error::GetChipInfo { source, .. } => Some(source.message@),
            Error::LineeventIoctl { source } => Some(source.message@),
            Error::LineinfoIoctl { source } => Some(source.message@),
            Error::LinehandleRequestIoctl { source } => Some(source.message@),
            Error::GetLineValue { source } => Some(source.message@),
            Error::SetLineValue { source } => Some(source.message@),
        }
    }

    /// Renders the human-readable one-line message for this error.
    pub fn message(&self) -> (r: String)
        ensures
            r@ == self.message_spec(),
    {
        match self {
            Error::Io { source } => source.message.clone(),
            Error::Nix { source } => source.message.clone(),
            Error::OffsetOutOfRange => "Offset out of range".to_owned(),
            Error::ReadDevDirectory { .. } => "unable to read /dev directory".to_owned(),
            Error::OpenChip { path, .. } => {
                let mut m = "unable to open chip at path ".to_owned();
                m.append(path.as_str());
                m
            },
            Error::GetChipInfo { path, .. } => {
                let mut m = "unable to get chip info for ".to_owned();
                m.append(path.as_str());
                m
            },
            Error::LineeventIoctl { source } => {
                let mut m = "LineeventIoctl: ".to_owned();
                m.append(source.message.as_str());
                m
            },
            Error::LineinfoIoctl { source } => {
                let mut m = "LineinfoIoctl: ".to_owned();
                m.append(source.message.as_str());
                m
            },
            Error::LinehandleRequestIoctl { source } => {
                let mut m = "LinehandleRequestIoctl: ".to_owned();
                m.append(source.message.as_str());
                m
            },
            Error::GetLineValue { source } => {
                let mut m = "GetLineValue: ".to_owned();
                m.append(source.message.as_str());
                m
            },
            Error::SetLineValue { source } => {
                let mut m = "SetLineValue: ".to_owned();
                m.append(source.message.as_str());
                m
            },
        }
    }

    /// The variant tag, for structural inspection.
    pub fn kind(&self) -> (r: ErrorKind)
        ensures
            r == self.kind_spec(),
    {
        match self {
            Error::Io { .. } => ErrorKind::Io,
            Error::Nix { .. } => ErrorKind::Nix,
            Error::OffsetOutOfRange => ErrorKind::OffsetOutOfRange,
            Error::ReadDevDirectory { .. } => ErrorKind::ReadDevDirectory,
            Error::OpenChip { .. } => ErrorKind::OpenChip,
            Error::GetChipInfo { .. } => ErrorKind::GetChipInfo,
            Error::LineeventIoctl { .. } => ErrorKind::LineeventIoctl,
            Error::LineinfoIoctl { .. } => ErrorKind::LineinfoIoctl,
            Error::LinehandleRequestIoctl { .. } => ErrorKind::LinehandleRequestIoctl,
            Error::GetLineValue { .. } => ErrorKind::GetLineValue,
            Error::SetLineValue { .. } => ErrorKind::SetLineValue,
        }
    }

    /// The rendered message of the underlying cause, if any.
    pub fn cause_message(&self) -> (r: Option<String>)
        ensures
            r matches Some(s) ==> self.cause_spec() == Some(s@),
            r is None <==> self.cause_spec() is None,
    {
        match self {
            Error::Io { source } => Some(source.message.clone()),
            Error::Nix { source } => Some(source.message.clone()),
            Error::OffsetOutOfRange => None,
            Error::ReadDevDirectory { source } => Some(source.message.clone()),
            Error::OpenChip { source, .. } => Some(source.message.clone()),
            Error::GetChipInfo { source, .. } => Some(source.message.clone()),
            Error::LineeventIoctl { source } => Some(source.message.clone()),
            Error::LineinfoIoctl { source } => Some(source.message.clone()),
            Error::LinehandleRequestIoctl { source } => Some(source.message.clone()),
            Error::GetLineValue { source } => Some(source.message.clone()),
            Error::SetLineValue { source } => Some(source.message.clone()),
        }
    }
}

impl From<IoCause> for Error {
    /// Lifting rule for generic I/O failures: plain conversion into `Io`,
    /// with no added context.
    fn from(source: IoCause) -> (r: Error) {
        Error::Io { source }
    }
}

impl vstd::std_specs::convert::FromSpecImpl<IoCause> for Error {
    open spec fn obeys_from_spec() -> bool {
        true
    }

    open spec fn from_spec(source: IoCause) -> Error {
        Error::Io { source }
    }
}

impl From<NixCause> for Error {
    /// Lifting rule for generic system-call failures: plain conversion into
    /// `Nix`, with no added context.
    fn from(source: NixCause) -> (r: Error) {
        Error::Nix { source }
    }
}

impl vstd::std_specs::convert::FromSpecImpl<NixCause> for Error {
    open spec fn obeys_from_spec() -> bool {
        true
    }

    open spec fn from_spec(source: NixCause) -> Error {
        Error::Nix { source }
    }
}

/// Law: lifting a generic I/O failure yields the `Io` variant carrying that
/// exact cause, and the lifted error's displayed message is exactly the
/// cause's own message.
pub proof fn lemma_io_lift_round_trip(c: IoCause)
    ensures
        <Error as vstd::std_specs::convert::FromSpec<IoCause>>::from_spec(c) == (Error::Io {
            source: c,
        }),
        (Error::Io { source: c }).message_spec() == c.message@,
{
}

/// Law: lifting a generic system-call failure yields the `Nix` variant
/// carrying that exact cause, and the lifted error's displayed message is
/// exactly the cause's own message.
pub proof fn lemma_nix_lift_round_trip(c: NixCause)
    ensures
        <Error as vstd::std_specs::convert::FromSpec<NixCause>>::from_spec(c) == (Error::Nix {
            source: c,
        }),
        (Error::Nix { source: c }).message_spec() == c.message@,
{
}

/// Law: `OffsetOutOfRange` never carries an underlying cause, and it renders
/// the same fixed message wherever it is constructed.
pub proof fn lemma_offset_out_of_range_fixed()
    ensures
        Error::OffsetOutOfRange.cause_spec() is None,
        Error::OffsetOutOfRange.message_spec() == "Offset out of range"@,
        forall|e: Error| e.cause_spec() is None ==> e == Error::OffsetOutOfRange,
{
    assert forall|e: Error| e.cause_spec() is None implies e == Error::OffsetOutOfRange by {
        match e {
            Error::OffsetOutOfRange => {},
            _ => {
                assert(e.cause_spec() is Some);
            },
        }
    }
}

/// Whether `needle` occurs contiguously inside `hay`.
pub open spec fn contains_text(hay: Seq<char>, needle: Seq<char>) -> bool {
    exists|i: int|
        0 <= i && i + needle.len() <= hay.len() && #[trigger] hay.subrange(i, i + needle.len())
            == needle
}

/// Law: the message of `OpenChip` contains the chip path, whatever the cause.
pub proof fn lemma_open_chip_message_contains_path(c: IoCause, p: String)
    ensures
        contains_text((Error::OpenChip { source: c, path: p }).message_spec(), p@),
{
    let prefix = "unable to open chip at path "@;
    let msg = (Error::OpenChip { source: c, path: p }).message_spec();
    assert(msg.subrange(prefix.len() as int, prefix.len() + p@.len() as int) =~= p@);
}

/// Law: the message of `GetChipInfo` contains the chip path, whatever the
/// cause.
pub proof fn lemma_get_chip_info_message_contains_path(c: NixCause, p: String)
    ensures
        contains_text((Error::GetChipInfo { source: c, path: p }).message_spec(), p@),
{
    let prefix = "unable to get chip info for "@;
    let msg = (Error::GetChipInfo { source: c, path: p }).message_spec();
    assert(msg.subrange(prefix.len() as int, prefix.len() + p@.len() as int) =~= p@);
}

/// Whether two errors are of the same variant, regardless of attached
/// context.
pub open spec fn same_variant(e1: Error, e2: Error) -> bool {
    match (e1, e2) {
        (Error::Io { .. }, Error::Io { .. }) => true,
        (Error::Nix { .. }, Error::Nix { .. }) => true,
        (Error::OffsetOutOfRange, Error::OffsetOutOfRange) => true,
        (Error::ReadDevDirectory { .. }, Error::ReadDevDirectory { .. }) => true,
        (Error::OpenChip { .. }, Error::OpenChip { .. }) => true,
        (Error::GetChipInfo { .. }, Error::GetChipInfo { .. }) => true,
        (Error::LineeventIoctl { .. }, Error::LineeventIoctl { .. }) => true,
        (Error::LineinfoIoctl { .. }, Error::LineinfoIoctl { .. }) => true,
        (Error::LinehandleRequestIoctl { .. }, Error::LinehandleRequestIoctl { .. }) => true,
        (Error::GetLineValue { .. }, Error::GetLineValue { .. }) => true,
        (Error::SetLineValue { .. }, Error::SetLineValue { .. }) => true,
        _ => false,
    }
}

/// Law: the variant tag reported by `kind` identifies the variant exactly,
/// so any two errors of distinct variants are distinguishable by structural
/// inspection alone.
pub proof fn lemma_kind_identifies_variant(e1: Error, e2: Error)
    ensures
        e1.kind_spec() == e2.kind_spec() <==> same_variant(e1, e2),
{
}

/// The characters every variant-specific message starts with, at three fixed
/// positions that tell the nine variant prefixes apart.
proof fn lemma_message_head_chars(e: Error)
    requires
        e !is Io,
        e !is Nix,
    ensures
        e.message_spec().len() >= 14,
        e is OffsetOutOfRange ==> e.message_spec()[0] == 'O' && e.message_spec()[4] == 'e'
            && e.message_spec()[10] == ' ',
        e is ReadDevDirectory ==> e.message_spec()[0] == 'u' && e.message_spec()[4] == 'l'
            && e.message_spec()[10] == 'r',
        e is OpenChip ==> e.message_spec()[0] == 'u' && e.message_spec()[4] == 'l'
            && e.message_spec()[10] == 'o',
        e is GetChipInfo ==> e.message_spec()[0] == 'u' && e.message_spec()[4] == 'l'
            && e.message_spec()[10] == 'g',
        e is LineeventIoctl ==> e.message_spec()[0] == 'L' && e.message_spec()[4] == 'e'
            && e.message_spec()[10] == 'o',
        e is LineinfoIoctl ==> e.message_spec()[0] == 'L' && e.message_spec()[4] == 'i'
            && e.message_spec()[10] == 'c',
        e is LinehandleRequestIoctl ==> e.message_spec()[0] == 'L' && e.message_spec()[4] == 'h'
            && e.message_spec()[10] == 'R',
        e is GetLineValue ==> e.message_spec()[0] == 'G' && e.message_spec()[4] == 'i'
            && e.message_spec()[10] == 'u',
        e is SetLineValue ==> e.message_spec()[0] == 'S' && e.message_spec()[4] == 'i'
            && e.message_spec()[10] == 'u',
{
    reveal_strlit("Offset out of range");
    reveal_strlit("unable to read /dev directory");
    reveal_strlit("unable to open chip at path ");
    reveal_strlit("unable to get chip info for ");
    reveal_strlit("LineeventIoctl: ");
    reveal_strlit("LineinfoIoctl: ");
    reveal_strlit("LinehandleRequestIoctl: ");
    reveal_strlit("GetLineValue: ");
    reveal_strlit("SetLineValue: ");
}

/// Law: among the nine variants that do not render their cause's message
/// alone (all but the `Io` and `Nix` catch-alls), any two errors of distinct
/// variants render distinct messages, whatever context they carry.
pub proof fn lemma_messages_distinguish_variants(e1: Error, e2: Error)
    requires
        e1 !is Io,
        e1 !is Nix,
        e2 !is Io,
        e2 !is Nix,
        !same_variant(e1, e2),
    ensures
        e1.message_spec() != e2.message_spec(),
{
    lemma_message_head_chars(e1);
    lemma_message_head_chars(e2);
    if e1.message_spec() == e2.message_spec() {
        assert(e1.message_spec()[0] == e2.message_spec()[0]);
        assert(e1.message_spec()[4] == e2.message_spec()[4]);
        assert(e1.message_spec()[10] == e2.message_spec()[10]);
        assert(false);
    }
}

/// Short-circuit propagation: turns any value convertible into an [`Error`]
/// into the failure case of [`Result`], so a failing call site can uniformly
/// write `return bail(cause)`. The error value is the exact conversion of the
/// cause; nothing is altered on the way.
pub fn bail<T, E>(e: E) -> (r: Result<T>) where Error: vstd::std_specs::convert::FromSpec<E>
    ensures
        <Error as vstd::std_specs::convert::FromSpec<E>>::obeys_from_spec() ==> r
            == Result::<T>::Err(<Error as vstd::std_specs::convert::FromSpec<E>>::from_spec(e)),
{
    Err(Error::from(e))
}

/// The local range check every line operation performs before touching the
/// device: a line offset must be below the chip's reported line count.
/// Fails with `OffsetOutOfRange`, which carries no underlying cause, since no
/// system interaction takes place.
pub fn check_offset(offset: u32, num_lines: u32) -> (r: Result<()>)
    ensures
        r is Ok <==> offset < num_lines,
        r matches Err(e) ==> e == Error::OffsetOutOfRange,
{
    if offset < num_lines {
        Ok(())
    } else {
        Err(Error::OffsetOutOfRange)
    }
}

} // verus!
