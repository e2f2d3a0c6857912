//! Plain-value images of the probes the engines consult. A probe of the
//! running system either finds nothing, fails while reading, or yields
//! text, bytes or lines; the distinction carries the error policy: a
//! missing source is never an error, a failed read of a present source is.

use vstd::prelude::*;

verus! {

/// Outcome of reading a text source (a first line, or a whole small file).
#[derive(Debug)]
pub enum TextRead {
    /// The source does not exist: valid "no evidence".
    Missing,
    /// The source exists but could not be read to completion.
    Unreadable,
    /// The text as read, end-of-line characters kept.
    Text(String),
}

/// Outcome of reading a raw byte source.
#[derive(Debug)]
pub enum BytesRead {
    Missing,
    Unreadable,
    Data(Vec<u8>),
}

/// Outcome of reading a line-oriented source: the lines that could be
/// read, without their end-of-line characters.
#[derive(Debug)]
pub enum LinesRead {
    Missing,
    Unreadable,
    Lines(Vec<String>),
}

/// Outcome of listing a directory: the paths of its entries.
#[derive(Debug)]
pub enum DirRead {
    Missing,
    Unreadable,
    Entries(Vec<String>),
}

/// The processor family of the running host, as far as the engines care:
/// several evidence sources exist only on some families.
#[derive(Debug, Clone, Copy, PartialEq, Eq, Structural)]
pub enum Arch {
    /// x86 or x86_64.
    X86,
    /// 32- or 64-bit ARM.
    Arm,
    /// 32- or 64-bit PowerPC.
    PowerPc,
    /// s390 family.
    S390,
    /// Any other family.
    OtherArch,
}

/// A present evidence source could not be read to completion: an abnormal
/// environment, surfaced to the caller rather than folded into "no evidence".
#[derive(Debug, Clone, Copy, PartialEq, Eq, Structural)]
pub struct IoError;

} // verus!
