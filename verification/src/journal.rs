//! The log-reading collaborator's decision logic.
//!
//! The log store itself is read through the runtime (open, enumerate the
//! current field, step between entries, seek); what this module pins down is
//! the logic around those calls: which flag word an open request turns into,
//! how one raw field record splits into its name and value, and which seek
//! operation a seek request selects.

use crate::bytes::{slice_index, subrange_to_vec};
use vstd::prelude::*;

verus! {

/// Open flag: include only log entries originating from localhost.
pub const SD_JOURNAL_LOCAL_ONLY: i32 = 1;

/// Open flag: include only log entries from the current boot.
pub const SD_JOURNAL_RUNTIME_ONLY: i32 = 2;

/// Open flag: read the system-wide log.
pub const SD_JOURNAL_SYSTEM: i32 = 4;

/// Open flag: read the current user's log.
pub const SD_JOURNAL_CURRENT_USER: i32 = 8;

/// Represents the set of journal files to read.
pub enum JournalFiles {
    /// The system-wide journal.
    System,
    /// The current user's journal.
    CurrentUser,
    /// Both the system-wide journal and the current user's journal.
    All,
}

/// A 128-bit identifier, such as a boot id, modeled as its sixteen bytes.
pub struct Id128 {
    bytes: [u8; 16],
}

impl View for Id128 {
    type V = Seq<u8>;

    closed spec fn view(&self) -> Seq<u8> {
        self.bytes@
    }
}

impl Id128 {
    /// An identifier from its sixteen bytes.
    pub fn from_bytes(b: [u8; 16]) -> (r: Id128)
        ensures
            r@ == b@,
    {
        Id128 { bytes: b }
    }

    /// The sixteen bytes of the identifier.
    pub fn as_bytes(&self) -> (r: &[u8; 16])
        ensures
            r@ == self@,
    {
        &self.bytes
    }
}

/// Seeking position in journal.
pub enum JournalSeek {
    Head,
    Current,
    Tail,
    ClockMonotonic { boot_id: Id128, usec: u64 },
    ClockRealtime { usec: u64 },
    Cursor { cursor: String },
}

/// The one seek operation of the runtime that a seek request selects.
pub enum SeekCall {
    /// Move to the start of the store.
    ToHead,
    /// Stay at the current entry.
    Stay,
    /// Move to the end of the store.
    ToTail,
    /// Move to the given monotonic-clock time within the given boot.
    ToMonotonic { boot_id: Id128, usec: u64 },
    /// Move to the given realtime-clock time.
    ToRealtime { usec: u64 },
    /// Move to the entry named by a cursor string.
    ToCursor { cursor: String },
}

/// The flag word an open request turns into: the union of the runtime-only
/// and local-only flags with the flag of the selected file set.
pub open spec fn spec_open_flags(files: JournalFiles, runtime_only: bool, local_only: bool) -> i32 {
    (if runtime_only {
        SD_JOURNAL_RUNTIME_ONLY
    } else {
        0
    }) | (if local_only {
        SD_JOURNAL_LOCAL_ONLY
    } else {
        0
    }) | (match files {
        JournalFiles::System => SD_JOURNAL_SYSTEM,
        JournalFiles::CurrentUser => SD_JOURNAL_CURRENT_USER,
        JournalFiles::All => 0,
    })
}

/// Compute the flag word to open the journal with.
pub fn open_flags(files: JournalFiles, runtime_only: bool, local_only: bool) -> (r: i32)
    ensures
        r == spec_open_flags(files, runtime_only, local_only),
{
    let runtime: i32 = if runtime_only {
        SD_JOURNAL_RUNTIME_ONLY
    } else {
        0
    };
    let local: i32 = if local_only {
        SD_JOURNAL_LOCAL_ONLY
    } else {
        0
    };
    let file: i32 = match files {
        JournalFiles::System => SD_JOURNAL_SYSTEM,
        JournalFiles::CurrentUser => SD_JOURNAL_CURRENT_USER,
        JournalFiles::All => 0,
    };
    runtime | local | file
}

/// ASCII `=`
pub const EQUALS: u8 = 61;

/// `b[k]` is the first `=` byte of `b`.
pub open spec fn first_eq_at(b: Seq<u8>, k: int) -> bool {
    &&& 0 <= k < b.len()
    &&& b[k] == EQUALS
    &&& forall|i: int| 0 <= i < k ==> b[i] != EQUALS
}

/// Split one raw field record `NAME=value` at its first `=` into the field
/// name and the value; `None` when the record holds no `=`.
pub fn split_field(field: &[u8]) -> (r: Option<(Vec<u8>, Vec<u8>)>)
    ensures
        r is Some <==> exists|k: int| first_eq_at(field@, k),
        r matches Some((n, v)) ==> exists|k: int|
            first_eq_at(field@, k) && n@ == field@.take(k) && v@ == field@.skip(k + 1),
{
    let mut i: usize = 0;
    while i < field.len()
        invariant
            0 <= i <= field@.len(),
            forall|j: int| 0 <= j < i ==> field@[j] != EQUALS,
        decreases field@.len() - i,
    {
        if *slice_index(field, i) == EQUALS {
            assert(first_eq_at(field@, i as int));
            let name = subrange_to_vec(field, 0, i);
            let value = subrange_to_vec(field, i + 1, field.len());
            assert(name@ == field@.take(i as int));
            assert(value@ == field@.skip(i + 1));
            return Some((name, value));
        }
        i += 1;
    }
    None
}

/// Interpret the runtime's step result when moving between entries: zero
/// means there was no entry to move to.
pub fn previous_result(r: i32) -> (out: Option<i32>)
    ensures
        r == 0 ==> out is None,
        r != 0 ==> out == Some(r),
{
    if r == 0 {
        None
    } else {
        Some(r)
    }
}

/// Select the runtime seek operation a seek request maps to: a head or tail
/// request moves to the corresponding end, a current request moves nowhere,
/// and the clock and cursor requests carry their position along.
pub fn seek_call(seek: JournalSeek) -> (r: SeekCall)
    ensures
        seek is Head ==> r is ToHead,
        seek is Current ==> r is Stay,
        seek is Tail ==> r is ToTail,
        seek matches JournalSeek::ClockMonotonic { boot_id, usec } ==> (r
            matches SeekCall::ToMonotonic { boot_id: b, usec: u } && b == boot_id && u == usec),
        seek matches JournalSeek::ClockRealtime { usec } ==> (r matches SeekCall::ToRealtime {
            usec: u,
        } && u == usec),
        seek matches JournalSeek::Cursor { cursor } ==> (r matches SeekCall::ToCursor {
            cursor: c,
        } && c == cursor),
    {
    match seek {
        JournalSeek::Head => SeekCall::ToHead,
        JournalSeek::Current => SeekCall::Stay,
        JournalSeek::Tail => SeekCall::ToTail,
        JournalSeek::ClockMonotonic { boot_id, usec } => SeekCall::ToMonotonic { boot_id, usec },
        JournalSeek::ClockRealtime { usec } => SeekCall::ToRealtime { usec },
        JournalSeek::Cursor { cursor } => SeekCall::ToCursor { cursor },
    }
}

} // verus!
