//! The dual error channel.
//!
//! A call into the bus runtime reports failure through an error slot that
//! starts unset and may be populated with a name and an optional
//! human-readable message. [`RawError`] is the short-lived in-flight form of
//! that slot; [`Error`] is the long-lived owned form, which caches the length
//! of each string at construction. A raw error converts into an owned one at
//! most once, when a failure crosses back into caller-visible code.
//!
//! Both strings are kept in C-string framing: the bytes of the text followed
//! by one nul terminator, with no interior nul.

use crate::bytes::{clone_vec, slice_to_vec};
use vstd::prelude::*;

verus! {

/// `s` is a nul-terminated byte string: one nul byte, at the end.
pub open spec fn is_cstr(s: Seq<u8>) -> bool {
    &&& s.len() >= 1
    &&& s[s.len() - 1] == 0
    &&& forall|i: int| 0 <= i < s.len() - 1 ==> s[i] != 0
}

/// The text of a nul-terminated byte string: everything before the
/// terminator.
pub open spec fn cstr_text(s: Seq<u8>) -> Seq<u8> {
    s.take(s.len() - 1)
}

/// A runtime status failure: a bare errno-style code, with no accompanying
/// named error.
#[derive(Clone, Copy, Debug, PartialEq, Eq, Structural)]
pub struct Errno {
    pub code: i32,
}

/// Status code of an operation refused in the current state, such as a
/// mutation of a sealed message.
pub const EPERM: i32 = 1;

/// Status code of an operation on a message of the wrong kind.
pub const EINVAL: i32 = 22;

/// The in-flight error slot a runtime call may populate.
///
/// It starts unset; a set slot always carries a name and may carry a
/// message. Setting an already-set slot leaves it unchanged.
pub struct RawError {
    name: Option<Vec<u8>>,
    message: Option<Vec<u8>>,
}

impl RawError {
    #[verifier::type_invariant]
    spec fn wf(self) -> bool {
        &&& (self.name matches Some(n) ==> is_cstr(n@))
        &&& (self.message matches Some(m) ==> is_cstr(m@))
        &&& (self.name is None ==> self.message is None)
    }

    /// The name held by the slot, terminator included.
    pub closed spec fn name_view(&self) -> Option<Seq<u8>> {
        match self.name {
            Some(n) => Some(n@),
            None => None,
        }
    }

    /// The message held by the slot, terminator included.
    pub closed spec fn message_view(&self) -> Option<Seq<u8>> {
        match self.message {
            Some(m) => Some(m@),
            None => None,
        }
    }

    /// The slot carries an error.
    pub open spec fn is_set_view(&self) -> bool {
        self.name_view() is Some
    }

    /// A fresh, unset slot.
    pub fn new() -> (r: RawError)
        ensures
            !r.is_set_view(),
            r.message_view() is None,
    {
        RawError { name: None, message: None }
    }

    /// Populate the slot with a name and an optional message, both in
    /// C-string framing. An already-set slot is left unchanged.
    pub fn set(&mut self, name: &[u8], message: Option<&[u8]>)
        requires
            is_cstr(name@),
            message matches Some(m) ==> is_cstr(m@),
        ensures
            old(self).is_set_view() ==> final(self).name_view() == old(self).name_view()
                && final(self).message_view() == old(self).message_view(),
            !old(self).is_set_view() ==> {
                &&& final(self).name_view() == Some(name@)
                &&& final(self).message_view() == (match message {
                    Some(m) => Some(m@),
                    None => None,
                })
            },
    {
        proof {
            use_type_invariant(&*self);
        }
        if self.name.is_none() {
            self.name = Some(slice_to_vec(name));
            self.message = match message {
                Some(m) => Some(slice_to_vec(m)),
                None => None,
            };
        }
    }

    /// A slot already populated with a name and an optional message.
    pub fn with(name: &[u8], message: Option<&[u8]>) -> (r: RawError)
        requires
            is_cstr(name@),
            message matches Some(m) ==> is_cstr(m@),
        ensures
            r.name_view() == Some(name@),
            r.message_view() == (match message {
                Some(m) => Some(m@),
                None => None,
            }),
    {
        let mut v = RawError::new();
        v.set(name, message);
        v
    }

    /// Whether the slot carries an error.
    pub fn is_set(&self) -> (r: bool)
        ensures
            r == self.is_set_view(),
    {
        self.name.is_some()
    }

    /// Convert the slot: unset means success, set means failure, carrying
    /// the name and message into the owned error.
    pub fn into_result(self) -> (r: Result<(), Error>)
        ensures
            r is Err <==> self.is_set_view(),
            r matches Err(e) ==> {
                &&& Some(e.name_view()) == self.name_view()
                &&& e.message_view() == self.message_view()
            },
    {
        if self.is_set() {
            Err(Error::from_raw(self))
        } else {
            Ok(())
        }
    }

    /// The name held by the slot, terminator included.
    pub fn name(&self) -> (r: Option<&Vec<u8>>)
        ensures
            r matches Some(n) ==> self.name_view() == Some(n@),
            r is None ==> self.name_view() is None,
    {
        match &self.name {
            Some(n) => Some(n),
            None => None,
        }
    }

    /// The message held by the slot, terminator included.
    pub fn message(&self) -> (r: Option<&Vec<u8>>)
        ensures
            r matches Some(m) ==> self.message_view() == Some(m@),
            r is None ==> self.message_view() is None,
    {
        match &self.message {
            Some(m) => Some(m),
            None => None,
        }
    }
}

impl Clone for RawError {
    /// An independent copy of the slot with the same contents.
    fn clone(&self) -> (r: Self)
        ensures
            r.name_view() == self.name_view(),
            r.message_view() == self.message_view(),
    {
        proof {
            use_type_invariant(self);
        }
        RawError {
            name: match &self.name {
                Some(n) => Some(clone_vec(n)),
                None => None,
            },
            message: match &self.message {
                Some(m) => Some(clone_vec(m)),
                None => None,
            },
        }
    }
}

impl Default for RawError {
    /// A fresh, unset slot.
    fn default() -> (r: Self)
        ensures
            !r.is_set_view(),
            r.message_view() is None,
    {
        RawError::new()
    }
}

/// A named error with an optional human-readable message, owning its
/// strings.
///
/// The length of each string is computed once, at construction, and cached.
pub struct Error {
    name: Vec<u8>,
    message: Option<Vec<u8>>,
    name_len: usize,
    message_len: usize,
}

impl Error {
    #[verifier::type_invariant]
    spec fn wf(self) -> bool {
        &&& is_cstr(self.name@)
        &&& self.name_len == self.name@.len()
        &&& match self.message {
            Some(m) => is_cstr(m@) && self.message_len == m@.len(),
            None => self.message_len == 0,
        }
    }

    /// The name, terminator included.
    pub closed spec fn name_view(&self) -> Seq<u8> {
        self.name@
    }

    /// The message, terminator included, when one was supplied.
    pub closed spec fn message_view(&self) -> Option<Seq<u8>> {
        match self.message {
            Some(m) => Some(m@),
            None => None,
        }
    }

    /// Take ownership of a set slot's strings, caching their lengths.
    fn from_raw(raw: RawError) -> (r: Error)
        requires
            raw.is_set_view(),
        ensures
            Some(r.name_view()) == raw.name_view(),
            r.message_view() == raw.message_view(),
    {
        proof {
            use_type_invariant(&raw);
        }
        let RawError { name, message } = raw;
        let name = match name {
            Some(n) => n,
            None => unreached(),
        };
        let n = name.len();
        let m = match &message {
            Some(m) => m.len(),
            None => 0,
        };
        Error { name, message, name_len: n, message_len: m }
    }

    /// An error built from a name and an optional message, both in C-string
    /// framing.
    pub fn new(name: &[u8], message: Option<&[u8]>) -> (r: Error)
        requires
            is_cstr(name@),
            message matches Some(m) ==> is_cstr(m@),
        ensures
            r.name_view() == name@,
            r.message_view() == (match message {
                Some(m) => Some(m@),
                None => None,
            }),
    {
        let v = RawError::with(name, message);
        Error::from_raw(v)
    }

    /// The name, terminator included.
    pub fn name(&self) -> (r: &Vec<u8>)
        ensures
            r@ == self.name_view(),
    {
        &self.name
    }

    /// The message, when one was supplied: `None` exactly when the error was
    /// constructed with no message.
    pub fn message(&self) -> (r: Option<&Vec<u8>>)
        ensures
            r matches Some(m) ==> self.message_view() == Some(m@),
            r is None ==> self.message_view() is None,
    {
        match &self.message {
            Some(m) => Some(m),
            None => None,
        }
    }

    /// What displaying the error shows: always the name; the message only
    /// when present.
    pub open spec fn display_view(&self) -> Seq<u8> {
        match self.message_view() {
            Some(m) => display_prefix() + cstr_text(self.name_view()) + display_sep()
                + cstr_text(m),
            None => display_prefix() + cstr_text(self.name_view()),
        }
    }

    /// Render the error for display.
    pub fn display_bytes(&self) -> (r: Vec<u8>)
        ensures
            r@ == self.display_view(),
    {
        proof {
            use_type_invariant(self);
        }
        let mut out = push_display_prefix();
        append_text(&mut out, &self.name);
        match &self.message {
            Some(m) => {
                let ghost mid = out@;
                out.push(COLON_BYTE);
                out.push(SPACE_BYTE);
                assert(out@ =~= mid + display_sep());
                append_text(&mut out, m);
                assert(out@ =~= self.display_view());
            },
            None => {
                assert(out@ =~= self.display_view());
            },
        }
        out
    }
}

/// ASCII `:`
const COLON_BYTE: u8 = 58;

/// ASCII ` `
const SPACE_BYTE: u8 = 32;

/// The fixed leading text of a displayed error: `Dbus Error: `.
pub open spec fn display_prefix() -> Seq<u8> {
    seq![68u8, 98u8, 117u8, 115u8, 32u8, 69u8, 114u8, 114u8, 111u8, 114u8, 58u8, 32u8]
}

/// The separator between name and message in a displayed error: `: `.
pub open spec fn display_sep() -> Seq<u8> {
    seq![58u8, 32u8]
}

/// A vector holding the display prefix.
fn push_display_prefix() -> (r: Vec<u8>)
    ensures
        r@ == display_prefix(),
{
    let mut v: Vec<u8> = Vec::new();
    v.push(68);
    v.push(98);
    v.push(117);
    v.push(115);
    v.push(32);
    v.push(69);
    v.push(114);
    v.push(114);
    v.push(111);
    v.push(114);
    v.push(58);
    v.push(32);
    assert(v@ =~= display_prefix());
    v
}

/// Append the text of a nul-terminated string (everything before the
/// terminator) to `out`.
fn append_text(out: &mut Vec<u8>, s: &Vec<u8>)
    requires
        is_cstr(s@),
    ensures
        final(out)@ == old(out)@ + cstr_text(s@),
{
    let n = s.len();
    let mut i: usize = 0;
    while i + 1 < n
        invariant
            n == s@.len(),
            0 <= i <= s@.len() - 1,
            is_cstr(s@),
            out@ == old(out)@ + s@.take(i as int),
        decreases s@.len() - i,
    {
        out.push(s[i]);
        assert(out@ =~= old(out)@ + s@.take(i + 1));
        i += 1;
    }
    assert(out@ =~= old(out)@ + cstr_text(s@));
}

} // verus!
