//! Validated bus names: object paths, interface names, bus names and member
//! names.
//!
//! Each name kind is an immutable, nul-terminated byte sequence that is
//! guaranteed, by construction, to satisfy its grammar. A validator scans the
//! bytes once, left to right, and succeeds exactly when the prefix up to the
//! first nul terminator matches the grammar; a buffer with no nul terminator
//! is always rejected.

use crate::bytes::{slice_index, slice_to_vec};
use vstd::prelude::*;

verus! {

/// ASCII `/`
pub const SLASH: u8 = 47;

/// ASCII `.`
pub const DOT: u8 = 46;

/// ASCII `:`
pub const COLON: u8 = 58;

/// ASCII `-`
pub const HYPHEN: u8 = 45;

/// ASCII `_`
pub const UNDERSCORE: u8 = 95;

/// ASCII `A`
pub const UPPER_A: u8 = 65;

/// ASCII `Z`
pub const UPPER_Z: u8 = 90;

/// ASCII `a`
pub const LOWER_A: u8 = 97;

/// ASCII `z`
pub const LOWER_Z: u8 = 122;

/// ASCII `0`
pub const DIGIT_0: u8 = 48;

/// ASCII `9`
pub const DIGIT_9: u8 = 57;

/// ASCII letter: `[A-Za-z]`.
pub open spec fn is_alpha(c: u8) -> bool {
    (UPPER_A <= c && c <= UPPER_Z) || (LOWER_A <= c && c <= LOWER_Z)
}

/// ASCII digit: `[0-9]`.
pub open spec fn is_digit(c: u8) -> bool {
    DIGIT_0 <= c && c <= DIGIT_9
}

/// Byte allowed inside an object path element: `[A-Za-z0-9_]`.
pub open spec fn is_path_elem_byte(c: u8) -> bool {
    is_alpha(c) || is_digit(c) || c == UNDERSCORE
}

/// `b[k]` is the first nul byte of `b`.
pub open spec fn first_nul_at(b: Seq<u8>, k: int) -> bool {
    &&& 0 <= k < b.len()
    &&& b[k] == 0
    &&& forall|i: int| 0 <= i < k ==> b[i] != 0
}

/// The bytes of `b` before the first nul (at index `k`) form a well-formed
/// object path: it begins with `/`, elements drawn from `[A-Za-z0-9_]` are
/// separated by single slashes, and a trailing slash is only allowed when the
/// whole buffer is the root path `/` followed by its terminator.
pub open spec fn path_content_ok(b: Seq<u8>, k: int) -> bool {
    &&& 1 <= k < b.len()
    &&& b[0] == SLASH
    &&& forall|i: int| 1 <= i < k ==> is_path_elem_byte(b[i]) || b[i] == SLASH
    &&& forall|i: int| 1 <= i < k && #[trigger] b[i] == SLASH ==> b[i - 1] != SLASH
    &&& (b[k - 1] == SLASH ==> b.len() == 2)
}

/// A byte sequence is a valid object path when it has a nul terminator and
/// the content before it matches the object path grammar.
pub open spec fn is_valid_object_path(b: Seq<u8>) -> bool {
    exists|k: int| first_nul_at(b, k) && path_content_ok(b, k)
}

/// A wrapper which promises it always holds a valid object path.
///
/// The held bytes are exactly the buffer the validator accepted, including
/// its nul terminator.
pub struct ObjectPath {
    bytes: Vec<u8>,
}

impl View for ObjectPath {
    type V = Seq<u8>;

    closed spec fn view(&self) -> Seq<u8> {
        self.bytes@
    }
}

impl ObjectPath {
    #[verifier::type_invariant]
    spec fn wf(self) -> bool {
        is_valid_object_path(self.bytes@)
    }

    /// Create an object path from a byte buffer, performing all checking
    /// needed to ensure the grammar is met. Succeeds if and only if the
    /// buffer is a valid object path.
    pub fn from_bytes(b: &[u8]) -> (r: Result<ObjectPath, &'static str>)
        ensures
            r is Ok <==> is_valid_object_path(b@),
            r is Ok ==> r->Ok_0@ == b@,
    {
        if b.len() < 1 {
            return Err("Path must have at least 1 character ('/')");
        }

        if *slice_index(b, 0) != SLASH {
            assert(forall|k: int| !(first_nul_at(b@, k) && path_content_ok(b@, k)));
            return Err("Path must begin with '/'");
        }

        let mut i: usize = 1;
        while i < b.len()
            invariant
                1 <= i <= b@.len(),
                b@[0] == SLASH,
                forall|j: int| 0 <= j < i ==> b@[j] != 0,
                forall|j: int| 1 <= j < i ==> is_path_elem_byte(b@[j]) || b@[j] == SLASH,
                forall|j: int| 1 <= j < i && #[trigger] b@[j] == SLASH ==> b@[j - 1] != SLASH,
            decreases b@.len() - i,
        {
            let prev = *slice_index(b, i - 1);
            let c = *slice_index(b, i);

            if c == SLASH {
                if prev == SLASH {
                    assert(forall|k: int| first_nul_at(b@, k) ==> k > i);
                    return Err("Path must not have 2 '/' next to each other");
                }
            } else if (UPPER_A <= c && c <= UPPER_Z) || (LOWER_A <= c && c <= LOWER_Z)
                    || (DIGIT_0 <= c && c <= DIGIT_9) || c == UNDERSCORE {
                // Ok
            } else if c == 0 {
                if prev == SLASH && b.len() != 2 {
                    assert(forall|k: int| first_nul_at(b@, k) ==> k == i);
                    return Err("Path must not end in '/' unless it is the root path");
                }

                assert(first_nul_at(b@, i as int) && path_content_ok(b@, i as int));
                return Ok(ObjectPath { bytes: slice_to_vec(b) });
            } else {
                assert(forall|k: int| first_nul_at(b@, k) ==> k > i);
                return Err("Invalid character in path, only '[A-Z][a-z][0-9]_/' allowed");
            }

            i += 1;
        }

        assert(forall|k: int| !first_nul_at(b@, k));
        return Err("Path must be terminated in a '\\0' byte");
    }

    /// Wrap a buffer already known to be a valid object path, skipping
    /// validation. Only for input trusted to be valid by construction.
    pub fn from_bytes_unchecked(b: &[u8]) -> (r: ObjectPath)
        requires
            is_valid_object_path(b@),
        ensures
            r@ == b@,
    {
        ObjectPath { bytes: slice_to_vec(b) }
    }

    /// The underlying bytes, including the nul terminator: always a valid
    /// name of this kind.
    pub fn as_bytes(&self) -> (r: &[u8])
        ensures
            r@ == self@,
            is_valid_object_path(self@),
    {
        proof {
            use_type_invariant(self);
        }
        self.bytes.as_slice()
    }
}

/// Byte allowed to start an interface, bus or member name element:
/// `[A-Za-z_]`.
pub open spec fn is_name_start_byte(c: u8) -> bool {
    is_alpha(c) || c == UNDERSCORE
}

/// The bytes of `b` before the first nul (at index `k`) form a well-formed
/// interface name: at least two dot-separated elements of `[A-Za-z0-9_]+`,
/// none empty, none starting with a digit, and no leading or trailing dot.
pub open spec fn iface_content_ok(b: Seq<u8>, k: int) -> bool {
    &&& 1 <= k < b.len()
    &&& is_name_start_byte(b[0])
    &&& forall|i: int| 1 <= i < k ==> is_path_elem_byte(#[trigger] b[i]) || b[i] == DOT
    &&& forall|i: int| 1 <= i < k && #[trigger] b[i] == DOT ==> b[i - 1] != DOT
    &&& forall|i: int| 1 <= i < k && is_digit(#[trigger] b[i]) ==> b[i - 1] != DOT
    &&& b[k - 1] != DOT
    &&& exists|i: int| 1 <= i < k && b[i] == DOT
}

/// A byte sequence is a valid interface name when it has a nul terminator
/// and the content before it matches the interface name grammar.
pub open spec fn is_valid_interface_name(b: Seq<u8>) -> bool {
    exists|k: int| first_nul_at(b, k) && iface_content_ok(b, k)
}

/// A wrapper which promises it always holds a validated interface name.
pub struct InterfaceName {
    bytes: Vec<u8>,
}

impl View for InterfaceName {
    type V = Seq<u8>;

    closed spec fn view(&self) -> Seq<u8> {
        self.bytes@
    }
}

impl InterfaceName {
    #[verifier::type_invariant]
    spec fn wf(self) -> bool {
        is_valid_interface_name(self.bytes@)
    }

    /// Create an interface name from a byte buffer, performing all checking
    /// needed to ensure the grammar is met. Succeeds if and only if the
    /// buffer is a valid interface name.
    pub fn from_bytes(b: &[u8]) -> (r: Result<InterfaceName, &'static str>)
        ensures
            r is Ok <==> is_valid_interface_name(b@),
            r is Ok ==> r->Ok_0@ == b@,
    {
        if b.len() < 1 {
            return Err("Name must have more than 0 characters");
        }

        let first = *slice_index(b, 0);
        if !((UPPER_A <= first && first <= UPPER_Z) || (LOWER_A <= first && first <= LOWER_Z)
                || first == UNDERSCORE) {
            assert(forall|k: int| !(first_nul_at(b@, k) && iface_content_ok(b@, k)));
            if first == DOT {
                return Err("Name must not begin with '.'");
            }
            return Err("Name must only begin with '[A-Z][a-z]_'");
        }

        let mut seen_dot = false;
        let mut i: usize = 1;
        while i < b.len()
            invariant
                1 <= i <= b@.len(),
                is_name_start_byte(b@[0]),
                forall|j: int| 0 <= j < i ==> b@[j] != 0,
                forall|j: int| 1 <= j < i ==> is_path_elem_byte(#[trigger] b@[j]) || b@[j] == DOT,
                forall|j: int| 1 <= j < i && #[trigger] b@[j] == DOT ==> b@[j - 1] != DOT,
                forall|j: int| 1 <= j < i && is_digit(#[trigger] b@[j]) ==> b@[j - 1] != DOT,
                seen_dot <==> exists|j: int| 1 <= j < i && b@[j] == DOT,
            decreases b@.len() - i,
        {
            let prev = *slice_index(b, i - 1);
            let c = *slice_index(b, i);

            if c == DOT {
                if prev == DOT {
                    assert(forall|k: int| first_nul_at(b@, k) ==> k > i);
                    return Err("Name must not have 2 '.' next to each other");
                }
                seen_dot = true;
            } else if (UPPER_A <= c && c <= UPPER_Z) || (LOWER_A <= c && c <= LOWER_Z)
                    || c == UNDERSCORE {
                // Ok
            } else if DIGIT_0 <= c && c <= DIGIT_9 {
                if prev == DOT {
                    assert(forall|k: int| first_nul_at(b@, k) ==> k > i);
                    return Err("Name element must not start with '[0-9]'");
                }
            } else if c == 0 {
                if prev == DOT {
                    assert(forall|k: int| first_nul_at(b@, k) ==> k == i);
                    return Err("Name must not end in '.'");
                }

                if !seen_dot {
                    assert(forall|k: int| first_nul_at(b@, k) ==> k == i);
                    return Err("Name must have at least 2 elements");
                }

                assert(first_nul_at(b@, i as int) && iface_content_ok(b@, i as int));
                return Ok(InterfaceName { bytes: slice_to_vec(b) });
            } else {
                assert(forall|k: int| first_nul_at(b@, k) ==> k > i);
                return Err("Invalid character in interface name, only '[A-Z][a-z][0-9]_\\.' allowed");
            }

            i += 1;
        }

        assert(forall|k: int| !first_nul_at(b@, k));
        return Err("Name must be terminated in a '\\0' byte");
    }

    /// Wrap a buffer already known to be a valid interface name, skipping
    /// validation. Only for input trusted to be valid by construction.
    pub fn from_bytes_unchecked(b: &[u8]) -> (r: InterfaceName)
        requires
            is_valid_interface_name(b@),
        ensures
            r@ == b@,
    {
        InterfaceName { bytes: slice_to_vec(b) }
    }

    /// The underlying bytes, including the nul terminator: always a valid
    /// name of this kind.
    pub fn as_bytes(&self) -> (r: &[u8])
        ensures
            r@ == self@,
            is_valid_interface_name(self@),
    {
        proof {
            use_type_invariant(self);
        }
        self.bytes.as_slice()
    }
}

/// Byte allowed inside a bus name element: `[A-Za-z0-9_-]`.
pub open spec fn is_bus_elem_byte(c: u8) -> bool {
    is_alpha(c) || is_digit(c) || c == UNDERSCORE || c == HYPHEN
}

/// Longest accepted bus or member name buffer, terminator included.
pub const MAX_NAME_BUF: usize = 256;

/// The bytes of `b` before the first nul (at index `k`) form a well-formed
/// bus name: at least two dot-separated elements of `[A-Za-z0-9_-]+`, none
/// empty; a leading `:` marks a unique name whose elements may begin with a
/// digit, otherwise no element begins with a digit; and the whole buffer
/// stays within the maximum name length.
pub open spec fn bus_content_ok(b: Seq<u8>, k: int) -> bool {
    &&& 1 <= k < b.len()
    &&& b.len() <= MAX_NAME_BUF
    &&& (is_alpha(b[0]) || b[0] == UNDERSCORE || b[0] == HYPHEN || b[0] == COLON)
    &&& forall|i: int| 1 <= i < k ==> is_bus_elem_byte(#[trigger] b[i]) || b[i] == DOT
    &&& forall|i: int| 1 <= i < k && #[trigger] b[i] == DOT ==> b[i - 1] != DOT && b[i - 1]
        != COLON
    &&& (b[0] != COLON ==> forall|i: int|
        1 <= i < k && is_digit(#[trigger] b[i]) ==> b[i - 1] != DOT)
    &&& b[k - 1] != DOT
    &&& exists|i: int| 1 <= i < k && b[i] == DOT
}

/// A byte sequence is a valid bus name when it has a nul terminator and the
/// content before it matches the bus name grammar.
pub open spec fn is_valid_bus_name(b: Seq<u8>) -> bool {
    exists|k: int| first_nul_at(b, k) && bus_content_ok(b, k)
}

/// A wrapper which promises it always holds a validated bus name.
pub struct BusName {
    bytes: Vec<u8>,
}

impl View for BusName {
    type V = Seq<u8>;

    closed spec fn view(&self) -> Seq<u8> {
        self.bytes@
    }
}

impl BusName {
    #[verifier::type_invariant]
    spec fn wf(self) -> bool {
        is_valid_bus_name(self.bytes@)
    }

    /// Create a bus name from a byte buffer, performing all checking needed
    /// to ensure the grammar is met. Succeeds if and only if the buffer is a
    /// valid bus name.
    pub fn from_bytes(b: &[u8]) -> (r: Result<BusName, &'static str>)
        ensures
            r is Ok <==> is_valid_bus_name(b@),
            r is Ok ==> r->Ok_0@ == b@,
    {
        if b.len() < 1 {
            return Err("Name must have more than 0 characters");
        }

        if b.len() > MAX_NAME_BUF {
            return Err("Must be shorter than 255 characters");
        }

        let first = *slice_index(b, 0);
        let is_unique = first == COLON;
        if !((UPPER_A <= first && first <= UPPER_Z) || (LOWER_A <= first && first <= LOWER_Z)
                || first == UNDERSCORE || first == HYPHEN || first == COLON) {
            assert(forall|k: int| !(first_nul_at(b@, k) && bus_content_ok(b@, k)));
            if first == DOT {
                return Err("Name must not begin with '.'");
            }
            return Err("Name must only begin with '[A-Z][a-z]_'");
        }

        let mut seen_dot = false;
        let mut i: usize = 1;
        while i < b.len()
            invariant
                1 <= i <= b@.len(),
                b@.len() <= MAX_NAME_BUF,
                is_alpha(b@[0]) || b@[0] == UNDERSCORE || b@[0] == HYPHEN || b@[0] == COLON,
                is_unique <==> b@[0] == COLON,
                forall|j: int| 0 <= j < i ==> b@[j] != 0,
                forall|j: int| 1 <= j < i ==> is_bus_elem_byte(#[trigger] b@[j]) || b@[j] == DOT,
                forall|j: int| 1 <= j < i && #[trigger] b@[j] == DOT ==> b@[j - 1] != DOT && b@[j
                    - 1] != COLON,
                !is_unique ==> forall|j: int|
                    1 <= j < i && is_digit(#[trigger] b@[j]) ==> b@[j - 1] != DOT,
                seen_dot <==> exists|j: int| 1 <= j < i && b@[j] == DOT,
            decreases b@.len() - i,
        {
            let prev = *slice_index(b, i - 1);
            let c = *slice_index(b, i);

            if c == DOT {
                if prev == DOT || prev == COLON {
                    assert(forall|k: int| first_nul_at(b@, k) ==> k > i);
                    return Err("Elements may not be empty");
                }
                seen_dot = true;
            } else if (UPPER_A <= c && c <= UPPER_Z) || (LOWER_A <= c && c <= LOWER_Z)
                    || c == UNDERSCORE || c == HYPHEN {
                // Ok
            } else if DIGIT_0 <= c && c <= DIGIT_9 {
                if prev == DOT && !is_unique {
                    assert(forall|k: int| first_nul_at(b@, k) ==> k > i);
                    return Err("Name element must not start with '[0-9]'");
                }
            } else if c == 0 {
                if prev == DOT {
                    assert(forall|k: int| first_nul_at(b@, k) ==> k == i);
                    return Err("Name must not end in '.'");
                }

                if !seen_dot {
                    assert(forall|k: int| first_nul_at(b@, k) ==> k == i);
                    return Err("Name must have at least 2 elements");
                }

                assert(first_nul_at(b@, i as int) && bus_content_ok(b@, i as int));
                return Ok(BusName { bytes: slice_to_vec(b) });
            } else {
                assert(forall|k: int| first_nul_at(b@, k) ==> k > i);
                return Err("Invalid character in bus name, only '[A-Z][a-z][0-9]_\\.' allowed");
            }

            i += 1;
        }

        assert(forall|k: int| !first_nul_at(b@, k));
        return Err("Name must be terminated in a '\\0' byte");
    }

    /// Wrap a buffer already known to be a valid bus name, skipping
    /// validation. Only for input trusted to be valid by construction.
    pub fn from_bytes_unchecked(b: &[u8]) -> (r: BusName)
        requires
            is_valid_bus_name(b@),
        ensures
            r@ == b@,
    {
        BusName { bytes: slice_to_vec(b) }
    }

    /// The underlying bytes, including the nul terminator: always a valid
    /// name of this kind.
    pub fn as_bytes(&self) -> (r: &[u8])
        ensures
            r@ == self@,
            is_valid_bus_name(self@),
    {
        proof {
            use_type_invariant(self);
        }
        self.bytes.as_slice()
    }
}

/// The bytes of `b` before the first nul (at index `k`) form a well-formed
/// member name: a single element of `[A-Za-z0-9_]+` that does not begin with
/// a digit, contains no dot, is at least one byte long, and stays within the
/// maximum name length.
pub open spec fn member_content_ok(b: Seq<u8>, k: int) -> bool {
    &&& 1 <= k < b.len()
    &&& b.len() <= MAX_NAME_BUF
    &&& is_name_start_byte(b[0])
    &&& forall|i: int| 1 <= i < k ==> is_path_elem_byte(#[trigger] b[i])
}

/// A byte sequence is a valid member name when it has a nul terminator and
/// the content before it matches the member name grammar.
pub open spec fn is_valid_member_name(b: Seq<u8>) -> bool {
    exists|k: int| first_nul_at(b, k) && member_content_ok(b, k)
}

/// A wrapper which promises it always holds a validated member name.
pub struct MemberName {
    bytes: Vec<u8>,
}

impl View for MemberName {
    type V = Seq<u8>;

    closed spec fn view(&self) -> Seq<u8> {
        self.bytes@
    }
}

impl MemberName {
    #[verifier::type_invariant]
    spec fn wf(self) -> bool {
        is_valid_member_name(self.bytes@)
    }

    /// Create a member name from a byte buffer, performing all checking
    /// needed to ensure the grammar is met. Succeeds if and only if the
    /// buffer is a valid member name.
    pub fn from_bytes(b: &[u8]) -> (r: Result<MemberName, &'static str>)
        ensures
            r is Ok <==> is_valid_member_name(b@),
            r is Ok ==> r->Ok_0@ == b@,
    {
        if b.len() < 2 {
            assert(forall|k: int| !(first_nul_at(b@, k) && member_content_ok(b@, k)));
            return Err("Name must have more than 0 characters");
        }

        if b.len() > MAX_NAME_BUF {
            return Err("Must be shorter than 255 characters");
        }

        let first = *slice_index(b, 0);
        if !((UPPER_A <= first && first <= UPPER_Z) || (LOWER_A <= first && first <= LOWER_Z)
                || first == UNDERSCORE) {
            assert(forall|k: int| !(first_nul_at(b@, k) && member_content_ok(b@, k)));
            return Err("Must begin with '[A-Z][a-z]_'");
        }

        let mut i: usize = 1;
        while i < b.len()
            invariant
                1 <= i <= b@.len(),
                b@.len() <= MAX_NAME_BUF,
                is_name_start_byte(b@[0]),
                forall|j: int| 0 <= j < i ==> b@[j] != 0,
                forall|j: int| 1 <= j < i ==> is_path_elem_byte(#[trigger] b@[j]),
            decreases b@.len() - i,
        {
            let c = *slice_index(b, i);

            if (UPPER_A <= c && c <= UPPER_Z) || (LOWER_A <= c && c <= LOWER_Z)
                    || (DIGIT_0 <= c && c <= DIGIT_9) || c == UNDERSCORE {
                // Ok
            } else if c == 0 {
                assert(first_nul_at(b@, i as int) && member_content_ok(b@, i as int));
                return Ok(MemberName { bytes: slice_to_vec(b) });
            } else {
                assert(forall|k: int| first_nul_at(b@, k) ==> k > i);
                return Err("Invalid character in member name, only '[A-Z][a-z][0-9]_' allowed");
            }

            i += 1;
        }

        assert(forall|k: int| !first_nul_at(b@, k));
        return Err("Name must be terminated in a '\\0' byte");
    }

    /// Wrap a buffer already known to be a valid member name, skipping
    /// validation. Only for input trusted to be valid by construction.
    pub fn from_bytes_unchecked(b: &[u8]) -> (r: MemberName)
        requires
            is_valid_member_name(b@),
        ensures
            r@ == b@,
    {
        MemberName { bytes: slice_to_vec(b) }
    }

    /// The underlying bytes, including the nul terminator: always a valid
    /// name of this kind.
    pub fn as_bytes(&self) -> (r: &[u8])
        ensures
            r@ == self@,
            is_valid_member_name(self@),
    {
        proof {
            use_type_invariant(self);
        }
        self.bytes.as_slice()
    }
}

} // verus!
