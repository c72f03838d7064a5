//! Typed marshaling: the primitive implementations of the two capability
//! interfaces, [`ToSdBusMessage`] and [`FromSdBusMessage`].
//!
//! Each primitive advertises one wire type tag; writing appends exactly one
//! wire value, and reading consumes exactly one value of the matching tag,
//! handing back `None` (not an error) on a tag mismatch. Application types
//! extend the protocol by implementing the same two interfaces. String
//! values travel as their UTF-8 bytes, carried by `Vec<u8>`.

use crate::bytes::clone_vec;
use crate::error::Errno;
use crate::message::{
    FromSdBusMessage, Message, MessageIter, ToSdBusMessage, WireVal, WireValue, TAG_BOOLEAN,
    TAG_BYTE, TAG_INT16, TAG_INT32, TAG_INT64, TAG_STRING, TAG_UINT16, TAG_UINT32, TAG_UINT64,
};
use vstd::prelude::*;

verus! {

impl ToSdBusMessage for bool {
    open spec fn wire(&self) -> WireVal {
        WireVal::Bool(*self)
    }

    fn to_message(&self, m: &mut Message) -> (r: Result<(), Errno>) {
        m.append_wire(WireValue::Bool(*self))
    }
}

impl FromSdBusMessage for bool {
    open spec fn wire_tag() -> u8 {
        TAG_BOOLEAN
    }

    open spec fn is_decode_of(&self, w: WireVal) -> bool {
        w == WireVal::Bool(*self)
    }

    fn from_message(it: &mut MessageIter) -> (r: Result<Option<bool>, Errno>) {
        match it.read_wire(TAG_BOOLEAN) {
            Ok(Some(v)) => match v {
                WireValue::Bool(x) => Ok(Some(x)),
                _ => unreached(),
            },
            Ok(None) => Ok(None),
            Err(_) => unreached(),
        }
    }
}

impl ToSdBusMessage for u8 {
    open spec fn wire(&self) -> WireVal {
        WireVal::Byte(*self)
    }

    fn to_message(&self, m: &mut Message) -> (r: Result<(), Errno>) {
        m.append_wire(WireValue::Byte(*self))
    }
}

impl FromSdBusMessage for u8 {
    open spec fn wire_tag() -> u8 {
        TAG_BYTE
    }

    open spec fn is_decode_of(&self, w: WireVal) -> bool {
        w == WireVal::Byte(*self)
    }

    fn from_message(it: &mut MessageIter) -> (r: Result<Option<u8>, Errno>) {
        match it.read_wire(TAG_BYTE) {
            Ok(Some(v)) => match v {
                WireValue::Byte(x) => Ok(Some(x)),
                _ => unreached(),
            },
            Ok(None) => Ok(None),
            Err(_) => unreached(),
        }
    }
}

impl ToSdBusMessage for i16 {
    open spec fn wire(&self) -> WireVal {
        WireVal::Int16(*self)
    }

    fn to_message(&self, m: &mut Message) -> (r: Result<(), Errno>) {
        m.append_wire(WireValue::Int16(*self))
    }
}

impl FromSdBusMessage for i16 {
    open spec fn wire_tag() -> u8 {
        TAG_INT16
    }

    open spec fn is_decode_of(&self, w: WireVal) -> bool {
        w == WireVal::Int16(*self)
    }

    fn from_message(it: &mut MessageIter) -> (r: Result<Option<i16>, Errno>) {
        match it.read_wire(TAG_INT16) {
            Ok(Some(v)) => match v {
                WireValue::Int16(x) => Ok(Some(x)),
                _ => unreached(),
            },
            Ok(None) => Ok(None),
            Err(_) => unreached(),
        }
    }
}

impl ToSdBusMessage for u16 {
    open spec fn wire(&self) -> WireVal {
        WireVal::Uint16(*self)
    }

    fn to_message(&self, m: &mut Message) -> (r: Result<(), Errno>) {
        m.append_wire(WireValue::Uint16(*self))
    }
}

impl FromSdBusMessage for u16 {
    open spec fn wire_tag() -> u8 {
        TAG_UINT16
    }

    open spec fn is_decode_of(&self, w: WireVal) -> bool {
        w == WireVal::Uint16(*self)
    }

    fn from_message(it: &mut MessageIter) -> (r: Result<Option<u16>, Errno>) {
        match it.read_wire(TAG_UINT16) {
            Ok(Some(v)) => match v {
                WireValue::Uint16(x) => Ok(Some(x)),
                _ => unreached(),
            },
            Ok(None) => Ok(None),
            Err(_) => unreached(),
        }
    }
}

impl ToSdBusMessage for i32 {
    open spec fn wire(&self) -> WireVal {
        WireVal::Int32(*self)
    }

    fn to_message(&self, m: &mut Message) -> (r: Result<(), Errno>) {
        m.append_wire(WireValue::Int32(*self))
    }
}

impl FromSdBusMessage for i32 {
    open spec fn wire_tag() -> u8 {
        TAG_INT32
    }

    open spec fn is_decode_of(&self, w: WireVal) -> bool {
        w == WireVal::Int32(*self)
    }

    fn from_message(it: &mut MessageIter) -> (r: Result<Option<i32>, Errno>) {
        match it.read_wire(TAG_INT32) {
            Ok(Some(v)) => match v {
                WireValue::Int32(x) => Ok(Some(x)),
                _ => unreached(),
            },
            Ok(None) => Ok(None),
            Err(_) => unreached(),
        }
    }
}

impl ToSdBusMessage for u32 {
    open spec fn wire(&self) -> WireVal {
        WireVal::Uint32(*self)
    }

    fn to_message(&self, m: &mut Message) -> (r: Result<(), Errno>) {
        m.append_wire(WireValue::Uint32(*self))
    }
}

impl FromSdBusMessage for u32 {
    open spec fn wire_tag() -> u8 {
        TAG_UINT32
    }

    open spec fn is_decode_of(&self, w: WireVal) -> bool {
        w == WireVal::Uint32(*self)
    }

    fn from_message(it: &mut MessageIter) -> (r: Result<Option<u32>, Errno>) {
        match it.read_wire(TAG_UINT32) {
            Ok(Some(v)) => match v {
                WireValue::Uint32(x) => Ok(Some(x)),
                _ => unreached(),
            },
            Ok(None) => Ok(None),
            Err(_) => unreached(),
        }
    }
}

impl ToSdBusMessage for i64 {
    open spec fn wire(&self) -> WireVal {
        WireVal::Int64(*self)
    }

    fn to_message(&self, m: &mut Message) -> (r: Result<(), Errno>) {
        m.append_wire(WireValue::Int64(*self))
    }
}

impl FromSdBusMessage for i64 {
    open spec fn wire_tag() -> u8 {
        TAG_INT64
    }

    open spec fn is_decode_of(&self, w: WireVal) -> bool {
        w == WireVal::Int64(*self)
    }

    fn from_message(it: &mut MessageIter) -> (r: Result<Option<i64>, Errno>) {
        match it.read_wire(TAG_INT64) {
            Ok(Some(v)) => match v {
                WireValue::Int64(x) => Ok(Some(x)),
                _ => unreached(),
            },
            Ok(None) => Ok(None),
            Err(_) => unreached(),
        }
    }
}

impl ToSdBusMessage for u64 {
    open spec fn wire(&self) -> WireVal {
        WireVal::Uint64(*self)
    }

    fn to_message(&self, m: &mut Message) -> (r: Result<(), Errno>) {
        m.append_wire(WireValue::Uint64(*self))
    }
}

impl FromSdBusMessage for u64 {
    open spec fn wire_tag() -> u8 {
        TAG_UINT64
    }

    open spec fn is_decode_of(&self, w: WireVal) -> bool {
        w == WireVal::Uint64(*self)
    }

    fn from_message(it: &mut MessageIter) -> (r: Result<Option<u64>, Errno>) {
        match it.read_wire(TAG_UINT64) {
            Ok(Some(v)) => match v {
                WireValue::Uint64(x) => Ok(Some(x)),
                _ => unreached(),
            },
            Ok(None) => Ok(None),
            Err(_) => unreached(),
        }
    }
}

impl ToSdBusMessage for Vec<u8> {
    open spec fn wire(&self) -> WireVal {
        WireVal::Str(self@)
    }

    fn to_message(&self, m: &mut Message) -> (r: Result<(), Errno>) {
        m.append_wire(WireValue::Str(clone_vec(self)))
    }
}

impl FromSdBusMessage for Vec<u8> {
    open spec fn wire_tag() -> u8 {
        TAG_STRING
    }

    open spec fn is_decode_of(&self, w: WireVal) -> bool {
        w == WireVal::Str(self@)
    }

    fn from_message(it: &mut MessageIter) -> (r: Result<Option<Vec<u8>>, Errno>) {
        match it.read_wire(TAG_STRING) {
            Ok(Some(v)) => match v {
                WireValue::Str(s) => Ok(Some(s)),
                _ => unreached(),
            },
            Ok(None) => Ok(None),
            Err(_) => unreached(),
        }
    }
}

} // verus!
