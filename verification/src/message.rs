//! Messages and their lifecycle state machine.
//!
//! A message is either mutable (under construction: fields may be appended,
//! headers set) or sealed (read-only). It transitions from mutable to sealed
//! exactly once, implicitly, when it is transmitted by one of the send or
//! call operations; a message obtained by receiving is already sealed. There
//! is no way back: every mutation of a sealed message fails and leaves the
//! message unchanged.
//!
//! The body is a sequence of typed wire values. Reading it goes through a
//! [`MessageIter`], the single exclusive cursor over one sealed message: it
//! borrows the message mutably, advances monotonically and never rewinds.

use crate::bytes::{clone_vec, slice_to_vec};
use crate::error::{Errno, Error, EINVAL, EPERM};
use crate::names::{
    is_valid_bus_name, is_valid_interface_name, is_valid_member_name, is_valid_object_path,
    BusName,
};
use vstd::prelude::*;

verus! {

/// Wire type tag of a boolean: `b`.
pub const TAG_BOOLEAN: u8 = 98;

/// Wire type tag of a byte: `y`.
pub const TAG_BYTE: u8 = 121;

/// Wire type tag of a signed 16-bit integer: `n`.
pub const TAG_INT16: u8 = 110;

/// Wire type tag of an unsigned 16-bit integer: `q`.
pub const TAG_UINT16: u8 = 113;

/// Wire type tag of a signed 32-bit integer: `i`.
pub const TAG_INT32: u8 = 105;

/// Wire type tag of an unsigned 32-bit integer: `u`.
pub const TAG_UINT32: u8 = 117;

/// Wire type tag of a signed 64-bit integer: `x`.
pub const TAG_INT64: u8 = 120;

/// Wire type tag of an unsigned 64-bit integer: `t`.
pub const TAG_UINT64: u8 = 116;

/// Wire type tag of a UTF-8 string: `s`.
pub const TAG_STRING: u8 = 115;

/// One primitive value in a message body.
///
/// These are the basic wire types this layer marshals; containers (arrays,
/// structs, variants, dict entries) are an extension point and are not
/// implemented here, and the double type is outside this crate's surface.
/// String values are carried as their UTF-8 bytes, without framing.
pub enum WireValue {
    Bool(bool),
    Byte(u8),
    Int16(i16),
    Uint16(u16),
    Int32(i32),
    Uint32(u32),
    Int64(i64),
    Uint64(u64),
    Str(Vec<u8>),
}

/// The mathematical value of a [`WireValue`].
pub ghost enum WireVal {
    Bool(bool),
    Byte(u8),
    Int16(i16),
    Uint16(u16),
    Int32(i32),
    Uint32(u32),
    Int64(i64),
    Uint64(u64),
    Str(Seq<u8>),
}

impl View for WireValue {
    type V = WireVal;

    open spec fn view(&self) -> WireVal {
        match self {
            WireValue::Bool(b) => WireVal::Bool(*b),
            WireValue::Byte(b) => WireVal::Byte(*b),
            WireValue::Int16(v) => WireVal::Int16(*v),
            WireValue::Uint16(v) => WireVal::Uint16(*v),
            WireValue::Int32(v) => WireVal::Int32(*v),
            WireValue::Uint32(v) => WireVal::Uint32(*v),
            WireValue::Int64(v) => WireVal::Int64(*v),
            WireValue::Uint64(v) => WireVal::Uint64(*v),
            WireValue::Str(s) => WireVal::Str(s@),
        }
    }
}

impl WireVal {
    /// The wire type tag of this value.
    pub open spec fn tag(self) -> u8 {
        match self {
            WireVal::Bool(_) => TAG_BOOLEAN,
            WireVal::Byte(_) => TAG_BYTE,
            WireVal::Int16(_) => TAG_INT16,
            WireVal::Uint16(_) => TAG_UINT16,
            WireVal::Int32(_) => TAG_INT32,
            WireVal::Uint32(_) => TAG_UINT32,
            WireVal::Int64(_) => TAG_INT64,
            WireVal::Uint64(_) => TAG_UINT64,
            WireVal::Str(_) => TAG_STRING,
        }
    }
}

impl WireValue {
    /// The wire type tag of this value.
    pub fn tag_byte(&self) -> (r: u8)
        ensures
            r == self@.tag(),
    {
        match self {
            WireValue::Bool(_) => TAG_BOOLEAN,
            WireValue::Byte(_) => TAG_BYTE,
            WireValue::Int16(_) => TAG_INT16,
            WireValue::Uint16(_) => TAG_UINT16,
            WireValue::Int32(_) => TAG_INT32,
            WireValue::Uint32(_) => TAG_UINT32,
            WireValue::Int64(_) => TAG_INT64,
            WireValue::Uint64(_) => TAG_UINT64,
            WireValue::Str(_) => TAG_STRING,
        }
    }
}

impl Clone for WireValue {
    /// An independent copy of the value.
    fn clone(&self) -> (r: Self)
        ensures
            r@ == self@,
    {
        match self {
            WireValue::Bool(b) => WireValue::Bool(*b),
            WireValue::Byte(b) => WireValue::Byte(*b),
            WireValue::Int16(v) => WireValue::Int16(*v),
            WireValue::Uint16(v) => WireValue::Uint16(*v),
            WireValue::Int32(v) => WireValue::Int32(*v),
            WireValue::Uint32(v) => WireValue::Uint32(*v),
            WireValue::Int64(v) => WireValue::Int64(*v),
            WireValue::Uint64(v) => WireValue::Uint64(*v),
            WireValue::Str(s) => WireValue::Str(clone_vec(s)),
        }
    }
}

/// What role a message plays on the bus.
#[derive(Clone, Copy, Debug, PartialEq, Eq, Structural)]
pub enum MessageKind {
    Signal,
    MethodCall,
    MethodReturn,
    MethodError,
}

/// The mathematical state of a message.
pub ghost struct MessageModel {
    /// What role the message plays.
    pub kind: MessageKind,
    /// Whether the message has been sealed (by transmission or by having
    /// been received).
    pub sealed: bool,
    /// The typed values of the body, in append order.
    pub body: Seq<WireVal>,
    /// The read cursor position over a sealed body.
    pub rpos: int,
    /// The destination bus name, terminator included, when addressed.
    pub destination: Option<Seq<u8>>,
    /// Whether the bus may launch an owner for the destination name.
    pub auto_start: bool,
    /// The object path the message addresses, when it has one.
    pub path: Option<Seq<u8>>,
    /// The interface the message addresses, when it has one.
    pub interface: Option<Seq<u8>>,
    /// The member the message addresses, when it has one.
    pub member: Option<Seq<u8>>,
    /// The error name carried by a method-error message.
    pub error_name: Option<Seq<u8>>,
}

/// A message to be sent or that was received over the bus.
pub struct Message {
    pub(crate) kind: MessageKind,
    pub(crate) sealed: bool,
    pub(crate) body: Vec<WireValue>,
    pub(crate) rpos: usize,
    pub(crate) destination: Option<Vec<u8>>,
    pub(crate) auto_start: bool,
    pub(crate) path: Option<Vec<u8>>,
    pub(crate) interface: Option<Vec<u8>>,
    pub(crate) member: Option<Vec<u8>>,
    pub(crate) error_name: Option<Vec<u8>>,
}

/// The view of an optional byte buffer.
pub(crate) open spec fn opt_bytes_view(o: Option<Vec<u8>>) -> Option<Seq<u8>> {
    match o {
        Some(v) => Some(v@),
        None => None,
    }
}

impl View for Message {
    type V = MessageModel;

    open(crate) spec fn view(&self) -> MessageModel {
        MessageModel {
            kind: self.kind,
            sealed: self.sealed,
            body: self.body@.map_values(|w: WireValue| w@),
            rpos: self.rpos as int,
            destination: opt_bytes_view(self.destination),
            auto_start: self.auto_start,
            path: opt_bytes_view(self.path),
            interface: opt_bytes_view(self.interface),
            member: opt_bytes_view(self.member),
            error_name: opt_bytes_view(self.error_name),
        }
    }
}

impl Message {
    #[verifier::type_invariant]
    pub open(crate) spec fn wf(self) -> bool {
        &&& self.rpos <= self.body@.len()
        &&& (!self.sealed ==> self.rpos == 0)
        &&& (self.destination matches Some(d) ==> is_valid_bus_name(d@))
        &&& (self.path matches Some(p) ==> is_valid_object_path(p@))
        &&& (self.interface matches Some(i) ==> is_valid_interface_name(i@))
        &&& (self.member matches Some(m) ==> is_valid_member_name(m@))
    }

    /// A message handed back by the runtime after being received from the
    /// bus: already sealed, with the given body, cursor at the front.
    pub fn received(kind: MessageKind, body: Vec<WireValue>) -> (r: Message)
        ensures
            r@ == (MessageModel {
                kind,
                sealed: true,
                body: body@.map_values(|w: WireValue| w@),
                rpos: 0,
                destination: None,
                auto_start: true,
                path: None,
                interface: None,
                member: None,
                error_name: None,
            }),
    {
        Message {
            kind,
            sealed: true,
            body,
            rpos: 0,
            destination: None,
            auto_start: true,
            path: None,
            interface: None,
            member: None,
            error_name: None,
        }
    }

    /// Set the message destination: the name of the bus client this message
    /// is for. Fails, leaving the message unchanged, if the message is
    /// sealed.
    pub fn set_destination(&mut self, dest: &BusName) -> (r: Result<(), Errno>)
        ensures
            old(self)@.sealed ==> (r matches Err(e) && e.code == EPERM && final(self)@ == old(
                self,
            )@),
            !old(self)@.sealed ==> r is Ok && final(self)@ == (MessageModel {
                destination: Some(dest@),
                ..old(self)@
            }),
    {
        proof {
            use_type_invariant(&*self);
        }
        if self.sealed {
            Err(Errno { code: EPERM })
        } else {
            self.destination = Some(slice_to_vec(dest.as_bytes()));
            Ok(())
        }
    }

    /// Allow (`true`) or forbid (`false`) the bus to launch an owner for the
    /// destination name. Fails, leaving the message unchanged, if the
    /// message is sealed.
    pub fn set_auto_start(&mut self, yes: bool) -> (r: Result<(), Errno>)
        ensures
            old(self)@.sealed ==> (r matches Err(e) && e.code == EPERM && final(self)@ == old(
                self,
            )@),
            !old(self)@.sealed ==> r is Ok && final(self)@ == (MessageModel {
                auto_start: yes,
                ..old(self)@
            }),
    {
        proof {
            use_type_invariant(&*self);
        }
        if self.sealed {
            Err(Errno { code: EPERM })
        } else {
            self.auto_start = yes;
            Ok(())
        }
    }

    /// Append one wire value to the body. Fails, leaving the message
    /// unchanged, if the message is sealed.
    pub fn append_wire(&mut self, v: WireValue) -> (r: Result<(), Errno>)
        ensures
            old(self)@.sealed ==> (r matches Err(e) && e.code == EPERM && final(self)@ == old(
                self,
            )@),
            !old(self)@.sealed ==> r is Ok && final(self)@ == (MessageModel {
                body: old(self)@.body.push(v@),
                ..old(self)@
            }),
    {
        proof {
            use_type_invariant(&*self);
        }
        if self.sealed {
            Err(Errno { code: EPERM })
        } else {
            let ghost prev = self.body@;
            let mut body: Vec<WireValue> = Vec::new();
            core::mem::swap(&mut body, &mut self.body);
            body.push(v);
            self.body = body;
            assert(self.body@.map_values(|w: WireValue| w@) =~= prev.map_values(
                |w: WireValue| w@,
            ).push(v@));
            Ok(())
        }
    }

    /// Append a typed value to the body. Fails, leaving the message
    /// unchanged, if the message is sealed.
    pub fn append<V: ToSdBusMessage>(&mut self, v: V) -> (r: Result<(), Errno>)
        ensures
            old(self)@.sealed ==> (r matches Err(e) && e.code == EPERM && final(self)@ == old(
                self,
            )@),
            !old(self)@.sealed ==> r is Ok && final(self)@ == (MessageModel {
                body: old(self)@.body.push(v.wire()),
                ..old(self)@
            }),
    {
        v.to_message(self)
    }

    /// Transmit expecting a reply: seals the message. The runtime hands the
    /// reply cookie back at the transport edge. Fails if the message was
    /// already sealed: a sent message cannot be sent again.
    pub fn send(&mut self) -> (r: Result<(), Errno>)
        ensures
            old(self)@.sealed ==> (r matches Err(e) && e.code == EPERM && final(self)@ == old(
                self,
            )@),
            !old(self)@.sealed ==> r is Ok && final(self)@ == (MessageModel {
                sealed: true,
                ..old(self)@
            }),
    {
        proof {
            use_type_invariant(&*self);
        }
        if self.sealed {
            Err(Errno { code: EPERM })
        } else {
            self.sealed = true;
            Ok(())
        }
    }

    /// Transmit without expecting any reply: seals the message. Fails if the
    /// message was already sealed.
    pub fn send_no_reply(&mut self) -> (r: Result<(), Errno>)
        ensures
            old(self)@.sealed ==> (r matches Err(e) && e.code == EPERM && final(self)@ == old(
                self,
            )@),
            !old(self)@.sealed ==> r is Ok && final(self)@ == (MessageModel {
                sealed: true,
                ..old(self)@
            }),
    {
        self.send()
    }

    /// Transmit to a destination, expecting a reply: sets the destination,
    /// then seals the message. Fails if the message was already sealed.
    pub fn send_to(&mut self, dest: &BusName) -> (r: Result<(), Errno>)
        ensures
            old(self)@.sealed ==> (r matches Err(e) && e.code == EPERM && final(self)@ == old(
                self,
            )@),
            !old(self)@.sealed ==> r is Ok && final(self)@ == (MessageModel {
                sealed: true,
                destination: Some(dest@),
                ..old(self)@
            }),
    {
        let r = self.set_destination(dest);
        match r {
            Ok(_) => self.send(),
            Err(e) => Err(e),
        }
    }

    /// Transmit to a destination without expecting any reply. Fails if the
    /// message was already sealed.
    pub fn send_to_no_reply(&mut self, dest: &BusName) -> (r: Result<(), Errno>)
        ensures
            old(self)@.sealed ==> (r matches Err(e) && e.code == EPERM && final(self)@ == old(
                self,
            )@),
            !old(self)@.sealed ==> r is Ok && final(self)@ == (MessageModel {
                sealed: true,
                destination: Some(dest@),
                ..old(self)@
            }),
    {
        self.send_to(dest)
    }

    /// Use this message to call a method, blocking until a reply arrives or
    /// `usec` microseconds elapse (zero meaning block indefinitely): seals
    /// the message. The transport performs the wait and produces the reply
    /// and the error slot; converting that slot is
    /// [`crate::error::RawError::into_result`]. Fails if the message was
    /// already sealed.
    pub fn call(&mut self, usec: u64) -> (r: Result<(), Errno>)
        ensures
            old(self)@.sealed ==> (r matches Err(e) && e.code == EPERM && final(self)@ == old(
                self,
            )@),
            !old(self)@.sealed ==> r is Ok && final(self)@ == (MessageModel {
                sealed: true,
                ..old(self)@
            }),
    {
        let _ = usec;
        self.send()
    }

    /// Use this message to call a method without blocking: seals the
    /// message; the runtime invokes the caller's callback when the reply
    /// arrives, within `usec` microseconds. Fails if the message was already
    /// sealed.
    pub fn call_async(&mut self, usec: u64) -> (r: Result<(), Errno>)
        ensures
            old(self)@.sealed ==> (r matches Err(e) && e.code == EPERM && final(self)@ == old(
                self,
            )@),
            !old(self)@.sealed ==> r is Ok && final(self)@ == (MessageModel {
                sealed: true,
                ..old(self)@
            }),
    {
        let _ = usec;
        self.send()
    }

    /// A fresh mutable reply to this method call. Fails if this message is
    /// not a method call.
    pub fn new_method_return(&mut self) -> (r: Result<Message, Errno>)
        ensures
            final(self)@ == old(self)@,
            old(self)@.kind != MessageKind::MethodCall ==> (r matches Err(e) && e.code == EINVAL),
            old(self)@.kind == MessageKind::MethodCall ==> (r matches Ok(m) && m@ == (MessageModel {
                kind: MessageKind::MethodReturn,
                sealed: false,
                body: Seq::empty(),
                rpos: 0,
                destination: None,
                auto_start: true,
                path: None,
                interface: None,
                member: None,
                error_name: None,
            })),
    {
        if !matches!(self.kind, MessageKind::MethodCall) {
            return Err(Errno { code: EINVAL });
        }
        let m = Message {
            kind: MessageKind::MethodReturn,
            sealed: false,
            body: Vec::new(),
            rpos: 0,
            destination: None,
            auto_start: true,
            path: None,
            interface: None,
            member: None,
            error_name: None,
        };
        assert(m@.body =~= Seq::<WireVal>::empty());
        Ok(m)
    }

    /// A fresh mutable error reply to this method call, named after the
    /// given error. Fails if this message is not a method call.
    pub fn new_method_error(&mut self, error: &Error) -> (r: Result<Message, Errno>)
        ensures
            final(self)@ == old(self)@,
            old(self)@.kind != MessageKind::MethodCall ==> (r matches Err(e) && e.code == EINVAL),
            old(self)@.kind == MessageKind::MethodCall ==> (r matches Ok(m) && m@ == (MessageModel {
                kind: MessageKind::MethodError,
                sealed: false,
                body: Seq::empty(),
                rpos: 0,
                destination: None,
                auto_start: true,
                path: None,
                interface: None,
                member: None,
                error_name: Some(error.name_view()),
            })),
    {
        if !matches!(self.kind, MessageKind::MethodCall) {
            return Err(Errno { code: EINVAL });
        }
        let m = Message {
            kind: MessageKind::MethodError,
            sealed: false,
            body: Vec::new(),
            rpos: 0,
            destination: None,
            auto_start: true,
            path: None,
            interface: None,
            member: None,
            error_name: Some(clone_vec(error.name())),
        };
        assert(m@.body =~= Seq::<WireVal>::empty());
        Ok(m)
    }

    /// Obtain the single read cursor over this message's body. Fails if the
    /// message is not sealed: only a sealed message may be read.
    pub fn iter<'a>(&'a mut self) -> (r: Result<MessageIter<'a>, Errno>)
        ensures
            !old(self)@.sealed ==> (r matches Err(e) && e.code == EPERM && final(self)@ == old(
                self,
            )@),
            old(self)@.sealed ==> (r matches Ok(it) && it@ == old(self)@),
    {
        if !self.sealed {
            return Err(Errno { code: EPERM });
        }
        Ok(MessageIter { m: self })
    }
}

/// The single exclusive read cursor over one sealed message's body.
///
/// It borrows the message mutably, so no other access is possible while it
/// is live; the read position lives in the message, so a later cursor
/// resumes where this one stopped. Values are handed out as owned copies.
pub struct MessageIter<'a> {
    m: &'a mut Message,
}

impl<'a> View for MessageIter<'a> {
    type V = MessageModel;

    closed spec fn view(&self) -> MessageModel {
        (*self.m)@
    }
}

impl<'a> MessageIter<'a> {
    #[verifier::type_invariant]
    spec fn iter_wf(self) -> bool {
        (*self.m).sealed
    }

    /// The wire type tag of the next unread value, without consuming it,
    /// together with the contained type signature a container would carry
    /// (always empty here: containers are not implemented). A tag of zero
    /// means the body is exhausted.
    pub fn peek_type(&mut self) -> (r: Result<(u8, Vec<u8>), Errno>)
        ensures
            final(self)@ == old(self)@,
            r is Ok,
            old(self)@.rpos < old(self)@.body.len() ==> r->Ok_0.0 == old(self)@.body[old(
                self,
            )@.rpos].tag() && r->Ok_0.0 != 0,
            old(self)@.rpos >= old(self)@.body.len() ==> r->Ok_0.0 == 0,
            r->Ok_0.1@ == Seq::<u8>::empty(),
    {
        proof {
            use_type_invariant(&*self.m);
        }
        if self.m.rpos < self.m.body.len() {
            let tag = self.m.body[self.m.rpos].tag_byte();
            Ok((tag, Vec::new()))
        } else {
            Ok((0, Vec::new()))
        }
    }

    /// Read the next value if it carries the given wire type tag, advancing
    /// the cursor by exactly one value; hand back `None`, without advancing,
    /// on a type mismatch or an exhausted body.
    pub fn read_wire(&mut self, tag: u8) -> (r: Result<Option<WireValue>, Errno>)
        ensures
            r is Ok,
            (old(self)@.rpos < old(self)@.body.len() && old(self)@.body[old(self)@.rpos].tag()
                == tag) ==> (r->Ok_0 matches Some(v) && v@ == old(self)@.body[old(self)@.rpos])
                && final(self)@ == (MessageModel { rpos: old(self)@.rpos + 1, ..old(self)@ }),
            !(old(self)@.rpos < old(self)@.body.len() && old(self)@.body[old(self)@.rpos].tag()
                == tag) ==> r->Ok_0 is None && final(self)@ == old(self)@,
    {
        proof {
            use_type_invariant(&*self);
            use_type_invariant(&*self.m);
        }
        let pos = self.m.rpos;
        if pos < self.m.body.len() {
            let v = &self.m.body[pos];
            if v.tag_byte() == tag {
                let out = v.clone();
                self.m.rpos = pos + 1;
                return Ok(Some(out));
            }
            return Ok(None);
        }
        Ok(None)
    }

    /// Read the next value as type `V`, advancing the cursor by exactly one
    /// value; `None`, without advancing, when the next value is not of `V`'s
    /// wire type or the body is exhausted.
    pub fn next<V: FromSdBusMessage>(&mut self) -> (r: Result<Option<V>, Errno>)
        ensures
            r is Ok,
            (old(self)@.rpos < old(self)@.body.len() && old(self)@.body[old(self)@.rpos].tag()
                == V::wire_tag()) ==> (r->Ok_0 matches Some(v) && v.is_decode_of(
                old(self)@.body[old(self)@.rpos],
            )) && final(self)@ == (MessageModel { rpos: old(self)@.rpos + 1, ..old(self)@ }),
            !(old(self)@.rpos < old(self)@.body.len() && old(self)@.body[old(self)@.rpos].tag()
                == V::wire_tag()) ==> r->Ok_0 is None && final(self)@ == old(self)@,
    {
        V::from_message(self)
    }
}

/// The model state after appending each value of `vs`, in order, to `m`:
/// one push per value, as [`Message::append`] performs.
pub open spec fn appended_all(m: MessageModel, vs: Seq<WireVal>) -> MessageModel
    decreases vs.len(),
{
    if vs.len() == 0 {
        m
    } else {
        appended_all(MessageModel { body: m.body.push(vs[0]), ..m }, vs.skip(1))
    }
}

/// The model state after sealing by transmission, as the send and call
/// operations perform.
pub open spec fn sealed_model(m: MessageModel) -> MessageModel {
    MessageModel { sealed: true, ..m }
}

/// The `n` values the cursor yields from `m`, one value per read, starting
/// at the read position, as [`MessageIter::read_wire`] performs.
pub open spec fn read_seq(m: MessageModel, n: int) -> Seq<WireVal> {
    m.body.subrange(m.rpos, m.rpos + n)
}

proof fn lemma_appended_all(m: MessageModel, vs: Seq<WireVal>)
    ensures
        appended_all(m, vs) == (MessageModel { body: m.body + vs, ..m }),
    decreases vs.len(),
{
    if vs.len() == 0 {
        assert(m.body + vs =~= m.body);
    } else {
        lemma_appended_all(MessageModel { body: m.body.push(vs[0]), ..m }, vs.skip(1));
        assert(m.body.push(vs[0]) + vs.skip(1) =~= m.body + vs);
    }
}

/// Marshaling round-trip law: constructing a message (empty body, mutable,
/// cursor at the front), appending any sequence of typed values in order,
/// sealing it by the act of transmitting it, and reading the body back
/// through the cursor yields exactly the appended values, in the same order.
pub proof fn lemma_marshal_round_trip(m: MessageModel, vs: Seq<WireVal>)
    requires
        !m.sealed,
        m.body.len() == 0,
        m.rpos == 0,
    ensures
        sealed_model(appended_all(m, vs)).sealed,
        sealed_model(appended_all(m, vs)).rpos == 0,
        sealed_model(appended_all(m, vs)).body.len() == vs.len(),
        read_seq(sealed_model(appended_all(m, vs)), vs.len() as int) == vs,
{
    lemma_appended_all(m, vs);
    assert(read_seq(sealed_model(appended_all(m, vs)), vs.len() as int) =~= vs);
}

/// A value that knows how to append itself into a message under
/// construction. Implemented by the primitive wire types; application types
/// plug in by implementing it themselves.
pub trait ToSdBusMessage {
    /// The wire value this writes.
    spec fn wire(&self) -> WireVal;

    /// Append this value to the message. Fails, leaving the message
    /// unchanged, if the message is sealed.
    fn to_message(&self, m: &mut Message) -> (r: Result<(), Errno>)
        ensures
            old(m)@.sealed ==> (r matches Err(e) && e.code == EPERM && final(m)@ == old(m)@),
            !old(m)@.sealed ==> r is Ok && final(m)@ == (MessageModel {
                body: old(m)@.body.push(self.wire()),
                ..old(m)@
            }),
    ;
}

/// A value that knows how to extract itself from a message cursor, for the
/// one wire type tag it advertises. Implemented by the primitive wire types;
/// application types plug in by implementing it themselves.
pub trait FromSdBusMessage: Sized {
    /// The wire type tag this reads.
    spec fn wire_tag() -> u8;

    /// This value is the decoding of wire value `w`.
    spec fn is_decode_of(&self, w: WireVal) -> bool;

    /// Read one value of this type from the cursor, advancing it by exactly
    /// one value; `None`, without advancing, when the next value has a
    /// different wire type or the body is exhausted.
    fn from_message(it: &mut MessageIter) -> (r: Result<Option<Self>, Errno>)
        ensures
            r is Ok,
            (old(it)@.rpos < old(it)@.body.len() && old(it)@.body[old(it)@.rpos].tag()
                == Self::wire_tag()) ==> (r->Ok_0 matches Some(v) && v.is_decode_of(
                old(it)@.body[old(it)@.rpos],
            )) && final(it)@ == (MessageModel { rpos: old(it)@.rpos + 1, ..old(it)@ }),
            !(old(it)@.rpos < old(it)@.body.len() && old(it)@.body[old(it)@.rpos].tag()
                == Self::wire_tag()) ==> r->Ok_0 is None && final(it)@ == old(it)@,
    ;
}

} // verus!
