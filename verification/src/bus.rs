//! Connection-level operations: constructing messages against a connection.
//!
//! A connection is opened, shared and released through the runtime; the
//! reference-count discipline for its handles is [`crate::refcount`]. What
//! this module pins down is the construction of messages from validated
//! names: a freshly built message is mutable, empty-bodied, addressed by the
//! names it was built from, and allows auto-starting its destination.

use crate::bytes::slice_to_vec;
use crate::error::Errno;
use crate::message::{Message, MessageKind, MessageModel};
use crate::names::{BusName, InterfaceName, MemberName, ObjectPath};
use vstd::prelude::*;

verus! {

/// One bus session, as handed over by the runtime when a well-known bus
/// (default, user or system) is opened. The transport state lives in the
/// runtime; this is the caller's side of the session.
pub struct Bus {}

impl Bus {
    /// The caller's side of a session the runtime has opened.
    pub fn new() -> (r: Bus) {
        Bus {}
    }

    /// Construct a mutable signal message addressed by object path,
    /// interface and member.
    pub fn new_signal(
        &mut self,
        path: &ObjectPath,
        interface: &InterfaceName,
        member: &MemberName,
    ) -> (r: Result<Message, Errno>)
        ensures
            r matches Ok(m) && m@ == (MessageModel {
                kind: MessageKind::Signal,
                sealed: false,
                body: Seq::empty(),
                rpos: 0,
                destination: None,
                auto_start: true,
                path: Some(path@),
                interface: Some(interface@),
                member: Some(member@),
                error_name: None,
            }),
    {
        let m = Message {
            kind: MessageKind::Signal,
            sealed: false,
            body: Vec::new(),
            rpos: 0,
            destination: None,
            auto_start: true,
            path: Some(slice_to_vec(path.as_bytes())),
            interface: Some(slice_to_vec(interface.as_bytes())),
            member: Some(slice_to_vec(member.as_bytes())),
            error_name: None,
        };
        assert(m@.body =~= Seq::<crate::message::WireVal>::empty());
        Ok(m)
    }

    /// Construct a mutable method-call message for a destination bus client,
    /// addressed by object path, interface and member.
    pub fn new_method_call(
        &mut self,
        dest: &BusName,
        path: &ObjectPath,
        interface: &InterfaceName,
        member: &MemberName,
    ) -> (r: Result<Message, Errno>)
        ensures
            r matches Ok(m) && m@ == (MessageModel {
                kind: MessageKind::MethodCall,
                sealed: false,
                body: Seq::empty(),
                rpos: 0,
                destination: Some(dest@),
                auto_start: true,
                path: Some(path@),
                interface: Some(interface@),
                member: Some(member@),
                error_name: None,
            }),
    {
        let m = Message {
            kind: MessageKind::MethodCall,
            sealed: false,
            body: Vec::new(),
            rpos: 0,
            destination: Some(slice_to_vec(dest.as_bytes())),
            auto_start: true,
            path: Some(slice_to_vec(path.as_bytes())),
            interface: Some(slice_to_vec(interface.as_bytes())),
            member: Some(slice_to_vec(member.as_bytes())),
            error_name: None,
        };
        assert(m@.body =~= Seq::<crate::message::WireVal>::empty());
        Ok(m)
    }
}

} // verus!
