use sdbus::bus::Bus;
use sdbus::error::{Error, EINVAL, EPERM};
use sdbus::message::{Message, MessageKind, WireValue, TAG_STRING, TAG_UINT32};
use sdbus::names::{BusName, InterfaceName, MemberName, ObjectPath};

fn fresh_signal() -> Message {
    let mut bus = Bus::new();
    let path = ObjectPath::from_bytes(b"/org/example\0").unwrap();
    let iface = InterfaceName::from_bytes(b"org.example.Iface\0").unwrap();
    let member = MemberName::from_bytes(b"Ping\0").unwrap();
    bus.new_signal(&path, &iface, &member).unwrap()
}

#[test]
fn round_trip_through_loopback_send() {
    let mut m = fresh_signal();
    m.append(true).unwrap();
    m.append(7u8).unwrap();
    m.append(-3i16).unwrap();
    m.append(9u16).unwrap();
    m.append(-40i32).unwrap();
    m.append(41u32).unwrap();
    m.append(-42i64).unwrap();
    m.append(43u64).unwrap();
    m.append(b"hello".to_vec()).unwrap();

    // Sealing happens by the act of sending to a destination.
    let dest = BusName::from_bytes(b"org.example.Self\0").unwrap();
    m.send_to(&dest).unwrap();

    let mut it = m.iter().unwrap();
    assert_eq!(it.next::<bool>().unwrap(), Some(true));
    assert_eq!(it.next::<u8>().unwrap(), Some(7));
    assert_eq!(it.next::<i16>().unwrap(), Some(-3));
    assert_eq!(it.next::<u16>().unwrap(), Some(9));
    assert_eq!(it.next::<i32>().unwrap(), Some(-40));
    assert_eq!(it.next::<u32>().unwrap(), Some(41));
    assert_eq!(it.next::<i64>().unwrap(), Some(-42));
    assert_eq!(it.next::<u64>().unwrap(), Some(43));
    assert_eq!(it.next::<Vec<u8>>().unwrap(), Some(b"hello".to_vec()));
    assert_eq!(it.next::<u32>().unwrap(), None);
}

#[test]
fn sealed_message_rejects_mutation() {
    let mut m = fresh_signal();
    m.append(5u32).unwrap();
    m.send().unwrap();

    let e = m.append(6u32).err().unwrap();
    assert_eq!(e.code, EPERM);
    let dest = BusName::from_bytes(b"a.b\0").unwrap();
    assert_eq!(m.set_destination(&dest).err().unwrap().code, EPERM);
    assert_eq!(m.set_auto_start(false).err().unwrap().code, EPERM);
    assert_eq!(m.send().err().unwrap().code, EPERM);
    assert_eq!(m.call(0).err().unwrap().code, EPERM);

    // The failed mutations left the message unchanged: the body still holds
    // exactly the one value appended before sealing.
    let mut it = m.iter().unwrap();
    assert_eq!(it.next::<u32>().unwrap(), Some(5));
    assert_eq!(it.next::<u32>().unwrap(), None);
}

#[test]
fn unsealed_message_rejects_reading() {
    let mut m = fresh_signal();
    m.append(5u32).unwrap();
    assert_eq!(m.iter().err().unwrap().code, EPERM);
}

#[test]
fn type_mismatch_reads_none_without_advancing() {
    let mut m = fresh_signal();
    m.append(5u32).unwrap();
    m.append(b"tail".to_vec()).unwrap();
    m.send_no_reply().unwrap();

    let mut it = m.iter().unwrap();
    assert_eq!(it.next::<bool>().unwrap(), None);
    assert_eq!(it.next::<u32>().unwrap(), Some(5));
    assert_eq!(it.next::<u32>().unwrap(), None);
    assert_eq!(it.next::<Vec<u8>>().unwrap(), Some(b"tail".to_vec()));
}

#[test]
fn peek_reports_tag_without_consuming() {
    let mut m = fresh_signal();
    m.append(5u32).unwrap();
    m.append(b"s".to_vec()).unwrap();
    m.call(100).unwrap();

    let mut it = m.iter().unwrap();
    let (t1, contents) = it.peek_type().unwrap();
    assert_eq!(t1, TAG_UINT32);
    assert_eq!(contents, Vec::<u8>::new());
    let (t1b, _) = it.peek_type().unwrap();
    assert_eq!(t1b, TAG_UINT32);
    assert_eq!(it.next::<u32>().unwrap(), Some(5));
    let (t2, _) = it.peek_type().unwrap();
    assert_eq!(t2, TAG_STRING);
    assert_eq!(it.next::<Vec<u8>>().unwrap(), Some(b"s".to_vec()));
    let (t3, _) = it.peek_type().unwrap();
    assert_eq!(t3, 0);
}

#[test]
fn cursor_position_survives_reobtaining() {
    let mut m = fresh_signal();
    m.append(1u32).unwrap();
    m.append(2u32).unwrap();
    m.send().unwrap();

    {
        let mut it = m.iter().unwrap();
        assert_eq!(it.next::<u32>().unwrap(), Some(1));
    }
    let mut it = m.iter().unwrap();
    assert_eq!(it.next::<u32>().unwrap(), Some(2));
    assert_eq!(it.next::<u32>().unwrap(), None);
}

#[test]
fn received_message_is_already_sealed() {
    let mut m = Message::received(
        MessageKind::MethodReturn,
        vec![WireValue::Uint32(11), WireValue::Bool(false)],
    );
    assert_eq!(m.append(1u32).err().unwrap().code, EPERM);
    let mut it = m.iter().unwrap();
    assert_eq!(it.next::<u32>().unwrap(), Some(11));
    assert_eq!(it.next::<bool>().unwrap(), Some(false));
}

#[test]
fn method_replies_come_from_method_calls() {
    let mut bus = Bus::new();
    let dest = BusName::from_bytes(b"org.example.Self\0").unwrap();
    let path = ObjectPath::from_bytes(b"/org/example\0").unwrap();
    let iface = InterfaceName::from_bytes(b"org.example.Iface\0").unwrap();
    let member = MemberName::from_bytes(b"Ping\0").unwrap();
    let mut call = bus.new_method_call(&dest, &path, &iface, &member).unwrap();

    let mut reply = call.new_method_return().unwrap();
    reply.append(1u32).unwrap();
    reply.send().unwrap();

    let e = Error::new(b"org.x.Err\0", None);
    let mut err_reply = call.new_method_error(&e).unwrap();
    err_reply.send().unwrap();

    // A signal is not a method call: constructing a reply from it fails.
    let mut sig = fresh_signal();
    assert_eq!(sig.new_method_return().err().unwrap().code, EINVAL);
    assert_eq!(sig.new_method_error(&e).err().unwrap().code, EINVAL);
}

#[test]
fn wire_value_tags() {
    assert_eq!(WireValue::Bool(true).tag_byte(), b'b');
    assert_eq!(WireValue::Byte(0).tag_byte(), b'y');
    assert_eq!(WireValue::Int16(0).tag_byte(), b'n');
    assert_eq!(WireValue::Uint16(0).tag_byte(), b'q');
    assert_eq!(WireValue::Int32(0).tag_byte(), b'i');
    assert_eq!(WireValue::Uint32(0).tag_byte(), b'u');
    assert_eq!(WireValue::Int64(0).tag_byte(), b'x');
    assert_eq!(WireValue::Uint64(0).tag_byte(), b't');
    assert_eq!(WireValue::Str(Vec::new()).tag_byte(), b's');
}
