use sdbus::names::{BusName, InterfaceName, MemberName, ObjectPath};

#[test]
fn t_path() {
    ObjectPath::from_bytes(b"/\0").unwrap();
    ObjectPath::from_bytes(b"\0").err().unwrap();
    ObjectPath::from_bytes(b"/").err().unwrap();
    ObjectPath::from_bytes(b"/h\0").unwrap();
    ObjectPath::from_bytes(b"/hello\0").unwrap();
    ObjectPath::from_bytes(b"/hello/\0").err().unwrap();
    ObjectPath::from_bytes(b"/hello/goodbye/013/4/HA\0").unwrap();
    ObjectPath::from_bytes(b"/hello/goodbye/013/4?/HA\0").err().unwrap();
}

#[test]
fn t_interface() {
    InterfaceName::from_bytes(b"12\0").err().unwrap();
    InterfaceName::from_bytes(b"a\0").err().unwrap();
    InterfaceName::from_bytes(b"a.b\0").unwrap();
    InterfaceName::from_bytes(b"a.b.3\0").err().unwrap();
    InterfaceName::from_bytes(b"A.Z.xar.yfds.d3490\0").unwrap();
    InterfaceName::from_bytes(b"a.b.c\0").unwrap();
    InterfaceName::from_bytes(b"a.b.c?\0").err().unwrap();
}

#[test]
fn t_busname() {
    BusName::from_bytes(b"a.b\0").unwrap();
    BusName::from_bytes(b"a.b").err().unwrap();
    BusName::from_bytes(b"a\0").err().unwrap();
    BusName::from_bytes(b"a.b?\0").err().unwrap();
    BusName::from_bytes(b"a.b-c.a0\0").unwrap();
    BusName::from_bytes(b"a.b-c.0a\0").err().unwrap();
    BusName::from_bytes(b":a.b-c\0").unwrap();
    BusName::from_bytes(b":a.b-c.1\0").unwrap();
}

#[test]
fn t_member_name() {
    MemberName::from_bytes(b"abc13\0").unwrap();
    MemberName::from_bytes(b"abc.13\0").err().unwrap();
    MemberName::from_bytes(b"1234abc\0").err().unwrap();
    MemberName::from_bytes(b"abc").err().unwrap();
    MemberName::from_bytes(b"\0").err().unwrap();
    MemberName::from_bytes(b"a\0").unwrap();
}

#[test]
fn path_doubled_slash_rejected() {
    ObjectPath::from_bytes(b"/a//b\0").err().unwrap();
    ObjectPath::from_bytes(b"/a/\0").err().unwrap();
    assert_eq!(ObjectPath::from_bytes(b"/a/b\0").unwrap().as_bytes(), b"/a/b\0");
}

#[test]
fn interface_empty_element_rejected() {
    InterfaceName::from_bytes(b"a..b\0").err().unwrap();
    InterfaceName::from_bytes(b".a.b\0").err().unwrap();
    InterfaceName::from_bytes(b"a.b.\0").err().unwrap();
    InterfaceName::from_bytes(b"1a.b\0").err().unwrap();
}

#[test]
fn busname_unique_digit_elements() {
    BusName::from_bytes(b":a.1\0").unwrap();
    BusName::from_bytes(b"a.1\0").err().unwrap();
    BusName::from_bytes(b":.a\0").err().unwrap();
}

#[test]
fn names_keep_their_bytes() {
    assert_eq!(BusName::from_bytes(b"a.b\0").unwrap().as_bytes(), b"a.b\0");
    assert_eq!(InterfaceName::from_bytes(b"a.b\0").unwrap().as_bytes(), b"a.b\0");
    assert_eq!(MemberName::from_bytes(b"ab\0").unwrap().as_bytes(), b"ab\0");
    assert_eq!(ObjectPath::from_bytes(b"/\0").unwrap().as_bytes(), b"/\0");
}

#[test]
fn busname_length_cap() {
    let mut long = vec![b'a', b'.'];
    long.extend(std::iter::repeat(b'b').take(253));
    long.push(0);
    assert_eq!(long.len(), 256);
    BusName::from_bytes(&long).unwrap();
    let mut too_long = vec![b'a', b'.'];
    too_long.extend(std::iter::repeat(b'b').take(254));
    too_long.push(0);
    assert_eq!(too_long.len(), 257);
    BusName::from_bytes(&too_long).err().unwrap();
}
