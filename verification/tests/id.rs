use socketcan::errors::Error;
use socketcan::id::{id_from_raw, id_is_extended, id_is_standard, id_to_canid_t, CanId, ExtendedId, StandardId};

// A standard ID
const ID: u32 = 0x100;

#[test]
fn test_id_raw() {
    let id = CanId::try_from_raw(ID).unwrap();
    assert!(matches!(id, CanId::Standard(_)));
    assert_eq!(id.as_raw(), ID);
}

#[test]
fn test_id_add() {
    let id = CanId::try_from_raw(ID).unwrap();
    let id = id.add(1);

    assert!(matches!(id, CanId::Standard(_)));
    assert_eq!(id.as_raw(), ID + 1);

    let mut id = CanId::try_from_raw(ID).unwrap();
    id.add_assign(1);

    assert!(matches!(id, CanId::Standard(_)));
    assert_eq!(id.as_raw(), ID + 1);
}

// ===== Own tests =====

#[test]
fn conversions_from_the_two_widths() {
    let sid = StandardId::MAX();
    let id = CanId::from(sid);
    assert!(id.is_standard());
    assert_eq!(id.as_raw(), sid.as_raw() as u32);

    let eid = ExtendedId::MAX();
    let id = CanId::from(eid);
    assert!(id.is_extended());
    assert_eq!(id.as_raw(), eid.as_raw());
}

#[test]
fn raw_value_selects_the_width() {
    assert!(id_is_standard(&id_from_raw(0x7FF).unwrap()));
    assert!(id_is_extended(&id_from_raw(0x800).unwrap()));
    assert!(id_from_raw(0x2000_0000).is_none());
    assert!(matches!(CanId::try_from_raw(0x2000_0000), Err(Error::Io(_))));
    match CanId::try_from_raw(0x2000_0000) {
        Err(Error::Io(e)) => assert_eq!(e.kind(), std::io::ErrorKind::InvalidInput),
        _ => panic!("Expected an I/O error"),
    }
    match CanId::try_from_raw(0x2000_0000) {
        Err(Error::Io(e)) => assert_eq!(e.kind(), std::io::ErrorKind::InvalidInput),
        _ => panic!("expected an I/O error"),
    }
    assert!(StandardId::new(0x800).is_none());
    assert!(ExtendedId::new(0x2000_0000).is_none());
}

#[test]
fn id_word_carries_the_eff_flag() {
    assert_eq!(id_to_canid_t(CanId::standard(0x123).unwrap()), 0x123);
    assert_eq!(id_to_canid_t(CanId::extended(0x123).unwrap()), 0x8000_0123);
}

#[test]
fn addition_wraps_within_the_width() {
    assert_eq!(CanId::standard(0x7FF).unwrap().add(1).as_raw(), 0);
    assert_eq!(CanId::extended(0x1FFF_FFFF).unwrap().add(2).as_raw(), 1);
}

#[test]
fn addition_of_a_large_value_never_overflows() {
    let s = CanId::standard(0x7FF).unwrap().add(0xFFFF_FFFF);
    assert!(s.is_standard());
    assert_eq!(s, CanId::standard(0x7FE).unwrap());
    let e = CanId::extended(0x1FFF_FFFF).unwrap().add(0xFFFF_FFFF);
    assert!(e.is_extended());
    assert_eq!(e.as_raw(), 0x1FFF_FFFE);
    let mut m = CanId::standard(0x001).unwrap();
    m.add_assign(0x1_0000);
    assert_eq!(m.as_raw(), 0x001);
}

#[test]
fn arbitration_order() {
    let s = |v: u16| CanId::standard(v).unwrap();
    let e = |v: u32| CanId::extended(v).unwrap();
    assert!(s(0x100) < s(0x101));
    // Same base bits: the standard frame wins (IDE bit 0).
    assert!(s(0x100) < e(0x100 << 18));
    // Lower base bits win regardless of format.
    assert!(e(0x0FF << 18 | 0x3FFFF) < s(0x100));
    assert!(e(5) < e(6));
    assert_eq!(s(7).partial_cmp(&s(7)), Some(std::cmp::Ordering::Equal));
}
