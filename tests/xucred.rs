use std::collections::hash_map::RandomState;
use std::hash::{BuildHasher, Hash, Hasher};

use unix_cred::constants::{EINVAL, XU_NGROUPS};
use unix_cred::util::Endian;
use unix_cred::xucred::{get_xucred, request_buffer, Xucred, XucredLayout, GROUPS_END};

const FREEBSD: XucredLayout =
    XucredLayout { version: 0, size: 88, pid_offset: Some(80), endian: Endian::Little };
const MACOS: XucredLayout =
    XucredLayout { version: 0, size: 76, pid_offset: None, endian: Endian::Little };

fn record(layout: XucredLayout, version: u32, uid: u32, ngroups: i16, groups: &[u32], pid: i32) -> Vec<u8> {
    let mut v = vec![0u8; layout.size];
    v[0..4].copy_from_slice(&version.to_le_bytes());
    v[4..8].copy_from_slice(&uid.to_le_bytes());
    v[8..10].copy_from_slice(&ngroups.to_le_bytes());
    for (i, g) in groups.iter().enumerate() {
        v[12 + 4 * i..16 + 4 * i].copy_from_slice(&g.to_le_bytes());
    }
    if let Some(o) = layout.pid_offset {
        v[o..o + 4].copy_from_slice(&pid.to_le_bytes());
    }
    v
}

fn decode(layout: XucredLayout, buf: &[u8]) -> Result<Xucred, i32> {
    get_xucred(buf, Ok(layout.size), layout)
}

fn same_hash<T: Hash>(a: &T, b: &T) -> bool {
    let s = RandomState::new();
    let mut hasher_a = s.build_hasher();
    a.hash(&mut hasher_a);
    let mut hasher_b = s.build_hasher();
    b.hash(&mut hasher_b);
    hasher_a.finish() == hasher_b.finish()
}

#[test]
fn test_xucred() {
    let buf = record(FREEBSD, 0, 1000, 2, &[1001, 10], 1494);
    let acred = decode(FREEBSD, &buf).unwrap();
    let bcred = decode(FREEBSD, &buf).unwrap();

    assert_eq!(acred, bcred);
    assert!(same_hash(&acred, &bcred));

    assert_eq!(acred, acred.clone());
    assert!(same_hash(&acred, &acred.clone()));

    let zcred = Xucred::zeroed();

    assert_eq!(zcred, zcred.clone());
    assert!(same_hash(&zcred, &zcred.clone()));

    assert_ne!(acred, zcred);
    assert!(!same_hash(&acred, &zcred));

    assert_eq!(zcred.pid(), None);
    assert_eq!(format!("{:?}", zcred), "Xucred { uid: 0, gid: 0, groups: [], pid: None }");

    let no_pid = decode(FREEBSD, &record(FREEBSD, 0, 1000, 2, &[1001, 10], 0)).unwrap();
    assert_eq!(
        format!("{:?}", no_pid),
        "Xucred { uid: 1000, gid: 1001, groups: [1001, 10], pid: None }"
    );
    assert_eq!(
        format!("{:?}", acred),
        "Xucred { uid: 1000, gid: 1001, groups: [1001, 10], pid: Some(1494) }"
    );
}

#[test]
fn zeroed_credential_fields() {
    let z = Xucred::zeroed();
    assert_eq!(z.uid(), 0);
    assert_eq!(z.gid(), 0);
    assert!(z.groups().is_empty());
    assert_eq!(z.pid(), None);
}

#[test]
fn get_xucred_fields() {
    let buf = record(FREEBSD, 0, 1000, 3, &[20, 1001, 10], 77);
    let c = decode(FREEBSD, &buf).unwrap();
    assert_eq!(c.uid(), 1000);
    assert_eq!(c.gid(), 20);
    assert_eq!(c.groups(), &[20, 1001, 10]);
    assert_eq!(c.pid(), Some(77));
}

#[test]
fn get_xucred_ignores_slots_past_count() {
    let a = decode(MACOS, &record(MACOS, 0, 5, 1, &[7, 8, 9], 0)).unwrap();
    let b = decode(MACOS, &record(MACOS, 0, 5, 1, &[7], 0)).unwrap();
    assert_eq!(a.groups(), &[7]);
    assert_eq!(a, b);
    assert!(same_hash(&a, &b));
}

#[test]
fn get_xucred_full_group_list() {
    let groups: Vec<u32> = (100..116).collect();
    let c = decode(MACOS, &record(MACOS, 0, 5, 16, &groups, 0)).unwrap();
    assert_eq!(c.groups(), groups.as_slice());
    assert_eq!(c.gid(), 100);
    assert_eq!(c.pid(), None);
}

#[test]
fn get_xucred_without_pid_slot() {
    let c = decode(MACOS, &record(MACOS, 0, 501, 1, &[20], 0)).unwrap();
    assert_eq!(c.pid(), None);
    assert_eq!(format!("{:?}", c), "Xucred { uid: 501, gid: 20, groups: [20], pid: None }");
}

#[test]
fn get_xucred_differs_by_pid() {
    let a = decode(FREEBSD, &record(FREEBSD, 0, 1, 1, &[1], 10)).unwrap();
    let b = decode(FREEBSD, &record(FREEBSD, 0, 1, 1, &[1], 11)).unwrap();
    assert_ne!(a, b);
}

#[test]
fn get_xucred_short_write() {
    let buf = record(FREEBSD, 0, 1000, 1, &[1000], 1);
    assert_eq!(get_xucred(&buf, Ok(80), FREEBSD).unwrap_err(), EINVAL);
}

#[test]
fn get_xucred_version_mismatch() {
    let buf = record(FREEBSD, 1, 1000, 1, &[1000], 1);
    assert_eq!(decode(FREEBSD, &buf).unwrap_err(), EINVAL);
}

#[test]
fn get_xucred_no_groups() {
    let buf = record(FREEBSD, 0, 1000, 0, &[], 1);
    assert_eq!(decode(FREEBSD, &buf).unwrap_err(), EINVAL);
}

#[test]
fn get_xucred_negative_group_count() {
    let buf = record(FREEBSD, 0, 1000, -1, &[1], 1);
    assert_eq!(decode(FREEBSD, &buf).unwrap_err(), EINVAL);
}

#[test]
fn get_xucred_too_many_groups() {
    let buf = record(FREEBSD, 0, 1000, XU_NGROUPS as i16 + 1, &[1], 1);
    assert_eq!(decode(FREEBSD, &buf).unwrap_err(), EINVAL);
}

#[test]
fn get_xucred_zeroed_record() {
    let buf = vec![0u8; FREEBSD.size];
    assert_eq!(decode(FREEBSD, &buf).unwrap_err(), EINVAL);
}

#[test]
fn get_xucred_read_errors_pass_through() {
    let buf = record(FREEBSD, 0, 1000, 1, &[1000], 1);
    assert_eq!(get_xucred(&buf, Err(libc::EBADF), FREEBSD).unwrap_err(), libc::EBADF);
    assert_eq!(get_xucred(&buf, Err(libc::ENOTCONN), FREEBSD).unwrap_err(), libc::ENOTCONN);
}

#[test]
fn get_xucred_big_endian() {
    let layout = XucredLayout { endian: Endian::Big, ..FREEBSD };
    let mut buf = vec![0u8; layout.size];
    buf[4..8].copy_from_slice(&1000u32.to_be_bytes());
    buf[8..10].copy_from_slice(&1i16.to_be_bytes());
    buf[12..16].copy_from_slice(&1001u32.to_be_bytes());
    buf[80..84].copy_from_slice(&42i32.to_be_bytes());
    let c = decode(layout, &buf).unwrap();
    assert_eq!((c.uid(), c.gid(), c.pid()), (1000, 1001, Some(42)));
}

#[test]
fn request_buffer_sets_version() {
    let layout = XucredLayout { version: 0x0102_0304, ..FREEBSD };
    let buf = request_buffer(layout);
    assert_eq!(buf.len(), 88);
    assert_eq!(&buf[0..4], &[4, 3, 2, 1]);
    assert!(buf[4..].iter().all(|b| *b == 0));

    let big = request_buffer(XucredLayout { endian: Endian::Big, ..layout });
    assert_eq!(&big[0..4], &[1, 2, 3, 4]);
}

#[test]
fn request_buffer_round_trips_through_decode() {
    let mut buf = request_buffer(MACOS);
    buf[8..10].copy_from_slice(&1i16.to_le_bytes());
    buf[12..16].copy_from_slice(&20u32.to_le_bytes());
    let c = decode(MACOS, &buf).unwrap();
    assert_eq!((c.uid(), c.gid()), (0, 20));
}

#[test]
fn layout_well_formedness() {
    assert!(FREEBSD.is_well_formed());
    assert!(MACOS.is_well_formed());
    assert!(!XucredLayout { size: GROUPS_END - 1, pid_offset: None, ..MACOS }.is_well_formed());
    assert!(!XucredLayout { pid_offset: Some(72), ..FREEBSD }.is_well_formed());
    assert!(!XucredLayout { pid_offset: Some(85), ..FREEBSD }.is_well_formed());
    assert!(XucredLayout { pid_offset: Some(76), size: 80, ..FREEBSD }.is_well_formed());
}
