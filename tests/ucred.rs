use unix_cred::constants::EINVAL;
use unix_cred::ucred::{get_ucred, PidPosition, Ucred, UcredLayout, UCRED_SIZE};
use unix_cred::util::Endian;

const LINUX: UcredLayout = UcredLayout { pid_position: PidPosition::First, endian: Endian::Little };
const OPENBSD: UcredLayout = UcredLayout { pid_position: PidPosition::Last, endian: Endian::Little };

fn le(words: [u32; 3]) -> Vec<u8> {
    let mut v = Vec::new();
    for w in words {
        v.extend_from_slice(&w.to_le_bytes());
    }
    v
}

#[test]
fn einval_matches_the_platform() {
    assert_eq!(EINVAL, libc::EINVAL);
}

#[test]
fn get_ucred_pid_first() {
    let buf = le([1494, 1000, 1001]);
    assert_eq!(
        get_ucred(&buf, Ok(UCRED_SIZE), LINUX),
        Ok(Ucred { pid: 1494, uid: 1000, gid: 1001 })
    );
}

#[test]
fn get_ucred_pid_last() {
    let buf = le([1000, 1001, 1494]);
    assert_eq!(
        get_ucred(&buf, Ok(UCRED_SIZE), OPENBSD),
        Ok(Ucred { pid: 1494, uid: 1000, gid: 1001 })
    );
}

#[test]
fn get_ucred_big_endian() {
    let mut buf = Vec::new();
    for w in [1494u32, 1000, 1001] {
        buf.extend_from_slice(&w.to_be_bytes());
    }
    let layout = UcredLayout { pid_position: PidPosition::First, endian: Endian::Big };
    assert_eq!(
        get_ucred(&buf, Ok(UCRED_SIZE), layout),
        Ok(Ucred { pid: 1494, uid: 1000, gid: 1001 })
    );
}

#[test]
fn get_ucred_root_is_valid() {
    let buf = le([1, 0, 0]);
    assert_eq!(get_ucred(&buf, Ok(UCRED_SIZE), LINUX), Ok(Ucred { pid: 1, uid: 0, gid: 0 }));
}

#[test]
fn get_ucred_negative_pid_bits() {
    let buf = le([u32::MAX, 5, 6]);
    assert_eq!(get_ucred(&buf, Ok(UCRED_SIZE), LINUX), Ok(Ucred { pid: -1, uid: 5, gid: 6 }));
}

#[test]
fn get_ucred_short_write() {
    let buf = le([1494, 1000, 1001]);
    assert_eq!(get_ucred(&buf, Ok(8), LINUX), Err(EINVAL));
    assert_eq!(get_ucred(&buf, Ok(0), LINUX), Err(EINVAL));
}

#[test]
fn get_ucred_zero_pid() {
    let buf = le([0, 1000, 1001]);
    assert_eq!(get_ucred(&buf, Ok(UCRED_SIZE), LINUX), Err(EINVAL));
}

#[test]
fn get_ucred_unset_uid() {
    let buf = le([1494, u32::MAX, 1001]);
    assert_eq!(get_ucred(&buf, Ok(UCRED_SIZE), LINUX), Err(EINVAL));
}

#[test]
fn get_ucred_unset_gid() {
    let buf = le([1494, 1000, u32::MAX]);
    assert_eq!(get_ucred(&buf, Ok(UCRED_SIZE), LINUX), Err(EINVAL));
}

#[test]
fn get_ucred_zeroed_record() {
    let buf = vec![0u8; UCRED_SIZE];
    assert_eq!(get_ucred(&buf, Ok(UCRED_SIZE), LINUX), Err(EINVAL));
}

#[test]
fn get_ucred_read_errors_pass_through() {
    let buf = le([1494, 1000, 1001]);
    assert_eq!(get_ucred(&buf, Err(libc::EBADF), LINUX), Err(libc::EBADF));
    assert_eq!(get_ucred(&buf, Err(libc::ENOTSOCK), LINUX), Err(libc::ENOTSOCK));
    assert_eq!(get_ucred(&buf, Err(libc::ENOTCONN), LINUX), Err(libc::ENOTCONN));
}

#[test]
fn get_ucred_twice_is_equal() {
    let buf = le([1494, 1000, 1001]);
    let a = get_ucred(&buf, Ok(UCRED_SIZE), LINUX).unwrap();
    let b = get_ucred(&buf, Ok(UCRED_SIZE), LINUX).unwrap();
    assert_eq!(a, b);
    assert_eq!(a, a.clone());
}
