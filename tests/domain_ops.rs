use std::cell::Cell;

use virt_domain::connect::Connect;
use virt_domain::domain::{Domain, DomainInfo};
use virt_domain::error::{DomainError, Error};
use virt_domain::flags::{VIR_DOMAIN_RUNNING, VIR_DOMAIN_START_PAUSED, VIR_DOMAIN_VCPU_LIVE};
use virt_domain::marshal::{c_string, string_from_c, until_nul};
use virt_domain::reply::{count_reply, flag_reply, status_reply, text_reply, uuid_reply};
use virt_domain::sys::virDomainInfo;

fn diag() -> Error {
    Error::new(42, 10, String::from("domain not found"))
}

fn no_error() -> Error {
    panic!("last error captured after a successful call")
}

fn failure() -> DomainError {
    DomainError::NativeCallFailure(diag())
}

#[test]
fn c_string_appends_terminator() {
    assert_eq!(c_string("vm-1").unwrap(), b"vm-1\0".to_vec());
    assert_eq!(c_string("").unwrap(), vec![0u8]);
    assert_eq!(c_string("é").unwrap(), vec![0xc3, 0xa9, 0]);
}

#[test]
fn c_string_rejects_embedded_nul() {
    assert_eq!(c_string("vm\0-1"), Err(DomainError::InvalidArgumentEncoding));
    assert_eq!(c_string("\0"), Err(DomainError::InvalidArgumentEncoding));
}

#[test]
fn until_nul_stops_at_first_nul() {
    assert_eq!(until_nul(b"abc\0def\0"), b"abc".to_vec());
    assert_eq!(until_nul(b"abc"), b"abc".to_vec());
    assert_eq!(until_nul(b"\0abc"), Vec::<u8>::new());
    assert_eq!(until_nul(b""), Vec::<u8>::new());
}

#[test]
fn string_from_c_replaces_invalid_utf8() {
    assert_eq!(string_from_c(b"ok\0junk"), "ok");
    assert_eq!(string_from_c(&[0x61, 0xff, 0x62, 0]), "a\u{fffd}b");
    assert_eq!(string_from_c(&[0xc3, 0xa9]), "é");
}

#[test]
fn sentinel_replies() {
    assert_eq!(status_reply(0, no_error), Ok(()));
    assert_eq!(status_reply(-1, diag), Err(failure()));
    assert_eq!(flag_reply(1, no_error), Ok(true));
    assert_eq!(flag_reply(0, no_error), Ok(false));
    assert_eq!(flag_reply(-1, diag), Err(failure()));
    assert_eq!(count_reply(4, no_error), Ok(4));
    assert_eq!(count_reply(-1, diag), Err(failure()));
    assert_eq!(text_reply(Some(b"web\0".to_vec()), no_error), Ok(String::from("web")));
    assert_eq!(text_reply(None, diag), Err(failure()));
}

#[test]
fn release_twice_calls_native_once() {
    let calls = Cell::new(0u32);
    let mut d = Domain::new(0x1000);
    let count = |h: usize| -> i32 {
        assert_eq!(h, 0x1000);
        calls.set(calls.get() + 1);
        0
    };
    assert_eq!(d.free(count, no_error), Ok(()));
    assert!(d.released());
    assert_eq!(d.free(count, no_error), Ok(()));
    assert!(d.released());
    assert_eq!(calls.get(), 1);
}

#[test]
fn failed_release_keeps_handle() {
    let mut d = Domain::new(0x1000);
    assert_eq!(d.free(|_h: usize| -> i32 { -1 }, diag), Err(failure()));
    assert!(!d.released());
    assert_eq!(d.free(|_h: usize| -> i32 { 0 }, no_error), Ok(()));
    assert!(d.released());
}

struct Scoped<'a> {
    dom: Domain,
    calls: &'a Cell<u32>,
}

impl Drop for Scoped<'_> {
    fn drop(&mut self) {
        let calls = self.calls;
        let r = self.dom.free(
            |_h: usize| -> i32 {
                calls.set(calls.get() + 1);
                0
            },
            no_error,
        );
        if r.is_err() {
            panic!("unable to release domain");
        }
    }
}

#[test]
fn scope_exit_releases_once() {
    let calls = Cell::new(0u32);
    {
        let _s = Scoped { dom: Domain::new(0x2000), calls: &calls };
    }
    assert_eq!(calls.get(), 1);
    {
        let mut s = Scoped { dom: Domain::new(0x3000), calls: &calls };
        let r = s.dom.free(
            |_h: usize| -> i32 {
                calls.set(calls.get() + 1);
                0
            },
            no_error,
        );
        assert_eq!(r, Ok(()));
    }
    assert_eq!(calls.get(), 2);
}

#[test]
fn embedded_nul_never_reaches_native() {
    let calls = Cell::new(0u32);
    let conn = Connect::new(0x10);
    let bad = "web\0server";
    let h = |_c: usize, _s: Vec<u8>| -> usize {
        calls.set(calls.get() + 1);
        0x99
    };
    let h3 = |_c: usize, _s: Vec<u8>, _f: u32| -> usize {
        calls.set(calls.get() + 1);
        0x99
    };
    let st = |_c: usize, _s: Vec<u8>| -> i32 {
        calls.set(calls.get() + 1);
        0
    };
    let st3 = |_c: usize, _s: Vec<u8>, _f: u32| -> i32 {
        calls.set(calls.get() + 1);
        0
    };
    let enc = DomainError::InvalidArgumentEncoding;
    assert_eq!(Domain::lookup_by_name(&conn, bad, h, diag).err(), Some(enc.clone()));
    assert_eq!(Domain::lookup_by_uuid_string(&conn, bad, h, diag).err(), Some(enc.clone()));
    assert_eq!(Domain::create_xml(&conn, bad, 0, h3, diag).err(), Some(enc.clone()));
    assert_eq!(Domain::define_xml(&conn, bad, h, diag).err(), Some(enc.clone()));
    assert_eq!(Domain::define_xml_flags(&conn, bad, 1, h3, diag).err(), Some(enc.clone()));
    assert_eq!(Domain::domain_restore(&conn, bad, st, diag), Err(enc.clone()));
    assert_eq!(Domain::domain_restore_flags(&conn, bad, 2, st3, diag), Err(enc));
    assert_eq!(calls.get(), 0);
}

#[test]
fn lookup_by_name_passes_c_string() {
    let conn = Connect::new(0x10);
    let seen = Cell::new(false);
    let r = Domain::lookup_by_name(
        &conn,
        "web",
        |c: usize, s: Vec<u8>| -> usize {
            assert_eq!(c, 0x10);
            assert_eq!(s, b"web\0".to_vec());
            seen.set(true);
            0x500
        },
        no_error,
    );
    assert!(seen.get());
    let mut d = r.unwrap();
    assert!(!d.released());
    assert_eq!(d.free(|h: usize| -> i32 { if h == 0x500 { 0 } else { -1 } }, no_error), Ok(()));
}

#[test]
fn factories_report_null_handle() {
    let conn = Connect::new(0x10);
    assert_eq!(Domain::lookup_by_id(&conn, 3, |_c: usize, _i: i32| -> usize { 0 }, diag).err(), Some(failure()));
    assert_eq!(Domain::create(&conn, |_c: usize| -> usize { 0 }, diag).err(), Some(failure()));
    assert_eq!(Domain::create_xml(&conn, "<domain/>", VIR_DOMAIN_START_PAUSED, |_c: usize, _s: Vec<u8>, f: u32| -> usize {
        assert_eq!(f, VIR_DOMAIN_START_PAUSED);
        0
    }, diag).err(), Some(failure()));
    assert_eq!(Domain::domain_restore(&conn, "/var/save", |_c: usize, _s: Vec<u8>| -> i32 { -1 }, diag), Err(failure()));
    assert_eq!(Domain::domain_restore(&conn, "/var/save", |_c: usize, _s: Vec<u8>| -> i32 { 0 }, no_error), Ok(()));
    let d = Domain::lookup_by_id(&conn, 3, |_c: usize, i: i32| -> usize { if i == 3 { 0x70 } else { 0 } }, no_error);
    assert!(d.is_ok());
}

#[test]
fn uuid_string_round_trip() {
    let uuid = "11111111-2222-3333-4444-555555555555";
    let d = Domain::new(0x1000);
    let r = d.get_uuid_string(
        |_h: usize| -> (i32, [u8; 37]) {
            let mut buf = [0u8; 37];
            buf[..36].copy_from_slice(uuid.as_bytes());
            (0, buf)
        },
        no_error,
    );
    let s = r.unwrap();
    assert_eq!(s, uuid);
    assert_eq!(s.len(), 36);
    assert_eq!(uuid_reply((0, [b'x'; 37]), no_error), Ok("x".repeat(37)));
}

#[test]
fn queries_relay_failure_sentinel() {
    let d = Domain::new(0x1000);
    let fail_i = |_h: usize| -> i32 { -1 };
    let fail_s = |_h: usize| -> Option<Vec<u8>> { None };
    let fail_f = |_h: usize, _f: u32| -> Option<Vec<u8>> { None };
    assert_eq!(d.get_name(fail_s, diag), Err(failure()));
    assert_eq!(d.get_hostname(0, fail_f, diag), Err(failure()));
    assert_eq!(d.get_xml_desc(0, fail_f, diag), Err(failure()));
    assert_eq!(d.get_uuid_string(|_h: usize| -> (i32, [u8; 37]) { (-1, [b'a'; 37]) }, diag), Err(failure()));
    assert_eq!(d.get_id(fail_i, diag), Err(failure()));
    assert_eq!(d.get_info(|_h: usize| -> (i32, virDomainInfo) {
        (-1, virDomainInfo { state: 1, maxMem: 1, memory: 1, nrVirtCpu: 1, cpuTime: 1 })
    }, diag), Err(failure()));
    assert_eq!(d.get_connect(|_h: usize| -> usize { 0 }, diag).err(), Some(failure()));
    assert_eq!(d.is_active(fail_i, diag), Err(failure()));
    assert_eq!(d.is_updated(fail_i, diag), Err(failure()));
    assert_eq!(d.get_autostart(fail_i, diag), Err(failure()));
    assert_eq!(d.get_vcpus_flags(VIR_DOMAIN_VCPU_LIVE, |_h: usize, _f: u32| -> i32 { -1 }, diag), Err(failure()));
}

#[test]
fn state_changes_relay_outcome() {
    let d = Domain::new(0x1000);
    let ok = |_h: usize| -> i32 { 0 };
    let bad = |_h: usize| -> i32 { -1 };
    assert_eq!(d.destroy(ok, no_error), Ok(()));
    assert_eq!(d.shutdown(ok, no_error), Ok(()));
    assert_eq!(d.reboot(ok, no_error), Ok(()));
    assert_eq!(d.suspend(ok, no_error), Ok(()));
    assert_eq!(d.resume(ok, no_error), Ok(()));
    assert_eq!(d.undefine(ok, no_error), Ok(()));
    assert_eq!(d.destroy(bad, diag), Err(failure()));
    assert_eq!(d.suspend(bad, diag), Err(failure()));
    assert_eq!(d.undefine(bad, diag), Err(failure()));
}

#[test]
fn queries_return_native_values() {
    let d = Domain::new(0x1000);
    assert_eq!(d.get_name(|_h: usize| -> Option<Vec<u8>> { Some(b"web\0".to_vec()) }, no_error), Ok(String::from("web")));
    assert_eq!(d.get_hostname(0, |_h: usize, _f: u32| -> Option<Vec<u8>> { Some(b"host.example".to_vec()) }, no_error), Ok(String::from("host.example")));
    assert_eq!(d.get_xml_desc(1, |_h: usize, f: u32| -> Option<Vec<u8>> { assert_eq!(f, 1); Some(b"<domain/>\0".to_vec()) }, no_error), Ok(String::from("<domain/>")));
    assert_eq!(d.get_id(|_h: usize| -> i32 { 7 }, no_error), Ok(7));
    assert_eq!(d.is_active(|_h: usize| -> i32 { 1 }, no_error), Ok(true));
    assert_eq!(d.is_updated(|_h: usize| -> i32 { 0 }, no_error), Ok(false));
    assert_eq!(d.get_vcpus_flags(0, |_h: usize, _f: u32| -> i32 { 4 }, no_error), Ok(4));
    let c = d.get_connect(|_h: usize| -> usize { 0x10 }, no_error).unwrap();
    assert_eq!(c.as_ptr(), 0x10);
}

#[test]
fn info_is_passed_through() {
    let d = Domain::new(0x1000);
    let info = d.get_info(
        |_h: usize| -> (i32, virDomainInfo) {
            (0, virDomainInfo { state: 1, maxMem: 2048, memory: 1024, nrVirtCpu: 4, cpuTime: 999999 })
        },
        no_error,
    );
    assert_eq!(
        info,
        Ok(DomainInfo { state: VIR_DOMAIN_RUNNING, max_mem: 2048, memory: 1024, nr_virt_cpu: 4, cpu_time: 999999 })
    );
}

#[test]
fn autostart_round_trip() {
    let stored = Cell::new(0u32);
    let d = Domain::new(0x1000);
    let set = |_h: usize, v: u32| -> i32 {
        stored.set(v);
        1
    };
    assert_eq!(d.set_autostart(true, set, no_error), Ok(true));
    assert_eq!(d.get_autostart(|_h: usize| -> i32 { stored.get() as i32 }, no_error), Ok(true));
    assert_eq!(d.set_autostart(false, set, no_error), Ok(true));
    assert_eq!(d.get_autostart(|_h: usize| -> i32 { stored.get() as i32 }, no_error), Ok(false));
}

#[test]
fn mutations_report_applied_signal() {
    let d = Domain::new(0x1000);
    assert_eq!(d.set_max_memory(4096, |_h: usize, m: u64| -> i32 { assert_eq!(m, 4096); 1 }, no_error), Ok(true));
    assert_eq!(d.set_memory(2048, |_h: usize, _m: u64| -> i32 { 0 }, no_error), Ok(false));
    assert_eq!(d.set_memory_flags(2048, 2, |_h: usize, _m: u64, f: u32| -> i32 { assert_eq!(f, 2); 0 }, no_error), Ok(false));
    assert_eq!(d.set_memory_stats_period(5, 1, |_h: usize, p: i32, _f: u32| -> i32 { assert_eq!(p, 5); 1 }, no_error), Ok(true));
    assert_eq!(d.set_vcpus(2, |_h: usize, _v: u32| -> i32 { -1 }, diag), Err(failure()));
    assert_eq!(d.set_vcpus_flags(2, 1, |_h: usize, v: u32, _f: u32| -> i32 { assert_eq!(v, 2); 1 }, no_error), Ok(true));
}

fn shareable<T: Send + Sync>(_t: &T) {}

#[test]
fn distinct_domains_do_not_interfere() {
    let mut a = Domain::new(0x1000);
    let b = Domain::new(0x2000);
    shareable(&a);
    shareable(&b);
    for i in 0..10 {
        assert_eq!(a.get_id(|h: usize| -> i32 { (h as i32) + i }, no_error), Ok(0x1000 + i as u32));
        assert_eq!(b.get_id(|h: usize| -> i32 { (h as i32) + i }, no_error), Ok(0x2000 + i as u32));
    }
    assert_eq!(a.free(|h: usize| -> i32 { assert_eq!(h, 0x1000); 0 }, no_error), Ok(()));
    assert!(a.released());
    assert!(!b.released());
    assert_eq!(b.get_id(|h: usize| -> i32 { h as i32 }, no_error), Ok(0x2000));
}
