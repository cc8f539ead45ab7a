use std::collections::HashMap;

use rrr::api::WifiCredentials;
use rrr::nvs::{
    begin_wifi_read, decode_credentials, wifi_wipe_plan, wifi_write_plan, NvsError, NvsKey, NvsWrite, WifiRead,
};

#[derive(Clone, Debug, PartialEq)]
enum Value {
    U8(u8),
    Blob(Vec<u8>),
}

/// A store with the platform's semantics: one value per name, typed reads.
#[derive(Default)]
struct Store {
    entries: HashMap<&'static str, Value>,
}

impl Store {
    fn apply(&mut self, writes: Vec<NvsWrite>) {
        for w in writes {
            match w {
                NvsWrite::U8 { key, value } => {
                    self.entries.insert(key.name(), Value::U8(value));
                }
                NvsWrite::Blob { key, data } => {
                    self.entries.insert(key.name(), Value::Blob(data));
                }
            }
        }
    }

    fn wipe(&mut self, keys: Vec<NvsKey>) {
        for k in keys {
            self.entries.remove(k.name());
        }
    }

    /// Drives a read; `None` when the store reports an error.
    fn read(&self) -> Option<Result<Option<WifiCredentials>, NvsError>> {
        let mut step = begin_wifi_read();
        loop {
            step = match step {
                WifiRead::ReadU8 { key, next } => {
                    let v = match self.entries.get(key.name()) {
                        Some(Value::U8(v)) => Some(*v),
                        _ => None,
                    };
                    next.resume(v)
                }
                WifiRead::ReadBlob { key, len, next } => {
                    let mut buf = vec![0u8; len as usize];
                    if let Some(Value::Blob(b)) = self.entries.get(key.name()) {
                        if b.len() > buf.len() {
                            return None;
                        }
                        buf[..b.len()].copy_from_slice(b);
                    }
                    next.resume(buf)
                }
                WifiRead::Done(r) => return Some(r),
            }
        }
    }
}

fn creds(ssid: &str, password: &str) -> WifiCredentials {
    WifiCredentials { ssid: ssid.to_string(), password: password.to_string() }
}

#[test]
fn key_names_are_the_stored_names() {
    assert_eq!(NvsKey::WifiSet.name(), "wifi_set");
    assert_eq!(NvsKey::WifiSsid.name(), "wifi_ssid");
    assert_eq!(NvsKey::WifiSsidLength.name(), "wifi_ssid_l");
    assert_eq!(NvsKey::WifiPassword.name(), "wifi_pass");
    assert_eq!(NvsKey::WifiPasswordLength.name(), "wifi_pass_l");
}

#[test]
fn write_plan_clears_marker_first_and_sets_it_last() {
    let plan = wifi_write_plan(&creds("home", "s3cret!"));
    assert_eq!(plan.len(), 6);
    match &plan[0] {
        NvsWrite::U8 { key, value } => assert!(*key == NvsKey::WifiSet && *value == 0),
        _ => panic!("first write must clear the marker"),
    }
    match &plan[1] {
        NvsWrite::Blob { key, data } => assert!(*key == NvsKey::WifiSsid && data == b"home"),
        _ => panic!(),
    }
    match &plan[2] {
        NvsWrite::U8 { key, value } => assert!(*key == NvsKey::WifiSsidLength && *value == 4),
        _ => panic!(),
    }
    match &plan[3] {
        NvsWrite::Blob { key, data } => assert!(*key == NvsKey::WifiPassword && data == b"s3cret!"),
        _ => panic!(),
    }
    match &plan[4] {
        NvsWrite::U8 { key, value } => assert!(*key == NvsKey::WifiPasswordLength && *value == 7),
        _ => panic!(),
    }
    match &plan[5] {
        NvsWrite::U8 { key, value } => assert!(*key == NvsKey::WifiSet && *value == 1),
        _ => panic!("last write must set the marker"),
    }
}

#[test]
fn write_plan_stores_utf8_byte_lengths() {
    let plan = wifi_write_plan(&creds("Café", "äöü"));
    match &plan[2] {
        NvsWrite::U8 { value, .. } => assert_eq!(*value, 5),
        _ => panic!(),
    }
    match &plan[4] {
        NvsWrite::U8 { value, .. } => assert_eq!(*value, 6),
        _ => panic!(),
    }
}

#[test]
fn write_plan_truncates_lengths_to_one_byte() {
    let long = "x".repeat(300);
    let plan = wifi_write_plan(&creds(&long, "p"));
    match &plan[2] {
        NvsWrite::U8 { value, .. } => assert_eq!(*value, (300usize % 256) as u8),
        _ => panic!(),
    }
}

#[test]
fn empty_store_reads_no_credentials() {
    let store = Store::default();
    assert_eq!(store.read(), Some(Ok(None)));
}

#[test]
fn read_after_write_gives_the_credentials_back() {
    let mut store = Store::default();
    let c = creds("RocketNet", "launch-123");
    store.apply(wifi_write_plan(&c));
    assert_eq!(store.read(), Some(Ok(Some(c))));
}

#[test]
fn read_after_write_keeps_non_ascii_text() {
    let mut store = Store::default();
    let c = creds("Café ☕", "pässwörd");
    store.apply(wifi_write_plan(&c));
    assert_eq!(store.read(), Some(Ok(Some(c))));
}

#[test]
fn overwrite_replaces_older_credentials() {
    let mut store = Store::default();
    store.apply(wifi_write_plan(&creds("a-much-longer-name", "first")));
    let c = creds("short", "second");
    store.apply(wifi_write_plan(&c));
    assert_eq!(store.read(), Some(Ok(Some(c))));
}

#[test]
fn interrupted_write_reads_as_no_credentials() {
    let c = creds("RocketNet", "launch-123");
    for done in 1..6 {
        let mut store = Store::default();
        store.apply(wifi_write_plan(&creds("old", "old-pass")));
        let plan: Vec<NvsWrite> = wifi_write_plan(&c).into_iter().take(done).collect();
        store.apply(plan);
        assert_eq!(store.read(), Some(Ok(None)), "after {} writes", done);
    }
}

#[test]
fn wipe_forgets_the_credentials() {
    let mut store = Store::default();
    store.apply(wifi_write_plan(&creds("RocketNet", "launch-123")));
    let plan = wifi_wipe_plan();
    assert_eq!(
        plan,
        vec![NvsKey::WifiSet, NvsKey::WifiSsid, NvsKey::WifiSsidLength, NvsKey::WifiPassword, NvsKey::WifiPasswordLength]
    );
    store.wipe(plan);
    assert!(store.entries.is_empty());
    assert_eq!(store.read(), Some(Ok(None)));
}

#[test]
fn interrupted_wipe_reads_as_no_credentials() {
    for done in 1..6 {
        let mut store = Store::default();
        store.apply(wifi_write_plan(&creds("RocketNet", "launch-123")));
        store.wipe(wifi_wipe_plan().into_iter().take(done).collect());
        assert_eq!(store.read(), Some(Ok(None)));
    }
}

#[test]
fn marker_zero_means_no_credentials() {
    let mut step = begin_wifi_read();
    match step {
        WifiRead::ReadU8 { key, next } => {
            assert_eq!(key, NvsKey::WifiSet);
            step = next.resume(Some(0));
        }
        _ => panic!(),
    }
    assert!(matches!(step, WifiRead::Done(Ok(None))));
}

#[test]
fn missing_length_means_no_credentials() {
    let step = match begin_wifi_read() {
        WifiRead::ReadU8 { next, .. } => next.resume(Some(1)),
        _ => panic!(),
    };
    let step = match step {
        WifiRead::ReadU8 { key, next } => {
            assert_eq!(key, NvsKey::WifiSsidLength);
            next.resume(Some(3))
        }
        _ => panic!(),
    };
    let step = match step {
        WifiRead::ReadU8 { key, next } => {
            assert_eq!(key, NvsKey::WifiPasswordLength);
            next.resume(None)
        }
        _ => panic!(),
    };
    assert!(matches!(step, WifiRead::Done(Ok(None))));
}

#[test]
fn blob_reads_use_the_stored_lengths() {
    let step = match begin_wifi_read() {
        WifiRead::ReadU8 { next, .. } => next.resume(Some(7)),
        _ => panic!(),
    };
    let step = match step {
        WifiRead::ReadU8 { next, .. } => next.resume(Some(3)),
        _ => panic!(),
    };
    let step = match step {
        WifiRead::ReadU8 { next, .. } => next.resume(Some(2)),
        _ => panic!(),
    };
    let step = match step {
        WifiRead::ReadBlob { key, len, next } => {
            assert_eq!((key, len), (NvsKey::WifiSsid, 3));
            next.resume(b"abc".to_vec())
        }
        _ => panic!(),
    };
    let step = match step {
        WifiRead::ReadBlob { key, len, next } => {
            assert_eq!((key, len), (NvsKey::WifiPassword, 2));
            next.resume(b"pw".to_vec())
        }
        _ => panic!(),
    };
    match step {
        WifiRead::Done(Ok(Some(c))) => assert_eq!(c, creds("abc", "pw")),
        _ => panic!(),
    }
}

#[test]
fn invalid_utf8_is_an_error() {
    assert_eq!(decode_credentials(vec![0xff, 0xfe], b"ok".to_vec()), Err(NvsError::InvalidUtf8));
    assert_eq!(decode_credentials(b"ok".to_vec(), vec![0xc3]), Err(NvsError::InvalidUtf8));
    assert_eq!(decode_credentials(b"net".to_vec(), b"pw".to_vec()), Ok(creds("net", "pw")));
}

#[test]
fn invalid_stored_bytes_read_back_as_error() {
    let mut store = Store::default();
    store.entries.insert("wifi_set", Value::U8(1));
    store.entries.insert("wifi_ssid_l", Value::U8(2));
    store.entries.insert("wifi_pass_l", Value::U8(1));
    store.entries.insert("wifi_ssid", Value::Blob(vec![0xff, 0xff]));
    store.entries.insert("wifi_pass", Value::Blob(vec![b'a']));
    assert_eq!(store.read(), Some(Err(NvsError::InvalidUtf8)));
}

#[test]
fn overlong_name_does_not_read_back() {
    // The stored length wraps at 256, so the name no longer fits the buffer.
    let mut store = Store::default();
    store.apply(wifi_write_plan(&creds(&"n".repeat(300), "pw")));
    assert_eq!(store.read(), None);
}
