use sni_terminator::identity::TlsCollection;
use sni_terminator::loader::{get_cert_key, LoadFailure};
use sni_terminator::store::{init_cert_in_memory, CertificateStore, DomainFiles};
use sni_terminator::supervisor::{select_identity, ConnectionError};
use std::sync::{Arc, Mutex};

fn encode(bytes: &[u8]) -> String {
    let table = b"ABCDEFGHIJKLMNOPQRSTUVWXYZabcdefghijklmnopqrstuvwxyz0123456789+/";
    let mut out = String::new();
    for chunk in bytes.chunks(3) {
        let b0 = chunk[0] as u32;
        let b1 = if chunk.len() > 1 { chunk[1] as u32 } else { 0 };
        let b2 = if chunk.len() > 2 { chunk[2] as u32 } else { 0 };
        let n = (b0 << 16) | (b1 << 8) | b2;
        out.push(table[((n >> 18) & 63) as usize] as char);
        out.push(table[((n >> 12) & 63) as usize] as char);
        out.push(if chunk.len() > 1 { table[((n >> 6) & 63) as usize] as char } else { '=' });
        out.push(if chunk.len() > 2 { table[(n & 63) as usize] as char } else { '=' });
    }
    out
}

fn armour(label: &str, der: &[u8]) -> Vec<u8> {
    format!("-----BEGIN {}-----\n{}\n-----END {}-----\n", label, encode(der), label).into_bytes()
}

fn key_file(seed: u8) -> Vec<u8> {
    let mut der = vec![
        0x30, 0x2e, 0x02, 0x01, 0x00, 0x30, 0x05, 0x06, 0x03, 0x2b, 0x65, 0x70, 0x04, 0x22, 0x04,
        0x20,
    ];
    for i in 0..32u8 {
        der.push(seed.wrapping_add(i));
    }
    armour("PRIVATE KEY", &der)
}

fn certificate(tag: u8) -> Vec<u8> {
    vec![0x30, 0x03, 0x02, 0x01, tag]
}

fn good(hostname: &str, tag: u8) -> DomainFiles {
    DomainFiles {
        hostname: hostname.to_string(),
        chain_pem: Some(armour("CERTIFICATE", &certificate(tag))),
        key_pem: Some(key_file(tag)),
    }
}

fn missing(hostname: &str) -> DomainFiles {
    DomainFiles { hostname: hostname.to_string(), chain_pem: None, key_pem: None }
}

fn keyless(hostname: &str) -> DomainFiles {
    DomainFiles {
        hostname: hostname.to_string(),
        chain_pem: Some(armour("CERTIFICATE", &certificate(1))),
        key_pem: Some(Vec::new()),
    }
}

fn chainless(hostname: &str) -> DomainFiles {
    DomainFiles { hostname: hostname.to_string(), chain_pem: Some(Vec::new()), key_pem: Some(key_file(1)) }
}

fn broken(hostname: &str) -> DomainFiles {
    DomainFiles {
        hostname: hostname.to_string(),
        chain_pem: Some(b"-----BEGIN CERTIFICATE-----\n!!!!\n-----END CERTIFICATE-----\n".to_vec()),
        key_pem: Some(key_file(1)),
    }
}

fn identity(tag: u8) -> TlsCollection {
    let chain = armour("CERTIFICATE", &certificate(tag));
    let key = key_file(tag);
    TlsCollection::new(get_cert_key("x", Some(&chain), Some(&key)).unwrap().unwrap())
}

fn chain_at(store: &CertificateStore, hostname: &str) -> Option<Vec<Vec<u8>>> {
    store.lookup(hostname).map(|entry| entry.chain())
}

#[test]
fn new_store_is_empty() {
    let store = CertificateStore::new();
    assert!(store.is_empty());
    assert_eq!(store.len(), 0);
    assert!(!store.contains("a.example"));
    assert!(store.lookup("a.example").is_none());
    assert!(store.resolve(Some("a.example")).is_none());
    assert!(store.resolve(None).is_none());
}

#[test]
fn insert_replaces_the_entry_of_its_hostname() {
    let mut store = CertificateStore::new();
    let first = identity(1);
    let second = identity(2);
    store.insert("a.example".to_string(), first.share());
    assert_eq!(store.len(), 1);
    assert!(Arc::ptr_eq(&store.lookup("a.example").unwrap().certified_key, &first.certified_key));
    store.insert("a.example".to_string(), second.share());
    assert_eq!(store.len(), 1);
    assert!(Arc::ptr_eq(&store.lookup("a.example").unwrap().certified_key, &second.certified_key));
    assert!(!store.is_empty());
}

#[test]
fn lookup_hands_out_the_stored_identity_not_a_copy() {
    let mut store = CertificateStore::new();
    let entry = identity(1);
    store.insert("a.example".to_string(), entry.share());
    let found = store.lookup("a.example").unwrap();
    assert!(Arc::ptr_eq(&found.certified_key, &entry.certified_key));
    let resolved = store.resolve(Some("a.example")).unwrap();
    assert!(Arc::ptr_eq(&resolved, &entry.certified_key));
    assert_eq!(Arc::strong_count(&entry.certified_key), 4);
}

#[test]
fn hostnames_are_matched_exactly() {
    let mut store = CertificateStore::new();
    store.insert("a.example".to_string(), identity(1));
    assert!(store.contains("a.example"));
    assert!(!store.contains("A.example"));
    assert!(store.lookup("A.EXAMPLE").is_none());
    assert!(store.lookup("a.example.").is_none());
    assert!(store.lookup("").is_none());
    assert!(store.resolve(Some("b.a.example")).is_none());
}

#[test]
fn clear_removes_every_entry() {
    let mut store = CertificateStore::new();
    store.insert("a.example".to_string(), identity(1));
    store.insert("b.example".to_string(), identity(2));
    store.clear();
    assert!(store.is_empty());
    assert!(store.lookup("a.example").is_none());
}

#[test]
fn loading_stores_what_can_be_loaded_and_reports_the_rest() {
    let mut store = CertificateStore::new();
    let files = vec![good("a.example", 1), missing("m.example"), broken("x.example"), good("b.example", 2)];
    let report = store.load(&files);
    assert_eq!(report.loaded, 2);
    assert_eq!(report.errors.len(), 1);
    assert_eq!(report.errors[0].hostname, "x.example");
    assert_eq!(report.errors[0].failure, LoadFailure::MalformedChain);
    assert_eq!(store.len(), 2);
    assert_eq!(chain_at(&store, "a.example"), Some(vec![certificate(1)]));
    assert_eq!(chain_at(&store, "b.example"), Some(vec![certificate(2)]));
    assert_eq!(chain_at(&store, "m.example"), None);
    assert_eq!(chain_at(&store, "x.example"), None);
}

#[test]
fn files_without_key_or_certificate_are_reported_and_skipped() {
    let mut store = CertificateStore::new();
    store.insert("k.example".to_string(), identity(5));
    let files = vec![keyless("k.example"), chainless("c.example"), good("a.example", 1)];
    let report = store.load(&files);
    assert_eq!(report.loaded, 1);
    assert_eq!(report.errors.len(), 2);
    assert_eq!(report.errors[0].hostname, "k.example");
    assert_eq!(report.errors[0].failure, LoadFailure::MalformedKey);
    assert_eq!(report.errors[0].detail, "no private key in the key file");
    assert_eq!(report.errors[1].hostname, "c.example");
    assert_eq!(report.errors[1].failure, LoadFailure::MalformedChain);
    assert_eq!(report.errors[1].detail, "no certificate in the chain file");
    assert_eq!(store.len(), 2);
    assert_eq!(chain_at(&store, "k.example"), Some(vec![certificate(5)]));
    assert_eq!(chain_at(&store, "c.example"), None);
    assert_eq!(chain_at(&store, "a.example"), Some(vec![certificate(1)]));
}

#[test]
fn loading_nothing_changes_nothing() {
    let mut store = CertificateStore::new();
    store.insert("a.example".to_string(), identity(1));
    let report = store.load(&Vec::new());
    assert_eq!(report.loaded, 0);
    assert!(report.errors.is_empty());
    assert_eq!(store.len(), 1);
}

#[test]
fn later_entry_for_a_hostname_wins() {
    let mut store = CertificateStore::new();
    let files = vec![good("a.example", 1), good("a.example", 2), broken("a.example"), missing("a.example")];
    let report = store.load(&files);
    assert_eq!(report.loaded, 2);
    assert_eq!(report.errors.len(), 1);
    assert_eq!(store.len(), 1);
    assert_eq!(chain_at(&store, "a.example"), Some(vec![certificate(2)]));
}

#[test]
fn loading_twice_leaves_the_store_as_it_was() {
    let mut store = CertificateStore::new();
    let files = vec![good("a.example", 1), good("b.example", 2), missing("m.example")];
    let first = store.load(&files);
    let second = store.load(&files);
    assert_eq!(first.loaded, 2);
    assert_eq!(second.loaded, 2);
    assert_eq!(store.len(), 2);
    assert_eq!(chain_at(&store, "a.example"), Some(vec![certificate(1)]));
    assert_eq!(chain_at(&store, "b.example"), Some(vec![certificate(2)]));
}

#[test]
fn reload_adds_entries_and_keeps_those_it_does_not_name() {
    let mut store = CertificateStore::new();
    store.load(&vec![good("a.example", 1), good("b.example", 2)]);
    let kept = store.lookup("a.example").unwrap();
    let report = store.reload(&vec![good("b.example", 7), good("c.example", 3)]);
    assert_eq!(report.loaded, 2);
    assert_eq!(store.len(), 3);
    assert!(Arc::ptr_eq(&store.lookup("a.example").unwrap().certified_key, &kept.certified_key));
    assert_eq!(chain_at(&store, "b.example"), Some(vec![certificate(7)]));
    assert_eq!(chain_at(&store, "c.example"), Some(vec![certificate(3)]));
}

#[test]
fn reload_that_fails_for_a_hostname_keeps_its_entry() {
    let mut store = CertificateStore::new();
    store.load(&vec![good("a.example", 1), good("b.example", 2)]);
    let a = store.lookup("a.example").unwrap();
    let b = store.lookup("b.example").unwrap();
    let report = store.reload(&vec![broken("a.example"), missing("b.example")]);
    assert_eq!(report.loaded, 0);
    assert_eq!(report.errors.len(), 1);
    assert!(Arc::ptr_eq(&store.lookup("a.example").unwrap().certified_key, &a.certified_key));
    assert!(Arc::ptr_eq(&store.lookup("b.example").unwrap().certified_key, &b.certified_key));
}

#[test]
fn absorbing_a_store_filled_aside_equals_loading_in_place() {
    let files = vec![good("b.example", 7), good("c.example", 3), broken("a.example")];
    let mut direct = CertificateStore::new();
    direct.load(&vec![good("a.example", 1), good("b.example", 2)]);
    direct.reload(&files);
    let mut merged = CertificateStore::new();
    merged.load(&vec![good("a.example", 1), good("b.example", 2)]);
    let mut aside = CertificateStore::new();
    aside.load(&files);
    merged.absorb(aside);
    assert_eq!(merged.len(), direct.len());
    for hostname in ["a.example", "b.example", "c.example", "d.example"] {
        assert_eq!(chain_at(&merged, hostname), chain_at(&direct, hostname));
    }
    assert_eq!(chain_at(&merged, "b.example"), Some(vec![certificate(7)]));
}

#[test]
fn handshakes_resolve_by_server_name() {
    let mut store = CertificateStore::new();
    let report = init_cert_in_memory(&mut store, &vec![good("a.example", 1), good("b.example", 2)]);
    assert_eq!(report.loaded, 2);
    let a = select_identity(&store, Some("a.example")).unwrap();
    assert_eq!(a.cert[0].as_ref(), &certificate(1)[..]);
    assert!(Arc::ptr_eq(&a, &store.lookup("a.example").unwrap().certified_key));
    assert_eq!(select_identity(&store, Some("c.example")).err(), Some(ConnectionError::HandshakeFailure));
    assert_eq!(select_identity(&store, None).err(), Some(ConnectionError::HandshakeFailure));
    assert_eq!(store.len(), 2);
    let shared = Arc::new(Mutex::new(store));
    let runtime = tokio::runtime::Builder::new_multi_thread().worker_threads(4).build().unwrap();
    runtime.block_on(async {
        let mut handshakes = Vec::new();
        for i in 0..100u32 {
            let handle = Arc::clone(&shared);
            handshakes.push(tokio::spawn(async move {
                let (name, tag) = if i % 2 == 0 { ("a.example", 1u8) } else { ("b.example", 2u8) };
                let found = select_identity(&handle.lock().unwrap(), Some(name)).unwrap();
                found.cert.len() == 1 && found.cert[0].as_ref() == &certificate(tag)[..]
            }));
        }
        for handshake in handshakes {
            assert!(handshake.await.unwrap());
        }
    });
    assert_eq!(shared.lock().unwrap().len(), 2);
}

#[test]
fn lookups_during_reload_see_the_old_or_the_new_identity() {
    let mut store = CertificateStore::new();
    store.load(&vec![good("a.example", 1)]);
    let shared = Arc::new(Mutex::new(store));
    let runtime = tokio::runtime::Builder::new_multi_thread().worker_threads(4).build().unwrap();
    runtime.block_on(async {
        let mut tasks = Vec::new();
        for i in 0..60u32 {
            let handle = Arc::clone(&shared);
            tasks.push(tokio::spawn(async move {
                if i % 6 == 0 {
                    let mut aside = CertificateStore::new();
                    aside.load(&vec![good("a.example", 7)]);
                    handle.lock().unwrap().absorb(aside);
                    true
                } else {
                    let found = handle.lock().unwrap().lookup("a.example").unwrap();
                    let chain = found.chain();
                    chain == vec![certificate(1)] || chain == vec![certificate(7)]
                }
            }));
        }
        for task in tasks {
            assert!(task.await.unwrap());
        }
    });
    assert_eq!(chain_at(&shared.lock().unwrap(), "a.example"), Some(vec![certificate(7)]));
}
