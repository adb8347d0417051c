use mtls_proxy::error::StartupError;
use mtls_proxy::tls::{alpn_protocols, build_client_config, build_server_config, cert_reader, load_root_store, privkey_reader, TrustMaterial};
use mtls_proxy::proxy::Proxy;
use mtls_proxy::config::{Config, TlsConfig};

const CA_CERT: &str = "\
-----BEGIN CERTIFICATE-----\n\
MIIBizCCATGgAwIBAgIUT1Ws1jCCmn9T/4IHwH+XKvvxdtowCgYIKoZIzj0EAwIw\n\
EjEQMA4GA1UEAwwHVGVzdCBDQTAgFw0yNjEwMTkxMTM4MzdaGA8yMTI2MDkyNTEx\n\
MzgzN1owEjEQMA4GA1UEAwwHVGVzdCBDQTBZMBMGByqGSM49AgEGCCqGSM49AwEH\n\
A0IABJ/Q/DhzD/P4TZ2bVXigBhKLjVOzCZuKYFq9K1GWrG2jm7TvmDYNYVJNZVR4\n\
KB35o1tgIX4lur41ZBC9kH9GbBejYzBhMB0GA1UdDgQWBBRmw4usUkOOtrCUzXMp\n\
ObYIRVPOtTAfBgNVHSMEGDAWgBRmw4usUkOOtrCUzXMpObYIRVPOtTAPBgNVHRMB\n\
Af8EBTADAQH/MA4GA1UdDwEB/wQEAwICBDAKBggqhkjOPQQDAgNIADBFAiBBeOuy\n\
EI4IGvylwitURM3HokGE/RKsjfyE9uPcadC15QIhAMs+wDAaS71rji4VklwyT0wq\n\
5somq/AmKRBKOGijfjA2\n\
-----END CERTIFICATE-----\n\
";
const SERVER_CERT: &str = "\
-----BEGIN CERTIFICATE-----\n\
MIIBijCCATCgAwIBAgIUQoUFoLWSG4TSRui0TH4/txWZ+RIwCgYIKoZIzj0EAwIw\n\
EjEQMA4GA1UEAwwHVGVzdCBDQTAgFw0yNjEwMTkxMTM4MzdaGA8yMTI2MDkyNTEx\n\
MzgzN1owETEPMA0GA1UEAwwGc2VydmVyMFkwEwYHKoZIzj0CAQYIKoZIzj0DAQcD\n\
QgAEmRFGCaWh25fU90rQ6X5Yj80kA4pq+ztnGpnnkyE6HfvaG57tF+AkokXrbzJ6\n\
P2pvtCMeMYcJpF1rrTO5wyUYVKNjMGEwFAYDVR0RBA0wC4IJbG9jYWxob3N0MAkG\n\
A1UdEwQCMAAwHQYDVR0OBBYEFJvgEcG9WqfU/lk8mQrmecJW1VNEMB8GA1UdIwQY\n\
MBaAFGbDi6xSQ462sJTNcyk5tghFU861MAoGCCqGSM49BAMCA0gAMEUCIBLzx263\n\
hL4Z5aekly+5p46QszXhxxtIyDsJI/MdOxnYAiEAq3J+JaXxJ7cL0tUXZDCGhfZJ\n\
R3IqoNL+kGQD5ojsIL0=\n\
-----END CERTIFICATE-----\n\
";
const SERVER_KEY_DER: [u8; 138] = [
    0x30, 0x81, 0x87, 0x02, 0x01, 0x00, 0x30, 0x13, 0x06, 0x07, 0x2a, 0x86, 0x48, 0xce, 0x3d, 0x02,
    0x01, 0x06, 0x08, 0x2a, 0x86, 0x48, 0xce, 0x3d, 0x03, 0x01, 0x07, 0x04, 0x6d, 0x30, 0x6b, 0x02,
    0x01, 0x01, 0x04, 0x20, 0xdc, 0xc6, 0xdd, 0x44, 0x62, 0xe8, 0x44, 0x88, 0x05, 0x7c, 0x40, 0xd4,
    0xd0, 0x12, 0x38, 0x5c, 0x7b, 0xe0, 0x4e, 0xb5, 0xbe, 0x5b, 0x50, 0x7e, 0xe3, 0xa2, 0xd7, 0x6a,
    0x0c, 0x83, 0xb6, 0x23, 0xa1, 0x44, 0x03, 0x42, 0x00, 0x04, 0x99, 0x11, 0x46, 0x09, 0xa5, 0xa1,
    0xdb, 0x97, 0xd4, 0xf7, 0x4a, 0xd0, 0xe9, 0x7e, 0x58, 0x8f, 0xcd, 0x24, 0x03, 0x8a, 0x6a, 0xfb,
    0x3b, 0x67, 0x1a, 0x99, 0xe7, 0x93, 0x21, 0x3a, 0x1d, 0xfb, 0xda, 0x1b, 0x9e, 0xed, 0x17, 0xe0,
    0x24, 0xa2, 0x45, 0xeb, 0x6f, 0x32, 0x7a, 0x3f, 0x6a, 0x6f, 0xb4, 0x23, 0x1e, 0x31, 0x87, 0x09,
    0xa4, 0x5d, 0x6b, 0xad, 0x33, 0xb9, 0xc3, 0x25, 0x18, 0x54,
];
const CLIENT_CERT: &str = "\
-----BEGIN CERTIFICATE-----\n\
MIIBijCCATCgAwIBAgIUQoUFoLWSG4TSRui0TH4/txWZ+RMwCgYIKoZIzj0EAwIw\n\
EjEQMA4GA1UEAwwHVGVzdCBDQTAgFw0yNjEwMTkxMTM4MzdaGA8yMTI2MDkyNTEx\n\
MzgzN1owETEPMA0GA1UEAwwGY2xpZW50MFkwEwYHKoZIzj0CAQYIKoZIzj0DAQcD\n\
QgAEjbunuolCFqzmLTDf6XO74Jtss08yIHDdp26PNXCxXQZjUunjr07tes5+6Z/6\n\
05ZXlHEysL9ZXwd/lpv6XXrLvKNjMGEwFAYDVR0RBA0wC4IJbG9jYWxob3N0MAkG\n\
A1UdEwQCMAAwHQYDVR0OBBYEFHKX7IpskAGlm/gfHcekBOyB4MJYMB8GA1UdIwQY\n\
MBaAFGbDi6xSQ462sJTNcyk5tghFU861MAoGCCqGSM49BAMCA0gAMEUCIQD1bFgV\n\
iaefCCCarznNBByNOiDIdR7+I40XvmkE030M8gIgGKYDXOS9HP52oSauzgi4o5zV\n\
gbEKeIrn/qjP59NeG3U=\n\
-----END CERTIFICATE-----\n\
";
const CLIENT_KEY_DER: [u8; 138] = [
    0x30, 0x81, 0x87, 0x02, 0x01, 0x00, 0x30, 0x13, 0x06, 0x07, 0x2a, 0x86, 0x48, 0xce, 0x3d, 0x02,
    0x01, 0x06, 0x08, 0x2a, 0x86, 0x48, 0xce, 0x3d, 0x03, 0x01, 0x07, 0x04, 0x6d, 0x30, 0x6b, 0x02,
    0x01, 0x01, 0x04, 0x20, 0x69, 0x0f, 0xab, 0x71, 0x53, 0x76, 0x75, 0x72, 0x51, 0x9d, 0xdf, 0x66,
    0x15, 0xdb, 0xba, 0xe2, 0xa3, 0x97, 0x5e, 0x27, 0x65, 0xec, 0x7a, 0x18, 0xbe, 0x36, 0x5f, 0x00,
    0x5d, 0x9f, 0xe8, 0x08, 0xa1, 0x44, 0x03, 0x42, 0x00, 0x04, 0x8d, 0xbb, 0xa7, 0xba, 0x89, 0x42,
    0x16, 0xac, 0xe6, 0x2d, 0x30, 0xdf, 0xe9, 0x73, 0xbb, 0xe0, 0x9b, 0x6c, 0xb3, 0x4f, 0x32, 0x20,
    0x70, 0xdd, 0xa7, 0x6e, 0x8f, 0x35, 0x70, 0xb1, 0x5d, 0x06, 0x63, 0x52, 0xe9, 0xe3, 0xaf, 0x4e,
    0xed, 0x7a, 0xce, 0x7e, 0xe9, 0x9f, 0xfa, 0xd3, 0x96, 0x57, 0x94, 0x71, 0x32, 0xb0, 0xbf, 0x59,
    0x5f, 0x07, 0x7f, 0x96, 0x9b, 0xfa, 0x5d, 0x7a, 0xcb, 0xbc,
];
const CA_KEY_DER: [u8; 138] = [
    0x30, 0x81, 0x87, 0x02, 0x01, 0x00, 0x30, 0x13, 0x06, 0x07, 0x2a, 0x86, 0x48, 0xce, 0x3d, 0x02,
    0x01, 0x06, 0x08, 0x2a, 0x86, 0x48, 0xce, 0x3d, 0x03, 0x01, 0x07, 0x04, 0x6d, 0x30, 0x6b, 0x02,
    0x01, 0x01, 0x04, 0x20, 0xfb, 0xa3, 0xe1, 0x5d, 0xbd, 0xf9, 0xb5, 0x5a, 0x0e, 0x36, 0x90, 0x1f,
    0xf1, 0x1d, 0x99, 0x9c, 0x9c, 0x98, 0xb2, 0xeb, 0x3e, 0x86, 0x1f, 0xd9, 0x94, 0x45, 0x64, 0xc4,
    0xba, 0x87, 0x57, 0x8d, 0xa1, 0x44, 0x03, 0x42, 0x00, 0x04, 0x9f, 0xd0, 0xfc, 0x38, 0x73, 0x0f,
    0xf3, 0xf8, 0x4d, 0x9d, 0x9b, 0x55, 0x78, 0xa0, 0x06, 0x12, 0x8b, 0x8d, 0x53, 0xb3, 0x09, 0x9b,
    0x8a, 0x60, 0x5a, 0xbd, 0x2b, 0x51, 0x96, 0xac, 0x6d, 0xa3, 0x9b, 0xb4, 0xef, 0x98, 0x36, 0x0d,
    0x61, 0x52, 0x4d, 0x65, 0x54, 0x78, 0x28, 0x1d, 0xf9, 0xa3, 0x5b, 0x60, 0x21, 0x7e, 0x25, 0xba,
    0xbe, 0x35, 0x64, 0x10, 0xbd, 0x90, 0x7f, 0x46, 0x6c, 0x17,
];

/// A PEM certificate section whose body is not a certificate (DER bytes 00 01 02).
const JUNK_CERT: &str = "-----BEGIN CERTIFICATE-----\nAAEC\n-----END CERTIFICATE-----\n";

/// The PEM text of one section: base64 of `der` under `label`, 64 columns wide.
fn pem(label: &str, der: &[u8]) -> String {
    const ALPHABET: &[u8] = b"ABCDEFGHIJKLMNOPQRSTUVWXYZabcdefghijklmnopqrstuvwxyz0123456789+/";
    let mut b64 = String::new();
    for chunk in der.chunks(3) {
        let n = (chunk[0] as u32) << 16
            | (*chunk.get(1).unwrap_or(&0) as u32) << 8
            | *chunk.get(2).unwrap_or(&0) as u32;
        for i in 0..4 {
            if i <= chunk.len() {
                b64.push(ALPHABET[((n >> (18 - 6 * i)) & 63) as usize] as char);
            } else {
                b64.push('=');
            }
        }
    }
    let mut out = format!("-----BEGIN {}-----\n", label);
    for line in b64.as_bytes().chunks(64) {
        out.push_str(std::str::from_utf8(line).unwrap());
        out.push('\n');
    }
    out.push_str(&format!("-----END {}-----\n", label));
    out
}

fn key_pem(der: &[u8]) -> String {
    pem("PRIVATE KEY", der)
}

fn material() -> TrustMaterial {
    TrustMaterial {
        ca: CA_CERT.as_bytes().to_vec(),
        server_cert: SERVER_CERT.as_bytes().to_vec(),
        server_key: key_pem(&SERVER_KEY_DER).into_bytes(),
        client_cert: CLIENT_CERT.as_bytes().to_vec(),
        client_key: key_pem(&CLIENT_KEY_DER).into_bytes(),
    }
}

fn config() -> Config {
    Config {
        listen: "127.0.0.1:8443".to_string(),
        upstream: "localhost:9443".to_string(),
        tls: TlsConfig {
            ca_file: "ca.crt".to_string(),
            server_cert: "server.crt".to_string(),
            server_key: "server.key".to_string(),
            client_cert: "client.crt".to_string(),
            client_key: "client.key".to_string(),
        },
    }
}

#[test]
fn cert_reader_reads_one_certificate() {
    let certs = cert_reader(CA_CERT.as_bytes()).unwrap();
    assert_eq!(certs.len(), 1);
    assert_eq!(certs[0][0], 0x30);
    assert!(certs[0].len() > 100);
}

#[test]
fn cert_reader_keeps_chain_order() {
    let joined = format!("{}{}", SERVER_CERT, CA_CERT);
    let chain = cert_reader(joined.as_bytes()).unwrap();
    let leaf = cert_reader(SERVER_CERT.as_bytes()).unwrap();
    let ca = cert_reader(CA_CERT.as_bytes()).unwrap();
    assert_eq!(chain.len(), 2);
    assert_eq!(chain[0], leaf[0]);
    assert_eq!(chain[1], ca[0]);
}

#[test]
fn cert_reader_of_text_without_certificates_is_empty() {
    assert_eq!(cert_reader(b"no pem here").unwrap().len(), 0);
    assert_eq!(cert_reader(key_pem(&SERVER_KEY_DER).as_bytes()).unwrap().len(), 0);
}

#[test]
fn cert_reader_rejects_broken_pem() {
    let broken = "-----BEGIN CERTIFICATE-----\nAAEC\n";
    assert_eq!(cert_reader(broken.as_bytes()), Err(StartupError::Unparseable));
}

#[test]
fn privkey_reader_finds_pkcs8_key() {
    let key = privkey_reader(key_pem(&SERVER_KEY_DER).as_bytes()).unwrap();
    assert_eq!(key[0], 0x30);
    assert_ne!(key, privkey_reader(key_pem(&CLIENT_KEY_DER).as_bytes()).unwrap());
}

#[test]
fn privkey_reader_without_key_is_missing_key() {
    assert_eq!(privkey_reader(SERVER_CERT.as_bytes()), Err(StartupError::MissingKey));
    assert_eq!(privkey_reader(b""), Err(StartupError::MissingKey));
}

#[test]
fn load_root_store_accepts_ca() {
    let store = load_root_store(CA_CERT.as_bytes()).unwrap();
    assert_eq!(store.len(), 1);
}

#[test]
fn load_root_store_without_certificates_is_empty_trust_store() {
    assert_eq!(load_root_store(b"").err(), Some(StartupError::EmptyTrustStore));
    assert_eq!(load_root_store(key_pem(&CA_KEY_DER).as_bytes()).err(), Some(StartupError::EmptyTrustStore));
}

#[test]
fn load_root_store_with_only_unparsable_certificates_is_empty_trust_store() {
    assert_eq!(load_root_store(JUNK_CERT.as_bytes()).err(), Some(StartupError::EmptyTrustStore));
}

#[test]
fn load_root_store_keeps_only_parsable_certificates() {
    let mixed = format!("{}{}", JUNK_CERT, CA_CERT);
    assert_eq!(load_root_store(mixed.as_bytes()).unwrap().len(), 1);
    let twice = format!("{}{}{}", CA_CERT, JUNK_CERT, CA_CERT);
    assert_eq!(load_root_store(twice.as_bytes()).unwrap().len(), 2);
}

#[test]
fn load_root_store_rejects_broken_pem() {
    let broken = "-----BEGIN CERTIFICATE-----\nAAEC\n";
    assert_eq!(load_root_store(broken.as_bytes()).err(), Some(StartupError::Unparseable));
}

#[test]
fn configs_with_junk_only_ca_fail_with_empty_trust_store() {
    let mut m = material();
    m.ca = JUNK_CERT.as_bytes().to_vec();
    assert_eq!(build_server_config(&m).err(), Some(StartupError::EmptyTrustStore));
    assert_eq!(build_client_config(&m).err(), Some(StartupError::EmptyTrustStore));
}

#[test]
fn alpn_is_h2_alone() {
    assert_eq!(alpn_protocols(), vec![b"h2".to_vec()]);
}

#[test]
fn server_config_builds_with_h2() {
    let cfg = build_server_config(&material()).unwrap();
    assert_eq!(cfg.alpn_protocols, vec![b"h2".to_vec()]);
}

#[test]
fn client_config_builds_with_h2() {
    let cfg = build_client_config(&material()).unwrap();
    assert_eq!(cfg.alpn_protocols, vec![b"h2".to_vec()]);
}

#[test]
fn server_config_with_empty_ca_fails() {
    let mut m = material();
    m.ca = Vec::new();
    assert_eq!(build_server_config(&m).err(), Some(StartupError::EmptyTrustStore));
    assert_eq!(build_client_config(&m).err(), Some(StartupError::EmptyTrustStore));
}

#[test]
fn server_config_without_certificate_fails() {
    let mut m = material();
    m.server_cert = Vec::new();
    assert_eq!(build_server_config(&m).err(), Some(StartupError::MissingCertificate));
}

#[test]
fn client_config_without_key_fails() {
    let mut m = material();
    m.client_key = CLIENT_CERT.as_bytes().to_vec();
    assert_eq!(build_client_config(&m).err(), Some(StartupError::MissingKey));
}

#[test]
fn server_config_with_mismatched_key_is_rejected() {
    let mut m = material();
    m.server_key = key_pem(&CLIENT_KEY_DER).into_bytes();
    assert_eq!(build_server_config(&m).err(), Some(StartupError::Rejected));
}

#[test]
fn proxy_new_keeps_config() {
    let p = Proxy::new(config(), &material()).unwrap();
    assert_eq!(p.config().upstream, "localhost:9443");
    assert_eq!(p.server_config().alpn_protocols, vec![b"h2".to_vec()]);
    assert_eq!(p.client_config().alpn_protocols, vec![b"h2".to_vec()]);
}

#[test]
fn proxy_new_with_junk_ca_fails_before_binding() {
    let mut m = material();
    m.ca = JUNK_CERT.as_bytes().to_vec();
    assert_eq!(Proxy::new(config(), &m).err(), Some(StartupError::EmptyTrustStore));
}
