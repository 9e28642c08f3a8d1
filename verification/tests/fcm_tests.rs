use num_bigint::BigUint;
use nut_monitor_web::config::fcm_config_from_env;
use nut_monitor_web::fcm::{
    access_token_from_response, fcm_assertion, fcm_assertion_at, fcm_send_url, token_endpoint, FcmConfig, FcmError,
};

/// Deterministic pseudo-random numbers (xorshift64*) for building a test key.
struct Rng(u64);

impl Rng {
    fn next(&mut self) -> u64 {
        self.0 ^= self.0 >> 12;
        self.0 ^= self.0 << 25;
        self.0 ^= self.0 >> 27;
        self.0.wrapping_mul(0x2545_f491_4f6c_dd1d)
    }

    fn odd_1024_bits(&mut self) -> BigUint {
        let mut bytes = Vec::new();
        for _ in 0..16 {
            bytes.extend_from_slice(&self.next().to_be_bytes());
        }
        bytes[0] |= 0xc0;
        bytes[127] |= 1;
        BigUint::from_bytes_be(&bytes)
    }
}

fn probably_prime(n: &BigUint) -> bool {
    let zero = BigUint::from(0u32);
    let one = BigUint::from(1u32);
    for p in [3u32, 5, 7, 11, 13, 17, 19, 23, 29, 31, 37, 41, 43, 47, 53, 59, 61, 67, 71, 73, 79, 83, 89, 97] {
        if n % p == zero {
            return false;
        }
    }
    let n1 = n - &one;
    let mut d = n1.clone();
    let mut r = 0u32;
    while &d % 2u32 == zero {
        d = d >> 1;
        r += 1;
    }
    'bases: for a in [2u32, 3, 5, 7, 11, 13, 17] {
        let mut x = BigUint::from(a).modpow(&d, n);
        if x == one || x == n1 {
            continue;
        }
        for _ in 1..r {
            x = x.modpow(&BigUint::from(2u32), n);
            if x == n1 {
                continue 'bases;
            }
        }
        return false;
    }
    true
}

fn prime(rng: &mut Rng, e: &BigUint) -> BigUint {
    let zero = BigUint::from(0u32);
    let one = BigUint::from(1u32);
    loop {
        let c = rng.odd_1024_bits();
        if (&c - &one) % e != zero && probably_prime(&c) {
            return c;
        }
    }
}

fn der_len(out: &mut Vec<u8>, len: usize) {
    if len < 128 {
        out.push(len as u8);
    } else if len < 256 {
        out.push(0x81);
        out.push(len as u8);
    } else {
        out.push(0x82);
        out.push((len >> 8) as u8);
        out.push(len as u8);
    }
}

fn der_uint(out: &mut Vec<u8>, v: &BigUint) {
    let mut bytes = v.to_bytes_be();
    if bytes[0] & 0x80 != 0 {
        bytes.insert(0, 0);
    }
    out.push(0x02);
    der_len(out, bytes.len());
    out.extend_from_slice(&bytes);
}

fn base64(data: &[u8]) -> String {
    const ALPHABET: &[u8] = b"ABCDEFGHIJKLMNOPQRSTUVWXYZabcdefghijklmnopqrstuvwxyz0123456789+/";
    let mut s = String::new();
    for chunk in data.chunks(3) {
        let b = [chunk[0], *chunk.get(1).unwrap_or(&0), *chunk.get(2).unwrap_or(&0)];
        let n = ((b[0] as u32) << 16) | ((b[1] as u32) << 8) | b[2] as u32;
        for i in 0..4 {
            if i <= chunk.len() {
                s.push(ALPHABET[((n >> (18 - 6 * i)) & 63) as usize] as char);
            } else {
                s.push('=');
            }
        }
    }
    s
}

/// A 2048-bit RSA key in PKCS#1 PEM form, built afresh from a fixed seed so
/// that no key material is stored with the tests.
fn test_key_pem() -> String {
    let mut rng = Rng(0x9e37_79b9_7f4a_7c15);
    let e = BigUint::from(65537u32);
    let one = BigUint::from(1u32);
    let a = prime(&mut rng, &e);
    let mut b = prime(&mut rng, &e);
    while b == a {
        b = prime(&mut rng, &e);
    }
    let (p, q) = if a > b { (a, b) } else { (b, a) };
    let n = &p * &q;
    let phi = (&p - &one) * (&q - &one);
    let d = e.modinv(&phi).unwrap();
    let dp = &d % (&p - &one);
    let dq = &d % (&q - &one);
    let qinv = q.modinv(&p).unwrap();
    let mut body = Vec::new();
    for v in [&BigUint::from(0u32), &n, &e, &d, &p, &q, &dp, &dq, &qinv] {
        der_uint(&mut body, v);
    }
    let mut der = vec![0x30];
    der_len(&mut der, body.len());
    der.extend_from_slice(&body);
    let label = ["RSA", "PRIVATE", "KEY"].join(" ");
    let mut pem = format!("-----BEGIN {}-----\n", label);
    let text = base64(&der);
    for line in text.as_bytes().chunks(64) {
        pem.push_str(std::str::from_utf8(line).unwrap());
        pem.push('\n');
    }
    pem.push_str(&format!("-----END {}-----\n", label));
    pem
}

fn config(key: &str) -> FcmConfig {
    FcmConfig {
        project_id: "demo-project".to_string(),
        client_email: "svc@example.iam.gserviceaccount.com".to_string(),
        private_key: key.to_string(),
    }
}

#[test]
fn assertion_has_header_and_claims() {
    let key = test_key_pem();
    let token = fcm_assertion_at(&config(&key), 1700000000).unwrap();
    let parts: Vec<&str> = token.split('.').collect();
    assert_eq!(parts.len(), 3);
    assert_eq!(parts[0], "eyJ0eXAiOiJKV1QiLCJhbGciOiJSUzI1NiJ9");
    assert_eq!(
        parts[1],
        "eyJhdWQiOiJodHRwczovL29hdXRoMi5nb29nbGVhcGlzLmNvbS90b2tlbiIsImV4cCI6MTcwMDAwMzYwMCwiaWF0IjoxNzAwMDAwMDAwLCJpc3MiOiJzdmNAZXhhbXBsZS5pYW0uZ3NlcnZpY2VhY2NvdW50LmNvbSIsInNjb3BlIjoiaHR0cHM6Ly93d3cuZ29vZ2xlYXBpcy5jb20vYXV0aC9maXJlYmFzZS5tZXNzYWdpbmcifQ"
    );
    assert!(parts[2].len() > 300);
}

#[test]
fn assertion_is_deterministic() {
    let key = test_key_pem();
    let a = fcm_assertion_at(&config(&key), 1700000000).unwrap();
    let b = fcm_assertion_at(&config(&key), 1700000000).unwrap();
    assert_eq!(a, b);
    let c = fcm_assertion_at(&config(&key), 1700000001).unwrap();
    assert_ne!(a, c);
}

#[test]
fn assertion_from_escaped_key() {
    let key = test_key_pem();
    let escaped = key.replace('\n', "\\n");
    let cfg = fcm_config_from_env(
        Some("demo-project".to_string()),
        Some("svc@example.iam.gserviceaccount.com".to_string()),
        Some(escaped),
    )
    .unwrap();
    assert_eq!(cfg.private_key, key);
    assert!(fcm_assertion(&cfg).is_ok());
}

#[test]
fn bad_key_fails_signing() {
    assert_eq!(fcm_assertion_at(&config("not a key"), 1700000000), Err(FcmError::Signing));
    assert_eq!(fcm_assertion(&config("")), Err(FcmError::Signing));
}

#[test]
fn clock_out_of_range() {
    let key = test_key_pem();
    let last = 9_223_372_036_854_772_207u64;
    assert_eq!(fcm_assertion_at(&config(&key), last + 1), Err(FcmError::ClockOutOfRange));
    assert_eq!(fcm_assertion_at(&config("not a key"), u64::MAX), Err(FcmError::ClockOutOfRange));
    assert_eq!(fcm_assertion_at(&config("not a key"), last), Err(FcmError::Signing));
    let token = fcm_assertion_at(&config(&key), last).unwrap();
    assert_eq!(token.split('.').count(), 3);
}

#[test]
fn endpoints() {
    assert_eq!(
        fcm_send_url("demo-project"),
        "https://fcm.googleapis.com/v1/projects/demo-project/messages:send"
    );
    assert_eq!(token_endpoint(), "https://oauth2.googleapis.com/token");
}

#[test]
fn access_token_extraction() {
    assert_eq!(
        access_token_from_response(r#"{"access_token":"ya29.abc","expires_in":3599}"#),
        Ok("ya29.abc".to_string())
    );
    assert_eq!(
        access_token_from_response(r#"{"error":"invalid_grant"}"#),
        Err(FcmError::MissingAccessToken)
    );
    assert_eq!(access_token_from_response(r#"{"access_token":5}"#), Err(FcmError::MissingAccessToken));
    assert_eq!(access_token_from_response("not json"), Err(FcmError::MissingAccessToken));
    assert_eq!(access_token_from_response(r#"["access_token"]"#), Err(FcmError::MissingAccessToken));
}
