use afterparty::signature::{decode_signature, verify_signature, HMAC_INPUT_LIMIT, PREFIX_LEN, TAG_LEN};
use afterparty::{AuthenticateHook, Delivery, Hook};
use ring::hmac;
use std::sync::Arc;
use std::sync::Mutex;

const ZEN: &str = r#"{"zen": "Approachable is better than simple."}"#;
const ZEN_SIGNATURE: &str = "sha1=4471180c43c722dcd4cd4445dd1ec771bebd9b8e";

fn counting(count: &Arc<Mutex<usize>>) -> impl Fn(&Delivery) + Send + Sync + 'static {
    let count = Arc::clone(count);
    move |_: &Delivery| *count.lock().unwrap() += 1
}

#[test]
fn authenticate_signatures() {
    let authenticated = AuthenticateHook::new("secret", |_: &Delivery| {});
    let payload = r#"{"zen": "Approachable is better than simple."}"#;
    let secret = "secret";
    let sbytes = secret.as_bytes();
    let pbytes = payload.as_bytes();
    let key = hmac::Key::new(hmac::HMAC_SHA1_FOR_LEGACY_USE_ONLY, sbytes);
    let signature = hex::encode(hmac::sign(&key, pbytes).as_ref());
    assert!(authenticated.authenticate(payload, format!("sha1={}", signature).as_ref()))
}

#[test]
fn known_signature_is_authentic() {
    assert!(verify_signature(b"secret", ZEN.as_bytes(), ZEN_SIGNATURE.as_bytes()));
    assert!(verify_signature(
        b"key",
        b"The quick brown fox jumps over the lazy dog",
        b"sha1=de7c9b85b8b78aa6bc8a7a36f70a90701c9db4d9"
    ));
    assert!(verify_signature(b"", b"", b"sha1=fbdb1d1b18aa6c08324b7d64b71fb76370690e1d"));
}

#[test]
fn secret_longer_than_a_block_is_hashed_first() {
    let secret = [b'k'; 100];
    assert!(verify_signature(&secret, b"abc", b"sha1=26030f686a1d565e024767e62c960a6434855442"));
}

#[test]
fn any_changed_character_breaks_the_signature() {
    let good = ZEN_SIGNATURE.as_bytes();
    for at in 0..good.len() {
        let mut tampered = good.to_vec();
        tampered[at] = if good[at] == b'0' { b'1' } else { b'0' };
        assert!(!verify_signature(b"secret", ZEN.as_bytes(), &tampered), "position {}", at);
        let mut garbled = good.to_vec();
        garbled[at] = b'x';
        assert!(!verify_signature(b"secret", ZEN.as_bytes(), &garbled), "position {}", at);
    }
}

#[test]
fn hex_digits_may_be_upper_case() {
    let upper = "sha1=4471180C43C722DCD4CD4445DD1EC771BEBD9B8E";
    let mixed = "sha1=4471180c43C722dcD4cd4445dd1ec771bebd9B8E";
    assert!(verify_signature(b"secret", ZEN.as_bytes(), upper.as_bytes()));
    assert!(verify_signature(b"secret", ZEN.as_bytes(), mixed.as_bytes()));
}

#[test]
fn prefix_is_required_and_exact() {
    let digits = &ZEN_SIGNATURE[PREFIX_LEN..];
    assert_eq!(5, PREFIX_LEN);
    assert!(!verify_signature(b"secret", ZEN.as_bytes(), digits.as_bytes()));
    for prefix in ["SHA1=", "sha1:", "sha2=", "sha256=", " sha1=", "sha1"] {
        let signature = format!("{}{}", prefix, digits);
        assert!(!verify_signature(b"secret", ZEN.as_bytes(), signature.as_bytes()), "{}", prefix);
    }
}

#[test]
fn short_and_odd_signatures_fail_without_panic() {
    for signature in ["", "s", "sha1", "sha1=", "sha1=4", "sha1=447", "sha1=44 71", "é", "sha1=é"] {
        assert!(!verify_signature(b"secret", ZEN.as_bytes(), signature.as_bytes()), "{:?}", signature);
    }
}

#[test]
fn truncated_or_extended_tag_fails() {
    let short = &ZEN_SIGNATURE[..ZEN_SIGNATURE.len() - 2];
    let long = format!("{}00", ZEN_SIGNATURE);
    assert!(!verify_signature(b"secret", ZEN.as_bytes(), short.as_bytes()));
    assert!(!verify_signature(b"secret", ZEN.as_bytes(), long.as_bytes()));
}

#[test]
fn wrong_secret_or_payload_fails() {
    assert!(!verify_signature(b"Secret", ZEN.as_bytes(), ZEN_SIGNATURE.as_bytes()));
    assert!(!verify_signature(b"secret", b"{}", ZEN_SIGNATURE.as_bytes()));
    let respaced = ZEN.replace(": ", ":");
    assert!(!verify_signature(b"secret", respaced.as_bytes(), ZEN_SIGNATURE.as_bytes()));
}

#[test]
fn decode_signature_gives_the_claimed_tag() {
    assert_eq!(Some(vec![0x00, 0xff, 0x1a, 0xb2]), decode_signature(b"sha1=00ff1aB2"));
    assert_eq!(Some(vec![]), decode_signature(b"sha1="));
    assert_eq!(Some(vec![0x0f]), decode_signature(b"sha1=0F"));
    assert_eq!(Some(vec![0xf0]), decode_signature(b"sha1=f0"));
    assert_eq!(None, decode_signature(b"sha1=0g"));
    assert_eq!(None, decode_signature(b"sha1=0"));
    assert_eq!(None, decode_signature(b"00ff"));
    assert_eq!(None, decode_signature(b"sha"));
}

#[test]
fn input_limit_is_what_sha1_can_count() {
    assert_eq!((1u64 << 61) - 65, HMAC_INPUT_LIMIT);
}

#[test]
fn authenticate_rejects_a_changed_signature() {
    let authenticated = AuthenticateHook::new("secret", |_: &Delivery| {});
    assert!(authenticated.authenticate(ZEN, ZEN_SIGNATURE));
    assert!(!authenticated.authenticate(ZEN, "sha1=4471180c43c722dcd4cd4445dd1ec771bebd9b8f"));
    assert!(!authenticated.authenticate(ZEN, "4471180c43c722dcd4cd4445dd1ec771bebd9b8e"));
    let other = AuthenticateHook::new("another secret", |_: &Delivery| {});
    assert!(!other.authenticate(ZEN, ZEN_SIGNATURE));
}

#[test]
fn signed_delivery_reaches_the_inner_hook() {
    let count = Arc::new(Mutex::new(0));
    let gate = AuthenticateHook::new("secret", counting(&count));
    let delivery = Delivery::new("1", "zen", ZEN, Some(ZEN_SIGNATURE)).unwrap();
    assert!(gate.lets_through(&delivery));
    gate.handle(&delivery);
    assert_eq!(1, *count.lock().unwrap());
}

#[test]
fn unsigned_delivery_never_reaches_the_inner_hook() {
    let count = Arc::new(Mutex::new(0));
    let gate = AuthenticateHook::new("secret", counting(&count));
    let delivery = Delivery::new("1", "zen", ZEN, None).unwrap();
    assert!(!gate.lets_through(&delivery));
    gate.handle(&delivery);
    assert_eq!(0, *count.lock().unwrap());
}

#[test]
fn badly_signed_delivery_never_reaches_the_inner_hook() {
    let count = Arc::new(Mutex::new(0));
    let gate = AuthenticateHook::new("secret", counting(&count));
    for signature in ["sha1=0000000000000000000000000000000000000000", "sha1=zz", "nonsense", ""] {
        let delivery = Delivery::new("1", "zen", ZEN, Some(signature)).unwrap();
        assert!(!gate.lets_through(&delivery));
        gate.handle(&delivery);
    }
    assert_eq!(0, *count.lock().unwrap());
}

#[test]
fn signature_is_checked_against_the_body_as_it_came() {
    let count = Arc::new(Mutex::new(0));
    let gate = AuthenticateHook::new("secret", counting(&count));
    let body = r#"{"ref":"refs/heads/main","before":"0000","after":"1111","commits":[],"repository":{"name":"r"},"pusher":{"name":"p"}}"#;
    let delivery = Delivery::new("1", "push", body, Some("sha1=0a552d15377cda742ac365f323584ef6d22c92a0")).unwrap();
    assert_eq!(body, delivery.unparsed_payload);
    gate.handle(&delivery);
    assert_eq!(1, *count.lock().unwrap());
}

#[test]
fn a_tag_that_has_not_twenty_bytes_never_verifies() {
    for signature in ["sha1=", "sha1=00", "sha1=4471180c43c722dcd4cd4445dd1ec771bebd9b", "sha1=4471180c43c722dcd4cd4445dd1ec771bebd9b8e00"] {
        assert!(!verify_signature(b"secret", ZEN.as_bytes(), signature.as_bytes()), "{}", signature);
        assert!(!verify_signature(b"", b"", signature.as_bytes()), "{}", signature);
    }
    assert_eq!(20, TAG_LEN);
    assert_eq!(Some(20), decode_signature(ZEN_SIGNATURE.as_bytes()).map(|tag| tag.len()));
}
