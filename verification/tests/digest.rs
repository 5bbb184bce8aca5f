use dislog_hal::toy::ByteSum;
use dislog_hal::Hasher;

fn digest(chunks: &[&[u8]]) -> Vec<u8> {
    let mut hasher = ByteSum::new();
    for chunk in chunks {
        hasher.update(chunk);
    }
    hasher.finalize()
}

#[test]
fn digest_of_nothing() {
    assert_eq!(ByteSum::new().finalize(), vec![0u8]);
    assert_eq!(digest(&[b""]), vec![0u8]);
}

#[test]
fn digest_is_the_sum_modulo_256() {
    assert_eq!(digest(&[b"a"]), vec![0x61u8]);
    assert_eq!(digest(&[b"ab"]), vec![0xc3u8]);
    assert_eq!(digest(&[&[200, 100]]), vec![44u8]);
    assert_eq!(digest(&[&[255, 1]]), vec![0u8]);
    assert_eq!(digest(&[&[1, 2, 3, 4]]), vec![10u8]);
}

#[test]
fn digest_does_not_depend_on_the_chunking() {
    let mut whole = ByteSum::new();
    whole.update(b"ab");
    let mut split = ByteSum::new();
    split.update(b"a");
    split.update(b"b");
    assert_eq!(whole.finalize(), split.finalize());

    assert_eq!(digest(&[b"hello world"]), digest(&[b"hello", b" ", b"world"]));
    assert_eq!(digest(&[b"hello world"]), digest(&[b"", b"hello w", b"", b"orld"]));
    assert_eq!(digest(&[&[250, 250, 250]]), digest(&[&[250], &[250, 250]]));
}

#[test]
fn digest_depends_on_the_content() {
    assert!(digest(&[b"ab"]) != digest(&[b"ac"]));
    assert!(digest(&[b"a", b"b"]) != digest(&[b"a"]));
}

#[test]
fn digest_has_a_fixed_size_and_a_hex_form() {
    assert_eq!(digest(&[]).len(), 1);
    assert_eq!(digest(&[b"a long message, much longer than the digest"]).len(), 1);
    assert_eq!(hex::encode(digest(&[b"ab"])), "c3");
    assert_eq!(hex::decode("c3").unwrap(), digest(&[b"a", b"b"]));
}
