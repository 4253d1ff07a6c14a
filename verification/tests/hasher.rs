use spaghetti_rs::hasher::hash_secret;

#[test]
fn hash_of_abc_is_the_base64_of_its_sha256() {
    assert_eq!(hash_secret(b"abc"), "ungWv48Bz+pBQUDeXa4iI7ADYaOWF3qctBD/YfIAFa0=");
}

#[test]
fn hash_of_the_empty_secret_is_defined() {
    assert_eq!(hash_secret(b""), "47DEQpj8HBSa+/TImW+5JCeuQeRkm5NMpJWZG3hSuFU=");
}

#[test]
fn hash_is_not_the_secret() {
    let secret = b"correct horse battery staple";
    let hash = hash_secret(secret);
    assert_ne!(hash.as_bytes(), &secret[..]);
    assert_eq!(hash.len(), 44);
}

#[test]
fn hashing_twice_gives_the_same_hash() {
    let secrets: [&[u8]; 5] = [b"", b"a", b"abc", b"view-key", &[0xff, 0x00, 0x80]];
    for secret in secrets {
        assert_eq!(hash_secret(secret), hash_secret(secret));
    }
}

#[test]
fn different_secrets_give_different_hashes() {
    let mut hashes: Vec<String> = Vec::new();
    for i in 0..200u32 {
        hashes.push(hash_secret(format!("secret-{i}").as_bytes()));
    }
    for i in 0..hashes.len() {
        for j in (i + 1)..hashes.len() {
            assert_ne!(hashes[i], hashes[j]);
        }
    }
    assert_ne!(hash_secret(b"abc"), hash_secret(b"abd"));
    assert_ne!(hash_secret(b"abc"), hash_secret(b"ABC"));
    assert_ne!(hash_secret(b""), hash_secret(b" "));
}
