use tsdata_ingest::datagen::{commit_hash_of_bytes, generate_random_looking_git_commit_hash};

#[test]
fn hex_rendering_is_exact() {
    let bytes = vec![0x00, 0xff, 0x12, 0x34, 0x56, 0x78, 0x9a, 0xbc];
    assert_eq!(commit_hash_of_bytes(&bytes), "00ff123456789abc");
}

#[test]
fn random_hash_has_commit_shape() {
    let h = generate_random_looking_git_commit_hash();
    assert_eq!(h.len(), 16);
    assert!(h.chars().all(|c| c.is_ascii_hexdigit() && !c.is_ascii_uppercase()));
}

#[test]
fn random_hashes_differ() {
    let a = generate_random_looking_git_commit_hash();
    let b = generate_random_looking_git_commit_hash();
    let c = generate_random_looking_git_commit_hash();
    assert!(a != b || b != c);
}
