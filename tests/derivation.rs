use vanity::address::{compute, compute_from_code, init_code_hash};
use vanity::encoding::{parse_deployer, to_hex};

fn address_from_text(s: &str) -> [u8; 20] {
    parse_deployer(s).unwrap()
}

#[test]
fn eip1014_zero_deployer_vector() {
    let deployer = [0u8; 20];
    let salt = [0u8; 32];
    let hash = init_code_hash(&[0x00]);
    let address = compute(&deployer, &salt, &hash);
    assert_eq!(address, address_from_text("0x4D1A2e2bB4F88F0250f26Ffff098B0b30B26BF38"));
    assert_eq!(to_hex(&address), "4d1a2e2bb4f88f0250f26ffff098b0b30b26bf38");
}

#[test]
fn eip1014_deadbeef_deployer_vector() {
    let deployer = address_from_text("0xdeadbeef00000000000000000000000000000000");
    let salt = [0u8; 32];
    let address = compute_from_code(&deployer, &salt, &[0x00]);
    assert_eq!(address, address_from_text("0xB928f69Bb1D91Cd65274e3c79d8986362984fDA3"));
}

#[test]
fn eip1014_cafebabe_salt_vector() {
    let deployer = address_from_text("0x00000000000000000000000000000000deadbeef");
    let mut salt = [0u8; 32];
    salt[28..].copy_from_slice(&[0xca, 0xfe, 0xba, 0xbe]);
    let address = compute_from_code(&deployer, &salt, &[0xde, 0xad, 0xbe, 0xef]);
    assert_eq!(address, address_from_text("0x60f3f640a8508fC6a86d45DF051962668E1e8AC7"));
}

#[test]
fn eip1014_feed_salt_vector() {
    let deployer = address_from_text("0xdeadbeef00000000000000000000000000000000");
    let mut salt = [0u8; 32];
    salt[12] = 0xfe;
    salt[13] = 0xed;
    let address = compute_from_code(&deployer, &salt, &[0x00]);
    assert_eq!(address, address_from_text("0xD04116cDd17beBE565EB2422F2497E06cC1C9833"));
}

#[test]
fn eip1014_deadbeef_init_code_vector() {
    let deployer = [0u8; 20];
    let salt = [0u8; 32];
    let address = compute_from_code(&deployer, &salt, &[0xde, 0xad, 0xbe, 0xef]);
    assert_eq!(address, address_from_text("0x70f2b2914A2a4b783FaEFb75f459A580616Fcb5e"));
}

#[test]
fn eip1014_empty_init_code_vector() {
    let deployer = address_from_text("0x0000000000000000000000000000000000000000");
    let salt = [0u8; 32];
    let address = compute_from_code(&deployer, &salt, &[]);
    assert_eq!(address, address_from_text("0xE33C0C7F7df4809055C3ebA6c09CFe4BaF1BD9e0"));
}

#[test]
fn derivation_is_deterministic() {
    let deployer = address_from_text("0x00000000000000000000000000000000deadbeef");
    let mut salt = [0u8; 32];
    salt[0] = 7;
    salt[31] = 9;
    let code = [0x60u8, 0x80, 0x60, 0x40, 0x52];
    let hash = init_code_hash(&code);
    let first = compute(&deployer, &salt, &hash);
    let second = compute(&deployer, &salt, &hash);
    assert_eq!(first, second);
    assert_eq!(first, compute_from_code(&deployer, &salt, &code));
}

#[test]
fn init_code_hash_is_keccak() {
    let hash = init_code_hash(&[]);
    assert_eq!(
        to_hex(&hash),
        "c5d2460186f7233c927e7db2dcc703c0e500b653ca82273b7bfad8045d85a470"
    );
}

fn address_with_tag(tag: u8, deployer: &[u8; 20], salt: &[u8; 32], hash: &[u8; 32]) -> [u8; 20] {
    let mut input = vec![tag];
    input.extend_from_slice(deployer);
    input.extend_from_slice(salt);
    input.extend_from_slice(hash);
    let digest = ethers_core::utils::keccak256(&input);
    let mut out = [0u8; 20];
    out.copy_from_slice(&digest[12..]);
    out
}

#[test]
fn tag_byte_changes_address() {
    let deployer = [0x11u8; 20];
    let salt = [0x22u8; 32];
    let hash = init_code_hash(&[0x00]);
    let address = compute(&deployer, &salt, &hash);
    assert_eq!(address, address_with_tag(0xff, &deployer, &salt, &hash));
    for tag in [0x00u8, 0x01, 0xfe] {
        assert_ne!(address, address_with_tag(tag, &deployer, &salt, &hash));
    }
}
