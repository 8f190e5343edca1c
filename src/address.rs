//! The CREATE2 address formula: `keccak256(0xff ++ deployer ++ salt ++ keccak256(init_code))[12..]`.

use vstd::prelude::*;

verus! {

/// Number of bytes in an account address.
pub const ADDRESS_LEN: usize = 20;

/// The one-byte tag that opens every CREATE2 hash input.
pub const CREATE2_TAG: u8 = 0xff;

/// What Keccak-256 yields on the given bytes.
pub uninterp spec fn keccak_of(data: Seq<u8>) -> Seq<u8>;

/// The bytes hashed to derive an address, opened by an arbitrary tag byte.
pub open spec fn tagged_preimage(tag: u8, deployer: Seq<u8>, salt: Seq<u8>, code_hash: Seq<u8>) -> Seq<u8> {
    seq![tag] + deployer + salt + code_hash
}

/// The bytes hashed to derive a CREATE2 address.
pub open spec fn create2_preimage(deployer: Seq<u8>, salt: Seq<u8>, code_hash: Seq<u8>) -> Seq<u8> {
    tagged_preimage(CREATE2_TAG, deployer, salt, code_hash)
}

/// The CREATE2 address: the last twenty bytes of the hash of the preimage.
pub open spec fn create2_address(deployer: Seq<u8>, salt: Seq<u8>, code_hash: Seq<u8>) -> Seq<u8> {
    keccak_of(create2_preimage(deployer, salt, code_hash)).subrange(12, 32)
}

/// The CREATE2 address of the given init code, its hash taken first.
pub open spec fn create2_address_of_code(deployer: Seq<u8>, salt: Seq<u8>, init_code: Seq<u8>) -> Seq<u8> {
    create2_address(deployer, salt, keccak_of(init_code))
}

/// Relies on `ethers_core::utils::keccak256`: the Keccak-256 digest of the bytes.
#[verifier::external_body]
fn keccak256(data: &[u8]) -> (r: [u8; 32])
    ensures
        r@ == keccak_of(data@),
{
    ethers_core::utils::keccak256(data)
}

/// Relies on `ethers_core::utils::get_create2_address_from_hash`, whose body
/// hashes `0xff ++ from ++ salt ++ init_code_hash` with `keccak256` and keeps
/// bytes 12 to 31 of the digest.
#[verifier::external_body]
fn create2_from_hash(deployer: &[u8; 20], salt: &[u8; 32], code_hash: &[u8; 32]) -> (r: [u8; 20])
    ensures
        r@ == create2_address(deployer@, salt@, code_hash@),
{
    ethers_core::utils::get_create2_address_from_hash(
        ethers_core::types::Address::from(*deployer),
        salt,
        code_hash,
    ).to_fixed_bytes()
}

/// Hashes the init code once, ahead of any search.
pub fn init_code_hash(init_code: &[u8]) -> (r: [u8; 32])
    ensures
        r@ == keccak_of(init_code@),
{
    keccak256(init_code)
}

/// Derives the CREATE2 address of a deployment from the deployer, the salt
/// and the hash of the init code.
pub fn compute(deployer: &[u8; 20], salt: &[u8; 32], code_hash: &[u8; 32]) -> (r: [u8; 20])
    ensures
        r@ == create2_address(deployer@, salt@, code_hash@),
{
    create2_from_hash(deployer, salt, code_hash)
}

/// Derives the CREATE2 address of a deployment straight from its init code.
pub fn compute_from_code(deployer: &[u8; 20], salt: &[u8; 32], init_code: &[u8]) -> (r: [u8; 20])
    ensures
        r@ == create2_address_of_code(deployer@, salt@, init_code@),
{
    let code_hash = init_code_hash(init_code);
    compute(deployer, salt, &code_hash)
}

/// Derivation is a function of its inputs: equal deployers, salts and init
/// codes give equal addresses.
pub proof fn lemma_derivation_deterministic(
    deployer1: Seq<u8>, salt1: Seq<u8>, code1: Seq<u8>,
    deployer2: Seq<u8>, salt2: Seq<u8>, code2: Seq<u8>,
)
    requires
        deployer1 == deployer2,
        salt1 == salt2,
        code1 == code2,
    ensures
        create2_address_of_code(deployer1, salt1, code1)
            == create2_address_of_code(deployer2, salt2, code2),
{
}

/// The tag byte takes part in the hash input: any other tag gives another
/// sequence of bytes to hash than the CREATE2 tag does.
pub proof fn lemma_tag_changes_preimage(tag: u8, deployer: Seq<u8>, salt: Seq<u8>, code_hash: Seq<u8>)
    requires
        tag != CREATE2_TAG,
    ensures
        tagged_preimage(tag, deployer, salt, code_hash) != create2_preimage(deployer, salt, code_hash),
{
    assert(tagged_preimage(tag, deployer, salt, code_hash)[0] == tag);
    assert(create2_preimage(deployer, salt, code_hash)[0] == CREATE2_TAG);
}

} // verus!
