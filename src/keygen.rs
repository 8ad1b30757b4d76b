//! BLS key pairs over either group of BLS12-381, optionally blinded.
//!
//! The secret key is derived from a seed with HKDF-SHA256 as in the BLS
//! signature draft. A blinded key adds `blinding_g ^ r` to the public key,
//! where `r` is derived the same way from the blinding generator followed by
//! the seed (or by fresh random bytes when no seed was given).
use vstd::prelude::*;
use pairing_plus::bls12_381::{Fr, G1, G2};
use pairing_plus::hash_to_field::BaseFromRO;
use pairing_plus::serdes::SerDes;
use pairing_plus::CurveProjective;
use rand::RngCore;
use sha2::digest::generic_array::GenericArray;
use crate::error::BbsError;

verus! {

/// Output keying material of HKDF-SHA256.
pub uninterp spec fn hkdf_sha256_okm(salt: Seq<u8>, ikm: Seq<u8>, info: Seq<u8>, len: nat) -> Seq<u8>;

/// The scalar reduced from 48 bytes of keying material, compressed.
pub uninterp spec fn scalar_of_okm(okm: Seq<u8>) -> Seq<u8>;

/// The bytes decode as a scalar (`Fr::deserialize` succeeds).
pub uninterp spec fn scalar_decodes(s: Seq<u8>) -> bool;

/// The bytes decode as a compressed G1 point (`G1::deserialize` succeeds).
pub uninterp spec fn g1_point_decodes(p: Seq<u8>) -> bool;

/// The bytes decode as a compressed G2 point (`G2::deserialize` succeeds).
pub uninterp spec fn g2_point_decodes(p: Seq<u8>) -> bool;

/// `g1 ^ s`, compressed (`None`: `s` does not decode).
pub uninterp spec fn g1_public_of(s: Seq<u8>) -> Option<Seq<u8>>;

/// `g2 ^ s`, compressed (`None`: `s` does not decode).
pub uninterp spec fn g2_public_of(s: Seq<u8>) -> Option<Seq<u8>>;

/// `p ^ s` in G1, compressed (`None`: an argument does not decode).
pub uninterp spec fn g1_mul_of(p: Seq<u8>, s: Seq<u8>) -> Option<Seq<u8>>;

/// `p ^ s` in G2, compressed (`None`: an argument does not decode).
pub uninterp spec fn g2_mul_of(p: Seq<u8>, s: Seq<u8>) -> Option<Seq<u8>>;

/// `a * b` in G1, compressed (`None`: an argument does not decode).
pub uninterp spec fn g1_sum_of(a: Seq<u8>, b: Seq<u8>) -> Option<Seq<u8>>;

/// `a * b` in G2, compressed (`None`: an argument does not decode).
pub uninterp spec fn g2_sum_of(a: Seq<u8>, b: Seq<u8>) -> Option<Seq<u8>>;

/// Relies on `rand::thread_rng` and `RngCore::fill_bytes`.
#[verifier::external_body]
fn random_seed(len: usize) -> (r: Vec<u8>)
    ensures
        r@.len() == len,
{
    let mut seed = vec![0u8; len];
    rand::thread_rng().fill_bytes(seed.as_mut_slice());
    seed
}

/// Relies on `hkdf::Hkdf::<sha2::Sha256>::new` and `expand`, which fails only
/// for an output longer than 255 hash blocks.
#[verifier::external_body]
fn hkdf_sha256(salt: &[u8], ikm: &[u8], info: &[u8], len: usize) -> (r: Vec<u8>)
    requires
        len <= 255 * 32,
    ensures
        r@ == hkdf_sha256_okm(salt@, ikm@, info@, len as nat),
        r@.len() == len,
{
    let mut okm = vec![0u8; len];
    hkdf::Hkdf::<sha2::Sha256>::new(Some(salt), ikm).expand(info, okm.as_mut_slice()).unwrap();
    okm
}

/// Relies on `Fr::from_okm`, which reduces 48 bytes to a field element, and
/// on `Fr::serialize`, whose canonical encoding decodes again.
#[verifier::external_body]
fn scalar_from_okm(okm: &[u8]) -> (r: Vec<u8>)
    requires
        okm@.len() == 48,
    ensures
        r@ == scalar_of_okm(okm@),
        r@.len() == 32,
        scalar_decodes(r@),
{
    let mut out = Vec::new();
    Fr::from_okm(GenericArray::from_slice(okm)).serialize(&mut out, true).unwrap();
    out
}

/// Relies on `G1::deserialize`.
#[verifier::external_body]
fn decodes_g1_point(p: &[u8]) -> (r: bool)
    ensures
        r == g1_point_decodes(p@),
{
    G1::deserialize(&mut &p[..], true).is_ok()
}

/// Relies on `G2::deserialize`.
#[verifier::external_body]
fn decodes_g2_point(p: &[u8]) -> (r: bool)
    ensures
        r == g2_point_decodes(p@),
{
    G2::deserialize(&mut &p[..], true).is_ok()
}

/// Relies on `G1::one`, `CurveProjective::mul_assign` and `G1::serialize`,
/// whose 48-byte encoding decodes again.
#[verifier::external_body]
fn g1_public(s: &[u8]) -> (r: Option<Vec<u8>>)
    ensures
        r matches Some(p) ==> g1_public_of(s@) == Some(p@) && p@.len() == 48 && g1_point_decodes(p@),
        r is None <==> g1_public_of(s@) is None,
        scalar_decodes(s@) ==> r is Some,
{
    let mut p = G1::one();
    p.mul_assign(Fr::deserialize(&mut &s[..], true).ok()?);
    let mut out = Vec::new();
    p.serialize(&mut out, true).ok()?;
    Some(out)
}

/// Relies on `G2::one`, `CurveProjective::mul_assign` and `G2::serialize`,
/// whose 96-byte encoding decodes again.
#[verifier::external_body]
fn g2_public(s: &[u8]) -> (r: Option<Vec<u8>>)
    ensures
        r matches Some(p) ==> g2_public_of(s@) == Some(p@) && p@.len() == 96 && g2_point_decodes(p@),
        r is None <==> g2_public_of(s@) is None,
        scalar_decodes(s@) ==> r is Some,
{
    let mut p = G2::one();
    p.mul_assign(Fr::deserialize(&mut &s[..], true).ok()?);
    let mut out = Vec::new();
    p.serialize(&mut out, true).ok()?;
    Some(out)
}

/// Relies on `CurveProjective::mul_assign` in G1.
#[verifier::external_body]
fn g1_mul(p: &[u8], s: &[u8]) -> (r: Option<Vec<u8>>)
    ensures
        r matches Some(q) ==> g1_mul_of(p@, s@) == Some(q@) && q@.len() == 48 && g1_point_decodes(q@),
        r is None <==> g1_mul_of(p@, s@) is None,
        g1_point_decodes(p@) && scalar_decodes(s@) ==> r is Some,
{
    let mut q = G1::deserialize(&mut &p[..], true).ok()?;
    q.mul_assign(Fr::deserialize(&mut &s[..], true).ok()?);
    let mut out = Vec::new();
    q.serialize(&mut out, true).ok()?;
    Some(out)
}

/// Relies on `CurveProjective::mul_assign` in G2.
#[verifier::external_body]
fn g2_mul(p: &[u8], s: &[u8]) -> (r: Option<Vec<u8>>)
    ensures
        r matches Some(q) ==> g2_mul_of(p@, s@) == Some(q@) && q@.len() == 96 && g2_point_decodes(q@),
        r is None <==> g2_mul_of(p@, s@) is None,
        g2_point_decodes(p@) && scalar_decodes(s@) ==> r is Some,
{
    let mut q = G2::deserialize(&mut &p[..], true).ok()?;
    q.mul_assign(Fr::deserialize(&mut &s[..], true).ok()?);
    let mut out = Vec::new();
    q.serialize(&mut out, true).ok()?;
    Some(out)
}

/// Relies on `CurveProjective::add_assign` in G1.
#[verifier::external_body]
fn g1_add(a: &[u8], b: &[u8]) -> (r: Option<Vec<u8>>)
    ensures
        r matches Some(q) ==> g1_sum_of(a@, b@) == Some(q@) && q@.len() == 48,
        r is None <==> g1_sum_of(a@, b@) is None,
        g1_point_decodes(a@) && g1_point_decodes(b@) ==> r is Some,
{
    let mut q = G1::deserialize(&mut &a[..], true).ok()?;
    q.add_assign(&G1::deserialize(&mut &b[..], true).ok()?);
    let mut out = Vec::new();
    q.serialize(&mut out, true).ok()?;
    Some(out)
}

/// Relies on `CurveProjective::add_assign` in G2.
#[verifier::external_body]
fn g2_add(a: &[u8], b: &[u8]) -> (r: Option<Vec<u8>>)
    ensures
        r matches Some(q) ==> g2_sum_of(a@, b@) == Some(q@) && q@.len() == 96,
        r is None <==> g2_sum_of(a@, b@) is None,
        g2_point_decodes(a@) && g2_point_decodes(b@) ==> r is Some,
{
    let mut q = G2::deserialize(&mut &a[..], true).ok()?;
    q.add_assign(&G2::deserialize(&mut &b[..], true).ok()?);
    let mut out = Vec::new();
    q.serialize(&mut out, true).ok()?;
    Some(out)
}

/// The group a key lives in.
#[derive(Clone, Copy, Debug, PartialEq, Eq, Structural)]
pub enum Curve {
    G1,
    G2,
}

/// A generated key pair. `blinding_factor` is set for a blinded key.
pub struct KeyPair {
    pub public_key: Vec<u8>,
    pub secret_key: Vec<u8>,
    pub blinding_factor: Option<Vec<u8>>,
}

/// The HKDF salt of key generation.
pub open spec fn keygen_salt() -> Seq<u8> {
    seq![66u8, 76, 83, 45, 83, 73, 71, 45, 75, 69, 89, 71, 69, 78, 45, 83, 65, 76, 84, 45]
}

/// The secret scalar derived from a seed.
pub open spec fn secret_from_seed(seed: Seq<u8>) -> Seq<u8> {
    scalar_of_okm(hkdf_sha256_okm(keygen_salt(), seed.push(0u8), seq![0u8, 48u8], 48))
}

/// The fixed blinding generator of each group, compressed.
pub open spec fn blinding_generator(curve: Curve) -> Seq<u8> {
    match curve {
        Curve::G1 => seq![
            185u8, 201, 5, 142, 138, 68, 184, 112, 20, 249, 139, 228, 225, 129, 141, 183, 24, 248,
            178, 213, 16, 31, 200, 158, 105, 131, 98, 95, 50, 31, 20, 184, 77, 124, 246, 225, 85,
            0, 73, 135, 162, 21, 238, 66, 109, 241, 115, 201,
        ],
        Curve::G2 => seq![
            169u8, 99, 222, 42, 223, 177, 22, 60, 244, 190, 210, 77, 112, 140, 228, 116, 50, 116,
            45, 32, 128, 178, 87, 62, 190, 46, 25, 168, 105, 143, 96, 197, 65, 206, 192, 0, 252,
            177, 151, 131, 233, 190, 115, 52, 19, 86, 223, 95, 17, 145, 205, 222, 199, 196, 118,
            215, 116, 43, 204, 66, 26, 252, 93, 80, 94, 99, 55, 60, 98, 126, 160, 31, 218, 4, 240,
            228, 1, 89, 210, 91, 221, 18, 244, 90, 1, 13, 133, 128, 167, 143, 106, 125, 38, 34,
            114, 243,
        ],
    }
}

/// `g ^ s` in the group.
pub open spec fn public_of(curve: Curve, s: Seq<u8>) -> Option<Seq<u8>> {
    match curve {
        Curve::G1 => g1_public_of(s),
        Curve::G2 => g2_public_of(s),
    }
}

/// `g ^ s * blinding_g ^ r` in the group.
pub open spec fn blinded_public_of(curve: Curve, s: Seq<u8>, r: Seq<u8>) -> Option<Seq<u8>> {
    match (public_of(curve, s), curve) {
        (Some(p), Curve::G1) => match g1_mul_of(blinding_generator(curve), r) {
            Some(b) => g1_sum_of(p, b),
            None => None,
        },
        (Some(p), Curve::G2) => match g2_mul_of(blinding_generator(curve), r) {
            Some(b) => g2_sum_of(p, b),
            None => None,
        },
        (None, _) => None,
    }
}

/// Derives the secret scalar from a seed.
pub fn gen_sk(msg: &[u8]) -> (r: Vec<u8>)
    ensures
        r@ == secret_from_seed(msg@),
        r@.len() == 32,
        scalar_decodes(r@),
{
    let mut ikm: Vec<u8> = Vec::new();
    let mut i: usize = 0;
    while i < msg.len()
        invariant
            i <= msg.len(),
            ikm@ == msg@.subrange(0, i as int),
        decreases msg.len() - i,
    {
        ikm.push(msg[i]);
        i = i + 1;
        assert(ikm@ =~= msg@.subrange(0, i as int));
    }
    ikm.push(0u8);
    assert(ikm@ =~= msg@.push(0u8));
    let salt: Vec<u8> = vec![66u8, 76, 83, 45, 83, 73, 71, 45, 75, 69, 89, 71, 69, 78, 45, 83, 65, 76, 84, 45];
    assert(salt@ =~= keygen_salt());
    let info: Vec<u8> = vec![0u8, 48u8];
    assert(info@ =~= seq![0u8, 48u8]);
    let okm = hkdf_sha256(salt.as_slice(), ikm.as_slice(), info.as_slice(), 48);
    scalar_from_okm(okm.as_slice())
}

/// The blinding generator of a group.
fn blinding_generator_bytes(curve: Curve) -> (r: Vec<u8>)
    ensures
        r@ == blinding_generator(curve),
{
    let r: Vec<u8> = match curve {
        Curve::G1 => vec![
            185u8, 201, 5, 142, 138, 68, 184, 112, 20, 249, 139, 228, 225, 129, 141, 183, 24, 248,
            178, 213, 16, 31, 200, 158, 105, 131, 98, 95, 50, 31, 20, 184, 77, 124, 246, 225, 85,
            0, 73, 135, 162, 21, 238, 66, 109, 241, 115, 201,
        ],
        Curve::G2 => vec![
            169u8, 99, 222, 42, 223, 177, 22, 60, 244, 190, 210, 77, 112, 140, 228, 116, 50, 116,
            45, 32, 128, 178, 87, 62, 190, 46, 25, 168, 105, 143, 96, 197, 65, 206, 192, 0, 252,
            177, 151, 131, 233, 190, 115, 52, 19, 86, 223, 95, 17, 145, 205, 222, 199, 196, 118,
            215, 116, 43, 204, 66, 26, 252, 93, 80, 94, 99, 55, 60, 98, 126, 160, 31, 218, 4, 240,
            228, 1, 89, 210, 91, 221, 18, 244, 90, 1, 13, 133, 128, 167, 143, 106, 125, 38, 34,
            114, 243,
        ],
    };
    assert(r@ =~= blinding_generator(curve));
    r
}

/// `g ^ s` in the group.
fn public_key_of(curve: Curve, s: &[u8]) -> (r: Option<Vec<u8>>)
    ensures
        r matches Some(p) ==> public_of(curve, s@) == Some(p@) && p@.len() == point_size(curve)
            && point_decodes(curve, p@),
        r is None <==> public_of(curve, s@) is None,
        scalar_decodes(s@) ==> r is Some,
{
    match curve {
        Curve::G1 => g1_public(s),
        Curve::G2 => g2_public(s),
    }
}

/// `g ^ s * blinding_g ^ r` in the group.
fn blinded_public_key_of(curve: Curve, s: &[u8], r: &[u8]) -> (out: Option<Vec<u8>>)
    ensures
        out matches Some(p) ==> blinded_public_of(curve, s@, r@) == Some(p@) && p@.len()
            == point_size(curve),
        out is None <==> blinded_public_of(curve, s@, r@) is None,
        scalar_decodes(s@) && scalar_decodes(r@) && point_decodes(curve, blinding_generator(curve))
            ==> out is Some,
{
    let p = match public_key_of(curve, s) {
        Some(p) => p,
        None => return None,
    };
    let base = blinding_generator_bytes(curve);
    match curve {
        Curve::G1 => match g1_mul(base.as_slice(), r) {
            Some(b) => g1_add(p.as_slice(), b.as_slice()),
            None => None,
        },
        Curve::G2 => match g2_mul(base.as_slice(), r) {
            Some(b) => g2_add(p.as_slice(), b.as_slice()),
            None => None,
        },
    }
}

/// The compressed size of a point of the group.
pub open spec fn point_size(curve: Curve) -> nat {
    match curve {
        Curve::G1 => 48,
        Curve::G2 => 96,
    }
}

/// The bytes decode as a point of the group.
pub open spec fn point_decodes(curve: Curve, p: Seq<u8>) -> bool {
    match curve {
        Curve::G1 => g1_point_decodes(p),
        Curve::G2 => g2_point_decodes(p),
    }
}

/// Whether the fixed blinding generator of the group decodes.
fn blinding_generator_decodes(curve: Curve, base: &[u8]) -> (r: bool)
    ensures
        r == point_decodes(curve, base@),
{
    match curve {
        Curve::G1 => decodes_g1_point(base),
        Curve::G2 => decodes_g2_point(base),
    }
}

/// The key pair derived from `seed` and, for a blinded key, from
/// `blinding_seed`: the secret key from the seed, the blinding factor from
/// the blinding generator followed by the blinding seed, and the public key
/// `g ^ sk`, times `blinding_g ^ r` when blinded.
pub open spec fn derived_key_pair(curve: Curve, seed: Seq<u8>, blinding_seed: Option<Seq<u8>>, k: KeyPair) -> bool {
    let sk = secret_from_seed(seed);
    &&& k.secret_key@ == sk
    &&& k.public_key@.len() == point_size(curve)
    &&& match blinding_seed {
        Some(b) => {
            let r = secret_from_seed(blinding_generator(curve) + b);
            &&& k.blinding_factor matches Some(f) && f@ == r
            &&& blinded_public_of(curve, sk, r) == Some(k.public_key@)
        },
        None => k.blinding_factor is None && public_of(curve, sk) == Some(k.public_key@),
    }
}

/// What deriving a key pair returns: the derived key pair, unless a blinded
/// key is asked for and the blinding generator does not decode.
pub open spec fn derive_outcome(
    curve: Curve,
    seed: Seq<u8>,
    blinding_seed: Option<Seq<u8>>,
    r: Result<KeyPair, BbsError>,
) -> bool {
    if blinding_seed is Some && !point_decodes(curve, blinding_generator(curve)) {
        r == Err::<KeyPair, BbsError>(BbsError::CryptographicFailure)
    } else {
        r matches Ok(k) && derived_key_pair(curve, seed, blinding_seed, k)
    }
}

/// Derives a key pair from a seed and, for a blinded key, a blinding seed.
pub fn derive_keypair(curve: Curve, seed: &[u8], blinding_seed: &Option<Vec<u8>>) -> (r: Result<KeyPair, BbsError>)
    ensures
        derive_outcome(
            curve,
            seed@,
            match blinding_seed {
                Some(b) => Some(b@),
                None => None,
            },
            r,
        ),
{
    let sk = gen_sk(seed);
    let b = match blinding_seed {
        None => {
            let pk = public_key_of(curve, sk.as_slice());
            return match pk {
                Some(pk) => Ok(KeyPair { public_key: pk, secret_key: sk, blinding_factor: None }),
                None => Err(BbsError::CryptographicFailure),
            };
        },
        Some(b) => b,
    };
    let mut data = blinding_generator_bytes(curve);
    if !blinding_generator_decodes(curve, data.as_slice()) {
        return Err(BbsError::CryptographicFailure);
    }
    let ghost base = data@;
    let mut extra = b.clone();
    assert(extra@ =~= b@);
    data.append(&mut extra);
    let factor = gen_sk(data.as_slice());
    match blinded_public_key_of(curve, sk.as_slice(), factor.as_slice()) {
        Some(pk) => Ok(KeyPair { public_key: pk, secret_key: sk, blinding_factor: Some(factor) }),
        None => Err(BbsError::CryptographicFailure),
    }
}

/// What key generation returns for a seed given or drawn: with a seed, the
/// key pair derived from it (also for the blinding factor); without one, the
/// key pair derived from 32 freshly drawn random bytes, and for a blinded key
/// a blinding factor derived from 32 more.
pub open spec fn drawn_outcome(curve: Curve, seed: Seq<u8>, extra: Seq<u8>, blinded: bool, r: Result<KeyPair, BbsError>) -> bool {
    derive_outcome(curve, seed, if blinded { Some(extra) } else { None }, r)
}

pub open spec fn keygen_outcome(curve: Curve, seed: Option<Vec<u8>>, blinded: bool, r: Result<KeyPair, BbsError>) -> bool {
    match seed {
        Some(s) => drawn_outcome(curve, s@, s@, blinded, r),
        None => exists|a: Seq<u8>, b: Seq<u8>|
            a.len() == 32 && b.len() == 32 && #[trigger] drawn_outcome(curve, a, b, blinded, r),
    }
}

/// Generates a key pair in the group, from the seed when one is given and
/// from 32 fresh random bytes otherwise.
pub fn bls_generate_keypair(curve: Curve, seed: &Option<Vec<u8>>, blinded: bool) -> (r: Result<KeyPair, BbsError>)
    ensures
        keygen_outcome(curve, *seed, blinded, r),
{
    match seed {
        Some(s) => {
            let extra: Option<Vec<u8>> = if blinded { Some(s.clone()) } else { None };
            proof {
                if blinded {
                    assert(extra->Some_0@ =~= s@);
                }
            }
            derive_keypair(curve, s.as_slice(), &extra)
        },
        None => {
            let a = random_seed(32);
            let b = random_seed(32);
            let extra: Option<Vec<u8>> = if blinded { Some(b.clone()) } else { None };
            proof {
                if blinded {
                    assert(extra->Some_0@ =~= b@);
                }
            }
            let r = derive_keypair(curve, a.as_slice(), &extra);
            assert(drawn_outcome(curve, a@, b@, blinded, r));
            r
        },
    }
}

/// Generates a blinded key pair in G1.
pub fn rust_bls_generate_blinded_g1_key(seed: &Option<Vec<u8>>) -> (r: Result<KeyPair, BbsError>)
    ensures
        keygen_outcome(Curve::G1, *seed, true, r),
{
    bls_generate_keypair(Curve::G1, seed, true)
}

/// Generates a blinded key pair in G2.
pub fn rust_bls_generate_blinded_g2_key(seed: &Option<Vec<u8>>) -> (r: Result<KeyPair, BbsError>)
    ensures
        keygen_outcome(Curve::G2, *seed, true, r),
{
    bls_generate_keypair(Curve::G2, seed, true)
}

/// Generates a key pair in G1.
pub fn rust_bls_generate_g1_key(seed: &Option<Vec<u8>>) -> (r: Result<KeyPair, BbsError>)
    ensures
        keygen_outcome(Curve::G1, *seed, false, r),
{
    bls_generate_keypair(Curve::G1, seed, false)
}

/// Generates a key pair in G2.
pub fn rust_bls_generate_g2_key(seed: &Option<Vec<u8>>) -> (r: Result<KeyPair, BbsError>)
    ensures
        keygen_outcome(Curve::G2, *seed, false, r),
{
    bls_generate_keypair(Curve::G2, seed, false)
}

} // verus!
