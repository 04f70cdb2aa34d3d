//! The `hash` command: the digest algorithms it offers and how it writes a digest.
use vstd::prelude::*;

use crate::inspect::{hex_byte, hex_digit_pair};
use crate::text::str_equals;

verus! {

/// A digest algorithm for Ion Hash.
#[derive(Debug, PartialEq, Eq, Clone, Copy, Structural)]
pub enum DigestType {
    Sha256,
    Sha512,
    Sha3_256,
    Sha3_512,
}

/// The name by which the command line selects a digest algorithm.
pub open spec fn digest_name(d: DigestType) -> Seq<char> {
    match d {
        DigestType::Sha256 => "sha-256"@,
        DigestType::Sha512 => "sha-512"@,
        DigestType::Sha3_256 => "sha3-256"@,
        DigestType::Sha3_512 => "sha3-512"@,
    }
}

impl DigestType {
    /// The digest algorithms, in the order the command line offers them.
    pub fn variants() -> (r: Vec<DigestType>)
        ensures
            r@ == seq![DigestType::Sha256, DigestType::Sha512, DigestType::Sha3_256, DigestType::Sha3_512],
    {
        let mut v: Vec<DigestType> = Vec::new();
        v.push(DigestType::Sha256);
        v.push(DigestType::Sha512);
        v.push(DigestType::Sha3_256);
        v.push(DigestType::Sha3_512);
        assert(v@ =~= seq![DigestType::Sha256, DigestType::Sha512, DigestType::Sha3_256, DigestType::Sha3_512]);
        v
    }

    /// The name by which the command line selects this algorithm.
    pub fn name(&self) -> (r: &'static str)
        ensures
            r@ == digest_name(*self),
    {
        match self {
            DigestType::Sha256 => "sha-256",
            DigestType::Sha512 => "sha-512",
            DigestType::Sha3_256 => "sha3-256",
            DigestType::Sha3_512 => "sha3-512",
        }
    }

    /// The algorithm that the command line names `name`, if any.
    pub fn from_name(name: &str) -> (r: Option<DigestType>)
        ensures
            match r {
                Some(d) => digest_name(d) == name@,
                None => forall|d: DigestType| digest_name(d) != name@,
            },
    {
        if str_equals(name, "sha-256") {
            Some(DigestType::Sha256)
        } else if str_equals(name, "sha-512") {
            Some(DigestType::Sha512)
        } else if str_equals(name, "sha3-256") {
            Some(DigestType::Sha3_256)
        } else if str_equals(name, "sha3-512") {
            Some(DigestType::Sha3_512)
        } else {
            None
        }
    }
}

/// The digest as text: two lower-case hexadecimal digits per byte, without separators.
pub open spec fn digest_hex(digest: Seq<u8>) -> Seq<char>
    decreases digest.len(),
{
    if digest.len() == 0 {
        Seq::empty()
    } else {
        digest_hex(digest.drop_last()) + hex_byte(digest.last())
    }
}

/// The line written for a digest: the digest's bytes themselves (`raw`) or their hexadecimal
/// text, followed by a newline.
pub open spec fn digest_line_bytes(digest: Seq<u8>, raw: bool) -> Seq<u8> {
    if raw {
        digest + seq![10u8]
    } else {
        Seq::new(digest_hex(digest).len(), |i: int| digest_hex(digest)[i] as u8) + seq![10u8]
    }
}

/// The line written for a digest.
pub fn digest_line(digest: &Vec<u8>, raw: bool) -> (r: Vec<u8>)
    ensures
        r@ == digest_line_bytes(digest@, raw),
{
    let mut out: Vec<u8> = Vec::new();
    if raw {
        let mut i: usize = 0;
        while i < digest.len()
            invariant
                i <= digest@.len(),
                out@ == digest@.subrange(0, i as int),
            decreases digest@.len() - i,
        {
            out.push(digest[i]);
            i = i + 1;
            assert(out@ =~= digest@.subrange(0, i as int));
        }
        assert(digest@.subrange(0, digest@.len() as int) =~= digest@);
    } else {
        let mut i: usize = 0;
        while i < digest.len()
            invariant
                i <= digest@.len(),
                out@ == Seq::new(
                    digest_hex(digest@.subrange(0, i as int)).len(),
                    |k: int| digest_hex(digest@.subrange(0, i as int))[k] as u8,
                ),
            decreases digest@.len() - i,
        {
            let ghost prefix = digest@.subrange(0, i + 1);
            assert(prefix.drop_last() =~= digest@.subrange(0, i as int));
            assert(prefix.last() == digest@[i as int]);
            let (hi, lo) = hex_digit_pair(digest[i]);
            out.push(hi as u8);
            out.push(lo as u8);
            i = i + 1;
            assert(out@ =~= Seq::new(
                digest_hex(digest@.subrange(0, i as int)).len(),
                |k: int| digest_hex(digest@.subrange(0, i as int))[k] as u8,
            ));
        }
        assert(digest@.subrange(0, digest@.len() as int) =~= digest@);
    }
    out.push(10u8);
    out
}

/// Declares `ion_rs::Element`, an Ion value that the hash is computed over.
#[verifier::external_type_specification]
#[verifier::external_body]
pub struct ExElement(ion_rs::Element);

/// Declares `ion_rs::IonError`, the error of hashing a value.
#[verifier::external_type_specification]
#[verifier::external_body]
pub struct ExIonError(ion_rs::IonError);

/// The number of bytes of a digest of the algorithm `d`.
pub open spec fn digest_len(d: DigestType) -> nat {
    match d {
        DigestType::Sha256 | DigestType::Sha3_256 => 32,
        DigestType::Sha512 | DigestType::Sha3_512 => 64,
    }
}

/// The Ion Hash of `element` with SHA-256: a function of the element alone.
pub uninterp spec fn sha256_digest(element: ion_rs::Element) -> Seq<u8>;

/// Calls ion_rs's Ion Hash of `element` with SHA-256 (`IonHasher::hash_element` of
/// `sha2::Sha256`); its digest, named above, has 32 bytes. The hash never fails:
/// in ion_rs's source every error it could report comes from writing to the hasher's own
/// sink, whose writes always succeed.
#[verifier::external_body]
fn sha256_hash(element: &ion_rs::Element) -> (r: Result<Vec<u8>, ion_rs::IonError>)
    ensures
        r is Ok,
        r matches Ok(d) ==> d@ == sha256_digest(*element),
        r matches Ok(d) ==> d@.len() == 32,
{
    <sha2::Sha256 as ion_rs::ion_hash::IonHasher>::hash_element(element).map(|d| d.to_vec())
}

/// The Ion Hash of `element` with SHA-512: a function of the element alone.
pub uninterp spec fn sha512_digest(element: ion_rs::Element) -> Seq<u8>;

/// Calls ion_rs's Ion Hash of `element` with SHA-512 (`IonHasher::hash_element` of
/// `sha2::Sha512`); its digest, named above, has 64 bytes. The hash never fails:
/// in ion_rs's source every error it could report comes from writing to the hasher's own
/// sink, whose writes always succeed.
#[verifier::external_body]
fn sha512_hash(element: &ion_rs::Element) -> (r: Result<Vec<u8>, ion_rs::IonError>)
    ensures
        r is Ok,
        r matches Ok(d) ==> d@ == sha512_digest(*element),
        r matches Ok(d) ==> d@.len() == 64,
{
    <sha2::Sha512 as ion_rs::ion_hash::IonHasher>::hash_element(element).map(|d| d.to_vec())
}

/// The Ion Hash of `element` with SHA3-256: a function of the element alone.
pub uninterp spec fn sha3_256_digest(element: ion_rs::Element) -> Seq<u8>;

/// Calls ion_rs's Ion Hash of `element` with SHA3-256 (`IonHasher::hash_element` of
/// `sha3::Sha3_256`); its digest, named above, has 32 bytes. The hash never fails:
/// in ion_rs's source every error it could report comes from writing to the hasher's own
/// sink, whose writes always succeed.
#[verifier::external_body]
fn sha3_256_hash(element: &ion_rs::Element) -> (r: Result<Vec<u8>, ion_rs::IonError>)
    ensures
        r is Ok,
        r matches Ok(d) ==> d@ == sha3_256_digest(*element),
        r matches Ok(d) ==> d@.len() == 32,
{
    <sha3::Sha3_256 as ion_rs::ion_hash::IonHasher>::hash_element(element).map(|d| d.to_vec())
}

/// The Ion Hash of `element` with SHA3-512: a function of the element alone.
pub uninterp spec fn sha3_512_digest(element: ion_rs::Element) -> Seq<u8>;

/// Calls ion_rs's Ion Hash of `element` with SHA3-512 (`IonHasher::hash_element` of
/// `sha3::Sha3_512`); its digest, named above, has 64 bytes. The hash never fails:
/// in ion_rs's source every error it could report comes from writing to the hasher's own
/// sink, whose writes always succeed.
#[verifier::external_body]
fn sha3_512_hash(element: &ion_rs::Element) -> (r: Result<Vec<u8>, ion_rs::IonError>)
    ensures
        r is Ok,
        r matches Ok(d) ==> d@ == sha3_512_digest(*element),
        r matches Ok(d) ==> d@.len() == 64,
{
    <sha3::Sha3_512 as ion_rs::ion_hash::IonHasher>::hash_element(element).map(|d| d.to_vec())
}

/// The Ion Hash of `element` with the algorithm `d`.
pub open spec fn digest_of(d: DigestType, element: ion_rs::Element) -> Seq<u8> {
    match d {
        DigestType::Sha256 => sha256_digest(element),
        DigestType::Sha512 => sha512_digest(element),
        DigestType::Sha3_256 => sha3_256_digest(element),
        DigestType::Sha3_512 => sha3_512_digest(element),
    }
}

impl DigestType {
    /// The Ion Hash of `element` with this algorithm: a digest of the algorithm's length.
    pub fn hash_it(&self, element: &ion_rs::Element) -> (r: Result<Vec<u8>, ion_rs::IonError>)
        ensures
            r matches Ok(d) && d@ == digest_of(*self, *element) && d@.len() == digest_len(*self),
    {
        match self {
            DigestType::Sha256 => sha256_hash(element),
            DigestType::Sha512 => sha512_hash(element),
            DigestType::Sha3_256 => sha3_256_hash(element),
            DigestType::Sha3_512 => sha3_512_hash(element),
        }
    }
}

/// The line that the `hash` command writes for `element`: its digest with the algorithm `digest`,
/// as raw bytes or as hexadecimal text, and a newline.
pub fn hash_line(digest: DigestType, element: &ion_rs::Element, raw: bool) -> (r: Result<Vec<u8>, ion_rs::IonError>)
    ensures
        r matches Ok(line) && line@ == digest_line_bytes(digest_of(digest, *element), raw),
        digest_of(digest, *element).len() == digest_len(digest),
{
    match digest.hash_it(element) {
        Ok(d) => {
            let line = digest_line(&d, raw);
            Ok(line)
        },
        Err(e) => Err(e),
    }
}

} // verus!
