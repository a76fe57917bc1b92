//! Checksums of a file's bytes, rendered as text.  The checksums themselves
//! are computed by the crates that implement them.

use crate::text::{hex, hex_text, same_text, upper_hex_u32, upper_hex_u32_text};
use sha2::Digest;
use vstd::prelude::*;

verus! {

/// A kind of checksum.
#[allow(non_camel_case_types)]
#[derive(Clone, Copy, Debug, PartialEq, Eq, Structural)]
pub enum HashType {
    CRC32,
    Blake3,
    MD5,
    SHA256,
    SHA3_256,
}

/// The CRC-32 checksum of the bytes, as `crc32fast::hash` computes it.
pub uninterp spec fn crc32_checksum(bytes: Seq<u8>) -> u32;

/// The BLAKE3 digest of the bytes, as `blake3::hash` computes it.
pub uninterp spec fn blake3_digest(bytes: Seq<u8>) -> Seq<u8>;

/// The MD5 digest of the bytes, as `md5::Md5` computes it.
pub uninterp spec fn md5_digest(bytes: Seq<u8>) -> Seq<u8>;

/// The SHA-256 digest of the bytes, as `sha2::Sha256` computes it.
pub uninterp spec fn sha256_digest(bytes: Seq<u8>) -> Seq<u8>;

/// The SHA3-256 digest of the bytes, as `sha3::Sha3_256` computes it.
pub uninterp spec fn sha3_256_digest(bytes: Seq<u8>) -> Seq<u8>;

/// Calls `crc32fast::hash`.  The checksum depends on the bytes alone.
#[verifier::external_body]
fn crc32_of(data: &[u8]) -> (sum: u32)
    ensures
        sum == crc32_checksum(data@),
{
    crc32fast::hash(data)
}

/// Calls `blake3::hash` and copies the bytes of the digest.  The digest
/// depends on the bytes alone.
#[verifier::external_body]
fn blake3_of(data: &[u8]) -> (digest: Vec<u8>)
    ensures
        digest@ == blake3_digest(data@),
{
    blake3::hash(data).as_bytes().to_vec()
}

/// Calls `Digest::digest` of `md5::Md5` and copies the bytes of the digest.
/// The digest depends on the bytes alone.
#[verifier::external_body]
fn md5_of(data: &[u8]) -> (digest: Vec<u8>)
    ensures
        digest@ == md5_digest(data@),
{
    md5::Md5::digest(data).to_vec()
}

/// Calls `Digest::digest` of `sha2::Sha256` and copies the bytes of the
/// digest.  The digest depends on the bytes alone.
#[verifier::external_body]
fn sha256_of(data: &[u8]) -> (digest: Vec<u8>)
    ensures
        digest@ == sha256_digest(data@),
{
    sha2::Sha256::digest(data).to_vec()
}

/// Calls `Digest::digest` of `sha3::Sha3_256` and copies the bytes of the
/// digest.  The digest depends on the bytes alone.
#[verifier::external_body]
fn sha3_256_of(data: &[u8]) -> (digest: Vec<u8>)
    ensures
        digest@ == sha3_256_digest(data@),
{
    sha3::Sha3_256::digest(data).to_vec()
}

impl HashType {
    /// Every kind of checksum, in the order in which they are reported.
    pub open spec fn all_kinds() -> Seq<HashType> {
        seq![
            HashType::CRC32,
            HashType::Blake3,
            HashType::MD5,
            HashType::SHA256,
            HashType::SHA3_256,
        ]
    }

    /// The name shown for the kind.
    pub open spec fn label_text(self) -> Seq<char> {
        match self {
            HashType::CRC32 => "CRC32"@,
            HashType::Blake3 => "BLAKE3"@,
            HashType::MD5 => "MD5"@,
            HashType::SHA256 => "SHA-256"@,
            HashType::SHA3_256 => "SHA3-256"@,
        }
    }

    /// The name by which the command line selects the kind.
    pub open spec fn cli_text(self) -> Seq<char> {
        match self {
            HashType::CRC32 => "crc32"@,
            HashType::Blake3 => "blake3"@,
            HashType::MD5 => "md5"@,
            HashType::SHA256 => "sha256"@,
            HashType::SHA3_256 => "sha3"@,
        }
    }

    /// The start of the kind's line in a report: its name, filled up to a
    /// common width, and a colon.
    pub open spec fn heading_text(self) -> Seq<char> {
        match self {
            HashType::CRC32 => "CRC32    : "@,
            HashType::Blake3 => "BLAKE3   : "@,
            HashType::MD5 => "MD5      : "@,
            HashType::SHA256 => "SHA-256  : "@,
            HashType::SHA3_256 => "SHA3-256 : "@,
        }
    }

    /// The checksum of the bytes as text: eight hexadecimal digits in
    /// upper case for CRC-32, and the digest's bytes in lower-case
    /// hexadecimal for the others.
    pub open spec fn digest_text(self, bytes: Seq<u8>) -> Seq<char> {
        match self {
            HashType::CRC32 => upper_hex_u32_text(crc32_checksum(bytes)),
            HashType::Blake3 => hex_text(blake3_digest(bytes), false),
            HashType::MD5 => hex_text(md5_digest(bytes), false),
            HashType::SHA256 => hex_text(sha256_digest(bytes), false),
            HashType::SHA3_256 => hex_text(sha3_256_digest(bytes), false),
        }
    }

    /// The kinds that a name on the command line selects: one kind by its
    /// name, every kind by `all`, and nothing by any other name.
    pub open spec fn selected_by(name: Seq<char>) -> Option<Seq<HashType>> {
        if name == HashType::CRC32.cli_text() {
            Some(seq![HashType::CRC32])
        } else if name == HashType::Blake3.cli_text() {
            Some(seq![HashType::Blake3])
        } else if name == HashType::MD5.cli_text() {
            Some(seq![HashType::MD5])
        } else if name == HashType::SHA256.cli_text() {
            Some(seq![HashType::SHA256])
        } else if name == HashType::SHA3_256.cli_text() {
            Some(seq![HashType::SHA3_256])
        } else if name == "all"@ {
            Some(Self::all_kinds())
        } else {
            None
        }
    }

    /// The name shown for the kind.
    pub fn label(&self) -> (text: &'static str)
        ensures
            text@ == self.label_text(),
    {
        match self {
            HashType::CRC32 => "CRC32",
            HashType::Blake3 => "BLAKE3",
            HashType::MD5 => "MD5",
            HashType::SHA256 => "SHA-256",
            HashType::SHA3_256 => "SHA3-256",
        }
    }

    /// Every kind of checksum, once each.
    pub fn all() -> (list: [HashType; 5])
        ensures
            list@ == Self::all_kinds(),
    {
        let list = [
            HashType::CRC32,
            HashType::Blake3,
            HashType::MD5,
            HashType::SHA256,
            HashType::SHA3_256,
        ];
        list
    }

    /// The kinds that a name on the command line selects.
    pub fn parse_selection(name: &str) -> (kinds: Option<Vec<HashType>>)
        ensures
            match kinds {
                Some(list) => Self::selected_by(name@) == Some(list@),
                None => Self::selected_by(name@) is None,
            },
    {
        let mut kinds: Vec<HashType> = Vec::new();
        if same_text(name, "crc32") {
            kinds.push(HashType::CRC32);
        } else if same_text(name, "blake3") {
            kinds.push(HashType::Blake3);
        } else if same_text(name, "md5") {
            kinds.push(HashType::MD5);
        } else if same_text(name, "sha256") {
            kinds.push(HashType::SHA256);
        } else if same_text(name, "sha3") {
            kinds.push(HashType::SHA3_256);
        } else if same_text(name, "all") {
            kinds.push(HashType::CRC32);
            kinds.push(HashType::Blake3);
            kinds.push(HashType::MD5);
            kinds.push(HashType::SHA256);
            kinds.push(HashType::SHA3_256);
        } else {
            return None;
        }
        assert(Self::selected_by(name@) == Some(kinds@));
        Some(kinds)
    }

    /// The checksum of the bytes as text.
    pub fn digest(&self, data: &[u8]) -> (text: String)
        ensures
            text@ == self.digest_text(data@),
    {
        match self {
            HashType::CRC32 => upper_hex_u32(crc32_of(data)),
            HashType::Blake3 => {
                let digest = blake3_of(data);
                hex(digest.as_slice(), false)
            },
            HashType::MD5 => {
                let digest = md5_of(data);
                hex(digest.as_slice(), false)
            },
            HashType::SHA256 => {
                let digest = sha256_of(data);
                hex(digest.as_slice(), false)
            },
            HashType::SHA3_256 => {
                let digest = sha3_256_of(data);
                hex(digest.as_slice(), false)
            },
        }
    }

    /// The message that tells that a checksum of this kind was computed.
    pub fn done_message(&self) -> (message: String)
        ensures
            message@ == "Hash "@ + self.label_text() + " calculé avec succès"@,
    {
        let mut message = String::from_str("Hash ");
        message.append(self.label());
        message.append(" calculé avec succès");
        message
    }

    /// The kind's line in a report: its heading and the checksum.
    pub fn report_line(&self, data: &[u8]) -> (line: String)
        ensures
            line@ == self.heading_text() + self.digest_text(data@),
    {
        let mut line = match self {
            HashType::CRC32 => String::from_str("CRC32    : "),
            HashType::Blake3 => String::from_str("BLAKE3   : "),
            HashType::MD5 => String::from_str("MD5      : "),
            HashType::SHA256 => String::from_str("SHA-256  : "),
            HashType::SHA3_256 => String::from_str("SHA3-256 : "),
        };
        let digest = self.digest(data);
        line.append(digest.as_str());
        line
    }
}

/// The checksum that the interface shows for a file: its CRC-32.
pub fn file_checksum(data: &[u8]) -> (answer: (HashType, String))
    ensures
        answer.0 == HashType::CRC32,
        answer.1@ == upper_hex_u32_text(crc32_checksum(data@)),
{
    (HashType::CRC32, upper_hex_u32(crc32_of(data)))
}

/// The list of all kinds names every kind, and none of them twice.
pub proof fn lemma_all_kinds_complete(kind: HashType)
    ensures
        HashType::all_kinds().len() == 5,
        HashType::all_kinds().contains(kind),
        HashType::all_kinds().no_duplicates(),
{
    let all = HashType::all_kinds();
    let i: int = match kind {
        HashType::CRC32 => 0,
        HashType::Blake3 => 1,
        HashType::MD5 => 2,
        HashType::SHA256 => 3,
        HashType::SHA3_256 => 4,
    };
}

} // verus!
