use vstd::prelude::*;

use crypto::digest::Digest;

use crate::desc::PackageDesc;
use crate::error::BuildError;

verus! {

// ---------------------------------------------------------------------------
// Trusted digest primitives
// ---------------------------------------------------------------------------

/// The lower-case hexadecimal SHA-256 digest of the bytes. The digest is a
/// function of the bytes alone.
pub uninterp spec fn sha256_hex_of(data: Seq<u8>) -> Seq<char>;

/// The lower-case hexadecimal SHA-512 digest of the bytes. The digest is a
/// function of the bytes alone.
pub uninterp spec fn sha512_hex_of(data: Seq<u8>) -> Seq<char>;

/// Relies on the `crypto` crate's Sha256: `result_str` returns the digest of
/// everything fed to `input`, in lower-case hexadecimal — two digits for each
/// of the 32 digest bytes.
#[verifier::external_body]
pub fn sha_256(data: &[u8]) -> (r: String)
    ensures
        r@ == sha256_hex_of(data@),
        r@.len() == 64,
{
    let mut hasher = crypto::sha2::Sha256::new();
    hasher.input(data);
    hasher.result_str()
}

/// Relies on the `crypto` crate's Sha512: `result_str` returns the digest of
/// everything fed to `input`, in lower-case hexadecimal — two digits for each
/// of the 64 digest bytes.
#[verifier::external_body]
pub fn sha_512(data: &[u8]) -> (r: String)
    ensures
        r@ == sha512_hex_of(data@),
        r@.len() == 128,
{
    let mut hasher = crypto::sha2::Sha512::new();
    hasher.input(data);
    hasher.result_str()
}

// ---------------------------------------------------------------------------
// Digest matching
// ---------------------------------------------------------------------------

/// What checking one digest-list entry against a computed digest decides.
pub enum DigestVerdict {
    /// The entry is out of range or empty: the required digest is missing.
    Missing,
    /// The entry is the `SKIP` sentinel or equals the computed digest.
    Pass,
    /// The entry differs from the computed digest.
    Mismatch,
}

/// The verdict for the digest list entry at `index` against the computed
/// digest: a missing or empty entry is an error in itself; the `SKIP`
/// sentinel always passes; otherwise the entry must equal the digest.
pub open spec fn digest_verdict(list: Seq<Seq<char>>, index: int, computed: Seq<char>)
    -> DigestVerdict {
    if index >= list.len() || list[index].len() == 0 {
        DigestVerdict::Missing
    } else if list[index] == "SKIP"@ || list[index] == computed {
        DigestVerdict::Pass
    } else {
        DigestVerdict::Mismatch
    }
}

/// The outcome `match_hash` owes for one digest list: the missing-digest
/// error, success, or the mismatch error carrying the computed digest.
pub open spec fn digest_outcome_ok(
    r: Result<(), BuildError>,
    list: Seq<Seq<char>>,
    index: int,
    computed: Seq<char>,
    file: Seq<char>,
) -> bool {
    match digest_verdict(list, index, computed) {
        DigestVerdict::Missing => r matches Err(e)
            && (e matches BuildError::NoHash(f) && f@ == file),
        DigestVerdict::Pass => r is Ok,
        DigestVerdict::Mismatch => r matches Err(e)
            && (e matches BuildError::HashMismatch(f, h) && f@ == file && h@ == computed),
    }
}

/// The verdict the descriptor owes for the source entry at `index` against a
/// file's bytes: SHA-512 takes precedence when both digest lists are
/// configured, and with no digest list at all every file passes.
pub open spec fn spec_match_verdict(d: &PackageDesc, index: int, data: Seq<u8>) -> DigestVerdict {
    match d.sha512 {
        Some(l) => digest_verdict(l.deep_view(), index, sha512_hex_of(data)),
        None => match d.sha256 {
            Some(l) => digest_verdict(l.deep_view(), index, sha256_hex_of(data)),
            None => DigestVerdict::Pass,
        },
    }
}

/// The digest the descriptor's configuration computes for a file's bytes:
/// SHA-512 when that list is configured, else SHA-256, else nothing.
pub open spec fn spec_computed_digest(d: &PackageDesc, data: Seq<u8>) -> Seq<char> {
    match d.sha512 {
        Some(_) => sha512_hex_of(data),
        None => match d.sha256 {
            Some(_) => sha256_hex_of(data),
            None => Seq::empty(),
        },
    }
}

impl PackageDesc {
    /// Verifies the integrity of a file's bytes against the digest declared
    /// at the same positional `index` as the source entry. SHA-512 takes
    /// precedence when both digest lists are configured; with no digest list
    /// at all, every file passes. The digest sentinel `SKIP` always passes;
    /// an out-of-range or empty entry fails with the missing-digest error;
    /// any other difference fails with a mismatch error carrying the
    /// computed digest. A declared entry equal to the computed digest always
    /// passes: computed digests are never empty.
    pub fn match_hash(&self, index: usize, file: &str, data: &[u8])
        -> (r: Result<(), BuildError>)
        ensures
            (self.sha512 matches Some(l)
                ==> digest_outcome_ok(r, l.deep_view(), index as int, sha512_hex_of(data@), file@)),
            (self.sha512 is None ==> (self.sha256 matches Some(l)
                ==> digest_outcome_ok(r, l.deep_view(), index as int, sha256_hex_of(data@), file@))),
            (self.sha512 is None && self.sha256 is None ==> r is Ok),
            r is Ok <==> spec_match_verdict(self, index as int, data@) is Pass,
            (spec_match_verdict(self, index as int, data@) is Missing ==> (r matches Err(e)
                && (e matches BuildError::NoHash(f) && f@ == file@))),
            (spec_match_verdict(self, index as int, data@) is Mismatch ==> (r matches Err(e)
                && (e matches BuildError::HashMismatch(f, h) && f@ == file@
                    && h@ == spec_computed_digest(self, data@)))),
            (self.sha512 matches Some(l) ==> (index < l@.len()
                && l.deep_view()[index as int] == sha512_hex_of(data@) ==> r is Ok)),
            (self.sha512 is None ==> (self.sha256 matches Some(l) ==> (index < l@.len()
                && l.deep_view()[index as int] == sha256_hex_of(data@) ==> r is Ok))),
    {
        if let Some(list) = &self.sha512 {
            let computed = sha_512(data);
            Self::check_entry(list, index, computed, file)
        } else if let Some(list) = &self.sha256 {
            let computed = sha_256(data);
            Self::check_entry(list, index, computed, file)
        } else {
            Ok(())
        }
    }

    /// Checks one digest-list entry against a computed digest.
    fn check_entry(list: &Vec<String>, index: usize, computed: String, file: &str)
        -> (r: Result<(), BuildError>)
        ensures
            digest_outcome_ok(r, list.deep_view(), index as int, computed@, file@),
    {
        proof {
            assert(list.deep_view().len() == list@.len());
        }
        if index >= list.len() || list[index].as_str().unicode_len() == 0 {
            proof {
                assert(index < list@.len() ==> list.deep_view()[index as int] == list@[index as int]@);
            }
            return Err(BuildError::NoHash(file.to_owned()));
        }
        proof {
            assert(list.deep_view()[index as int] == list@[index as int]@);
        }
        if crate::text::str_eq(list[index].as_str(), "SKIP") {
            return Ok(());
        }
        if crate::text::str_eq(list[index].as_str(), computed.as_str()) {
            Ok(())
        } else {
            Err(BuildError::HashMismatch(file.to_owned(), computed))
        }
    }
}

} // verus!
