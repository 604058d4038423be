//! The registry of object identifiers that name the RSA schemes, their hash
//! functions and their padding parameters inside PKCS#1, PKCS#8 and SPKI
//! structures.
//!
//! An object identifier is a sequence of non-negative integers, its arcs,
//! written in dotted decimal. The registry is a closed enumeration: every
//! entry has its dotted-decimal text and its arcs, and the two are proved to
//! agree.

use vstd::prelude::*;
use crate::dotted::{
    decimal_digits, dotted_arcs, dotted_text, is_dotted_decimal, lemma_dotted_round_trip,
    lemma_dotted_text_is_well_formed,
};

verus! {

/// An entry of the registry. The set is closed: no identifier is made at run
/// time.
#[derive(Clone, Copy, Debug, PartialEq, Eq, Hash, Structural)]
pub enum Oid {
    /// `1.2.840.113549.1.1.1`: RSA encryption, the key algorithm of PKCS#1 keys.
    RsaEncryption,
    /// `1.2.840.113549.1.1.5`: RSASSA-PKCS1-v1_5 signatures over SHA-1.
    Sha1RsaEncryption,
    /// `1.2.840.113549.1.1.11`: RSASSA-PKCS1-v1_5 signatures over SHA-256.
    Sha256RsaEncryption,
    /// `1.2.840.113549.1.1.12`: RSASSA-PKCS1-v1_5 signatures over SHA-384.
    Sha384RsaEncryption,
    /// `1.2.840.113549.1.1.13`: RSASSA-PKCS1-v1_5 signatures over SHA-512.
    Sha512RsaEncryption,
    /// `1.2.840.113549.1.1.10`: RSASSA-PSS signatures.
    RsassaPss,
    /// `1.3.14.3.2.26`: the SHA-1 hash function.
    IdSha1,
    /// `2.16.840.1.101.3.4.2.1`: the SHA-256 hash function.
    IdSha256,
    /// `2.16.840.1.101.3.4.2.2`: the SHA-384 hash function.
    IdSha384,
    /// `2.16.840.1.101.3.4.2.3`: the SHA-512 hash function.
    IdSha512,
    /// `1.2.840.113549.1.1.8`: the mask generation function MGF1.
    IdMfg1,
    /// `1.2.840.113549.1.1.7`: RSAES-OAEP encryption.
    RsaesOaep,
    /// `1.2.840.113549.1.1.9`: an explicitly given OAEP label, pSpecified.
    IdPSpecified,
}

/// `1.2.840.113549.1.1.1`: RSA encryption, the key algorithm of PKCS#1 keys.
pub const RSA_ENCRYPTION_OID: Oid = Oid::RsaEncryption;

/// `1.2.840.113549.1.1.5`: RSASSA-PKCS1-v1_5 signatures over SHA-1.
pub const SHA1_RSA_ENCRYPTION_OID: Oid = Oid::Sha1RsaEncryption;

/// `1.2.840.113549.1.1.11`: RSASSA-PKCS1-v1_5 signatures over SHA-256.
pub const SHA256_RSA_ENCRYPTION_OID: Oid = Oid::Sha256RsaEncryption;

/// `1.2.840.113549.1.1.12`: RSASSA-PKCS1-v1_5 signatures over SHA-384.
pub const SHA384_RSA_ENCRYPTION_OID: Oid = Oid::Sha384RsaEncryption;

/// `1.2.840.113549.1.1.13`: RSASSA-PKCS1-v1_5 signatures over SHA-512.
pub const SHA512_RSA_ENCRYPTION_OID: Oid = Oid::Sha512RsaEncryption;

/// `1.2.840.113549.1.1.10`: RSASSA-PSS signatures.
pub const RSASSA_PSS_OID: Oid = Oid::RsassaPss;

/// `1.3.14.3.2.26`: the SHA-1 hash function.
pub const ID_SHA1_OID: Oid = Oid::IdSha1;

/// `2.16.840.1.101.3.4.2.1`: the SHA-256 hash function.
pub const ID_SHA256_OID: Oid = Oid::IdSha256;

/// `2.16.840.1.101.3.4.2.2`: the SHA-384 hash function.
pub const ID_SHA384_OID: Oid = Oid::IdSha384;

/// `2.16.840.1.101.3.4.2.3`: the SHA-512 hash function.
pub const ID_SHA512_OID: Oid = Oid::IdSha512;

/// `1.2.840.113549.1.1.8`: the mask generation function MGF1.
pub const ID_MFG1: Oid = Oid::IdMfg1;

/// `1.2.840.113549.1.1.7`: RSAES-OAEP encryption.
pub const RSAES_OAEP_OID: Oid = Oid::RsaesOaep;

/// `1.2.840.113549.1.1.9`: an explicitly given OAEP label, pSpecified.
pub const ID_P_SPECIFIED: Oid = Oid::IdPSpecified;

impl Oid {
    /// The dotted-decimal text of this entry.
    pub open spec fn dotted_spec(self) -> Seq<char> {
        match self {
            Oid::RsaEncryption => "1.2.840.113549.1.1.1"@,
            Oid::Sha1RsaEncryption => "1.2.840.113549.1.1.5"@,
            Oid::Sha256RsaEncryption => "1.2.840.113549.1.1.11"@,
            Oid::Sha384RsaEncryption => "1.2.840.113549.1.1.12"@,
            Oid::Sha512RsaEncryption => "1.2.840.113549.1.1.13"@,
            Oid::RsassaPss => "1.2.840.113549.1.1.10"@,
            Oid::IdSha1 => "1.3.14.3.2.26"@,
            Oid::IdSha256 => "2.16.840.1.101.3.4.2.1"@,
            Oid::IdSha384 => "2.16.840.1.101.3.4.2.2"@,
            Oid::IdSha512 => "2.16.840.1.101.3.4.2.3"@,
            Oid::IdMfg1 => "1.2.840.113549.1.1.8"@,
            Oid::RsaesOaep => "1.2.840.113549.1.1.7"@,
            Oid::IdPSpecified => "1.2.840.113549.1.1.9"@,
        }
    }

    /// The arcs of this entry.
    pub open spec fn arcs_spec(self) -> Seq<nat> {
        match self {
            Oid::RsaEncryption => seq![1nat, 2, 840, 113549, 1, 1, 1],
            Oid::Sha1RsaEncryption => seq![1nat, 2, 840, 113549, 1, 1, 5],
            Oid::Sha256RsaEncryption => seq![1nat, 2, 840, 113549, 1, 1, 11],
            Oid::Sha384RsaEncryption => seq![1nat, 2, 840, 113549, 1, 1, 12],
            Oid::Sha512RsaEncryption => seq![1nat, 2, 840, 113549, 1, 1, 13],
            Oid::RsassaPss => seq![1nat, 2, 840, 113549, 1, 1, 10],
            Oid::IdSha1 => seq![1nat, 3, 14, 3, 2, 26],
            Oid::IdSha256 => seq![2nat, 16, 840, 1, 101, 3, 4, 2, 1],
            Oid::IdSha384 => seq![2nat, 16, 840, 1, 101, 3, 4, 2, 2],
            Oid::IdSha512 => seq![2nat, 16, 840, 1, 101, 3, 4, 2, 3],
            Oid::IdMfg1 => seq![1nat, 2, 840, 113549, 1, 1, 8],
            Oid::RsaesOaep => seq![1nat, 2, 840, 113549, 1, 1, 7],
            Oid::IdPSpecified => seq![1nat, 2, 840, 113549, 1, 1, 9],
        }
    }

    /// The dotted-decimal text of this entry.
    pub fn dotted(self) -> (text: &'static str)
        ensures
            text@ == self.dotted_spec(),
    {
        match self {
            Oid::RsaEncryption => "1.2.840.113549.1.1.1",
            Oid::Sha1RsaEncryption => "1.2.840.113549.1.1.5",
            Oid::Sha256RsaEncryption => "1.2.840.113549.1.1.11",
            Oid::Sha384RsaEncryption => "1.2.840.113549.1.1.12",
            Oid::Sha512RsaEncryption => "1.2.840.113549.1.1.13",
            Oid::RsassaPss => "1.2.840.113549.1.1.10",
            Oid::IdSha1 => "1.3.14.3.2.26",
            Oid::IdSha256 => "2.16.840.1.101.3.4.2.1",
            Oid::IdSha384 => "2.16.840.1.101.3.4.2.2",
            Oid::IdSha512 => "2.16.840.1.101.3.4.2.3",
            Oid::IdMfg1 => "1.2.840.113549.1.1.8",
            Oid::RsaesOaep => "1.2.840.113549.1.1.7",
            Oid::IdPSpecified => "1.2.840.113549.1.1.9",
        }
    }

    /// The arcs of this entry, as the parser of `rsa::pkcs8` reads them from
    /// the entry's text. They are the arcs listed for the entry, and written
    /// in dotted decimal they are the entry's text again.
    pub fn arcs(self) -> (arcs: Vec<u32>)
        ensures
            arc_values(arcs@) == self.arcs_spec(),
            arc_values(arcs@) == dotted_arcs(self.dotted_spec()),
            dotted_text(arc_values(arcs@)) == self.dotted_spec(),
    {
        let text = self.dotted();
        proof {
            lemma_registry_round_trip(self);
        }
        parse_arcs(text)
    }
}

/// Whether `text` is the dotted-decimal text of a registry entry.
pub open spec fn is_registered(text: Seq<char>) -> bool {
    exists|oid: Oid| #[trigger] oid.dotted_spec() == text
}

/// The arcs as mathematical integers.
pub open spec fn arc_values(arcs: Seq<u32>) -> Seq<nat> {
    arcs.map_values(|arc: u32| arc as nat)
}

/// The shape of an object identifier as the registry holds them: at least
/// three arcs, the first at most 2, the second at most 39, each within 32
/// bits.
pub open spec fn well_formed_arcs(arcs: Seq<nat>) -> bool {
    &&& arcs.len() >= 3
    &&& arcs[0] <= 2
    &&& arcs[1] <= 39
    &&& forall|i: int| 0 <= i < arcs.len() ==> #[trigger] arcs[i] <= u32::MAX
}

/// What it means for an entry to be sound: its text is well-formed dotted
/// decimal, the arcs read from its text are the arcs of the entry, they are
/// well-formed, and written back in dotted decimal they give the same text.
pub open spec fn entry_is_sound(oid: Oid) -> bool {
    &&& is_dotted_decimal(oid.dotted_spec())
    &&& dotted_arcs(oid.dotted_spec()) == oid.arcs_spec()
    &&& well_formed_arcs(oid.arcs_spec())
    &&& dotted_text(oid.arcs_spec()) == oid.dotted_spec()
}

/// Whether the text of `oid` is the dotted decimal of its arcs.
pub open spec fn text_is_of_arcs(oid: Oid) -> bool {
    dotted_text(oid.arcs_spec()) == oid.dotted_spec()
}

proof fn lemma_rsa_encryption_text()
    ensures
        text_is_of_arcs(Oid::RsaEncryption),
{
    let oid = Oid::RsaEncryption;
    reveal_strlit("1.2.840.113549.1.1.1");
    reveal_with_fuel(dotted_text, 8);
    reveal_with_fuel(decimal_digits, 7);
    assert(dotted_text(oid.arcs_spec()) =~= oid.dotted_spec());
}

proof fn lemma_sha1_rsa_encryption_text()
    ensures
        text_is_of_arcs(Oid::Sha1RsaEncryption),
{
    let oid = Oid::Sha1RsaEncryption;
    reveal_strlit("1.2.840.113549.1.1.5");
    reveal_with_fuel(dotted_text, 8);
    reveal_with_fuel(decimal_digits, 7);
    assert(dotted_text(oid.arcs_spec()) =~= oid.dotted_spec());
}

proof fn lemma_sha256_rsa_encryption_text()
    ensures
        text_is_of_arcs(Oid::Sha256RsaEncryption),
{
    let oid = Oid::Sha256RsaEncryption;
    reveal_strlit("1.2.840.113549.1.1.11");
    reveal_with_fuel(dotted_text, 8);
    reveal_with_fuel(decimal_digits, 7);
    assert(dotted_text(oid.arcs_spec()) =~= oid.dotted_spec());
}

proof fn lemma_sha384_rsa_encryption_text()
    ensures
        text_is_of_arcs(Oid::Sha384RsaEncryption),
{
    let oid = Oid::Sha384RsaEncryption;
    reveal_strlit("1.2.840.113549.1.1.12");
    reveal_with_fuel(dotted_text, 8);
    reveal_with_fuel(decimal_digits, 7);
    assert(dotted_text(oid.arcs_spec()) =~= oid.dotted_spec());
}

proof fn lemma_sha512_rsa_encryption_text()
    ensures
        text_is_of_arcs(Oid::Sha512RsaEncryption),
{
    let oid = Oid::Sha512RsaEncryption;
    reveal_strlit("1.2.840.113549.1.1.13");
    reveal_with_fuel(dotted_text, 8);
    reveal_with_fuel(decimal_digits, 7);
    assert(dotted_text(oid.arcs_spec()) =~= oid.dotted_spec());
}

proof fn lemma_rsassa_pss_text()
    ensures
        text_is_of_arcs(Oid::RsassaPss),
{
    let oid = Oid::RsassaPss;
    reveal_strlit("1.2.840.113549.1.1.10");
    reveal_with_fuel(dotted_text, 8);
    reveal_with_fuel(decimal_digits, 7);
    assert(dotted_text(oid.arcs_spec()) =~= oid.dotted_spec());
}

proof fn lemma_id_sha1_text()
    ensures
        text_is_of_arcs(Oid::IdSha1),
{
    let oid = Oid::IdSha1;
    reveal_strlit("1.3.14.3.2.26");
    reveal_with_fuel(dotted_text, 7);
    reveal_with_fuel(decimal_digits, 7);
    assert(dotted_text(oid.arcs_spec()) =~= oid.dotted_spec());
}

proof fn lemma_id_sha256_text()
    ensures
        text_is_of_arcs(Oid::IdSha256),
{
    let oid = Oid::IdSha256;
    reveal_strlit("2.16.840.1.101.3.4.2.1");
    reveal_with_fuel(dotted_text, 10);
    reveal_with_fuel(decimal_digits, 7);
    assert(dotted_text(oid.arcs_spec()) =~= oid.dotted_spec());
}

proof fn lemma_id_sha384_text()
    ensures
        text_is_of_arcs(Oid::IdSha384),
{
    let oid = Oid::IdSha384;
    reveal_strlit("2.16.840.1.101.3.4.2.2");
    reveal_with_fuel(dotted_text, 10);
    reveal_with_fuel(decimal_digits, 7);
    assert(dotted_text(oid.arcs_spec()) =~= oid.dotted_spec());
}

proof fn lemma_id_sha512_text()
    ensures
        text_is_of_arcs(Oid::IdSha512),
{
    let oid = Oid::IdSha512;
    reveal_strlit("2.16.840.1.101.3.4.2.3");
    reveal_with_fuel(dotted_text, 10);
    reveal_with_fuel(decimal_digits, 7);
    assert(dotted_text(oid.arcs_spec()) =~= oid.dotted_spec());
}

proof fn lemma_id_mfg1_text()
    ensures
        text_is_of_arcs(Oid::IdMfg1),
{
    let oid = Oid::IdMfg1;
    reveal_strlit("1.2.840.113549.1.1.8");
    reveal_with_fuel(dotted_text, 8);
    reveal_with_fuel(decimal_digits, 7);
    assert(dotted_text(oid.arcs_spec()) =~= oid.dotted_spec());
}

proof fn lemma_rsaes_oaep_text()
    ensures
        text_is_of_arcs(Oid::RsaesOaep),
{
    let oid = Oid::RsaesOaep;
    reveal_strlit("1.2.840.113549.1.1.7");
    reveal_with_fuel(dotted_text, 8);
    reveal_with_fuel(decimal_digits, 7);
    assert(dotted_text(oid.arcs_spec()) =~= oid.dotted_spec());
}

proof fn lemma_id_p_specified_text()
    ensures
        text_is_of_arcs(Oid::IdPSpecified),
{
    let oid = Oid::IdPSpecified;
    reveal_strlit("1.2.840.113549.1.1.9");
    reveal_with_fuel(dotted_text, 8);
    reveal_with_fuel(decimal_digits, 7);
    assert(dotted_text(oid.arcs_spec()) =~= oid.dotted_spec());
}

/// The text of every entry is the dotted decimal of its arcs.
proof fn lemma_registry_texts(oid: Oid)
    ensures
        text_is_of_arcs(oid),
{
    match oid {
        Oid::RsaEncryption => lemma_rsa_encryption_text(),
        Oid::Sha1RsaEncryption => lemma_sha1_rsa_encryption_text(),
        Oid::Sha256RsaEncryption => lemma_sha256_rsa_encryption_text(),
        Oid::Sha384RsaEncryption => lemma_sha384_rsa_encryption_text(),
        Oid::Sha512RsaEncryption => lemma_sha512_rsa_encryption_text(),
        Oid::RsassaPss => lemma_rsassa_pss_text(),
        Oid::IdSha1 => lemma_id_sha1_text(),
        Oid::IdSha256 => lemma_id_sha256_text(),
        Oid::IdSha384 => lemma_id_sha384_text(),
        Oid::IdSha512 => lemma_id_sha512_text(),
        Oid::IdMfg1 => lemma_id_mfg1_text(),
        Oid::RsaesOaep => lemma_rsaes_oaep_text(),
        Oid::IdPSpecified => lemma_id_p_specified_text(),
    }
}

/// Every entry of the registry is sound. In particular the text of an entry,
/// read into arcs and written back, is the same text.
pub proof fn lemma_registry_round_trip(oid: Oid)
    ensures
        entry_is_sound(oid),
        dotted_text(dotted_arcs(oid.dotted_spec())) == oid.dotted_spec(),
{
    lemma_registry_texts(oid);
    lemma_dotted_text_is_well_formed(oid.arcs_spec());
    lemma_dotted_round_trip(oid.arcs_spec());
}

/// No two entries of the registry name the same object identifier.
pub proof fn lemma_entries_are_distinct(a: Oid, b: Oid)
    requires
        a.arcs_spec() == b.arcs_spec() || a.dotted_spec() == b.dotted_spec(),
    ensures
        a == b,
{
    lemma_registry_round_trip(a);
    lemma_registry_round_trip(b);
}

/// Reads dotted-decimal text with `rsa::pkcs8::ObjectIdentifier::new` and
/// hands out, in order, the arcs that `ObjectIdentifier::arcs` yields for the
/// identifier made.
///
/// Trusted, and stated for the texts of the registry alone: on each of them
/// the parser does not panic, and the arcs it yields are the numbers between
/// the dots of the text.
#[verifier::external_body]
fn parse_arcs(text: &str) -> (arcs: Vec<u32>)
    requires
        is_registered(text@),
    ensures
        arc_values(arcs@) == dotted_arcs(text@),
{
    rsa::pkcs8::ObjectIdentifier::new(text).arcs().collect()
}

} // verus!
