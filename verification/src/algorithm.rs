//! The hash functions and the named elliptic curves that the engine
//! supports, each with the label under which it crosses the engine's
//! boundary.
//!
//! The labels form a fixed two-way mapping: every variant has one label, and
//! a label that is none of them decodes to nothing.

use vstd::prelude::*;
use vstd::string::StrSliceExecFns;

verus! {

/// Whether two strings hold the same characters.
fn same_text(a: &str, b: &str) -> (same: bool)
    ensures
        same == (a@ == b@),
{
    let n = a.unicode_len();
    if b.unicode_len() != n {
        return false;
    }
    let mut i: usize = 0;
    while i < n
        invariant
            n == a@.len(),
            n == b@.len(),
            i <= n,
            forall|j: int| 0 <= j < i ==> a@[j] == b@[j],
        decreases n - i,
    {
        if a.get_char(i) != b.get_char(i) {
            return false;
        }
        i += 1;
    }
    assert(a@ =~= b@);
    true
}

/// The failure of decoding a label: the string is no label of the
/// enumeration asked for.
#[derive(Clone, Copy, Debug, PartialEq, Eq, Structural)]
pub struct UnknownLabel;

/// A hash function of the SHA family.
#[derive(Clone, Copy, Debug, PartialEq, Eq, Hash, Structural)]
pub enum ShaHash {
    /// SHA-1, labelled `SHA-1`.
    Sha1,
    /// SHA-256, labelled `SHA-256`.
    Sha256,
    /// SHA-384, labelled `SHA-384`.
    Sha384,
    /// SHA-512, labelled `SHA-512`.
    Sha512,
}

impl ShaHash {
    /// The label of this hash function.
    pub open spec fn label_spec(self) -> Seq<char> {
        match self {
            ShaHash::Sha1 => "SHA-1"@,
            ShaHash::Sha256 => "SHA-256"@,
            ShaHash::Sha384 => "SHA-384"@,
            ShaHash::Sha512 => "SHA-512"@,
        }
    }

    /// The hash function that `label` names, if it names one.
    pub open spec fn from_label_spec(label: Seq<char>) -> Option<ShaHash> {
        if label == "SHA-1"@ {
            Some(ShaHash::Sha1)
        } else if label == "SHA-256"@ {
            Some(ShaHash::Sha256)
        } else if label == "SHA-384"@ {
            Some(ShaHash::Sha384)
        } else if label == "SHA-512"@ {
            Some(ShaHash::Sha512)
        } else {
            None
        }
    }

    /// The label of this hash function. Encoding never fails.
    pub fn label(self) -> (label: &'static str)
        ensures
            label@ == self.label_spec(),
    {
        match self {
            ShaHash::Sha1 => "SHA-1",
            ShaHash::Sha256 => "SHA-256",
            ShaHash::Sha384 => "SHA-384",
            ShaHash::Sha512 => "SHA-512",
        }
    }

    /// Decodes a label. Returns the hash function whose label is exactly
    /// `label`, and fails on every other string.
    pub fn from_label(label: &str) -> (hash: Result<ShaHash, UnknownLabel>)
        ensures
            hash.ok() == Self::from_label_spec(label@),
            hash matches Ok(h) ==> h.label_spec() == label@,
            hash is Err <==> forall|h: ShaHash| #[trigger] h.label_spec() != label@,
    {
        proof {
            Self::lemma_decoding_is_exact(label@);
        }
        if same_text(label, "SHA-1") {
            Ok(ShaHash::Sha1)
        } else if same_text(label, "SHA-256") {
            Ok(ShaHash::Sha256)
        } else if same_text(label, "SHA-384") {
            Ok(ShaHash::Sha384)
        } else if same_text(label, "SHA-512") {
            Ok(ShaHash::Sha512)
        } else {
            Err(UnknownLabel)
        }
    }

    /// No two hash functions share a label.
    pub proof fn lemma_labels_are_distinct(a: ShaHash, b: ShaHash)
        requires
            a.label_spec() == b.label_spec(),
        ensures
            a == b,
    {
        reveal_strlit("SHA-1");
        reveal_strlit("SHA-256");
        reveal_strlit("SHA-384");
        reveal_strlit("SHA-512");
        assert("SHA-1"@.len() == 5);
        assert("SHA-256"@.len() == 7 && "SHA-256"@[4] == '2');
        assert("SHA-384"@.len() == 7 && "SHA-384"@[4] == '3');
        assert("SHA-512"@.len() == 7 && "SHA-512"@[4] == '5');
    }

    /// Encoding a hash function and decoding the label gives the hash
    /// function back.
    pub proof fn lemma_label_round_trip(hash: ShaHash)
        ensures
            Self::from_label_spec(hash.label_spec()) == Some(hash),
    {
        Self::lemma_decoding_is_exact(hash.label_spec());
    }

    /// Decoding succeeds on the four labels and on nothing else: a string
    /// decodes to a hash function exactly when it is that function's label.
    pub proof fn lemma_decoding_is_exact(label: Seq<char>)
        ensures
            forall|h: ShaHash|
                Self::from_label_spec(label) == Some(h) <==> #[trigger] h.label_spec() == label,
            Self::from_label_spec(label) is None <==> forall|h: ShaHash| #[trigger]
                h.label_spec() != label,
    {
        assert forall|h: ShaHash|
            Self::from_label_spec(label) == Some(h) <==> #[trigger] h.label_spec() == label by {
            if h.label_spec() == label {
                match Self::from_label_spec(label) {
                    Some(g) => Self::lemma_labels_are_distinct(g, h),
                    None => {},
                }
            }
        }
        if Self::from_label_spec(label) is Some {
            let g = Self::from_label_spec(label)->Some_0;
            assert(g.label_spec() == label);
        }
    }
}

/// A named elliptic curve.
#[derive(Clone, Copy, Debug, PartialEq, Eq, Hash, Structural)]
pub enum EcNamedCurve {
    /// NIST P-256, labelled `P-256`.
    P256,
    /// NIST P-384, labelled `P-384`.
    P384,
}

impl EcNamedCurve {
    /// The label of this curve.
    pub open spec fn label_spec(self) -> Seq<char> {
        match self {
            EcNamedCurve::P256 => "P-256"@,
            EcNamedCurve::P384 => "P-384"@,
        }
    }

    /// The curve that `label` names, if it names one.
    pub open spec fn from_label_spec(label: Seq<char>) -> Option<EcNamedCurve> {
        if label == "P-256"@ {
            Some(EcNamedCurve::P256)
        } else if label == "P-384"@ {
            Some(EcNamedCurve::P384)
        } else {
            None
        }
    }

    /// The label of this curve. Encoding never fails.
    pub fn label(self) -> (label: &'static str)
        ensures
            label@ == self.label_spec(),
    {
        match self {
            EcNamedCurve::P256 => "P-256",
            EcNamedCurve::P384 => "P-384",
        }
    }

    /// Decodes a label. Returns the curve whose label is exactly `label`,
    /// and fails on every other string.
    pub fn from_label(label: &str) -> (curve: Result<EcNamedCurve, UnknownLabel>)
        ensures
            curve.ok() == Self::from_label_spec(label@),
            curve matches Ok(c) ==> c.label_spec() == label@,
            curve is Err <==> forall|c: EcNamedCurve| #[trigger] c.label_spec() != label@,
    {
        proof {
            Self::lemma_decoding_is_exact(label@);
        }
        if same_text(label, "P-256") {
            Ok(EcNamedCurve::P256)
        } else if same_text(label, "P-384") {
            Ok(EcNamedCurve::P384)
        } else {
            Err(UnknownLabel)
        }
    }

    /// No two curves share a label.
    pub proof fn lemma_labels_are_distinct(a: EcNamedCurve, b: EcNamedCurve)
        requires
            a.label_spec() == b.label_spec(),
        ensures
            a == b,
    {
        reveal_strlit("P-256");
        reveal_strlit("P-384");
        assert("P-256"@[2] == '2');
        assert("P-384"@[2] == '3');
    }

    /// Encoding a curve and decoding the label gives the curve back.
    pub proof fn lemma_label_round_trip(curve: EcNamedCurve)
        ensures
            Self::from_label_spec(curve.label_spec()) == Some(curve),
    {
        Self::lemma_decoding_is_exact(curve.label_spec());
    }

    /// Decoding succeeds on the two labels and on nothing else: a string
    /// decodes to a curve exactly when it is that curve's label.
    pub proof fn lemma_decoding_is_exact(label: Seq<char>)
        ensures
            forall|c: EcNamedCurve|
                Self::from_label_spec(label) == Some(c) <==> #[trigger] c.label_spec() == label,
            Self::from_label_spec(label) is None <==> forall|c: EcNamedCurve| #[trigger]
                c.label_spec() != label,
    {
        assert forall|c: EcNamedCurve|
            Self::from_label_spec(label) == Some(c) <==> #[trigger] c.label_spec() == label by {
            if c.label_spec() == label {
                match Self::from_label_spec(label) {
                    Some(g) => Self::lemma_labels_are_distinct(g, c),
                    None => {},
                }
            }
        }
        if Self::from_label_spec(label) is Some {
            let g = Self::from_label_spec(label)->Some_0;
            assert(g.label_spec() == label);
        }
    }
}

} // verus!
