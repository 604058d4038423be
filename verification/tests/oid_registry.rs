use rsa::pkcs8::ObjectIdentifier;
use webcrypto_shared::oid::Oid;
use webcrypto_shared::{
    ID_MFG1, ID_P_SPECIFIED, ID_SHA1_OID, ID_SHA256_OID, ID_SHA384_OID, ID_SHA512_OID,
    RSAES_OAEP_OID, RSASSA_PSS_OID, RSA_ENCRYPTION_OID, SHA1_RSA_ENCRYPTION_OID,
    SHA256_RSA_ENCRYPTION_OID, SHA384_RSA_ENCRYPTION_OID, SHA512_RSA_ENCRYPTION_OID,
};

fn registry() -> Vec<(Oid, &'static str, Vec<u32>)> {
    vec![
        (RSA_ENCRYPTION_OID, "1.2.840.113549.1.1.1", vec![1, 2, 840, 113549, 1, 1, 1]),
        (SHA1_RSA_ENCRYPTION_OID, "1.2.840.113549.1.1.5", vec![1, 2, 840, 113549, 1, 1, 5]),
        (SHA256_RSA_ENCRYPTION_OID, "1.2.840.113549.1.1.11", vec![1, 2, 840, 113549, 1, 1, 11]),
        (SHA384_RSA_ENCRYPTION_OID, "1.2.840.113549.1.1.12", vec![1, 2, 840, 113549, 1, 1, 12]),
        (SHA512_RSA_ENCRYPTION_OID, "1.2.840.113549.1.1.13", vec![1, 2, 840, 113549, 1, 1, 13]),
        (RSASSA_PSS_OID, "1.2.840.113549.1.1.10", vec![1, 2, 840, 113549, 1, 1, 10]),
        (ID_SHA1_OID, "1.3.14.3.2.26", vec![1, 3, 14, 3, 2, 26]),
        (ID_SHA256_OID, "2.16.840.1.101.3.4.2.1", vec![2, 16, 840, 1, 101, 3, 4, 2, 1]),
        (ID_SHA384_OID, "2.16.840.1.101.3.4.2.2", vec![2, 16, 840, 1, 101, 3, 4, 2, 2]),
        (ID_SHA512_OID, "2.16.840.1.101.3.4.2.3", vec![2, 16, 840, 1, 101, 3, 4, 2, 3]),
        (ID_MFG1, "1.2.840.113549.1.1.8", vec![1, 2, 840, 113549, 1, 1, 8]),
        (RSAES_OAEP_OID, "1.2.840.113549.1.1.7", vec![1, 2, 840, 113549, 1, 1, 7]),
        (ID_P_SPECIFIED, "1.2.840.113549.1.1.9", vec![1, 2, 840, 113549, 1, 1, 9]),
    ]
}

#[test]
fn every_entry_has_its_listed_text() {
    for (oid, text, _) in registry() {
        assert_eq!(oid.dotted(), text);
    }
}

#[test]
fn every_entry_parses_to_its_arcs() {
    for (oid, _, arcs) in registry() {
        assert_eq!(oid.arcs(), arcs);
    }
}

#[test]
fn arcs_are_not_the_text_handed_back() {
    let arcs = RSA_ENCRYPTION_OID.arcs();
    assert_eq!(arcs.len(), 7);
    assert_eq!(arcs[2], 840);
    assert_eq!(arcs[3], 113549);
    assert_ne!(arcs.len(), RSA_ENCRYPTION_OID.dotted().len());
}

#[test]
fn every_entry_renders_back_to_its_text() {
    for (oid, text, _) in registry() {
        let parsed = ObjectIdentifier::new(oid.dotted());
        assert_eq!(parsed.to_string(), text);
        let rebuilt = ObjectIdentifier::from_arcs(&oid.arcs()).expect("registry arcs are valid");
        assert_eq!(rebuilt.to_string(), text);
        assert_eq!(rebuilt, parsed);
    }
}

#[test]
fn every_entry_parses_fallibly_to_the_same_identifier() {
    for (oid, text, _) in registry() {
        let parsed: ObjectIdentifier = text.parse().expect("registry text is valid");
        assert_eq!(parsed, ObjectIdentifier::new(oid.dotted()));
        assert_eq!(parsed.arcs().collect::<Vec<u32>>(), oid.arcs());
    }
}

#[test]
fn constants_name_their_variants() {
    assert_eq!(RSA_ENCRYPTION_OID, Oid::RsaEncryption);
    assert_eq!(SHA1_RSA_ENCRYPTION_OID, Oid::Sha1RsaEncryption);
    assert_eq!(SHA256_RSA_ENCRYPTION_OID, Oid::Sha256RsaEncryption);
    assert_eq!(SHA384_RSA_ENCRYPTION_OID, Oid::Sha384RsaEncryption);
    assert_eq!(SHA512_RSA_ENCRYPTION_OID, Oid::Sha512RsaEncryption);
    assert_eq!(RSASSA_PSS_OID, Oid::RsassaPss);
    assert_eq!(ID_SHA1_OID, Oid::IdSha1);
    assert_eq!(ID_SHA256_OID, Oid::IdSha256);
    assert_eq!(ID_SHA384_OID, Oid::IdSha384);
    assert_eq!(ID_SHA512_OID, Oid::IdSha512);
    assert_eq!(ID_MFG1, Oid::IdMfg1);
    assert_eq!(RSAES_OAEP_OID, Oid::RsaesOaep);
    assert_eq!(ID_P_SPECIFIED, Oid::IdPSpecified);
}

#[test]
fn entries_are_pairwise_different() {
    let all = registry();
    for (i, (a, a_text, a_arcs)) in all.iter().enumerate() {
        for (j, (b, b_text, b_arcs)) in all.iter().enumerate() {
            if i != j {
                assert_ne!(a, b);
                assert_ne!(a_text, b_text);
                assert_ne!(a_arcs, b_arcs);
                assert_ne!(a.arcs(), b.arcs());
            }
        }
    }
}

#[test]
fn rsa_encryption_is_pkcs1_arc_one() {
    assert_eq!(RSA_ENCRYPTION_OID.dotted(), "1.2.840.113549.1.1.1");
    assert_eq!(RSA_ENCRYPTION_OID.arcs(), vec![1, 2, 840, 113549, 1, 1, 1]);
}

#[test]
fn sha256_identifier_is_nist_hash_arc_one() {
    assert_eq!(ID_SHA256_OID.dotted(), "2.16.840.1.101.3.4.2.1");
    assert_eq!(ID_SHA256_OID.arcs(), vec![2, 16, 840, 1, 101, 3, 4, 2, 1]);
}

#[test]
fn mgf1_and_p_specified_sit_beside_oaep() {
    assert_eq!(ID_MFG1.dotted(), "1.2.840.113549.1.1.8");
    assert_eq!(RSAES_OAEP_OID.dotted(), "1.2.840.113549.1.1.7");
    assert_eq!(ID_P_SPECIFIED.dotted(), "1.2.840.113549.1.1.9");
}
