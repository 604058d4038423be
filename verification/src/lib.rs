//! Algorithm identities, key-material tags and error kinds shared by the
//! primitives of a WebCrypto engine.
//!
//! - [`dotted`]: dotted decimal, the notation of object identifiers.
//! - [`oid`]: the registry of object identifiers used in PKCS#1, PKCS#8 and
//!   SPKI structures.
//! - [`algorithm`]: the supported hash functions and named curves, with
//!   their labels.
//! - [`key`]: raw key bytes tagged as secret, private or public.
//! - [`error`]: the two error kinds and their constructors.

pub mod algorithm;
pub mod dotted;
pub mod error;
pub mod key;
pub mod oid;

pub use algorithm::{EcNamedCurve, ShaHash, UnknownLabel};
pub use error::{data_error, not_supported_error, unsupported_format, CryptoError, ErrorKind};
pub use key::{KeyType, RawKeyData};
pub use oid::{
    Oid, ID_MFG1, ID_P_SPECIFIED, ID_SHA1_OID, ID_SHA256_OID, ID_SHA384_OID, ID_SHA512_OID,
    RSAES_OAEP_OID, RSASSA_PSS_OID, RSA_ENCRYPTION_OID, SHA1_RSA_ENCRYPTION_OID,
    SHA256_RSA_ENCRYPTION_OID, SHA384_RSA_ENCRYPTION_OID, SHA512_RSA_ENCRYPTION_OID,
};
