//! Raw key material, tagged with the class of key that its bytes are.
//!
//! The tag is the one the caller declares when the bytes are imported. The
//! bytes are opaque here: nothing reads them, and nothing infers the tag
//! from them.

use vstd::prelude::*;

verus! {

/// The class of a key.
#[derive(Clone, Copy, Debug, PartialEq, Eq, Hash, Structural)]
pub enum KeyType {
    /// A symmetric key.
    Secret,
    /// The private half of a key pair.
    Private,
    /// The public half of a key pair.
    Public,
}

/// Raw key bytes under exactly one of the three tags. Each value owns its
/// bytes.
#[derive(Clone, Debug, PartialEq, Eq)]
pub enum RawKeyData {
    /// The bytes of a symmetric key.
    Secret(Vec<u8>),
    /// The bytes of a private key.
    Private(Vec<u8>),
    /// The bytes of a public key.
    Public(Vec<u8>),
}

impl View for RawKeyData {
    type V = (KeyType, Seq<u8>);

    /// The tag and the bytes.
    open spec fn view(&self) -> (KeyType, Seq<u8>) {
        match self {
            RawKeyData::Secret(data) => (KeyType::Secret, data@),
            RawKeyData::Private(data) => (KeyType::Private, data@),
            RawKeyData::Public(data) => (KeyType::Public, data@),
        }
    }
}

impl RawKeyData {
    /// The value that holds `data` under the tag `key_type`.
    pub open spec fn tagged(key_type: KeyType, data: Vec<u8>) -> RawKeyData {
        match key_type {
            KeyType::Secret => RawKeyData::Secret(data),
            KeyType::Private => RawKeyData::Private(data),
            KeyType::Public => RawKeyData::Public(data),
        }
    }

    /// Tags `data` as a key of class `key_type`. The class is the one
    /// declared, whatever the bytes hold, and the bytes are taken as they are.
    pub fn new(key_type: KeyType, data: Vec<u8>) -> (key: RawKeyData)
        ensures
            key == Self::tagged(key_type, data),
            key@ == (key_type, data@),
    {
        match key_type {
            KeyType::Secret => RawKeyData::Secret(data),
            KeyType::Private => RawKeyData::Private(data),
            KeyType::Public => RawKeyData::Public(data),
        }
    }

    /// The class under which the bytes were tagged.
    pub fn key_type(&self) -> (key_type: KeyType)
        ensures
            key_type == self@.0,
    {
        match self {
            RawKeyData::Secret(_) => KeyType::Secret,
            RawKeyData::Private(_) => KeyType::Private,
            RawKeyData::Public(_) => KeyType::Public,
        }
    }

    /// The bytes, unchanged.
    pub fn data(&self) -> (data: &[u8])
        ensures
            data@ == self@.1,
    {
        match self {
            RawKeyData::Secret(data) => data.as_slice(),
            RawKeyData::Private(data) => data.as_slice(),
            RawKeyData::Public(data) => data.as_slice(),
        }
    }

    /// Gives the bytes up, unchanged.
    pub fn into_data(self) -> (data: Vec<u8>)
        ensures
            data@ == self@.1,
            self == Self::tagged(self@.0, data),
    {
        match self {
            RawKeyData::Secret(data) => data,
            RawKeyData::Private(data) => data,
            RawKeyData::Public(data) => data,
        }
    }
}

} // verus!
