//! Owned and borrowed buffers of the signature family.
use vstd::prelude::*;
use vstd::slice::slice_to_vec;

use crate::bytes_equal;

verus! {

/// An owned public key.
#[derive(Debug, Clone)]
pub struct PublicKey {
    bytes: Vec<u8>,
}

impl View for PublicKey {
    type V = Seq<u8>;

    closed spec fn view(&self) -> Seq<u8> {
        self.bytes@
    }
}

impl PublicKey {
    /// Length in bytes.
    pub fn len(&self) -> (r: usize)
        ensures
            r == self@.len(),
    {
        self.bytes.len()
    }

    /// Whether the buffer holds no bytes.
    pub fn is_empty(&self) -> (r: bool)
        ensures
            r == (self@.len() == 0),
    {
        self.bytes.len() == 0
    }

    /// The bytes, borrowed.
    pub fn as_bytes(&self) -> (r: &[u8])
        ensures
            r@ == self@,
    {
        self.bytes.as_slice()
    }

    /// Take ownership of bytes that a native operation filled.
    pub(crate) fn from_vec(bytes: Vec<u8>) -> (r: PublicKey)
        ensures
            r@ == bytes@,
    {
        PublicKey { bytes }
    }

    /// The bytes, moved out.
    pub fn into_vec(self) -> (r: Vec<u8>)
        ensures
            r@ == self@,
    {
        self.bytes
    }

    /// A borrowed view of the same bytes.
    pub fn as_buf_ref(&self) -> (r: PublicKeyRef<'_>)
        ensures
            r@ == self@,
    {
        PublicKeyRef { bytes: self.bytes.as_slice() }
    }
}

impl PartialEq for PublicKey {
    fn eq(&self, other: &PublicKey) -> (r: bool)
        ensures
            r == (self@ == other@),
    {
        bytes_equal(self.bytes.as_slice(), other.bytes.as_slice())
    }
}

impl vstd::std_specs::cmp::PartialEqSpecImpl for PublicKey {
    open spec fn obeys_eq_spec() -> bool {
        true
    }

    open spec fn eq_spec(&self, other: &PublicKey) -> bool {
        self@ == other@
    }
}

impl Eq for PublicKey {
}

/// A borrowed public key: a view over bytes owned elsewhere.
#[derive(Debug, Clone, Copy)]
pub struct PublicKeyRef<'a> {
    bytes: &'a [u8],
}

impl<'a> View for PublicKeyRef<'a> {
    type V = Seq<u8>;

    closed spec fn view(&self) -> Seq<u8> {
        self.bytes@
    }
}

impl<'a> PublicKeyRef<'a> {
    /// Wrap bytes without checking their length: outside this crate the handle's
    /// `public_key_from_bytes` is the way in.
    pub(crate) fn new(bytes: &'a [u8]) -> (r: PublicKeyRef<'a>)
        ensures
            r@ == bytes@,
    {
        PublicKeyRef { bytes }
    }

    /// Length in bytes.
    pub fn len(&self) -> (r: usize)
        ensures
            r == self@.len(),
    {
        self.bytes.len()
    }

    /// Whether the view holds no bytes.
    pub fn is_empty(&self) -> (r: bool)
        ensures
            r == (self@.len() == 0),
    {
        self.bytes.len() == 0
    }

    /// The bytes viewed.
    pub fn as_bytes(&self) -> (r: &'a [u8])
        ensures
            r@ == self@,
    {
        self.bytes
    }

    /// Copy the viewed bytes into an owned buffer.
    pub fn to_owned(&self) -> (r: PublicKey)
        ensures
            r@ == self@,
    {
        PublicKey { bytes: slice_to_vec(self.bytes) }
    }
}

/// An owned secret key.
#[derive(Debug, Clone)]
pub struct SecretKey {
    bytes: Vec<u8>,
}

impl View for SecretKey {
    type V = Seq<u8>;

    closed spec fn view(&self) -> Seq<u8> {
        self.bytes@
    }
}

impl SecretKey {
    /// Length in bytes.
    pub fn len(&self) -> (r: usize)
        ensures
            r == self@.len(),
    {
        self.bytes.len()
    }

    /// Whether the buffer holds no bytes.
    pub fn is_empty(&self) -> (r: bool)
        ensures
            r == (self@.len() == 0),
    {
        self.bytes.len() == 0
    }

    /// The bytes, borrowed.
    pub fn as_bytes(&self) -> (r: &[u8])
        ensures
            r@ == self@,
    {
        self.bytes.as_slice()
    }

    /// Take ownership of bytes that a native operation filled.
    pub(crate) fn from_vec(bytes: Vec<u8>) -> (r: SecretKey)
        ensures
            r@ == bytes@,
    {
        SecretKey { bytes }
    }

    /// The bytes, moved out.
    pub fn into_vec(self) -> (r: Vec<u8>)
        ensures
            r@ == self@,
    {
        self.bytes
    }

    /// A borrowed view of the same bytes.
    pub fn as_buf_ref(&self) -> (r: SecretKeyRef<'_>)
        ensures
            r@ == self@,
    {
        SecretKeyRef { bytes: self.bytes.as_slice() }
    }
}

impl PartialEq for SecretKey {
    fn eq(&self, other: &SecretKey) -> (r: bool)
        ensures
            r == (self@ == other@),
    {
        bytes_equal(self.bytes.as_slice(), other.bytes.as_slice())
    }
}

impl vstd::std_specs::cmp::PartialEqSpecImpl for SecretKey {
    open spec fn obeys_eq_spec() -> bool {
        true
    }

    open spec fn eq_spec(&self, other: &SecretKey) -> bool {
        self@ == other@
    }
}

impl Eq for SecretKey {
}

/// A borrowed secret key: a view over bytes owned elsewhere.
#[derive(Debug, Clone, Copy)]
pub struct SecretKeyRef<'a> {
    bytes: &'a [u8],
}

impl<'a> View for SecretKeyRef<'a> {
    type V = Seq<u8>;

    closed spec fn view(&self) -> Seq<u8> {
        self.bytes@
    }
}

impl<'a> SecretKeyRef<'a> {
    /// Wrap bytes without checking their length: outside this crate the handle's
    /// `secret_key_from_bytes` is the way in.
    pub(crate) fn new(bytes: &'a [u8]) -> (r: SecretKeyRef<'a>)
        ensures
            r@ == bytes@,
    {
        SecretKeyRef { bytes }
    }

    /// Length in bytes.
    pub fn len(&self) -> (r: usize)
        ensures
            r == self@.len(),
    {
        self.bytes.len()
    }

    /// Whether the view holds no bytes.
    pub fn is_empty(&self) -> (r: bool)
        ensures
            r == (self@.len() == 0),
    {
        self.bytes.len() == 0
    }

    /// The bytes viewed.
    pub fn as_bytes(&self) -> (r: &'a [u8])
        ensures
            r@ == self@,
    {
        self.bytes
    }

    /// Copy the viewed bytes into an owned buffer.
    pub fn to_owned(&self) -> (r: SecretKey)
        ensures
            r@ == self@,
    {
        SecretKey { bytes: slice_to_vec(self.bytes) }
    }
}

/// An owned signature.
#[derive(Debug, Clone)]
pub struct Signature {
    bytes: Vec<u8>,
}

impl View for Signature {
    type V = Seq<u8>;

    closed spec fn view(&self) -> Seq<u8> {
        self.bytes@
    }
}

impl Signature {
    /// Length in bytes.
    pub fn len(&self) -> (r: usize)
        ensures
            r == self@.len(),
    {
        self.bytes.len()
    }

    /// Whether the buffer holds no bytes.
    pub fn is_empty(&self) -> (r: bool)
        ensures
            r == (self@.len() == 0),
    {
        self.bytes.len() == 0
    }

    /// The bytes, borrowed.
    pub fn as_bytes(&self) -> (r: &[u8])
        ensures
            r@ == self@,
    {
        self.bytes.as_slice()
    }

    /// Take ownership of bytes that a native operation filled.
    pub(crate) fn from_vec(bytes: Vec<u8>) -> (r: Signature)
        ensures
            r@ == bytes@,
    {
        Signature { bytes }
    }

    /// The bytes, moved out.
    pub fn into_vec(self) -> (r: Vec<u8>)
        ensures
            r@ == self@,
    {
        self.bytes
    }

    /// A borrowed view of the same bytes.
    pub fn as_buf_ref(&self) -> (r: SignatureRef<'_>)
        ensures
            r@ == self@,
    {
        SignatureRef { bytes: self.bytes.as_slice() }
    }
}

impl PartialEq for Signature {
    fn eq(&self, other: &Signature) -> (r: bool)
        ensures
            r == (self@ == other@),
    {
        bytes_equal(self.bytes.as_slice(), other.bytes.as_slice())
    }
}

impl vstd::std_specs::cmp::PartialEqSpecImpl for Signature {
    open spec fn obeys_eq_spec() -> bool {
        true
    }

    open spec fn eq_spec(&self, other: &Signature) -> bool {
        self@ == other@
    }
}

impl Eq for Signature {
}

/// A borrowed signature: a view over bytes owned elsewhere.
#[derive(Debug, Clone, Copy)]
pub struct SignatureRef<'a> {
    bytes: &'a [u8],
}

impl<'a> View for SignatureRef<'a> {
    type V = Seq<u8>;

    closed spec fn view(&self) -> Seq<u8> {
        self.bytes@
    }
}

impl<'a> SignatureRef<'a> {
    /// Wrap bytes without checking their length: outside this crate the handle's
    /// `signature_from_bytes` is the way in.
    pub(crate) fn new(bytes: &'a [u8]) -> (r: SignatureRef<'a>)
        ensures
            r@ == bytes@,
    {
        SignatureRef { bytes }
    }

    /// Length in bytes.
    pub fn len(&self) -> (r: usize)
        ensures
            r == self@.len(),
    {
        self.bytes.len()
    }

    /// Whether the view holds no bytes.
    pub fn is_empty(&self) -> (r: bool)
        ensures
            r == (self@.len() == 0),
    {
        self.bytes.len() == 0
    }

    /// The bytes viewed.
    pub fn as_bytes(&self) -> (r: &'a [u8])
        ensures
            r@ == self@,
    {
        self.bytes
    }

    /// Copy the viewed bytes into an owned buffer.
    pub fn to_owned(&self) -> (r: Signature)
        ensures
            r@ == self@,
    {
        Signature { bytes: slice_to_vec(self.bytes) }
    }
}

} // verus!
