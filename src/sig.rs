//! Digital signatures.
//!
//! A [`Sig`] stands for one native signature instance. As with key
//! encapsulation, each operation is split around its native call: a first
//! step checks the inputs against the handle's declared lengths and hands out
//! output storage; the native function fills it and reports a [`Status`]; a
//! second step turns storage and status into typed buffers or an error.
use vstd::prelude::*;

use crate::buffer::zeroed;
use crate::{status_result, status_to_result, Error, Result, Status};

mod buffers;

pub use buffers::{PublicKey, PublicKeyRef, SecretKey, SecretKeyRef, Signature, SignatureRef};

verus! {

/// The signature algorithms that the native library may provide.
///
/// A tag says nothing of whether the linked native build has the algorithm
/// compiled in; the native registry answers that.
#[derive(Debug, Clone, Copy, PartialEq, Eq, Structural)]
#[allow(missing_docs)]
pub enum Algorithm {
    Default,
    Dilithium2,
    Dilithium3,
    Dilithium5,
    Dilithium2Aes,
    Dilithium3Aes,
    Dilithium5Aes,
    Falcon512,
    Falcon1024,
    PicnicL1Fs,
    PicnicL1Ur,
    PicnicL1Full,
    PicnicL3Fs,
    PicnicL3Ur,
    PicnicL3Full,
    PicnicL5Fs,
    PicnicL5Ur,
    PicnicL5Full,
    Picnic3L1,
    Picnic3L3,
    Picnic3L5,
    SphincsHaraka128fRobust,
    SphincsHaraka128fSimple,
    SphincsHaraka128sRobust,
    SphincsHaraka128sSimple,
    SphincsSha256128fRobust,
    SphincsSha256128fSimple,
    SphincsSha256128sRobust,
    SphincsSha256128sSimple,
    SphincsShake256128fRobust,
    SphincsShake256128fSimple,
    SphincsShake256128sRobust,
    SphincsShake256128sSimple,
}

impl Algorithm {
    /// The native identifier of this algorithm.
    pub open spec fn identifier(self) -> Seq<char> {
        match self {
            Algorithm::Default => "DEFAULT"@,
            Algorithm::Dilithium2 => "Dilithium2"@,
            Algorithm::Dilithium3 => "Dilithium3"@,
            Algorithm::Dilithium5 => "Dilithium5"@,
            Algorithm::Dilithium2Aes => "Dilithium2-AES"@,
            Algorithm::Dilithium3Aes => "Dilithium3-AES"@,
            Algorithm::Dilithium5Aes => "Dilithium5-AES"@,
            Algorithm::Falcon512 => "Falcon-512"@,
            Algorithm::Falcon1024 => "Falcon-1024"@,
            Algorithm::PicnicL1Fs => "picnic_L1_FS"@,
            Algorithm::PicnicL1Ur => "picnic_L1_UR"@,
            Algorithm::PicnicL1Full => "picnic_L1_full"@,
            Algorithm::PicnicL3Fs => "picnic_L3_FS"@,
            Algorithm::PicnicL3Ur => "picnic_L3_UR"@,
            Algorithm::PicnicL3Full => "picnic_L3_full"@,
            Algorithm::PicnicL5Fs => "picnic_L5_FS"@,
            Algorithm::PicnicL5Ur => "picnic_L5_UR"@,
            Algorithm::PicnicL5Full => "picnic_L5_full"@,
            Algorithm::Picnic3L1 => "picnic3_L1"@,
            Algorithm::Picnic3L3 => "picnic3_L3"@,
            Algorithm::Picnic3L5 => "picnic3_L5"@,
            Algorithm::SphincsHaraka128fRobust => "SPHINCS+-Haraka-128f-robust"@,
            Algorithm::SphincsHaraka128fSimple => "SPHINCS+-Haraka-128f-simple"@,
            Algorithm::SphincsHaraka128sRobust => "SPHINCS+-Haraka-128s-robust"@,
            Algorithm::SphincsHaraka128sSimple => "SPHINCS+-Haraka-128s-simple"@,
            Algorithm::SphincsSha256128fRobust => "SPHINCS+-SHA256-128f-robust"@,
            Algorithm::SphincsSha256128fSimple => "SPHINCS+-SHA256-128f-simple"@,
            Algorithm::SphincsSha256128sRobust => "SPHINCS+-SHA256-128s-robust"@,
            Algorithm::SphincsSha256128sSimple => "SPHINCS+-SHA256-128s-simple"@,
            Algorithm::SphincsShake256128fRobust => "SPHINCS+-SHAKE256-128f-robust"@,
            Algorithm::SphincsShake256128fSimple => "SPHINCS+-SHAKE256-128f-simple"@,
            Algorithm::SphincsShake256128sRobust => "SPHINCS+-SHAKE256-128s-robust"@,
            Algorithm::SphincsShake256128sSimple => "SPHINCS+-SHAKE256-128s-simple"@,
        }
    }

    /// The native identifier of this algorithm, as the registry spells it.
    pub fn to_id(self) -> (r: &'static str)
        ensures
            r@ == self.identifier(),
    {
        match self {
            Algorithm::Default => "DEFAULT",
            Algorithm::Dilithium2 => "Dilithium2",
            Algorithm::Dilithium3 => "Dilithium3",
            Algorithm::Dilithium5 => "Dilithium5",
            Algorithm::Dilithium2Aes => "Dilithium2-AES",
            Algorithm::Dilithium3Aes => "Dilithium3-AES",
            Algorithm::Dilithium5Aes => "Dilithium5-AES",
            Algorithm::Falcon512 => "Falcon-512",
            Algorithm::Falcon1024 => "Falcon-1024",
            Algorithm::PicnicL1Fs => "picnic_L1_FS",
            Algorithm::PicnicL1Ur => "picnic_L1_UR",
            Algorithm::PicnicL1Full => "picnic_L1_full",
            Algorithm::PicnicL3Fs => "picnic_L3_FS",
            Algorithm::PicnicL3Ur => "picnic_L3_UR",
            Algorithm::PicnicL3Full => "picnic_L3_full",
            Algorithm::PicnicL5Fs => "picnic_L5_FS",
            Algorithm::PicnicL5Ur => "picnic_L5_UR",
            Algorithm::PicnicL5Full => "picnic_L5_full",
            Algorithm::Picnic3L1 => "picnic3_L1",
            Algorithm::Picnic3L3 => "picnic3_L3",
            Algorithm::Picnic3L5 => "picnic3_L5",
            Algorithm::SphincsHaraka128fRobust => "SPHINCS+-Haraka-128f-robust",
            Algorithm::SphincsHaraka128fSimple => "SPHINCS+-Haraka-128f-simple",
            Algorithm::SphincsHaraka128sRobust => "SPHINCS+-Haraka-128s-robust",
            Algorithm::SphincsHaraka128sSimple => "SPHINCS+-Haraka-128s-simple",
            Algorithm::SphincsSha256128fRobust => "SPHINCS+-SHA256-128f-robust",
            Algorithm::SphincsSha256128fSimple => "SPHINCS+-SHA256-128f-simple",
            Algorithm::SphincsSha256128sRobust => "SPHINCS+-SHA256-128s-robust",
            Algorithm::SphincsSha256128sSimple => "SPHINCS+-SHA256-128s-simple",
            Algorithm::SphincsShake256128fRobust => "SPHINCS+-SHAKE256-128f-robust",
            Algorithm::SphincsShake256128fSimple => "SPHINCS+-SHAKE256-128f-simple",
            Algorithm::SphincsShake256128sRobust => "SPHINCS+-SHAKE256-128s-robust",
            Algorithm::SphincsShake256128sSimple => "SPHINCS+-SHAKE256-128s-simple",
        }
    }
}

impl Default for Algorithm {
    fn default() -> (r: Algorithm)
        ensures
            r == Algorithm::Default,
    {
        Algorithm::Default
    }
}

/// What a native instance reports about itself when it is created.
pub struct Params {
    /// Human-readable name of the method.
    pub method_name: String,
    /// Version of the implementation.
    pub version: String,
    /// Claimed NIST security level.
    pub claimed_nist_level: u8,
    /// Whether the algorithm claims EUF-CMA security.
    pub euf_cma: bool,
    /// Length of a public key in bytes.
    pub length_public_key: usize,
    /// Length of a secret key in bytes.
    pub length_secret_key: usize,
    /// Largest length of a signature in bytes.
    pub length_signature: usize,
}

/// A handle on one native signature instance.
///
/// It exists only while the native side holds an instance: construction
/// fails rather than produce a handle without one. Its metadata never
/// changes after construction.
pub struct Sig {
    params: Params,
}

impl View for Sig {
    type V = Params;

    closed spec fn view(&self) -> Params {
        self.params
    }
}

impl Sig {
    /// Build a handle from what the native constructor returned: `None` when
    /// it returned no instance, which means the algorithm is disabled.
    pub fn new(instance: Option<Params>) -> (r: Result<Sig>)
        ensures
            instance is None <==> r == Err::<Sig, Error>(Error::AlgorithmDisabled),
            instance is Some ==> r is Ok && r->Ok_0@ == instance->Some_0,
    {
        match instance {
            Some(params) => Ok(Sig { params }),
            None => Err(Error::AlgorithmDisabled),
        }
    }

    /// Name of the algorithm.
    pub fn name(&self) -> (r: &str)
        ensures
            r@ == self@.method_name@,
    {
        self.params.method_name.as_str()
    }

    /// Version of the implementation.
    pub fn version(&self) -> (r: &str)
        ensures
            r@ == self@.version@,
    {
        self.params.version.as_str()
    }

    /// Claimed NIST security level.
    pub fn claimed_nist_level(&self) -> (r: u8)
        ensures
            r == self@.claimed_nist_level,
    {
        self.params.claimed_nist_level
    }

    /// Whether the algorithm claims EUF-CMA security.
    pub fn is_euf_cma(&self) -> (r: bool)
        ensures
            r == self@.euf_cma,
    {
        self.params.euf_cma
    }

    /// Length of a public key.
    pub fn length_public_key(&self) -> (r: usize)
        ensures
            r == self@.length_public_key,
    {
        self.params.length_public_key
    }

    /// Length of a secret key.
    pub fn length_secret_key(&self) -> (r: usize)
        ensures
            r == self@.length_secret_key,
    {
        self.params.length_secret_key
    }

    /// Largest length of a signature.
    pub fn length_signature(&self) -> (r: usize)
        ensures
            r == self@.length_signature,
    {
        self.params.length_signature
    }

    /// View bytes as a secret key, if they have the declared length.
    pub fn secret_key_from_bytes<'a>(&self, buf: &'a [u8]) -> (r: Option<SecretKeyRef<'a>>)
        ensures
            r is Some <==> buf@.len() == self@.length_secret_key,
            r is Some ==> r->Some_0@ == buf@,
    {
        if self.length_secret_key() != buf.len() {
            None
        } else {
            Some(SecretKeyRef::new(buf))
        }
    }

    /// View bytes as a public key, if they have the declared length.
    pub fn public_key_from_bytes<'a>(&self, buf: &'a [u8]) -> (r: Option<PublicKeyRef<'a>>)
        ensures
            r is Some <==> buf@.len() == self@.length_public_key,
            r is Some ==> r->Some_0@ == buf@,
    {
        if self.length_public_key() != buf.len() {
            None
        } else {
            Some(PublicKeyRef::new(buf))
        }
    }

    /// View bytes as a signature, if they are no longer than the declared
    /// maximum: a signature may be shorter than that.
    pub fn signature_from_bytes<'a>(&self, buf: &'a [u8]) -> (r: Option<SignatureRef<'a>>)
        ensures
            r is Some <==> buf@.len() <= self@.length_signature,
            r is Some ==> r->Some_0@ == buf@,
    {
        if buf.len() > self.length_signature() {
            None
        } else {
            Some(SignatureRef::new(buf))
        }
    }

    /// Output storage for a native keypair call: a public key and a secret
    /// key of the declared lengths.
    pub fn keypair_buffers(&self) -> (r: (Vec<u8>, Vec<u8>))
        ensures
            r.0@.len() == self@.length_public_key,
            r.1@.len() == self@.length_secret_key,
    {
        (zeroed(self.length_public_key()), zeroed(self.length_secret_key()))
    }

    /// Finish a keypair generation: the native call reported `status` after
    /// writing into the storage that `keypair_buffers` handed out.
    pub fn keypair(&self, status: Status, pk: Vec<u8>, sk: Vec<u8>) -> (r: Result<
        (PublicKey, SecretKey),
    >)
        requires
            pk@.len() == self@.length_public_key,
            sk@.len() == self@.length_secret_key,
        ensures
            status_result(status) is Ok <==> r is Ok,
            status_result(status) is Err ==> r is Err && r->Err_0 == status_result(status)->Err_0,
            r is Ok ==> {
                &&& r->Ok_0.0@ == pk@
                &&& r->Ok_0.1@ == sk@
                &&& r->Ok_0.0@.len() == self@.length_public_key
                &&& r->Ok_0.1@.len() == self@.length_secret_key
            },
    {
        match status_to_result(status) {
            Ok(()) => Ok((PublicKey::from_vec(pk), SecretKey::from_vec(sk))),
            Err(e) => Err(e),
        }
    }

    /// Check a secret key before a native signing and hand out storage for
    /// the longest signature the algorithm makes.
    pub fn sign_buffer(&self, sk: SecretKeyRef<'_>) -> (r: Result<Vec<u8>>)
        ensures
            sk@.len() != self@.length_secret_key <==> r == Err::<Vec<u8>, Error>(
                Error::InvalidLength,
            ),
            sk@.len() == self@.length_secret_key <==> r is Ok,
            r is Ok ==> r->Ok_0@.len() == self@.length_signature,
    {
        if sk.len() != self.length_secret_key() {
            return Err(Error::InvalidLength);
        }
        Ok(zeroed(self.length_signature()))
    }

    /// Finish a signing: the native call reported `status` and the actual
    /// signature length `sig_len` after writing into the storage that
    /// `sign_buffer` handed out. The signature keeps only those bytes.
    pub fn sign(&self, status: Status, sig: Vec<u8>, sig_len: usize) -> (r: Result<Signature>)
        requires
            sig@.len() == self@.length_signature,
            sig_len <= self@.length_signature,
        ensures
            status_result(status) is Ok <==> r is Ok,
            status_result(status) is Err ==> r is Err && r->Err_0 == status_result(status)->Err_0,
            r is Ok ==> {
                &&& r->Ok_0@ == sig@.subrange(0, sig_len as int)
                &&& r->Ok_0@.len() == sig_len
                &&& r->Ok_0@.len() <= self@.length_signature
            },
    {
        match status_to_result(status) {
            Ok(()) => {
                let mut sig = sig;
                sig.truncate(sig_len);
                Ok(Signature::from_vec(sig))
            },
            Err(e) => Err(e),
        }
    }

    /// Check a public key before a native verification. The signature's
    /// length is left for the native verifier to judge.
    pub fn verify_inputs(&self, pk: PublicKeyRef<'_>) -> (r: Result<()>)
        ensures
            pk@.len() != self@.length_public_key <==> r == Err::<(), Error>(Error::InvalidLength),
            pk@.len() == self@.length_public_key <==> r is Ok,
    {
        if pk.len() != self.length_public_key() {
            return Err(Error::InvalidLength);
        }
        Ok(())
    }

    /// Finish a verification: the signature is accepted exactly when the
    /// native verifier reported success.
    pub fn verify(&self, status: Status) -> (r: Result<()>)
        ensures
            r == status_result(status),
    {
        status_to_result(status)
    }
}

} // verus!
