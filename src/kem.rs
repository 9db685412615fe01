//! Key encapsulation.
//!
//! A [`Kem`] stands for one native algorithm instance. Each operation is
//! split around its native call: a first step checks the inputs against the
//! handle's declared lengths and hands out output storage of exactly those
//! lengths; the native function fills that storage and reports a [`Status`];
//! a second step turns storage and status into typed buffers or an error.
//! Input of the wrong length never reaches the native side, since the first
//! step refuses it and hands out no storage.
use vstd::prelude::*;

use crate::buffer::zeroed;
use crate::{status_result, status_to_result, Error, Result, Status};

mod buffers;

pub use buffers::{
    Ciphertext, CiphertextRef, PublicKey, PublicKeyRef, SecretKey, SecretKeyRef, SharedSecret,
    SharedSecretRef,
};

verus! {

/// The key encapsulation algorithms that the native library may provide.
///
/// A tag says nothing of whether the linked native build has the algorithm
/// compiled in; the native registry answers that.
#[derive(Debug, Clone, Copy, PartialEq, Eq, Structural)]
#[allow(missing_docs)]
pub enum Algorithm {
    Default,
    BikeL1Cpa,
    BikeL3Cpa,
    BikeL1Fo,
    BikeL3Fo,
    ClassicMcEliece348864,
    ClassicMcEliece348864f,
    ClassicMcEliece460896,
    ClassicMcEliece460896f,
    ClassicMcEliece6688128,
    ClassicMcEliece6688128f,
    ClassicMcEliece6960119,
    ClassicMcEliece6960119f,
    ClassicMcEliece8192128,
    ClassicMcEliece8192128f,
    Hqc128,
    Hqc192,
    Hqc256,
    Kyber512,
    Kyber768,
    Kyber1024,
    Kyber512_90s,
    Kyber768_90s,
    Kyber1024_90s,
    NtruHps2048509,
    NtruHps2048677,
    NtruHps4096821,
    NtruHrss701,
    NtruPrimeNtrulpr653,
    NtruPrimeNtrulpr761,
    NtruPrimeNtrulpr857,
    NtruPrimeSntrup653,
    NtruPrimeSntrup761,
    NtruPrimeSntrup857,
    Lightsaber,
    Saber,
    Firesaber,
    FrodoKem640Aes,
    FrodoKem640Shake,
    FrodoKem976Aes,
    FrodoKem976Shake,
    FrodoKem1344Aes,
    FrodoKem1344Shake,
    SidhP434,
    SidhP503,
    SidhP610,
    SidhP751,
    SidhP434Compressed,
    SidhP503Compressed,
    SidhP610Compressed,
    SidhP751Compressed,
    SikeP434,
    SikeP503,
    SikeP610,
    SikeP751,
    SikeP434Compressed,
    SikeP503Compressed,
    SikeP610Compressed,
    SikeP751Compressed,
}

impl Algorithm {
    /// The native identifier of this algorithm.
    pub open spec fn identifier(self) -> Seq<char> {
        match self {
            Algorithm::Default => "DEFAULT"@,
            Algorithm::BikeL1Cpa => "BIKE1-L1-CPA"@,
            Algorithm::BikeL3Cpa => "BIKE1-L3-CPA"@,
            Algorithm::BikeL1Fo => "BIKE1-L1-FO"@,
            Algorithm::BikeL3Fo => "BIKE1-L3-FO"@,
            Algorithm::ClassicMcEliece348864 => "Classic-McEliece-348864"@,
            Algorithm::ClassicMcEliece348864f => "Classic-McEliece-348864f"@,
            Algorithm::ClassicMcEliece460896 => "Classic-McEliece-460896"@,
            Algorithm::ClassicMcEliece460896f => "Classic-McEliece-460896f"@,
            Algorithm::ClassicMcEliece6688128 => "Classic-McEliece-6688128"@,
            Algorithm::ClassicMcEliece6688128f => "Classic-McEliece-6688128f"@,
            Algorithm::ClassicMcEliece6960119 => "Classic-McEliece-6960119"@,
            Algorithm::ClassicMcEliece6960119f => "Classic-McEliece-6960119f"@,
            Algorithm::ClassicMcEliece8192128 => "Classic-McEliece-8192128"@,
            Algorithm::ClassicMcEliece8192128f => "Classic-McEliece-8192128f"@,
            Algorithm::Hqc128 => "HQC-128"@,
            Algorithm::Hqc192 => "HQC-192"@,
            Algorithm::Hqc256 => "HQC-256"@,
            Algorithm::Kyber512 => "Kyber512"@,
            Algorithm::Kyber768 => "Kyber768"@,
            Algorithm::Kyber1024 => "Kyber1024"@,
            Algorithm::Kyber512_90s => "Kyber512-90s"@,
            Algorithm::Kyber768_90s => "Kyber768-90s"@,
            Algorithm::Kyber1024_90s => "Kyber1024-90s"@,
            Algorithm::NtruHps2048509 => "NTRU-HPS-2048-509"@,
            Algorithm::NtruHps2048677 => "NTRU-HPS-2048-677"@,
            Algorithm::NtruHps4096821 => "NTRU-HPS-4096-821"@,
            Algorithm::NtruHrss701 => "NTRU-HRSS-701"@,
            Algorithm::NtruPrimeNtrulpr653 => "ntrulpr653"@,
            Algorithm::NtruPrimeNtrulpr761 => "ntrulpr761"@,
            Algorithm::NtruPrimeNtrulpr857 => "ntrulpr857"@,
            Algorithm::NtruPrimeSntrup653 => "sntrup653"@,
            Algorithm::NtruPrimeSntrup761 => "sntrup761"@,
            Algorithm::NtruPrimeSntrup857 => "sntrup857"@,
            Algorithm::Lightsaber => "LightSaber-KEM"@,
            Algorithm::Saber => "Saber-KEM"@,
            Algorithm::Firesaber => "FireSaber-KEM"@,
            Algorithm::FrodoKem640Aes => "FrodoKEM-640-AES"@,
            Algorithm::FrodoKem640Shake => "FrodoKEM-640-SHAKE"@,
            Algorithm::FrodoKem976Aes => "FrodoKEM-976-AES"@,
            Algorithm::FrodoKem976Shake => "FrodoKEM-976-SHAKE"@,
            Algorithm::FrodoKem1344Aes => "FrodoKEM-1344-AES"@,
            Algorithm::FrodoKem1344Shake => "FrodoKEM-1344-SHAKE"@,
            Algorithm::SidhP434 => "SIDH-p434"@,
            Algorithm::SidhP503 => "SIDH-p503"@,
            Algorithm::SidhP610 => "SIDH-p610"@,
            Algorithm::SidhP751 => "SIDH-p751"@,
            Algorithm::SidhP434Compressed => "SIDH-p434-compressed"@,
            Algorithm::SidhP503Compressed => "SIDH-p503-compressed"@,
            Algorithm::SidhP610Compressed => "SIDH-p610-compressed"@,
            Algorithm::SidhP751Compressed => "SIDH-p751-compressed"@,
            Algorithm::SikeP434 => "SIKE-p434"@,
            Algorithm::SikeP503 => "SIKE-p503"@,
            Algorithm::SikeP610 => "SIKE-p610"@,
            Algorithm::SikeP751 => "SIKE-p751"@,
            Algorithm::SikeP434Compressed => "SIKE-p434-compressed"@,
            Algorithm::SikeP503Compressed => "SIKE-p503-compressed"@,
            Algorithm::SikeP610Compressed => "SIKE-p610-compressed"@,
            Algorithm::SikeP751Compressed => "SIKE-p751-compressed"@,
        }
    }

    /// The native identifier of this algorithm, as the registry spells it.
    pub fn to_id(self) -> (r: &'static str)
        ensures
            r@ == self.identifier(),
    {
        match self {
            Algorithm::Default => "DEFAULT",
            Algorithm::BikeL1Cpa => "BIKE1-L1-CPA",
            Algorithm::BikeL3Cpa => "BIKE1-L3-CPA",
            Algorithm::BikeL1Fo => "BIKE1-L1-FO",
            Algorithm::BikeL3Fo => "BIKE1-L3-FO",
            Algorithm::ClassicMcEliece348864 => "Classic-McEliece-348864",
            Algorithm::ClassicMcEliece348864f => "Classic-McEliece-348864f",
            Algorithm::ClassicMcEliece460896 => "Classic-McEliece-460896",
            Algorithm::ClassicMcEliece460896f => "Classic-McEliece-460896f",
            Algorithm::ClassicMcEliece6688128 => "Classic-McEliece-6688128",
            Algorithm::ClassicMcEliece6688128f => "Classic-McEliece-6688128f",
            Algorithm::ClassicMcEliece6960119 => "Classic-McEliece-6960119",
            Algorithm::ClassicMcEliece6960119f => "Classic-McEliece-6960119f",
            Algorithm::ClassicMcEliece8192128 => "Classic-McEliece-8192128",
            Algorithm::ClassicMcEliece8192128f => "Classic-McEliece-8192128f",
            Algorithm::Hqc128 => "HQC-128",
            Algorithm::Hqc192 => "HQC-192",
            Algorithm::Hqc256 => "HQC-256",
            Algorithm::Kyber512 => "Kyber512",
            Algorithm::Kyber768 => "Kyber768",
            Algorithm::Kyber1024 => "Kyber1024",
            Algorithm::Kyber512_90s => "Kyber512-90s",
            Algorithm::Kyber768_90s => "Kyber768-90s",
            Algorithm::Kyber1024_90s => "Kyber1024-90s",
            Algorithm::NtruHps2048509 => "NTRU-HPS-2048-509",
            Algorithm::NtruHps2048677 => "NTRU-HPS-2048-677",
            Algorithm::NtruHps4096821 => "NTRU-HPS-4096-821",
            Algorithm::NtruHrss701 => "NTRU-HRSS-701",
            Algorithm::NtruPrimeNtrulpr653 => "ntrulpr653",
            Algorithm::NtruPrimeNtrulpr761 => "ntrulpr761",
            Algorithm::NtruPrimeNtrulpr857 => "ntrulpr857",
            Algorithm::NtruPrimeSntrup653 => "sntrup653",
            Algorithm::NtruPrimeSntrup761 => "sntrup761",
            Algorithm::NtruPrimeSntrup857 => "sntrup857",
            Algorithm::Lightsaber => "LightSaber-KEM",
            Algorithm::Saber => "Saber-KEM",
            Algorithm::Firesaber => "FireSaber-KEM",
            Algorithm::FrodoKem640Aes => "FrodoKEM-640-AES",
            Algorithm::FrodoKem640Shake => "FrodoKEM-640-SHAKE",
            Algorithm::FrodoKem976Aes => "FrodoKEM-976-AES",
            Algorithm::FrodoKem976Shake => "FrodoKEM-976-SHAKE",
            Algorithm::FrodoKem1344Aes => "FrodoKEM-1344-AES",
            Algorithm::FrodoKem1344Shake => "FrodoKEM-1344-SHAKE",
            Algorithm::SidhP434 => "SIDH-p434",
            Algorithm::SidhP503 => "SIDH-p503",
            Algorithm::SidhP610 => "SIDH-p610",
            Algorithm::SidhP751 => "SIDH-p751",
            Algorithm::SidhP434Compressed => "SIDH-p434-compressed",
            Algorithm::SidhP503Compressed => "SIDH-p503-compressed",
            Algorithm::SidhP610Compressed => "SIDH-p610-compressed",
            Algorithm::SidhP751Compressed => "SIDH-p751-compressed",
            Algorithm::SikeP434 => "SIKE-p434",
            Algorithm::SikeP503 => "SIKE-p503",
            Algorithm::SikeP610 => "SIKE-p610",
            Algorithm::SikeP751 => "SIKE-p751",
            Algorithm::SikeP434Compressed => "SIKE-p434-compressed",
            Algorithm::SikeP503Compressed => "SIKE-p503-compressed",
            Algorithm::SikeP610Compressed => "SIKE-p610-compressed",
            Algorithm::SikeP751Compressed => "SIKE-p751-compressed",
        }
    }
}

impl Default for Algorithm {
    fn default() -> (r: Algorithm)
        ensures
            r == Algorithm::Default,
    {
        Algorithm::Default
    }
}

/// What a native instance reports about itself when it is created.
pub struct Params {
    /// Human-readable name of the method.
    pub method_name: String,
    /// Version of the implementation.
    pub version: String,
    /// Claimed NIST security level.
    pub claimed_nist_level: u8,
    /// Whether the algorithm claims IND-CCA security.
    pub ind_cca: bool,
    /// Length of a public key in bytes.
    pub length_public_key: usize,
    /// Length of a secret key in bytes.
    pub length_secret_key: usize,
    /// Length of a ciphertext in bytes.
    pub length_ciphertext: usize,
    /// Length of a shared secret in bytes.
    pub length_shared_secret: usize,
}

/// A handle on one native key encapsulation instance.
///
/// It exists only while the native side holds an instance: construction
/// fails rather than produce a handle without one. Its metadata never
/// changes after construction.
pub struct Kem {
    params: Params,
}

impl View for Kem {
    type V = Params;

    closed spec fn view(&self) -> Params {
        self.params
    }
}

impl Kem {
    /// Build a handle from what the native constructor returned: `None` when
    /// it returned no instance, which means the algorithm is disabled.
    pub fn new(instance: Option<Params>) -> (r: Result<Kem>)
        ensures
            instance is None <==> r == Err::<Kem, Error>(Error::AlgorithmDisabled),
            instance is Some ==> r is Ok && r->Ok_0@ == instance->Some_0,
    {
        match instance {
            Some(params) => Ok(Kem { params }),
            None => Err(Error::AlgorithmDisabled),
        }
    }

    /// Name of the algorithm.
    pub fn name(&self) -> (r: &str)
        ensures
            r@ == self@.method_name@,
    {
        self.params.method_name.as_str()
    }

    /// Version of the implementation.
    pub fn version(&self) -> (r: &str)
        ensures
            r@ == self@.version@,
    {
        self.params.version.as_str()
    }

    /// Claimed NIST security level.
    pub fn claimed_nist_level(&self) -> (r: u8)
        ensures
            r == self@.claimed_nist_level,
    {
        self.params.claimed_nist_level
    }

    /// Whether the algorithm claims IND-CCA security.
    pub fn is_ind_cca(&self) -> (r: bool)
        ensures
            r == self@.ind_cca,
    {
        self.params.ind_cca
    }

    /// Length of a public key.
    pub fn length_public_key(&self) -> (r: usize)
        ensures
            r == self@.length_public_key,
    {
        self.params.length_public_key
    }

    /// Length of a secret key.
    pub fn length_secret_key(&self) -> (r: usize)
        ensures
            r == self@.length_secret_key,
    {
        self.params.length_secret_key
    }

    /// Length of a ciphertext.
    pub fn length_ciphertext(&self) -> (r: usize)
        ensures
            r == self@.length_ciphertext,
    {
        self.params.length_ciphertext
    }

    /// Length of a shared secret.
    pub fn length_shared_secret(&self) -> (r: usize)
        ensures
            r == self@.length_shared_secret,
    {
        self.params.length_shared_secret
    }

    /// View bytes as a secret key, if they have the declared length.
    pub fn secret_key_from_bytes<'a>(&self, buf: &'a [u8]) -> (r: Option<SecretKeyRef<'a>>)
        ensures
            r is Some <==> buf@.len() == self@.length_secret_key,
            r is Some ==> r->Some_0@ == buf@,
    {
        if self.length_secret_key() != buf.len() {
            None
        } else {
            Some(SecretKeyRef::new(buf))
        }
    }

    /// View bytes as a public key, if they have the declared length.
    pub fn public_key_from_bytes<'a>(&self, buf: &'a [u8]) -> (r: Option<PublicKeyRef<'a>>)
        ensures
            r is Some <==> buf@.len() == self@.length_public_key,
            r is Some ==> r->Some_0@ == buf@,
    {
        if self.length_public_key() != buf.len() {
            None
        } else {
            Some(PublicKeyRef::new(buf))
        }
    }

    /// View bytes as a ciphertext, if they have the declared length.
    pub fn ciphertext_from_bytes<'a>(&self, buf: &'a [u8]) -> (r: Option<CiphertextRef<'a>>)
        ensures
            r is Some <==> buf@.len() == self@.length_ciphertext,
            r is Some ==> r->Some_0@ == buf@,
    {
        if self.length_ciphertext() != buf.len() {
            None
        } else {
            Some(CiphertextRef::new(buf))
        }
    }

    /// View bytes as a shared secret, if they have the declared length.
    pub fn shared_secret_from_bytes<'a>(&self, buf: &'a [u8]) -> (r: Option<SharedSecretRef<'a>>)
        ensures
            r is Some <==> buf@.len() == self@.length_shared_secret,
            r is Some ==> r->Some_0@ == buf@,
    {
        if self.length_shared_secret() != buf.len() {
            None
        } else {
            Some(SharedSecretRef::new(buf))
        }
    }

    /// Output storage for a native keypair call: a public key and a secret
    /// key of the declared lengths.
    pub fn keypair_buffers(&self) -> (r: (Vec<u8>, Vec<u8>))
        ensures
            r.0@.len() == self@.length_public_key,
            r.1@.len() == self@.length_secret_key,
    {
        (zeroed(self.length_public_key()), zeroed(self.length_secret_key()))
    }

    /// Finish a keypair generation: the native call reported `status` after
    /// writing into the storage that `keypair_buffers` handed out.
    pub fn keypair(&self, status: Status, pk: Vec<u8>, sk: Vec<u8>) -> (r: Result<
        (PublicKey, SecretKey),
    >)
        requires
            pk@.len() == self@.length_public_key,
            sk@.len() == self@.length_secret_key,
        ensures
            status_result(status) is Ok <==> r is Ok,
            status_result(status) is Err ==> r is Err && r->Err_0 == status_result(status)->Err_0,
            r is Ok ==> {
                &&& r->Ok_0.0@ == pk@
                &&& r->Ok_0.1@ == sk@
                &&& r->Ok_0.0@.len() == self@.length_public_key
                &&& r->Ok_0.1@.len() == self@.length_secret_key
            },
    {
        match status_to_result(status) {
            Ok(()) => Ok((PublicKey::from_vec(pk), SecretKey::from_vec(sk))),
            Err(e) => Err(e),
        }
    }

    /// Check a public key before a native encapsulation and hand out storage
    /// for its ciphertext and shared secret.
    pub fn encapsulate_buffers(&self, pk: PublicKeyRef<'_>) -> (r: Result<(Vec<u8>, Vec<u8>)>)
        ensures
            pk@.len() != self@.length_public_key <==> r == Err::<(Vec<u8>, Vec<u8>), Error>(
                Error::InvalidLength,
            ),
            pk@.len() == self@.length_public_key <==> r is Ok,
            r is Ok ==> {
                &&& r->Ok_0.0@.len() == self@.length_ciphertext
                &&& r->Ok_0.1@.len() == self@.length_shared_secret
            },
    {
        if pk.len() != self.length_public_key() {
            return Err(Error::InvalidLength);
        }
        Ok((zeroed(self.length_ciphertext()), zeroed(self.length_shared_secret())))
    }

    /// Finish an encapsulation: the native call reported `status` after
    /// writing into the storage that `encapsulate_buffers` handed out.
    pub fn encapsulate(&self, status: Status, ct: Vec<u8>, ss: Vec<u8>) -> (r: Result<
        (Ciphertext, SharedSecret),
    >)
        requires
            ct@.len() == self@.length_ciphertext,
            ss@.len() == self@.length_shared_secret,
        ensures
            status_result(status) is Ok <==> r is Ok,
            status_result(status) is Err ==> r is Err && r->Err_0 == status_result(status)->Err_0,
            r is Ok ==> {
                &&& r->Ok_0.0@ == ct@
                &&& r->Ok_0.1@ == ss@
                &&& r->Ok_0.0@.len() == self@.length_ciphertext
                &&& r->Ok_0.1@.len() == self@.length_shared_secret
            },
    {
        match status_to_result(status) {
            Ok(()) => Ok((Ciphertext::from_vec(ct), SharedSecret::from_vec(ss))),
            Err(e) => Err(e),
        }
    }

    /// Check a secret key and a ciphertext before a native decapsulation and
    /// hand out storage for its shared secret.
    pub fn decapsulate_buffer(&self, sk: SecretKeyRef<'_>, ct: CiphertextRef<'_>) -> (r: Result<
        Vec<u8>,
    >)
        ensures
            (sk@.len() != self@.length_secret_key || ct@.len() != self@.length_ciphertext)
                <==> r == Err::<Vec<u8>, Error>(Error::InvalidLength),
            (sk@.len() == self@.length_secret_key && ct@.len() == self@.length_ciphertext)
                <==> r is Ok,
            r is Ok ==> r->Ok_0@.len() == self@.length_shared_secret,
    {
        if sk.len() != self.length_secret_key() || ct.len() != self.length_ciphertext() {
            return Err(Error::InvalidLength);
        }
        Ok(zeroed(self.length_shared_secret()))
    }

    /// Finish a decapsulation: the native call reported `status` after
    /// writing into the storage that `decapsulate_buffer` handed out.
    pub fn decapsulate(&self, status: Status, ss: Vec<u8>) -> (r: Result<SharedSecret>)
        requires
            ss@.len() == self@.length_shared_secret,
        ensures
            status_result(status) is Ok <==> r is Ok,
            status_result(status) is Err ==> r is Err && r->Err_0 == status_result(status)->Err_0,
            r is Ok ==> r->Ok_0@ == ss@ && r->Ok_0@.len() == self@.length_shared_secret,
    {
        match status_to_result(status) {
            Ok(()) => Ok(SharedSecret::from_vec(ss)),
            Err(e) => Err(e),
        }
    }
}

} // verus!
