use oqs::kem::{Algorithm, Kem, Params};
use oqs::{status_to_result, Error, Status};

fn params(pk: usize, sk: usize, ct: usize, ss: usize) -> Params {
    Params {
        method_name: String::from("Kyber512"),
        version: String::from("https://github.com/pq-crystals/kyber"),
        claimed_nist_level: 1,
        ind_cca: true,
        length_public_key: pk,
        length_secret_key: sk,
        length_ciphertext: ct,
        length_shared_secret: ss,
    }
}

fn kyber_like() -> Kem {
    Kem::new(Some(params(800, 1632, 768, 32))).unwrap()
}

#[test]
fn status_translation() {
    assert_eq!(status_to_result(Status::Success), Ok(()));
    assert_eq!(status_to_result(Status::Error), Err(Error::Error));
    assert_eq!(
        status_to_result(Status::ExternalLibErrorOpenssl),
        Err(Error::ErrorExternalOpenSSL)
    );
}

#[test]
fn error_messages() {
    assert_eq!(Error::AlgorithmDisabled.to_string(), "Algorithm has been disabled");
    assert_eq!(Error::Error.to_string(), "OQS Error!");
    assert_eq!(Error::ErrorExternalOpenSSL.to_string(), "OQS Error!");
    assert_eq!(Error::InvalidLength.to_string(), "OQS Error!");
}

#[test]
fn disabled_algorithm_is_refused() {
    assert!(matches!(Kem::new(None), Err(Error::AlgorithmDisabled)));
}

#[test]
fn metadata_comes_from_the_instance() {
    let kem = kyber_like();
    assert_eq!(kem.name(), "Kyber512");
    assert_eq!(kem.version(), "https://github.com/pq-crystals/kyber");
    assert_eq!(kem.claimed_nist_level(), 1);
    assert!(kem.is_ind_cca());
    assert_eq!(kem.length_public_key(), 800);
    assert_eq!(kem.length_secret_key(), 1632);
    assert_eq!(kem.length_ciphertext(), 768);
    assert_eq!(kem.length_shared_secret(), 32);
}

#[test]
fn identifiers() {
    assert_eq!(Algorithm::Default.to_id(), "DEFAULT");
    assert_eq!(Algorithm::Kyber512.to_id(), "Kyber512");
    assert_eq!(Algorithm::Kyber768_90s.to_id(), "Kyber768-90s");
    assert_eq!(Algorithm::FrodoKem640Shake.to_id(), "FrodoKEM-640-SHAKE");
    assert_eq!(Algorithm::SikeP751Compressed.to_id(), "SIKE-p751-compressed");
    assert_eq!(Algorithm::default(), Algorithm::Default);
}

#[test]
fn from_bytes_checks_length() {
    let kem = kyber_like();
    let exact = vec![7u8; 800];
    let short = vec![7u8; 799];
    let long = vec![7u8; 801];
    assert_eq!(kem.public_key_from_bytes(&exact).unwrap().as_bytes(), &exact[..]);
    assert!(kem.public_key_from_bytes(&short).is_none());
    assert!(kem.public_key_from_bytes(&long).is_none());
    assert!(kem.public_key_from_bytes(&[]).is_none());
    assert!(kem.secret_key_from_bytes(&vec![0u8; 1632]).is_some());
    assert!(kem.secret_key_from_bytes(&vec![0u8; 1631]).is_none());
    assert!(kem.ciphertext_from_bytes(&vec![0u8; 768]).is_some());
    assert!(kem.ciphertext_from_bytes(&vec![0u8; 769]).is_none());
    assert!(kem.shared_secret_from_bytes(&vec![0u8; 32]).is_some());
    assert!(kem.shared_secret_from_bytes(&vec![0u8; 31]).is_none());
}

#[test]
fn from_bytes_with_zero_declared_length() {
    let kem = Kem::new(Some(params(0, 0, 0, 0))).unwrap();
    assert_eq!(kem.public_key_from_bytes(&[]).unwrap().len(), 0);
    assert!(kem.public_key_from_bytes(&[1]).is_none());
    assert!(kem.shared_secret_from_bytes(&[]).unwrap().is_empty());
}

#[test]
fn keypair_storage_and_success() {
    let kem = kyber_like();
    let (mut pk, mut sk) = kem.keypair_buffers();
    assert_eq!(pk.len(), 800);
    assert_eq!(sk.len(), 1632);
    pk[0] = 9;
    sk[1631] = 4;
    let (pk, sk) = kem.keypair(Status::Success, pk, sk).unwrap();
    assert_eq!(pk.len(), 800);
    assert_eq!(sk.len(), 1632);
    assert_eq!(pk.as_bytes()[0], 9);
    assert_eq!(sk.as_bytes()[1631], 4);
    assert_eq!(sk.into_vec().len(), 1632);
}

#[test]
fn keypair_failure_produces_no_keys() {
    let kem = kyber_like();
    let (pk, sk) = kem.keypair_buffers();
    assert!(matches!(kem.keypair(Status::Error, pk, sk), Err(Error::Error)));
    let (pk, sk) = kem.keypair_buffers();
    assert!(matches!(
        kem.keypair(Status::ExternalLibErrorOpenssl, pk, sk),
        Err(Error::ErrorExternalOpenSSL)
    ));
}

#[test]
fn encapsulate_checks_public_key() {
    let kem = kyber_like();
    let wrong = vec![1u8; 32];
    let pk_bytes = vec![1u8; 800];
    let pk = kem.public_key_from_bytes(&pk_bytes).unwrap();
    let (ct, ss) = kem.encapsulate_buffers(pk).unwrap();
    assert_eq!(ct.len(), 768);
    assert_eq!(ss.len(), 32);
    let (keys, _) = kem.keypair_buffers();
    let other = Kem::new(Some(params(32, 1632, 768, 32))).unwrap();
    let short_pk = other.public_key_from_bytes(&wrong).unwrap();
    assert!(matches!(kem.encapsulate_buffers(short_pk), Err(Error::InvalidLength)));
    assert_eq!(keys.len(), 800);
}

#[test]
fn encapsulate_then_decapsulate_agree() {
    let kem = kyber_like();
    let pk_bytes = vec![1u8; 800];
    let pk = kem.public_key_from_bytes(&pk_bytes).unwrap();
    let (ct, mut ss) = kem.encapsulate_buffers(pk).unwrap();
    ss[5] = 42;
    let (ct, ss1) = kem.encapsulate(Status::Success, ct, ss).unwrap();
    assert_eq!(ct.len(), 768);
    assert_eq!(ss1.len(), 32);
    let sk_bytes = vec![2u8; 1632];
    let sk = kem.secret_key_from_bytes(&sk_bytes).unwrap();
    let mut out = kem.decapsulate_buffer(sk, ct.as_buf_ref()).unwrap();
    out[5] = 42;
    let ss2 = kem.decapsulate(Status::Success, out).unwrap();
    assert_eq!(ss1, ss2);
    assert_eq!(ss2.as_buf_ref().to_owned(), ss1);
}

#[test]
fn shared_secrets_that_differ_are_unequal() {
    let kem = kyber_like();
    let a = kem.decapsulate(Status::Success, vec![0u8; 32]).unwrap();
    let mut other = vec![0u8; 32];
    other[31] = 1;
    let b = kem.decapsulate(Status::Success, other).unwrap();
    assert_ne!(a, b);
}

#[test]
fn encapsulate_failure_is_reported() {
    let kem = kyber_like();
    let r = kem.encapsulate(Status::ExternalLibErrorOpenssl, vec![0u8; 768], vec![0u8; 32]);
    assert!(matches!(r, Err(Error::ErrorExternalOpenSSL)));
    let r = kem.decapsulate(Status::Error, vec![0u8; 32]);
    assert!(matches!(r, Err(Error::Error)));
}

#[test]
fn decapsulate_checks_both_inputs() {
    let kem = kyber_like();
    let other = Kem::new(Some(params(800, 16, 16, 32))).unwrap();
    let good_sk = vec![0u8; 1632];
    let good_ct = vec![0u8; 768];
    let bad = vec![0u8; 16];
    let sk = kem.secret_key_from_bytes(&good_sk).unwrap();
    let ct = kem.ciphertext_from_bytes(&good_ct).unwrap();
    let bad_sk = other.secret_key_from_bytes(&bad).unwrap();
    let bad_ct = other.ciphertext_from_bytes(&bad).unwrap();
    assert_eq!(kem.decapsulate_buffer(sk, ct).unwrap().len(), 32);
    assert!(matches!(kem.decapsulate_buffer(bad_sk, ct), Err(Error::InvalidLength)));
    assert!(matches!(kem.decapsulate_buffer(sk, bad_ct), Err(Error::InvalidLength)));
    assert!(matches!(kem.decapsulate_buffer(bad_sk, bad_ct), Err(Error::InvalidLength)));
}
