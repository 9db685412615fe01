use oqs::sig::{Algorithm, Params, Sig};
use oqs::{Error, Status};

fn falcon_like() -> Sig {
    Sig::new(Some(Params {
        method_name: String::from("Falcon-512"),
        version: String::from("20201018"),
        claimed_nist_level: 1,
        euf_cma: true,
        length_public_key: 897,
        length_secret_key: 1281,
        length_signature: 690,
    }))
    .unwrap()
}

#[test]
fn sig_disabled_algorithm_is_refused() {
    assert!(matches!(Sig::new(None), Err(Error::AlgorithmDisabled)));
}

#[test]
fn sig_metadata_comes_from_the_instance() {
    let sig = falcon_like();
    assert_eq!(sig.name(), "Falcon-512");
    assert_eq!(sig.version(), "20201018");
    assert_eq!(sig.claimed_nist_level(), 1);
    assert!(sig.is_euf_cma());
    assert_eq!(sig.length_public_key(), 897);
    assert_eq!(sig.length_secret_key(), 1281);
    assert_eq!(sig.length_signature(), 690);
}

#[test]
fn sig_identifiers() {
    assert_eq!(Algorithm::Default.to_id(), "DEFAULT");
    assert_eq!(Algorithm::Dilithium2.to_id(), "Dilithium2");
    assert_eq!(Algorithm::Falcon512.to_id(), "Falcon-512");
    assert_eq!(Algorithm::PicnicL1Full.to_id(), "picnic_L1_full");
    assert_eq!(Algorithm::SphincsSha256128fRobust.to_id(), "SPHINCS+-SHA256-128f-robust");
    assert_eq!(Algorithm::default(), Algorithm::Default);
}

#[test]
fn sig_from_bytes_checks_length() {
    let sig = falcon_like();
    assert!(sig.public_key_from_bytes(&vec![0u8; 897]).is_some());
    assert!(sig.public_key_from_bytes(&vec![0u8; 896]).is_none());
    assert!(sig.secret_key_from_bytes(&vec![0u8; 1281]).is_some());
    assert!(sig.secret_key_from_bytes(&vec![0u8; 1282]).is_none());
    assert_eq!(sig.signature_from_bytes(&vec![0u8; 690]).unwrap().len(), 690);
    assert_eq!(sig.signature_from_bytes(&vec![0u8; 655]).unwrap().len(), 655);
    assert!(sig.signature_from_bytes(&vec![0u8; 691]).is_none());
}

#[test]
fn sig_keypair_has_declared_lengths() {
    let sig = falcon_like();
    let (pk, sk) = sig.keypair_buffers();
    let (pk, sk) = sig.keypair(Status::Success, pk, sk).unwrap();
    assert_eq!(pk.len(), 897);
    assert_eq!(sk.len(), 1281);
    let (pk, sk) = sig.keypair_buffers();
    assert!(matches!(sig.keypair(Status::Error, pk, sk), Err(Error::Error)));
}

#[test]
fn signature_is_cut_to_reported_length() {
    let sig = falcon_like();
    let sk_bytes = vec![3u8; 1281];
    let sk = sig.secret_key_from_bytes(&sk_bytes).unwrap();
    let mut out = sig.sign_buffer(sk).unwrap();
    assert_eq!(out.len(), 690);
    out[0] = 0x39;
    out[654] = 0xaa;
    out[655] = 0xbb;
    let s = sig.sign(Status::Success, out, 655).unwrap();
    assert_eq!(s.len(), 655);
    assert_eq!(s.as_bytes()[0], 0x39);
    assert_eq!(s.as_bytes()[654], 0xaa);
    let view = sig.signature_from_bytes(s.as_bytes()).unwrap();
    assert_eq!(view.to_owned(), s);
}

#[test]
fn signature_of_full_length_is_kept_whole() {
    let sig = falcon_like();
    let s = sig.sign(Status::Success, vec![1u8; 690], 690).unwrap();
    assert_eq!(s.len(), 690);
    let e = sig.sign(Status::ExternalLibErrorOpenssl, vec![1u8; 690], 690);
    assert!(matches!(e, Err(Error::ErrorExternalOpenSSL)));
}

#[test]
fn sign_checks_secret_key() {
    let sig = falcon_like();
    let other = Sig::new(Some(Params {
        method_name: String::from("x"),
        version: String::from("y"),
        claimed_nist_level: 5,
        euf_cma: false,
        length_public_key: 1,
        length_secret_key: 1,
        length_signature: 1,
    }))
    .unwrap();
    assert!(!other.is_euf_cma());
    let short = other.secret_key_from_bytes(&[0u8]).unwrap();
    assert!(matches!(sig.sign_buffer(short), Err(Error::InvalidLength)));
    let short_pk = other.public_key_from_bytes(&[0u8]).unwrap();
    assert!(matches!(sig.verify_inputs(short_pk), Err(Error::InvalidLength)));
}

#[test]
fn verify_follows_native_status() {
    let sig = falcon_like();
    let pk_bytes = vec![0u8; 897];
    let pk = sig.public_key_from_bytes(&pk_bytes).unwrap();
    assert_eq!(sig.verify_inputs(pk), Ok(()));
    assert_eq!(sig.verify(Status::Success), Ok(()));
    assert_eq!(sig.verify(Status::Error), Err(Error::Error));
    assert_eq!(sig.verify(Status::ExternalLibErrorOpenssl), Err(Error::ErrorExternalOpenSSL));
}
