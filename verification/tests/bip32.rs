use bhwi::bip32::{DerivationPath, Fingerprint, Xpub, HARDENED};
use std::str::FromStr;

const MASTER_XPUB: &str = "xpub661MyMwAqRbcFtXgS5sYJABqqG9YLmC4Q1Rdap9gSE8NqtwybGhePY2gZ29ESFjqJoCu1Rupje8YtGqsefD265TMg7usUDFdp6W1EGMcet8";

#[test]
fn test_derivation_path() {
    let path = DerivationPath::from_str("m/48'/1'/0'/2'").unwrap();
    assert_eq!("48'/1'/0'/2'", path.to_string());
}

#[test]
fn derivation_path_holds_child_numbers() {
    let path = DerivationPath::from_str("m/84'/0'/0'/0/1").unwrap();
    assert_eq!(path.to_u32_vec(), vec![84 + HARDENED, HARDENED, HARDENED, 0, 1]);
    assert_eq!(path.len(), 5);
    assert!(!path.is_master());
    assert!(DerivationPath::from_str("m").unwrap().is_master());
    assert!(DerivationPath::master().is_master());
    assert!(DerivationPath::from_str("m/x").is_none());
    let built = DerivationPath::from_u32_vec(vec![44 + HARDENED, 7]);
    assert_eq!(built.to_string(), "44'/7");
    assert_eq!(built.as_slice(), &[44 + HARDENED, 7][..]);
}

#[test]
fn derivation_path_agrees_with_bitcoin() {
    let theirs = bitcoin::bip32::DerivationPath::from_str("m/48'/1'/0'/2'/5").unwrap();
    let ours = DerivationPath::from_u32_vec(theirs.to_u32_vec());
    assert_eq!(ours.to_string(), theirs.to_string());
}

#[test]
fn xpub_is_its_serialization() {
    let xpub = Xpub::from_str(MASTER_XPUB).unwrap();
    let theirs = bitcoin::bip32::Xpub::from_str(MASTER_XPUB).unwrap();
    assert_eq!(xpub.encode(), theirs.encode().to_vec());
    assert_eq!(xpub.encode().len(), 78);
    assert_eq!(xpub.to_string(), MASTER_XPUB);
    assert_eq!(Xpub::from_encoded(theirs.encode()), xpub);
    assert_eq!(Xpub::from_ascii(MASTER_XPUB.as_bytes()).unwrap(), xpub);
}

#[test]
fn xpub_fingerprint_is_hash160_of_the_key() {
    let xpub = Xpub::from_str(MASTER_XPUB).unwrap();
    assert_eq!(xpub.fingerprint(), Fingerprint::new([0x34, 0x42, 0x19, 0x3e]));
    let theirs = bitcoin::bip32::Xpub::from_str(MASTER_XPUB).unwrap();
    assert_eq!(xpub.fingerprint().to_bytes(), theirs.fingerprint().to_bytes());
}

#[test]
fn xpub_parsing_reports_errors() {
    let bad_checksum = "xpub661MyMwAqRbcFtXgS5sYJABqqG9YLmC4Q1Rdap9gSE8NqtwybGhePY2gZ29ESFjqJoCu1Rupje8YtGqsefD265TMg7usUDFdp6W1EGMcet9";
    let message = Xpub::from_str(bad_checksum).unwrap_err();
    let theirs = bitcoin::bip32::Xpub::from_str(bad_checksum).unwrap_err();
    assert_eq!(message, theirs.to_string());
    assert!(Xpub::from_ascii(&[0xff, 0xfe]).is_err());
    assert!(Xpub::from_str("").is_err());
}
