use aegis_engine::dp::DpError;
use aegis_engine::sdk::SdkError;
use aegis_engine::sdk::Vault;
use aegis_engine::sdk::VaultHeader;

const KEY_A: [u8; 32] = [7u8; 32];
const KEY_B: [u8; 32] = [8u8; 32];

#[test]
fn vault_round_trip() {
    let vault = Vault::new("vault-root", &KEY_A).unwrap();
    let (stored_name, bytes) = vault.store("codes.txt", b"Nuclear Codes").unwrap();
    assert_eq!(stored_name, "codes.txt.enc");
    let plaintext = vault.load(Some(bytes)).unwrap();
    assert_eq!(plaintext, b"Nuclear Codes");
}

#[test]
fn vault_round_trip_empty() {
    let vault = Vault::new("vault-root", &KEY_A).unwrap();
    let (stored_name, bytes) = vault.store("empty.bin", b"").unwrap();
    assert_eq!(stored_name, "empty.bin.enc");
    let plaintext = vault.load(Some(bytes)).unwrap();
    assert_eq!(plaintext, Vec::<u8>::new());
}

#[test]
fn vault_round_trip_large() {
    let vault = Vault::new("vault-root", &KEY_A).unwrap();
    let data: Vec<u8> = (0..3 * 1024 * 1024).map(|i| (i % 251) as u8).collect();
    let (_, bytes) = vault.store("big.bin", &data).unwrap();
    assert_eq!(bytes.len(), data.len() + 28);
    let plaintext = vault.load(Some(bytes)).unwrap();
    assert_eq!(plaintext, data);
}

#[test]
fn stored_bytes_are_not_plaintext() {
    let vault = Vault::new("vault-root", &KEY_A).unwrap();
    let data = b"Nuclear Codes";
    let (_, bytes) = vault.store("codes.txt", data).unwrap();
    assert_eq!(bytes.len(), data.len() + 28);
    // the ciphertext body must differ from the plaintext it hides
    assert_ne!(&bytes[12..12 + data.len()], &data[..]);
    // a second store of the same plaintext draws a fresh nonce
    let (_, bytes2) = vault.store("codes.txt", data).unwrap();
    assert_ne!(bytes, bytes2);
}

#[test]
fn load_missing_object_is_io() {
    let vault = Vault::new("vault-root", &KEY_A).unwrap();
    assert_eq!(vault.load(None), Err(SdkError::Io));
}

#[test]
fn load_with_wrong_key_is_crypto() {
    let vault_a = Vault::new("vault-root", &KEY_A).unwrap();
    let (_, bytes) = vault_a.store("codes.txt", b"Nuclear Codes").unwrap();
    let vault_b = Vault::new("vault-root", &KEY_B).unwrap();
    assert_eq!(vault_b.load(Some(bytes)), Err(SdkError::Crypto));
}

#[test]
fn load_tampered_or_truncated_is_crypto() {
    let vault = Vault::new("vault-root", &KEY_A).unwrap();
    let (_, bytes) = vault.store("codes.txt", b"Nuclear Codes").unwrap();
    let mut tampered = bytes.clone();
    let last = tampered.len() - 1;
    tampered[last] ^= 1;
    assert_eq!(vault.load(Some(tampered)), Err(SdkError::Crypto));
    let truncated = bytes[..11].to_vec();
    assert_eq!(vault.load(Some(truncated)), Err(SdkError::Crypto));
}

#[test]
fn construct_rejects_wrong_key_length() {
    assert!(matches!(Vault::new("vault-root", &[0u8; 16]), Err(SdkError::Crypto)));
    assert!(matches!(Vault::new("vault-root", &[]), Err(SdkError::Crypto)));
    assert!(Vault::new("vault-root", &KEY_A).is_ok());
}

#[test]
fn nuke_is_terminal() {
    let mut vault = Vault::new("vault-root", &KEY_A).unwrap();
    let (_, bytes) = vault.store("codes.txt", b"Nuclear Codes").unwrap();
    assert!(!vault.is_destroyed());
    assert!(vault.nuke(true).is_ok());
    assert!(vault.is_destroyed());
    assert_eq!(vault.store("codes.txt", b"again"), Err(SdkError::InvalidState));
    assert_eq!(vault.load(Some(bytes)), Err(SdkError::InvalidState));
    assert_eq!(vault.load(None), Err(SdkError::InvalidState));
    assert_eq!(vault.nuke(true), Err(SdkError::InvalidState));
}

#[test]
fn failed_removal_is_io_and_retryable() {
    let mut vault = Vault::new("vault-root", &KEY_A).unwrap();
    assert_eq!(vault.nuke(false), Err(SdkError::Io));
    assert!(!vault.is_destroyed());
    let (_, bytes) = vault.store("codes.txt", b"still here").unwrap();
    assert_eq!(vault.load(Some(bytes)).unwrap(), b"still here".to_vec());
    assert!(vault.nuke(true).is_ok());
}

#[test]
fn random_key_vault_round_trips() {
    let (vault, key) = Vault::new_random("vault-root");
    assert_eq!(key.len(), 32);
    assert_eq!(vault.root(), "vault-root");
    let (_, bytes) = vault.store("codes.txt", b"Nuclear Codes").unwrap();
    // the very key handed back, given to a second vault, opens the object
    let reopened = Vault::new("vault-root", &key).unwrap();
    assert_eq!(reopened.load(Some(bytes)).unwrap(), b"Nuclear Codes".to_vec());
}

#[test]
fn stored_names_never_collide() {
    let vault = Vault::new("vault-root", &KEY_A).unwrap();
    let (name_a, _) = vault.store("model.ckpt", b"a").unwrap();
    let (name_b, _) = vault.store("model.ckpt2", b"b").unwrap();
    assert_eq!(name_a, "model.ckpt.enc");
    assert_eq!(name_b, "model.ckpt2.enc");
    assert_ne!(name_a, name_b);
}

#[test]
fn error_kinds_are_distinct() {
    assert_ne!(SdkError::Io, SdkError::Crypto);
    assert_ne!(SdkError::Crypto, SdkError::InvalidState);
    assert_ne!(DpError::InvalidParameters, DpError::GenerationError);
}

#[test]
fn vault_header_holds_its_fields() {
    let header = VaultHeader {
        original_filename: String::from("model.ckpt"),
        timestamp: 1700000000,
        version: 1,
        total_size: Some(4096),
    };
    let copy = header.clone();
    assert_eq!(header, copy);
    assert_eq!(copy.original_filename, "model.ckpt");
    assert_eq!(copy.total_size, Some(4096));
    let streamed = VaultHeader { total_size: None, ..copy };
    assert_ne!(header, streamed);
}
