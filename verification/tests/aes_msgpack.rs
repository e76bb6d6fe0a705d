use std::collections::BTreeMap;

use sekai::crypto::aes::{
    cbc_decrypt, cbc_encrypt, decrypt, encrypt, pkcs7_pad, pkcs7_unpad, DecryptError,
};
use sekai::crypto::aes_msgpack::{from_slice, into_vec, DECRYPT_BODY_ERROR};
use sekai::error::ApiError;

#[derive(Debug, PartialEq)]
struct GameVersion {
    profile: String,
    assetbundle_host_hash: String,
    domain: String,
}

fn hex(s: &str) -> Vec<u8> {
    (0..s.len())
        .step_by(2)
        .map(|i| u8::from_str_radix(&s[i..i + 2], 16).unwrap())
        .collect()
}

#[test]
fn test_aes_msgpack() {
    let game_version = GameVersion {
        profile: "production".into(),
        assetbundle_host_hash: "cf2d2388".into(),
        domain: "production-game-api.sekai.colorfulpalette.org".into(),
    };

    // serialize & encrypt
    let mut fields = BTreeMap::new();
    fields.insert("profile", game_version.profile.clone());
    fields.insert("assetbundleHostHash", game_version.assetbundle_host_hash.clone());
    fields.insert("domain", game_version.domain.clone());
    let serialized = rmp_serde::to_vec_named(&fields).unwrap();
    let aes_encoded = into_vec(&serialized);

    // decrypt & deserialize
    let decrypted = from_slice(&aes_encoded).unwrap();
    let mut back: BTreeMap<String, String> = rmp_serde::from_slice(&decrypted).unwrap();
    let decrypted_game_version = GameVersion {
        profile: back.remove("profile").unwrap(),
        assetbundle_host_hash: back.remove("assetbundleHostHash").unwrap(),
        domain: back.remove("domain").unwrap(),
    };
    assert_eq!(game_version, decrypted_game_version)
}

#[test]
fn cbc_matches_the_published_aes128_vector() {
    let key = hex("2b7e151628aed2a6abf7158809cf4f3c");
    let iv = hex("000102030405060708090a0b0c0d0e0f");
    let plain = hex(
        "6bc1bee22e409f96e93d7e117393172a\
         ae2d8a571e03ac9c9eb76fac45af8e51\
         30c81c46a35ce411e5fbc1191a0a52ef\
         f69f2445df4f9b17ad2b417be66c3710",
    );
    let cipher = hex(
        "7649abac8119b246cee98e9b12e9197d\
         5086cb9b507219ee95db113a917678b2\
         73bed6b8e3c1743b7116e69e22229516\
         3ff1caa1681fac09120eca307586e1a7",
    );
    assert_eq!(cbc_encrypt(&key, &iv, &plain), cipher);
    assert_eq!(cbc_decrypt(&key, &iv, &cipher), plain);
}

#[test]
fn cbc_of_nothing_is_nothing() {
    let key = [7u8; 16];
    let iv = [9u8; 16];
    assert_eq!(cbc_encrypt(&key, &iv, &[]), Vec::<u8>::new());
    assert_eq!(cbc_decrypt(&key, &iv, &[]), Vec::<u8>::new());
}

#[test]
fn padding_fills_the_last_block() {
    assert_eq!(pkcs7_pad(&[]), vec![16u8; 16]);
    let mut fifteen = vec![1u8; 15];
    let padded = pkcs7_pad(&fifteen);
    fifteen.push(1);
    assert_eq!(padded, fifteen);
    let sixteen = vec![0xaau8; 16];
    let padded = pkcs7_pad(&sixteen);
    assert_eq!(padded.len(), 32);
    assert_eq!(&padded[16..], &[16u8; 16]);
    assert_eq!(pkcs7_pad(&[1, 2, 3]), vec![1, 2, 3, 13, 13, 13, 13, 13, 13, 13, 13, 13, 13, 13, 13, 13]);
}

#[test]
fn unpadding_checks_every_padding_byte() {
    assert_eq!(pkcs7_unpad(&[]), None);
    assert_eq!(pkcs7_unpad(&[1, 2, 3, 2, 2]), Some(vec![1, 2, 3]));
    assert_eq!(pkcs7_unpad(&[1, 2, 3, 1, 2]), None);
    assert_eq!(pkcs7_unpad(&[5, 0]), None);
    assert_eq!(pkcs7_unpad(&[17u8; 17]), None);
    assert_eq!(pkcs7_unpad(&[3, 3, 3]), Some(vec![]));
    assert_eq!(pkcs7_unpad(&[4, 3, 3]), None);
    for len in 0..40usize {
        let data: Vec<u8> = (0..len as u8).collect();
        assert_eq!(pkcs7_unpad(&pkcs7_pad(&data)), Some(data));
    }
}

#[test]
fn encryption_round_trips_for_every_length() {
    for len in 0..70usize {
        let data: Vec<u8> = (0..len).map(|i| (i * 37 % 251) as u8).collect();
        let encrypted = encrypt(&data);
        assert_eq!(encrypted.len(), (len / 16 + 1) * 16);
        if len > 0 {
            assert_ne!(&encrypted[..len], &data[..]);
        }
        assert_eq!(decrypt(&encrypted), Ok(data));
    }
}

#[test]
fn encryption_uses_the_api_key_and_vector() {
    let key = b"g2fcC0ZczN9MTJ61";
    let iv = b"msx3IV0i9XE5uYZ1";
    let data = b"hello, sekai";
    let expected = cbc_encrypt(key, iv, &pkcs7_pad(data));
    assert_eq!(encrypt(data), expected);
    assert_ne!(expected, pkcs7_pad(data));
}

#[test]
fn decryption_refuses_partial_blocks() {
    assert_eq!(decrypt(&[0u8; 15]), Err(DecryptError::InvalidLength));
    assert_eq!(decrypt(&[0u8; 17]), Err(DecryptError::InvalidLength));
}

#[test]
fn decryption_refuses_bad_padding() {
    assert_eq!(decrypt(&[]), Err(DecryptError::InvalidPadding));
    let key = b"g2fcC0ZczN9MTJ61";
    let iv = b"msx3IV0i9XE5uYZ1";
    let mut block = vec![0u8; 16];
    block[15] = 0;
    let body = cbc_encrypt(key, iv, &block);
    assert_eq!(decrypt(&body), Err(DecryptError::InvalidPadding));
}

#[test]
fn from_slice_reports_undecryptable_bodies() {
    assert_eq!(
        from_slice(&[1, 2, 3]),
        Err(ApiError::AesMsgpack(DECRYPT_BODY_ERROR.to_string()))
    );
    assert_eq!(
        from_slice(&[1, 2, 3]),
        Err(ApiError::AesMsgpack("error when decrypting AES encoded body".to_string()))
    );
}

#[test]
fn into_vec_then_from_slice_gives_the_bytes_back() {
    let bytes = vec![0x83u8, 0xa1, 0x61, 0x01, 0xa1, 0x62, 0x02, 0xa1, 0x63, 0x03];
    assert_eq!(from_slice(&into_vec(&bytes)), Ok(bytes));
}

#[test]
fn test_get_system() {
    // the body that the server sends: the system info, encoded and encrypted
    let mut app_version = BTreeMap::new();
    app_version.insert("systemProfile", "production");
    app_version.insert("appVersion", "4.0.5");
    app_version.insert("multiPlayVersion", "miku");
    app_version.insert("assetVersion", "4.0.5.10");
    app_version.insert("appVersionStatus", "available");
    let mock_system_info = (
        1730780277695u64,
        "Asia/Tokyo".to_string(),
        "production".to_string(),
        "maintenance_out".to_string(),
        vec![app_version.clone()],
    );
    let mock_body = into_vec(&rmp_serde::to_vec(&mock_system_info).unwrap());

    let result = from_slice(&mock_body);
    assert!(result.is_ok());
    let decoded: (u64, String, String, String, Vec<BTreeMap<String, String>>) =
        rmp_serde::from_slice(&result.unwrap()).unwrap();
    assert_eq!(decoded.0, 1730780277695);
    assert_eq!(decoded.1, "Asia/Tokyo");
    assert_eq!(decoded.2, "production");
    assert_eq!(decoded.3, "maintenance_out");
    assert_eq!(decoded.4.len(), 1);
    assert_eq!(decoded.4[0]["appVersion"], "4.0.5");
    assert_eq!(decoded.4[0]["multiPlayVersion"], "miku");
    assert_eq!(decoded.4[0]["assetVersion"], "4.0.5.10");
    assert_eq!(decoded.4[0]["appVersionStatus"], "available");
    assert_eq!(decoded.4[0]["systemProfile"], "production");
}
