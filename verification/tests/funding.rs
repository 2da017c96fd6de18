use polymarket_v2_backend::api::funding::{
    check_deposit_wallet_address, deploy_inputs, deploy_not_sent, deploy_sent, deposit_wallet_fetched,
    deposit_wallet_info, deposit_wallet_salt, deposit_wallet_saved, encode_signed_transaction, funding_info,
    rlp_encode_bytes, rlp_encode_list, rlp_encode_u256, rlp_encode_u64, wallet_info, with_deposit_wallet,
    SaveDepositWalletRequest, SignedLegacyTx,
};
use polymarket_v2_backend::api::CachedCredentials;

fn creds(wallet: &str) -> CachedCredentials {
    CachedCredentials {
        api_key: "key123".to_string(),
        api_secret: "secret".to_string(),
        api_passphrase: "pass".to_string(),
        private_key: "0xabc".to_string(),
        funder: Some("0xfunder".to_string()),
        signature_type: 1,
        wallet_address: wallet.to_string(),
        deposit_wallet_address: None,
    }
}

#[test]
fn rlp_u64_values() {
    assert_eq!(rlp_encode_u64(0), vec![0x80]);
    assert_eq!(rlp_encode_u64(1), vec![0x01]);
    assert_eq!(rlp_encode_u64(127), vec![0x7f]);
    assert_eq!(rlp_encode_u64(128), vec![0x81, 0x80]);
    assert_eq!(rlp_encode_u64(1024), vec![0x82, 0x04, 0x00]);
    assert_eq!(rlp_encode_u64(137), vec![0x81, 0x89]);
    assert_eq!(rlp_encode_u64(u64::MAX), vec![0x88, 0xff, 0xff, 0xff, 0xff, 0xff, 0xff, 0xff, 0xff]);
}

#[test]
fn rlp_short_strings() {
    assert_eq!(rlp_encode_bytes(&[]), vec![0x80]);
    assert_eq!(rlp_encode_bytes(&[0x00]), vec![0x00]);
    assert_eq!(rlp_encode_bytes(&[0x80]), vec![0x81, 0x80]);
    assert_eq!(rlp_encode_bytes(b"dog"), vec![0x83, b'd', b'o', b'g']);
    let data = [7u8; 55];
    let out = rlp_encode_bytes(&data);
    assert_eq!(out[0], 0x80 + 55);
    assert_eq!(&out[1..], &data[..]);
}

#[test]
fn rlp_long_strings() {
    let data = [1u8; 56];
    let out = rlp_encode_bytes(&data);
    assert_eq!(&out[..2], &[0xb8, 56]);
    assert_eq!(&out[2..], &data[..]);

    let data = vec![2u8; 4096];
    let out = rlp_encode_bytes(&data);
    assert_eq!(&out[..3], &[0xb9, 0x10, 0x00]);
    assert_eq!(out.len(), 3 + 4096);
}

#[test]
fn rlp_length_is_big_endian() {
    // 256 is 0x0100: two length bytes.
    let data = vec![0u8; 256];
    let out = rlp_encode_bytes(&data);
    assert_eq!(&out[..3], &[0xb9, 0x01, 0x00]);
    assert_eq!(out.len(), 259);

    let data = vec![4u8; 1024];
    let out = rlp_encode_bytes(&data);
    assert_eq!(&out[..3], &[0xb9, 0x04, 0x00]);

    let items = vec![vec![5u8; 300]];
    let out = rlp_encode_list(&items);
    assert_eq!(&out[..3], &[0xf9, 0x01, 0x2c]);
    assert_eq!(out.len(), 303);
}

#[test]
fn rlp_u256_trims_leading_zeros() {
    assert_eq!(rlp_encode_u256(&[0u8; 32]), vec![0x80]);
    let mut v = [0u8; 32];
    v[31] = 0x05;
    assert_eq!(rlp_encode_u256(&v), vec![0x05]);
    v[30] = 0x01;
    assert_eq!(rlp_encode_u256(&v), vec![0x82, 0x01, 0x05]);
    let full = [0xffu8; 32];
    let out = rlp_encode_u256(&full);
    assert_eq!(out[0], 0x80 + 32);
    assert_eq!(out.len(), 33);
}

#[test]
fn rlp_u256_agrees_with_u64() {
    for value in [0u64, 1, 127, 128, 255, 256, 1024, 300_000, u64::MAX] {
        let mut be = [0u8; 32];
        be[24..].copy_from_slice(&value.to_be_bytes());
        assert_eq!(rlp_encode_u256(&be), rlp_encode_u64(value));
    }
}

#[test]
fn rlp_lists() {
    assert_eq!(rlp_encode_list(&[]), vec![0xc0]);
    let items = vec![rlp_encode_bytes(b"cat"), rlp_encode_bytes(b"dog")];
    assert_eq!(rlp_encode_list(&items), vec![0xc8, 0x83, b'c', b'a', b't', 0x83, b'd', b'o', b'g']);
    let long = vec![rlp_encode_bytes(&[9u8; 60])];
    let out = rlp_encode_list(&long);
    assert_eq!(&out[..2], &[0xf8, 62]);
}

#[test]
fn signed_transaction_layout() {
    let mut gas_price = [0u8; 32];
    gas_price[31] = 30;
    let tx = SignedLegacyTx {
        nonce: 9,
        gas_price,
        gas_limit: 21000,
        to: [0x35u8; 20],
        value: [0u8; 32],
        data: vec![],
        v: 309,
        r: [1u8; 32],
        s: [2u8; 32],
    };
    let out = encode_signed_transaction(&tx);
    let items = vec![
        rlp_encode_u64(9),
        rlp_encode_u64(30),
        rlp_encode_u64(21000),
        rlp_encode_bytes(&[0x35u8; 20]),
        rlp_encode_u64(0),
        rlp_encode_bytes(&[]),
        rlp_encode_u64(309),
        rlp_encode_bytes(&[1u8; 32]),
        rlp_encode_bytes(&[2u8; 32]),
    ];
    assert_eq!(out, rlp_encode_list(&items));
    // 1 + 1 + 3 + 21 + 1 + 1 + 3 + 33 + 33 = 97 bytes of payload.
    assert_eq!(&out[..2], &[0xf8, 97]);
    assert_eq!(out.len(), 2 + 97);
}

#[test]
fn deposit_address_accepted_after_trim() {
    let addr = format!("0x{}", "a".repeat(40));
    let req = SaveDepositWalletRequest { wallet_address: format!("  {}\n", addr) };
    assert_eq!(check_deposit_wallet_address(&req).ok().unwrap(), addr);
}

#[test]
fn deposit_address_rejected() {
    for bad in ["0x1234", "1x0000000000000000000000000000000000000000", ""] {
        let req = SaveDepositWalletRequest { wallet_address: bad.to_string() };
        let r = check_deposit_wallet_address(&req).err().unwrap();
        assert!(!r.success);
        assert!(r.wallet_address.is_none());
        assert_eq!(r.message, "Invalid address format. Must be 0x-prefixed hex (42 chars total).");
    }
    let no_prefix = SaveDepositWalletRequest { wallet_address: "a".repeat(42) };
    assert!(check_deposit_wallet_address(&no_prefix).is_err());
}

#[test]
fn deposit_salt_left_pads_address() {
    let mut addr = [0u8; 20];
    for (i, b) in addr.iter_mut().enumerate() {
        *b = i as u8 + 1;
    }
    let salt = deposit_wallet_salt(&addr);
    assert_eq!(&salt[..12], &[0u8; 12]);
    assert_eq!(&salt[12..], &addr[..]);
}

#[test]
fn saving_deposit_wallet_updates_or_creates_cache_entry() {
    let updated = with_deposit_wallet(Some(creds("0xeoa")), "0xdep".to_string());
    assert_eq!(updated.deposit_wallet_address.as_deref(), Some("0xdep"));
    assert_eq!(updated.api_key, "key123");
    assert_eq!(updated.signature_type, 1);
    assert_eq!(updated.wallet_address, "0xeoa");

    let fresh = with_deposit_wallet(None, "0xdep".to_string());
    assert_eq!(fresh.deposit_wallet_address.as_deref(), Some("0xdep"));
    assert_eq!(fresh.signature_type, 3);
    assert!(fresh.api_key.is_empty() && fresh.private_key.is_empty() && fresh.wallet_address.is_empty());
    assert!(fresh.funder.is_none());
}

#[test]
fn deposit_wallet_messages() {
    let r = deposit_wallet_saved("0xd".to_string(), true);
    assert!(r.success);
    assert_eq!(r.message, "Deposit wallet address saved and confirmed deployed on-chain.");
    let r = deposit_wallet_saved("0xd".to_string(), false);
    assert!(r.message.starts_with("Deposit wallet address saved. Note: not yet visible on-chain \u{2014}"));

    let r = deposit_wallet_fetched(Ok(Some("0xd".to_string())), false);
    assert!(r.success);
    assert_eq!(r.wallet_address.as_deref(), Some("0xd"));
    assert_eq!(r.message, "Deposit wallet address fetched from relayer.");
    let r = deposit_wallet_fetched(Ok(None), false);
    assert!(!r.success);
    assert!(r.message.starts_with("No relayer API keys found."));
    let r = deposit_wallet_fetched(Err("timeout".to_string()), true);
    assert!(!r.success);
    assert_eq!(r.message, "Failed to fetch from relayer: timeout");

    let info = deposit_wallet_info(Some("0xd".to_string()), true);
    assert_eq!(info.deposit_wallet_deployed, Some(true));
    assert_eq!(info.message, "Deposit wallet found and deployed on-chain.");
    let info = deposit_wallet_info(None, true);
    assert_eq!(info.deposit_wallet_deployed, None);
    assert!(info.deposit_wallet_address.is_none());
    assert!(info.eoa_address.is_empty());
}

#[test]
fn deploy_flow_results() {
    let r = deploy_inputs(None).err().unwrap();
    assert_eq!(r.error.as_deref(), Some("No cached credentials found. Log in and set up API keys first."));
    let no_eoa = creds("");
    let r = deploy_inputs(Some(&no_eoa)).err().unwrap();
    assert_eq!(r.error.as_deref(), Some("No EOA wallet address found in credentials."));
    let ok = creds("0xeoa");
    let (pk, eoa, dep) = deploy_inputs(Some(&ok)).ok().unwrap();
    assert_eq!((pk.as_str(), eoa.as_str(), dep), ("0xabc", "0xeoa", None));

    let r = deploy_sent("0xtx".to_string(), Some("0xd".to_string()), Ok(()));
    assert!(r.success && r.error.is_none());
    assert_eq!(r.transaction_hash.as_deref(), Some("0xtx"));
    let r = deploy_sent("0xtx".to_string(), None, Err("late".to_string()));
    assert!(r.success);
    assert_eq!(r.error.as_deref(), Some("Transaction sent but waiting for confirmation failed: late"));
    let r = deploy_not_sent(Some("0xd".to_string()), "no gas");
    assert!(!r.success);
    assert_eq!(r.wallet_address.as_deref(), Some("0xd"));
    assert_eq!(r.error.as_deref(), Some("Deploy transaction failed: no gas"));
}

#[test]
fn funding_and_wallet_info() {
    let f = funding_info("0xpusd", "0xonramp");
    assert_eq!(f.chain_id, 137);
    assert_eq!(f.chain_name, "Polygon");
    assert_eq!(f.minimum_gas_matic, "0.5");
    assert_eq!(f.pusd_collateral_address, "0xpusd");
    assert_eq!(f.collateral_onramp_address, "0xonramp");

    let w = wallet_info(Some("0xw".to_string()));
    assert!(w.has_credentials);
    assert_eq!(w.wallet_address, "0xw");
    let w = wallet_info(None);
    assert!(!w.has_credentials);
    assert!(w.wallet_address.is_empty());
}
