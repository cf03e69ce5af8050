use mint_accounting::schema::{
    decode_init_params, decode_init_params_from_inputs, fallback, params_or_fallback, MintError,
};
use mint_accounting::token::{
    is_seen_marker, AlkaneId, AlkaneTransfer, CallResponse, Context, MintableToken, TxId,
};
use mint_accounting::utils::{
    get_byte_array_from_inputs, stored_bytes, stored_u128, u128_to_string, u128_to_text,
};

fn config(name: &str, symbol: &str, premine: u128, cap: u128) -> Vec<u8> {
    borsh::to_vec(&(name.to_string(), symbol.to_string(), premine, cap)).unwrap()
}

fn ctx() -> Context {
    Context {
        myself: AlkaneId { block: 2, tx: 7 },
        incoming_alkanes: vec![AlkaneTransfer { id: AlkaneId { block: 2, tx: 1 }, value: 5 }],
        inputs: vec![0],
    }
}

#[test]
fn increases_compose() {
    let mut a = MintableToken::new(Vec::new());
    let mut b = MintableToken::new(Vec::new());
    assert!(a.increase_total_supply(40).is_ok());
    assert!(a.increase_total_supply(2).is_ok());
    assert!(b.increase_total_supply(42).is_ok());
    assert_eq!(a.total_supply(), 42);
    assert_eq!(a.total_supply(), b.total_supply());
}

#[test]
fn increase_past_max_fails_unchanged() {
    let mut t = MintableToken::new(Vec::new());
    let k: u128 = 10;
    t.set_total_supply(u128::MAX - k);
    assert_eq!(t.increase_total_supply(k + 1), Err(MintError::SupplyOverflow));
    assert_eq!(t.total_supply(), u128::MAX - k);
    assert_eq!(t.increase_total_supply(k), Ok(()));
    assert_eq!(t.total_supply(), u128::MAX);
}

#[test]
fn increment_mint_counts_and_overflows() {
    let mut t = MintableToken::new(Vec::new());
    for _ in 0..25 {
        assert!(t.increment_mint().is_ok());
    }
    assert_eq!(t.minted(), 25);
    t.set_minted(u128::MAX - 1);
    assert!(t.increment_mint().is_ok());
    assert_eq!(t.minted(), u128::MAX);
    assert_eq!(t.increment_mint(), Err(MintError::MintCounterOverflow));
    assert_eq!(t.minted(), u128::MAX);
}

#[test]
fn replay_guard_marks_once() {
    let mut t = MintableToken::new(Vec::new());
    let a = TxId { bytes: [7u8; 32] };
    let mut other = [7u8; 32];
    other[31] = 8;
    let b = TxId { bytes: other };
    assert!(!t.has_tx_hash(&a));
    assert!(t.add_tx_hash(&a).is_ok());
    assert!(t.has_tx_hash(&a));
    assert!(!t.has_tx_hash(&b));
    assert!(t.add_tx_hash(&a).is_ok());
    assert!(t.has_tx_hash(&a));
    assert_eq!(t.seen_ids().len(), 1);
    assert_eq!(t.seen_ids()[0].bytes, [7u8; 32]);
}

#[test]
fn fallback_on_missing_or_garbage_config() {
    let empty = MintableToken::new(Vec::new());
    assert_eq!(empty.name(), "UNSET");
    assert_eq!(empty.symbol(), "UNSET");
    assert_eq!(empty.cap(), u128::MAX);
    let garbage = MintableToken::new(vec![0xff, 0xff, 0xff, 0xff, 1, 2, 3]);
    assert_eq!(garbage.name(), "UNSET");
    assert_eq!(garbage.symbol(), "UNSET");
    assert_eq!(garbage.cap(), u128::MAX);
    let f = fallback();
    assert_eq!(f.token_name, "UNSET");
    assert_eq!(f.premine, 0);
}

#[test]
fn configured_token_reads_its_parameters() {
    let t = MintableToken::new(config("Taqueria", "TQ", 0, 1000));
    assert_eq!(t.name(), "Taqueria");
    assert_eq!(t.symbol(), "TQ");
    assert_eq!(t.cap(), 1000);
    let p = params_or_fallback(&config("A", "B", 3, 4));
    assert_eq!((p.token_name.as_str(), p.token_symbol.as_str(), p.premine, p.cap), ("A", "B", 3, 4));
}

#[test]
fn mint_without_cap_enforcement() {
    let mut t = MintableToken::new(config("Taqueria", "TQ", 0, 1000));
    let c = ctx();
    let first = t.mint(&c, 100).unwrap();
    assert_eq!(first, AlkaneTransfer { id: AlkaneId { block: 2, tx: 7 }, value: 100 });
    assert_eq!(t.total_supply(), 100);
    let cap = t.cap();
    assert!(t.total_supply() + 950 > cap);
    let second = t.mint(&c, 950).unwrap();
    assert_eq!(second.value, 950);
    assert_eq!(t.total_supply(), 1050);
    t.set_total_supply(u128::MAX);
    assert_eq!(t.mint(&c, 1), Err(MintError::SupplyOverflow));
    assert_eq!(t.total_supply(), u128::MAX);
}

#[test]
fn queries_on_untouched_contract() {
    let t = MintableToken::new(Vec::new());
    let c = ctx();
    let r = t.get_name(&c);
    assert_eq!(r.data, b"UNSET".to_vec());
    assert_eq!(r.alkanes, c.incoming_alkanes);
    assert_eq!(t.get_symbol(&c).data, b"UNSET".to_vec());
    assert_eq!(t.get_total_supply(&c).data, vec![0u8; 16]);
    assert_eq!(t.get_minted(&c).data, vec![0u8; 16]);
    assert_eq!(t.get_cap(&c).data, vec![0xffu8; 16]);
    assert_eq!(t.get_value_per_mint(&c).data, vec![0u8; 16]);
    assert_eq!(t.value_per_mint(), 0);
    let d = t.get_data(&c);
    assert!(d.data.is_empty());
    assert_eq!(d.alkanes, c.incoming_alkanes);
}

#[test]
fn queries_encode_little_endian() {
    let mut t = MintableToken::new(config("Taqueria", "TQ", 0, 1000));
    let c = ctx();
    t.set_total_supply(0x0102);
    t.set_minted(3);
    let mut ts = vec![0u8; 16];
    ts[0] = 2;
    ts[1] = 1;
    assert_eq!(t.get_total_supply(&c).data, ts);
    let mut m = vec![0u8; 16];
    m[0] = 3;
    assert_eq!(t.get_minted(&c).data, m);
    let mut cap = vec![0u8; 16];
    cap[0] = 0xe8;
    cap[1] = 0x03;
    assert_eq!(t.get_cap(&c).data, cap);
    assert_eq!(t.get_name(&c).data, b"Taqueria".to_vec());
    assert_eq!(t.get_symbol(&c).data, b"TQ".to_vec());
}

#[test]
fn default_mint_policy_is_unmintable() {
    let t = MintableToken::new(config("Taqueria", "TQ", 0, 1000));
    let r = t.mint_tokens();
    assert!(matches!(r, Err(MintError::Unmintable)));
    assert_eq!(MintError::Unmintable.message(), "this token is unmintable");
}

#[test]
fn forward_passes_tokens_on() {
    let c = ctx();
    let r = CallResponse::forward(&c.incoming_alkanes);
    assert_eq!(r.alkanes, c.incoming_alkanes);
    assert!(r.data.is_empty());
}

#[test]
fn byte_array_skips_selector() {
    let inputs: Vec<u128> = vec![99, 0x0201, 5];
    let bytes = get_byte_array_from_inputs(&inputs);
    assert_eq!(bytes.len(), 32);
    assert_eq!(bytes[0], 1);
    assert_eq!(bytes[1], 2);
    assert_eq!(bytes[16], 5);
    assert!(bytes[2..16].iter().all(|b| *b == 0));
    assert_eq!(inputs.len(), 3);
    assert!(get_byte_array_from_inputs(&vec![1]).is_empty());
}

#[test]
fn u128_text_keeps_nonzero_bytes() {
    let v = u128::from_le_bytes([b'h', 0, b'i', 0, 0, 0, 0, 0, 0, 0, 0, 0, 0, 0, 0, 0]);
    assert_eq!(u128_to_string(v), "hi");
    assert_eq!(u128_to_string(0), "");
    assert_eq!(u128_to_text(v), Some("hi".to_string()));
    assert_eq!(u128_to_text(0xff), None);
}

#[test]
fn decode_params_and_failures() {
    let p = decode_init_params(&config("X", "Y", 1, 2)).unwrap();
    assert_eq!(p.token_name, "X");
    assert_eq!(p.cap, 2);
    assert!(matches!(decode_init_params(&vec![1, 2]), Err(MintError::DecodeFailure)));
    assert!(matches!(decode_init_params_from_inputs(&vec![77]), Err(MintError::DecodeFailure)));
}

#[test]
fn error_messages() {
    assert_eq!(MintError::SupplyOverflow.message(), "total supply overflow");
    assert_eq!(MintError::MintCounterOverflow.message(), "mint counter overflow");
    assert_eq!(MintError::Unmintable.message(), "this token is unmintable");
    assert!(!MintError::DecodeFailure.message().is_empty());
}

#[test]
fn policy_reports_its_value_per_mint() {
    let t = MintableToken::new(Vec::new()).with_value_per_mint(0x0100);
    assert_eq!(t.value_per_mint(), 256);
    let mut expected = vec![0u8; 16];
    expected[1] = 1;
    assert_eq!(t.get_value_per_mint(&ctx()).data, expected);
    assert_eq!(t.total_supply(), 0);
}

#[test]
fn loaded_state_keeps_its_parts() {
    let bytes = config("Taqueria", "TQ", 0, 1000);
    let t = MintableToken::from_parts(bytes.clone(), 7, 3);
    assert_eq!(t.total_supply(), 7);
    assert_eq!(t.minted(), 3);
    assert_eq!(t.consts_bytes(), &bytes);
    assert!(t.seen_ids().is_empty());
}

#[test]
fn replay_markers() {
    assert!(is_seen_marker(&vec![1]));
    assert!(!is_seen_marker(&vec![]));
    assert!(!is_seen_marker(&vec![2]));
    assert!(!is_seen_marker(&vec![1, 0]));
}

#[test]
fn stored_counters_round_trip() {
    assert_eq!(stored_u128(&Vec::new()), 0);
    assert_eq!(stored_u128(&vec![1, 2, 3]), 0);
    let b = stored_bytes(0x0304);
    assert_eq!(b.len(), 16);
    assert_eq!((b[0], b[1]), (4, 3));
    assert_eq!(stored_u128(&b), 0x0304);
    assert_eq!(stored_u128(&stored_bytes(u128::MAX)), u128::MAX);
}
