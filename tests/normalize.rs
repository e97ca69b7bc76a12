use ethereum::{AccessListItem, EnvelopedDecodable};
use ethereum_types::{H160, H256, U256};
use rpc_transaction::envelope::{
    embedded_chain_id, scalar_valid, standard_v, AccessListEnvelope, Action, FeeMarketEnvelope, LegacyEnvelope,
};
use rpc_transaction::transaction::{Envelope, PendingTransaction, RichRawTransaction, Transaction};
use rpc_transaction::word::word_from_u64;
use sha3::Digest;

fn bytes(hex: &str) -> Vec<u8> {
    (0..hex.len() / 2)
        .map(|i| u8::from_str_radix(&hex[2 * i..2 * i + 2], 16).unwrap())
        .collect()
}

fn b32(hex: &str) -> [u8; 32] {
    bytes(hex).try_into().unwrap()
}

fn b20(hex: &str) -> [u8; 20] {
    bytes(hex).try_into().unwrap()
}

fn word(x: u64) -> [u8; 32] {
    word_from_u64(x)
}

const R: &str = "28ef61340bd939bc2195fe537567866003e1a15d3c71ff63e1590620aa636276";
const S: &str = "67cbe9d8997f761aecb703304b3800ccf555c9f3dc64214b297fb1966a3b6d83";

fn legacy(nonce: u64, gas_price: u64, value: [u8; 32]) -> LegacyEnvelope {
    LegacyEnvelope {
        nonce: word(nonce),
        gas_price: word(gas_price),
        gas_limit: word(21000),
        action: Action::Call([0x35; 20]),
        value,
        input: vec![],
        v: 37,
        r: b32(R),
        s: b32(S),
    }
}

fn access_list() -> Vec<AccessListItem> {
    vec![
        AccessListItem {
            address: H160(b20("de0b295669a9fd93d5f28d9ec85e40f4cb697bae")),
            storage_keys: vec![H256(word(3)), H256(word(7))],
        },
        AccessListItem {
            address: H160(b20("bb9bc244d798123fde783fcc1c72d3bb8c189413")),
            storage_keys: vec![],
        },
    ]
}

fn access_list_envelope() -> AccessListEnvelope {
    AccessListEnvelope {
        chain_id: 5,
        nonce: word(7),
        gas_price: word(30_000_000_000),
        gas_limit: word(5_748_100),
        action: Action::Call(b20("811a752c8cd697e3cb27279c330ed1ada745a8d7")),
        value: word(2_000_000_000_000_000_000),
        input: bytes("6ebaf477f83e051589c1188bcc6ddccd"),
        access_list: access_list(),
        odd_y_parity: true,
        r: b32("36b241b061a36a32ab7fe86c7aa9eb592dd59018cd0443adc0903590c16b02b0"),
        s: b32("5edcc541b4741c5cc6dd347c5ed9577ef293a62787b4510465fadbfe39ee4094"),
    }
}

fn fee_market_envelope(max_fee: u64, priority_fee: u64) -> FeeMarketEnvelope {
    FeeMarketEnvelope {
        chain_id: 5,
        nonce: word(7),
        max_priority_fee_per_gas: word(priority_fee),
        max_fee_per_gas: word(max_fee),
        gas_limit: word(5_748_100),
        action: Action::Call(b20("811a752c8cd697e3cb27279c330ed1ada745a8d7")),
        value: word(2_000_000_000_000_000_000),
        input: bytes("6ebaf477f83e051589c1188bcc6ddccd"),
        access_list: access_list(),
        odd_y_parity: false,
        r: b32("36b241b061a36a32ab7fe86c7aa9eb592dd59018cd0443adc0903590c16b02b0"),
        s: b32("5edcc541b4741c5cc6dd347c5ed9577ef293a62787b4510465fadbfe39ee4094"),
    }
}

fn assert_unplaced(r: &Transaction) {
    assert_eq!(r.block_hash, None);
    assert_eq!(r.block_number, None);
    assert_eq!(r.transaction_index, None);
    assert_eq!(r.from, [0u8; 20]);
    assert_eq!(r.creates, None);
    assert_eq!(r.public_key, None);
}

#[test]
fn legacy_golden_vector_identifier() {
    let r = Transaction::from_legacy(legacy(0, 1, word(0)));
    assert_eq!(
        r.raw,
        bytes(
            "f85f8001825208943535353535353535353535353535353535353535808025a0\
             28ef61340bd939bc2195fe537567866003e1a15d3c71ff63e1590620aa636276a0\
             67cbe9d8997f761aecb703304b3800ccf555c9f3dc64214b297fb1966a3b6d83"
        )
    );
    assert_eq!(r.hash, b32("fea4dd4f2fcd57a76d930eb1a35ccfccfef253388d6d985dc469b79d513db2ca"));
}

#[test]
fn replay_protected_example_identifier() {
    let mut value = [0u8; 32];
    value[24..].copy_from_slice(&1_000_000_000_000_000_000u64.to_be_bytes());
    let r = Transaction::from_legacy(legacy(9, 20_000_000_000, value));
    assert_eq!(r.hash, b32("33469b22e9f636356c4160a87eb19df52b7412e8eac32a4a55ffe88ea8350788"));
}

#[test]
fn legacy_record_fields() {
    let t = legacy(0, 1, word(0));
    let r = Transaction::from_legacy(t.clone());
    assert_unplaced(&r);
    assert_eq!(r.nonce, word(0));
    assert_eq!(r.to, Some([0x35; 20]));
    assert_eq!(r.gas_price, Some(word(1)));
    assert_eq!(r.max_fee_per_gas, None);
    assert_eq!(r.max_priority_fee_per_gas, None);
    assert_eq!(r.gas, word(21000));
    assert_eq!(r.input, Vec::<u8>::new());
    assert_eq!(r.chain_id, Some(1));
    assert_eq!(r.standard_v, word(0));
    assert_eq!(r.v, word(0));
    assert_eq!(r.r, t.r);
    assert_eq!(r.s, t.s);
    assert_eq!(r.access_list, None);
}

#[test]
fn legacy_without_replay_protection_has_no_chain_id() {
    let mut t = legacy(0, 1, word(0));
    t.v = 28;
    let r = Transaction::from_legacy(t);
    assert_eq!(r.chain_id, None);
    assert_eq!(r.standard_v, word(1));
    assert_eq!(r.v, word(1));
}

#[test]
fn contract_creation_has_no_recipient() {
    let mut t = legacy(0, 1, word(0));
    t.action = Action::Create;
    let r = Transaction::from_legacy(t);
    assert_eq!(r.to, None);
}

#[test]
fn access_list_record_fields() {
    let t = access_list_envelope();
    let r = Transaction::from_access_list(t.clone());
    assert_unplaced(&r);
    assert_eq!(r.raw[0], 1);
    assert_eq!(r.gas_price, Some(word(30_000_000_000)));
    assert_eq!(r.max_fee_per_gas, None);
    assert_eq!(r.max_priority_fee_per_gas, None);
    assert_eq!(r.chain_id, Some(5));
    assert_eq!(r.standard_v, word(1));
    assert_eq!(r.v, word(1));
    assert_eq!(r.input, t.input);
    assert_eq!(r.access_list, Some(t.access_list));
}

#[test]
fn fee_market_record_carries_max_fees_only() {
    let r = Transaction::from_fee_market(fee_market_envelope(100, 10));
    assert_unplaced(&r);
    assert_eq!(r.raw[0], 2);
    assert_eq!(r.gas_price, None);
    assert_eq!(r.max_fee_per_gas, Some(word(100)));
    assert_eq!(r.max_priority_fee_per_gas, Some(word(10)));
    assert_eq!(r.standard_v, word(0));
    assert_eq!(r.v, word(0));
    assert_eq!(r.access_list, Some(access_list()));
}

#[test]
fn empty_access_list_is_present() {
    let mut t = fee_market_envelope(100, 10);
    t.access_list = vec![];
    let r = Transaction::from_fee_market(t);
    assert_eq!(r.access_list, Some(vec![]));
}

#[test]
fn identifier_is_digest_of_raw_for_every_generation() {
    let records = vec![
        Transaction::from_envelope(Envelope::Legacy(legacy(3, 2, word(5)))),
        Transaction::from_envelope(Envelope::AccessList(access_list_envelope())),
        Transaction::from_envelope(Envelope::FeeMarket(fee_market_envelope(100, 10))),
    ];
    for r in records {
        let digest: [u8; 32] = sha3::Keccak256::digest(&r.raw).into();
        assert_eq!(r.hash, digest);
        assert_ne!(r.hash.to_vec(), r.raw);
    }
}

#[test]
fn raw_decodes_to_the_input_envelope() {
    let r = Transaction::from_legacy(legacy(3, 2, word(5)));
    let d = ethereum::TransactionV0::decode(&r.raw).unwrap();
    assert_eq!(d.nonce, U256::from(3));
    assert_eq!(d.gas_price, U256::from(2));
    assert_eq!(d.value, U256::from(5));
    assert_eq!(d.signature.v(), 37);

    let t = fee_market_envelope(100, 10);
    let r = Transaction::from_fee_market(t.clone());
    match ethereum::TransactionV2::decode(&r.raw).unwrap() {
        ethereum::TransactionV2::EIP1559(d) => {
            assert_eq!(d.chain_id, 5);
            assert_eq!(d.max_fee_per_gas, U256::from(100));
            assert_eq!(d.max_priority_fee_per_gas, U256::from(10));
            assert_eq!(d.input, t.input);
            assert_eq!(d.access_list, access_list());
        }
        _ => panic!("wrong generation"),
    }

    let r = Transaction::from_access_list(access_list_envelope());
    match ethereum::TransactionV2::decode(&r.raw).unwrap() {
        ethereum::TransactionV2::EIP2930(d) => {
            assert_eq!(d.gas_price, U256::from(30_000_000_000u64));
            assert!(d.signature.odd_y_parity());
        }
        _ => panic!("wrong generation"),
    }
}

#[test]
fn recovery_id_parts() {
    assert_eq!(standard_v(27), 0);
    assert_eq!(standard_v(28), 1);
    assert_eq!(standard_v(37), 0);
    assert_eq!(standard_v(38), 1);
    assert_eq!(standard_v(30), 4);
    assert_eq!(embedded_chain_id(28), None);
    assert_eq!(embedded_chain_id(36), None);
    assert_eq!(embedded_chain_id(37), Some(1));
    assert_eq!(embedded_chain_id(38), Some(1));
    assert_eq!(embedded_chain_id(45), Some(5));
}

#[test]
fn word_is_big_endian() {
    let w = word_from_u64(21000);
    assert_eq!(&w[..30], &[0u8; 30][..]);
    assert_eq!(w[30], 0x52);
    assert_eq!(w[31], 0x08);
    assert_eq!(word_from_u64(u64::MAX)[24..], [0xff; 8]);
}

#[test]
fn pending_transaction_keeps_its_parts() {
    let r = Transaction::from_legacy(legacy(0, 1, word(0)));
    let p = PendingTransaction::new(r.clone(), 42);
    assert_eq!(p.transaction, r);
    assert_eq!(p.at_block, 42);
}

#[test]
fn signature_scalars_must_lie_below_the_curve_order() {
    let order = b32("fffffffffffffffffffffffffffffffebaaedce6af48a03bbfd25e8cd0364141");
    let below = b32("fffffffffffffffffffffffffffffffebaaedce6af48a03bbfd25e8cd0364140");
    assert!(!scalar_valid(&[0u8; 32]));
    assert!(scalar_valid(&word(1)));
    assert!(scalar_valid(&below));
    assert!(!scalar_valid(&order));
    assert!(!scalar_valid(&[0xff; 32]));
    assert!(scalar_valid(&b32(R)));
}

#[test]
fn well_formedness_of_envelopes() {
    assert!(legacy(0, 1, word(0)).is_well_formed());
    let mut t = legacy(0, 1, word(0));
    t.v = 30;
    assert!(!t.is_well_formed());
    assert!(Envelope::AccessList(access_list_envelope()).is_well_formed());
    let mut f = fee_market_envelope(100, 10);
    f.s = [0u8; 32];
    assert!(!Envelope::FeeMarket(f).is_well_formed());
}

#[test]
fn default_record_is_empty() {
    let r = Transaction::default();
    assert_eq!(r.hash, [0u8; 32]);
    assert_eq!(r.from, [0u8; 20]);
    assert_eq!(r.to, None);
    assert_eq!(r.gas_price, None);
    assert_eq!(r.access_list, None);
    assert!(r.raw.is_empty());
    let rich = RichRawTransaction::default();
    assert!(rich.raw.is_empty());
    assert_eq!(rich.transaction, r);
}

#[test]
fn legacy_v_is_the_normalized_recovery_id() {
    let mut t = legacy(0, 1, word(0));
    t.v = 38;
    let r = Transaction::from_legacy(t);
    assert_eq!(r.v, word(1));
    assert_eq!(r.v, r.standard_v);
    assert_eq!(r.chain_id, Some(1));
}
