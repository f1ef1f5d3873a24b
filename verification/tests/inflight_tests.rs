use miden_core::crypto::hash::Rpo256;
use miden_protocol::account::{AccountId, AccountIdVersion, AccountStorageMode, AccountType};
use miden_protocol::asset::{Asset, FungibleAsset};
use miden_protocol::note::NoteTag;
use miden_protocol::{Felt, Word};
use miden_standards::note::utils::build_p2id_recipient;
use miden_standards::note::WellKnownNote;

use miden_swapp::inflight::read_inflight_advice;
use miden_swapp::{AccountIdFelts, AssetValue, InflightAdviceError, InflightP2idScript, NoteType};

fn id_felts(id: AccountId) -> AccountIdFelts {
    AccountIdFelts { prefix: id.prefix().as_u64(), suffix: id.suffix().as_int() }
}

fn account(byte: u8, account_type: AccountType) -> AccountId {
    AccountId::dummy([byte; 15], AccountIdVersion::Version0, account_type, AccountStorageMode::Public)
}

fn fungible(faucet_id: AccountId, amount: u64) -> AssetValue {
    let fa = FungibleAsset::new(faucet_id, amount).unwrap();
    AssetValue::Fungible {
        faucet_prefix: fa.faucet_id().prefix().as_u64(),
        faucet_suffix: fa.faucet_id().suffix().as_int(),
        amount,
    }
}

#[test]
fn prepare_lays_out_advice_and_commitment() {
    let sender = account(1, AccountType::RegularAccountImmutableCode);
    let r1 = account(2, AccountType::RegularAccountImmutableCode);
    let r2 = account(3, AccountType::RegularAccountUpdatableCode);
    let usdc = account(0x41, AccountType::FungibleFaucet);
    let eth = account(0x42, AccountType::FungibleFaucet);
    let notes = vec![(fungible(usdc, 5), id_felts(r1)), (fungible(eth, 9), id_felts(r2))];
    let serials = vec![[1, 2, 3, 4], [5, 6, 7, 8]];

    let data = InflightP2idScript::prepare(id_felts(sender), &notes, &serials);

    let (key, felts) = &data.advice_map_entry;
    assert_eq!(felts.len(), 32);
    let tag1 = NoteTag::with_account_target(r1).as_u32() as u64;
    let usdc_word: Word = Asset::Fungible(FungibleAsset::new(usdc, 5).unwrap()).into();
    let expected_first: Vec<u64> = vec![
        1, 2, 3, 4,
        r1.prefix().as_u64(), r1.suffix().as_int(), tag1, 1,
        5, 0, 0, 0,
        usdc_word[0].as_int(), usdc_word[1].as_int(), usdc_word[2].as_int(), usdc_word[3].as_int(),
    ];
    assert_eq!(&felts[..16], &expected_first[..]);

    let elements: Vec<Felt> = felts.iter().map(|f| Felt::new(*f)).collect();
    let digest = Rpo256::hash_elements(&elements);
    let digest_values = [digest[0].as_int(), digest[1].as_int(), digest[2].as_int(), digest[3].as_int()];
    assert_eq!(*key, digest_values);
    assert_eq!(data.commitment_arg, [digest_values[3], digest_values[2], digest_values[1], digest_values[0]]);

    assert_eq!(data.expected_notes.len(), 2);
    let second = &data.expected_notes[1];
    assert_eq!(second.recipient, id_felts(r2));
    assert_eq!(second.sender, id_felts(sender));
    assert_eq!(second.aux, 9);
    assert_eq!(second.serial_num, [5, 6, 7, 8]);
    assert_eq!(second.note_type, NoteType::Public);
    assert_eq!(second.tag, NoteTag::with_account_target(r2).as_u32());
    let digest = build_p2id_recipient(r2, Word::new([Felt::new(5), Felt::new(6), Felt::new(7), Felt::new(8)]))
        .unwrap()
        .digest();
    assert_eq!(second.recipient_digest, [digest[0].as_int(), digest[1].as_int(), digest[2].as_int(), digest[3].as_int()]);
    assert_eq!(second.recipient_inputs, [r2.suffix().as_int(), r2.prefix().as_u64()]);
}

#[test]
fn script_reads_back_prepared_notes() {
    let sender = account(1, AccountType::RegularAccountImmutableCode);
    let recipients = [account(2, AccountType::RegularAccountImmutableCode), account(3, AccountType::RegularAccountImmutableCode), account(4, AccountType::RegularAccountImmutableCode)];
    let faucet_id = account(0x41, AccountType::FungibleFaucet);
    let notes: Vec<(AssetValue, AccountIdFelts)> =
        recipients.iter().enumerate().map(|(k, r)| (fungible(faucet_id, 10 + k as u64), id_felts(*r))).collect();
    let serials = vec![[1, 1, 1, 1], [2, 2, 2, 2], [3, 3, 3, 3]];
    let data = InflightP2idScript::prepare(id_felts(sender), &notes, &serials);
    let requests = read_inflight_advice(&data.advice_map_entry.1, data.commitment_arg).unwrap();
    assert_eq!(requests.len(), 3);
    for (request, expected) in requests.iter().zip(data.expected_notes.iter()) {
        assert_eq!(request.serial_num, expected.serial_num);
        assert_eq!(request.recipient, expected.recipient);
        assert_eq!(request.tag, expected.tag as u64);
        assert_eq!(request.note_type, 1);
        assert_eq!(request.aux, expected.aux);
        assert_eq!(request.asset_word, expected.asset.to_word());
        assert_eq!(request.recipient_inputs, expected.recipient_inputs);
        // the script's hard-coded P2ID root is the standard P2ID script's root
        let root = WellKnownNote::P2ID.script().root();
        assert_eq!(request.script_root, [root[0].as_int(), root[1].as_int(), root[2].as_int(), root[3].as_int()]);
    }
}

/// The argument word under which a transaction hands `data` to the script: its hash, reversed.
fn commitment_arg_of(data: &[u64]) -> [u64; 4] {
    let felts: Vec<Felt> = data.iter().map(|e| Felt::new(*e)).collect();
    let d = Rpo256::hash_elements(&felts);
    [d[3].as_int(), d[2].as_int(), d[1].as_int(), d[0].as_int()]
}

#[test]
fn script_refuses_partial_blocks() {
    let data: Vec<u64> = vec![0; 15];
    let arg = commitment_arg_of(&data);
    assert_eq!(read_inflight_advice(&data, arg).unwrap_err(), InflightAdviceError::LengthNotMultipleOfBlock { len: 15 });
    assert_eq!(read_inflight_advice(&[], commitment_arg_of(&[])).unwrap().len(), 0);
}

#[test]
fn script_refuses_data_not_matching_commitment() {
    let sender = account(1, AccountType::RegularAccountImmutableCode);
    let recipient = account(2, AccountType::RegularAccountImmutableCode);
    let faucet_id = account(0x41, AccountType::FungibleFaucet);
    let notes = vec![(fungible(faucet_id, 10), id_felts(recipient))];
    let data = InflightP2idScript::prepare(id_felts(sender), &notes, &[[1, 2, 3, 4]]);
    assert_eq!(data.commitment_arg, commitment_arg_of(&data.advice_map_entry.1));
    // the key itself, unreversed, is not the argument the script expects
    assert_eq!(
        read_inflight_advice(&data.advice_map_entry.1, data.advice_map_entry.0).unwrap_err(),
        InflightAdviceError::CommitmentMismatch
    );
    // data changed after the commitment was made is refused
    let mut tampered = data.advice_map_entry.1.clone();
    tampered[8] += 1;
    assert_eq!(read_inflight_advice(&tampered, data.commitment_arg).unwrap_err(), InflightAdviceError::CommitmentMismatch);
    // a partial block is refused before the commitment is checked
    assert_eq!(
        read_inflight_advice(&tampered[..15], data.commitment_arg).unwrap_err(),
        InflightAdviceError::LengthNotMultipleOfBlock { len: 15 }
    );
    assert_eq!(read_inflight_advice(&data.advice_map_entry.1, data.commitment_arg).unwrap().len(), 1);
}
