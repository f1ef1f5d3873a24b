use miden_protocol::account::{AccountId, AccountIdVersion, AccountStorageMode, AccountType};
use miden_protocol::asset::{Asset, FungibleAsset};
use miden_protocol::crypto::rand::FeltRng;
use miden_protocol::note::NoteTag;
use miden_protocol::{Felt, Word, ZERO};
use miden_crypto::rand::RpoRandomCoin;

use miden_swapp::{AccountIdFelts, AssetValue, NoteType, PswapError, PswapNote};

fn id_felts(id: AccountId) -> AccountIdFelts {
    AccountIdFelts { prefix: id.prefix().as_u64(), suffix: id.suffix().as_int() }
}

fn asset_value(asset: Asset) -> AssetValue {
    match asset {
        Asset::Fungible(fa) => AssetValue::Fungible {
            faucet_prefix: fa.faucet_id().prefix().as_u64(),
            faucet_suffix: fa.faucet_id().suffix().as_int(),
            amount: fa.amount(),
        },
        Asset::NonFungible(nfa) => {
            let w = Word::from(nfa);
            AssetValue::NonFungible { data: [w[0].as_int(), w[1].as_int(), w[2].as_int(), w[3].as_int()] }
        },
    }
}

fn word_values(w: Word) -> [u64; 4] {
    [w[0].as_int(), w[1].as_int(), w[2].as_int(), w[3].as_int()]
}

fn dummy(bytes: [u8; 15], account_type: AccountType) -> AccountId {
    AccountId::dummy(bytes, AccountIdVersion::Version0, account_type, AccountStorageMode::Public)
}

fn faucet(first: u8, second: u8) -> AccountId {
    let mut bytes = [0u8; 15];
    bytes[0] = first;
    bytes[1] = second;
    dummy(bytes, AccountType::FungibleFaucet)
}

fn fungible(faucet_id: AccountId, amount: u64) -> AssetValue {
    asset_value(Asset::Fungible(FungibleAsset::new(faucet_id, amount).unwrap()))
}

/// Some script root for tagging: the script package itself is loaded by the application.
const SCRIPT_ROOT: [u64; 4] = [0x0000_0000_0000_b7a5, 11, 12, 13];

#[test]
fn test_calculate_output_amount() {
    // Test 1: offered > requested (e.g., 1000 USDT offered for 500 ETH)
    let output = PswapNote::calculate_output_amount(1000, 500, 250);
    assert_eq!(output, 500); // Should get 500 USDT for 250 ETH

    // Test 2: offered < requested (e.g., 500 ETH offered for 1000 USDT)
    let output = PswapNote::calculate_output_amount(500, 1000, 500);
    assert_eq!(output, 250); // Should get 250 ETH for 500 USDT

    // Test 3: offered == requested (1:1 ratio)
    let output = PswapNote::calculate_output_amount(1000, 1000, 500);
    assert_eq!(output, 500); // Should get 500 for 500

    // Test 4: Partial fill
    let output = PswapNote::calculate_output_amount(10000, 5000, 1000);
    assert_eq!(output, 2000); // Should get 2000 for 1000
}

#[test]
fn test_pswap_tag() {
    let offered_asset = fungible(faucet(0xcd, 0xb1), 2500);
    let requested_asset = fungible(faucet(0xab, 0xec), 5000);

    let expected_asset_pair = 0xcdab;

    let note_type = NoteType::Public;
    let actual_tag = PswapNote::build_tag(note_type, SCRIPT_ROOT, &offered_asset, &requested_asset);

    assert_eq!(actual_tag as u16, expected_asset_pair, "asset pair should match");
    assert_eq!(
        (actual_tag >> 30) as u8,
        miden_protocol::note::NoteType::Public as u8,
        "note type should match"
    );
}

#[test]
fn test_parse_inputs() {
    let faucet_id = dummy([0; 15], AccountType::FungibleFaucet);
    let creator_id = dummy([1; 15], AccountType::RegularAccountImmutableCode);

    let requested_asset = Asset::Fungible(FungibleAsset::new(faucet_id, 5000).unwrap());
    let requested_asset_word: Word = requested_asset.into();

    let note_type = miden_protocol::note::NoteType::Public;
    let p2id_tag = NoteTag::with_account_target(creator_id);
    let p2id_tag_felt = Felt::new(u32::from(p2id_tag) as u64);

    let inputs: Vec<Felt> = vec![
        requested_asset_word[0],
        requested_asset_word[1],
        ZERO,
        requested_asset_word[3],
        creator_id.prefix().as_felt(),
        creator_id.suffix(),
        note_type.into(),
        p2id_tag_felt,
    ];
    let inputs: Vec<u64> = inputs.iter().map(|f| f.as_int()).collect();

    let (parsed_asset_word, parsed_creator, parsed_note_type, parsed_tag) =
        PswapNote::parse_inputs(&inputs).unwrap();

    assert_eq!(parsed_asset_word, word_values(requested_asset_word));
    assert_eq!(parsed_creator, id_felts(creator_id));
    assert_eq!(parsed_note_type.as_u8(), note_type as u8);
    assert_eq!(parsed_tag, p2id_tag.as_u32());
}

#[test]
fn test_pswap_note_creation_and_script() {
    let mut offered_faucet_bytes = [0; 15];
    offered_faucet_bytes[0] = 0xaa;
    let mut requested_faucet_bytes = [0; 15];
    requested_faucet_bytes[0] = 0xbb;
    let offered_faucet_id = dummy(offered_faucet_bytes, AccountType::FungibleFaucet);
    let requested_faucet_id = dummy(requested_faucet_bytes, AccountType::FungibleFaucet);
    let creator_id = dummy([1; 15], AccountType::RegularAccountImmutableCode);

    let offered_asset = fungible(offered_faucet_id, 1000);
    let requested_asset = fungible(requested_faucet_id, 500);

    let mut rng = RpoRandomCoin::new(Word::default());
    let serial_num = word_values(rng.draw_word());

    let note = PswapNote::create(
        id_felts(creator_id),
        offered_asset,
        requested_asset,
        NoteType::Public,
        SCRIPT_ROOT,
        serial_num,
    );

    assert!(note.is_ok(), "Note creation should succeed");
    let note = note.unwrap();

    assert_eq!(note.sender, id_felts(creator_id), "Note sender should match creator");
    assert_eq!(note.note_type, NoteType::Public, "Note type should be Public");
    assert!(matches!(note.offered_asset, AssetValue::Fungible { amount: 1000, .. }), "Note should hold the offered asset");
    assert_eq!(note.serial_num, serial_num);
}

#[test]
fn create_lays_out_inputs_and_tag() {
    let creator_id = dummy([7; 15], AccountType::RegularAccountUpdatableCode);
    let offered = fungible(faucet(0x11, 0x22), 50);
    let requested_faucet = faucet(0x33, 0x44);
    let requested = fungible(requested_faucet, 25);
    let parts = PswapNote::create(id_felts(creator_id), offered, requested, NoteType::Private, SCRIPT_ROOT, [1, 2, 3, 0]).unwrap();
    let expected_tag = NoteTag::with_account_target(creator_id).as_u32() as u64;
    assert_eq!(
        parts.inputs,
        vec![
            requested_faucet.prefix().as_u64(),
            requested_faucet.suffix().as_int(),
            0,
            25,
            creator_id.prefix().as_u64(),
            creator_id.suffix().as_int(),
            2,
            expected_tag,
        ]
    );
    // the tag carries the note type, 14 bits of the script root and the faucet pair
    let use_case = ((0xa5u32) << 6) | (0xb7u32 >> 2);
    assert_eq!(parts.tag, (2u32 << 30) | (use_case << 16) | 0x1133);
    // the inputs of a created note parse back to what it was created with
    let (word, creator, note_type, tag) = PswapNote::parse_inputs(&parts.inputs).unwrap();
    assert_eq!(word, [requested_faucet.prefix().as_u64(), requested_faucet.suffix().as_int(), 0, 25]);
    assert_eq!(creator, id_felts(creator_id));
    assert_eq!(note_type, NoteType::Private);
    assert_eq!(tag as u64, expected_tag);
    assert_eq!(PswapNote::is_creator(&parts.inputs, id_felts(creator_id)), Ok(true));
    assert_eq!(PswapNote::is_creator(&parts.inputs, id_felts(dummy([9; 15], AccountType::RegularAccountUpdatableCode))), Ok(false));
    assert_eq!(PswapNote::get_creator_account_id(&parts.inputs), Ok(id_felts(creator_id)));
}

#[test]
fn create_refuses_same_faucet_and_non_fungible_requests() {
    let creator = id_felts(dummy([7; 15], AccountType::RegularAccountUpdatableCode));
    let f = faucet(0x11, 0x22);
    let r = PswapNote::create(creator, fungible(f, 5), fungible(f, 6), NoteType::Public, SCRIPT_ROOT, [0; 4]);
    assert!(matches!(r, Err(PswapError::SameFaucet)));

    let nf_faucet = dummy([0x55; 15], AccountType::NonFungibleFaucet);
    let non_fungible = AssetValue::NonFungible { data: [1, 2, 3, nf_faucet.prefix().as_u64()] };
    let r = PswapNote::create(creator, fungible(f, 5), non_fungible, NoteType::Public, SCRIPT_ROOT, [0; 4]);
    assert!(matches!(r, Err(PswapError::NonFungibleRequestedAsset)));
}

#[test]
fn parse_inputs_reports_each_error() {
    let creator = dummy([1; 15], AccountType::RegularAccountImmutableCode);
    let good: Vec<u64> = vec![1, 2, 0, 4, creator.prefix().as_u64(), creator.suffix().as_int(), 1, 77];

    assert_eq!(PswapNote::parse_inputs(&good[..7]), Err(PswapError::WrongInputCount { provided: 7 }));

    let mut bad_id = good.clone();
    bad_id[5] = creator.suffix().as_int() | 1; // low byte of the suffix must be zero
    assert_eq!(PswapNote::parse_inputs(&bad_id), Err(PswapError::InvalidCreatorAccountId));

    let mut bad_type = good.clone();
    bad_type[6] = 0;
    assert_eq!(PswapNote::parse_inputs(&bad_type), Err(PswapError::UnknownNoteType { code: 0 }));

    // the note type element is cut to a byte before it is read
    let mut wrapped_type = good.clone();
    wrapped_type[6] = 256 + 3;
    assert_eq!(PswapNote::parse_inputs(&wrapped_type).unwrap().2, NoteType::Encrypted);

    // the tag element is cut to 32 bits
    let mut wide_tag = good.clone();
    wide_tag[7] = (1u64 << 32) + 5;
    assert_eq!(PswapNote::parse_inputs(&wide_tag).unwrap().3, 5);
}

#[test]
fn get_requested_asset_decodes_asset_words() {
    let creator = dummy([1; 15], AccountType::RegularAccountImmutableCode);
    let faucet_id = faucet(0x42, 0x01);
    let asset = Asset::Fungible(FungibleAsset::new(faucet_id, 123).unwrap());
    let w = word_values(asset.into());
    // inputs 0 to 3 hold the asset word reversed: [prefix, suffix, 0, amount]
    let inputs: Vec<u64> = vec![w[3], w[2], w[1], w[0], creator.prefix().as_u64(), creator.suffix().as_int(), 1, 0];
    assert_eq!(PswapNote::get_requested_asset(&inputs).map(|a| a.to_word()), Ok(w));
    let mut bad = inputs.clone();
    bad[2] = 9; // element 1 of a fungible asset word must be zero
    assert!(matches!(PswapNote::get_requested_asset(&bad), Err(PswapError::InvalidRequestedAsset)));
    assert!(matches!(PswapNote::get_requested_asset(&inputs[..3]), Err(PswapError::WrongInputCount { provided: 3 })));
}

#[test]
fn requested_asset_of_created_note() {
    let creator_id = dummy([7; 15], AccountType::RegularAccountUpdatableCode);
    let requested = fungible(faucet(0x33, 0x44), 25);
    let parts = PswapNote::create(id_felts(creator_id), fungible(faucet(0x11, 0x22), 50), requested, NoteType::Public, SCRIPT_ROOT, [0; 4]).unwrap();
    let read = PswapNote::get_requested_asset(&parts.inputs).unwrap();
    assert_eq!(read.to_word(), requested.to_word());
    assert_eq!(read.amount(), 25);
}

#[test]
fn check_create_reports_errors_before_building() {
    let f = faucet(0x11, 0x22);
    assert_eq!(PswapNote::check_create(&fungible(f, 5), &fungible(f, 6)), Err(PswapError::SameFaucet));
    assert_eq!(PswapNote::check_create(&fungible(f, 5), &fungible(faucet(0x12, 0x22), 6)), Ok(()));
}

#[test]
fn note_type_codes_match_protocol() {
    assert_eq!(NoteType::Public.as_u8(), miden_protocol::note::NoteType::Public as u8);
    assert_eq!(NoteType::Private.as_u8(), miden_protocol::note::NoteType::Private as u8);
    assert_eq!(NoteType::Encrypted.as_u8(), miden_protocol::note::NoteType::Encrypted as u8);
}
