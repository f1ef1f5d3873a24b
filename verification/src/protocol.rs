//! The calls into `miden-protocol`, `miden-crypto` and `miden-core` that the swap logic makes.
//! Each function here is trusted: its contract restates what the called item's source does.
use vstd::prelude::*;
use crate::felt::{is_felt, all_felts, Word};
use crate::types::{AccountIdFelts, AssetValue, NoteType, account_id_valid, MAX_FUNGIBLE_AMOUNT};

use miden_protocol::account::AccountId;
use miden_protocol::asset::Asset;
use miden_protocol::note::{NoteInputs, NoteRecipient, NoteTag};
use miden_standards::note::WellKnownNote;
use miden_protocol::Felt;

verus! {

/// What `Asset::try_from(Word)` makes of a word: the asset, or nothing when the word is refused.
pub uninterp spec fn asset_decoded_from_word(word: Seq<u64>) -> Option<AssetValue>;

/// The recipient commitment of the standard P2ID note paying `target` with serial number
/// `serial_num`, as `build_p2id_recipient(target, serial_num).digest()` computes it.
pub uninterp spec fn p2id_recipient_commitment(target: AccountIdFelts, serial_num: Seq<u64>) -> Seq<u64>;

/// The recipient digest of a note with serial number `serial_num`, the standard P2ID note script
/// and the note inputs `inputs`, as
/// `NoteRecipient::new(serial_num, WellKnownNote::P2ID.script(), NoteInputs::new(inputs)?).digest()`
/// computes it.
pub uninterp spec fn p2id_script_recipient(serial_num: Seq<u64>, inputs: Seq<u64>) -> Seq<u64>;

/// The RPO-256 digest that `Rpo256::hash_elements` computes over a sequence of field elements.
pub uninterp spec fn rpo256_digest(elements: Seq<u64>) -> Seq<u64>;

/// Calls `AccountId::try_from([prefix, suffix])`. Per its source (`validate_prefix`,
/// `validate_suffix`), it accepts exactly the pairs that `account_id_valid` describes and then
/// holds those two elements.
#[verifier::external_body]
pub(crate) fn account_id_from_felts(prefix: u64, suffix: u64) -> (id: Option<AccountIdFelts>)
    requires
        is_felt(prefix),
        is_felt(suffix),
    ensures
        id.is_some() == account_id_valid(prefix, suffix),
        id matches Some(v) ==> v.prefix == prefix && v.suffix == suffix,
{
    match AccountId::try_from([Felt::new(prefix), Felt::new(suffix)]) {
        Ok(account_id) => Some(AccountIdFelts {
            prefix: account_id.prefix().as_u64(),
            suffix: account_id.suffix().as_int(),
        }),
        Err(_) => None,
    }
}

/// Calls `NoteType::try_from(u8)`, which accepts the codes `0b01` (public), `0b10` (private) and
/// `0b11` (encrypted) and refuses every other byte.
#[verifier::external_body]
pub(crate) fn note_type_from_code(code: u8) -> (note_type: Option<NoteType>)
    ensures
        note_type.is_some() == (1 <= code <= 3),
        note_type matches Some(t) ==> t.code() == code,
{
    match miden_protocol::note::NoteType::try_from(code) {
        Ok(miden_protocol::note::NoteType::Public) => Some(NoteType::Public),
        Ok(miden_protocol::note::NoteType::Private) => Some(NoteType::Private),
        Ok(miden_protocol::note::NoteType::Encrypted) => Some(NoteType::Encrypted),
        Err(_) => None,
    }
}

/// The tag that `NoteTag::with_account_target` gives an account: the 30 most significant bits of
/// the prefix below two zero bits for a network account, and only the top 14 of them (the rest
/// cleared) for a public or private account.
pub open spec fn account_target_tag_spec(id: AccountIdFelts) -> u32 {
    if id.is_network() {
        (id.prefix >> 34u64) as u32
    } else {
        ((id.prefix >> 34u64) as u32) & 0xffff_0000u32
    }
}

/// Calls `NoteTag::with_account_target` on a valid account ID and returns the tag's `u32`.
#[verifier::external_body]
pub(crate) fn account_target_tag(id: AccountIdFelts) -> (tag: u32)
    requires
        id.valid(),
    ensures
        tag == account_target_tag_spec(id),
{
    let account_id = AccountId::new_unchecked([Felt::new(id.prefix), Felt::new(id.suffix)]);
    NoteTag::with_account_target(account_id).as_u32()
}

/// Calls `Asset::try_from(Word)`. The result is named by `asset_decoded_from_word`; per the
/// source, an accepted word is the accepted asset's own word and describes a well-formed asset,
/// and a fungible asset's word `[amount, 0, suffix, prefix]` with a valid fungible-faucet ID and
/// an amount of at most `MAX_FUNGIBLE_AMOUNT` is accepted as that asset. Which non-fungible
/// words are accepted is left to the name.
#[verifier::external_body]
pub(crate) fn asset_from_word(word: Word) -> (asset: Option<AssetValue>)
    requires
        all_felts(word@),
    ensures
        asset == asset_decoded_from_word(word@),
        asset matches Some(a) ==> a.word_spec() == word@ && a.well_formed(),
        word[1] == 0 && account_id_valid(word[3], word[2])
            && (AccountIdFelts { prefix: word[3], suffix: word[2] }).type_bits() == 2
            && word[0] <= MAX_FUNGIBLE_AMOUNT
            ==> asset == Some(AssetValue::Fungible { faucet_prefix: word[3], faucet_suffix: word[2], amount: word[0] }),
{
    let w = miden_protocol::Word::new([Felt::new(word[0]), Felt::new(word[1]), Felt::new(word[2]), Felt::new(word[3])]);
    match Asset::try_from(w) {
        Ok(Asset::Fungible(fa)) => Some(AssetValue::Fungible {
            faucet_prefix: fa.faucet_id().prefix().as_u64(),
            faucet_suffix: fa.faucet_id().suffix().as_int(),
            amount: fa.amount(),
        }),
        Ok(Asset::NonFungible(nfa)) => {
            let d = miden_protocol::Word::from(nfa);
            Some(AssetValue::NonFungible { data: [d[0].as_int(), d[1].as_int(), d[2].as_int(), d[3].as_int()] })
        },
        Err(_) => None,
    }
}

/// The bytes of a word per `Word::as_bytes`: each element's canonical value in little-endian
/// order, element 0 first.
pub open spec fn word_byte(word: Seq<u64>, index: int) -> u8 {
    ((word[index / 8] >> (8 * (index % 8)) as u64) & 0xff) as u8
}

/// Calls `Word::as_bytes`.
#[verifier::external_body]
pub(crate) fn word_as_bytes(word: Word) -> (bytes: [u8; 32])
    requires
        all_felts(word@),
    ensures
        forall|i: int| 0 <= i < 32 ==> #[trigger] bytes[i] == word_byte(word@, i),
{
    miden_protocol::Word::new([Felt::new(word[0]), Felt::new(word[1]), Felt::new(word[2]), Felt::new(word[3])]).as_bytes()
}

/// Calls `Rpo256::hash_elements` on field elements; the digest is named by `rpo256_digest` and,
/// being a word of field elements, is four canonical values.
#[verifier::external_body]
pub(crate) fn rpo256_hash_elements(elements: &[u64]) -> (digest: Word)
    requires
        all_felts(elements@),
    ensures
        digest@ == rpo256_digest(elements@),
        all_felts(digest@),
{
    let felts: Vec<Felt> = elements.iter().map(|e| Felt::new(*e)).collect();
    let d = miden_core::crypto::hash::Rpo256::hash_elements(&felts);
    [d[0].as_int(), d[1].as_int(), d[2].as_int(), d[3].as_int()]
}

} // verus!

verus! {

/// Calls `miden_standards::note::utils::build_p2id_recipient` and returns the recipient's
/// digest, named by `p2id_recipient_commitment`. Per its source the recipient commits to the
/// serial number, the standard P2ID script and the inputs `[target suffix, target prefix]`; it
/// fails only when `NoteInputs::new` refuses those two inputs, which it does only for more than
/// the maximum number of inputs.
#[verifier::external_body]
pub(crate) fn p2id_recipient_digest(target: AccountIdFelts, serial_num: Word) -> (digest: Word)
    requires
        target.valid(),
        all_felts(serial_num@),
    ensures
        digest@ == p2id_recipient_commitment(target, serial_num@),
        all_felts(digest@),
{
    let account_id = AccountId::new_unchecked([Felt::new(target.prefix), Felt::new(target.suffix)]);
    let serial = miden_protocol::Word::new([Felt::new(serial_num[0]), Felt::new(serial_num[1]), Felt::new(serial_num[2]), Felt::new(serial_num[3])]);
    let d = miden_standards::note::utils::build_p2id_recipient(account_id, serial).expect("two inputs fit a note").digest();
    [d[0].as_int(), d[1].as_int(), d[2].as_int(), d[3].as_int()]
}

/// Builds `NoteRecipient::new(serial_num, WellKnownNote::P2ID.script(), NoteInputs::new(inputs))`
/// and returns its digest, named by `p2id_script_recipient`. Per its source `NoteInputs::new`
/// refuses only more than `MAX_INPUTS_PER_NOTE` (1024) values, which `requires` rules out.
#[verifier::external_body]
pub(crate) fn p2id_script_recipient_digest(serial_num: Word, inputs: &[u64]) -> (digest: Word)
    requires
        all_felts(serial_num@),
        all_felts(inputs@),
        inputs@.len() <= 1024,
    ensures
        digest@ == p2id_script_recipient(serial_num@, inputs@),
        all_felts(digest@),
{
    let values: Vec<Felt> = inputs.iter().map(|e| Felt::new(*e)).collect();
    let serial = miden_protocol::Word::new([Felt::new(serial_num[0]), Felt::new(serial_num[1]), Felt::new(serial_num[2]), Felt::new(serial_num[3])]);
    let note_inputs = NoteInputs::new(values).expect("at most the maximum number of inputs");
    let d = NoteRecipient::new(serial, WellKnownNote::P2ID.script(), note_inputs).digest();
    [d[0].as_int(), d[1].as_int(), d[2].as_int(), d[3].as_int()]
}

} // verus!
