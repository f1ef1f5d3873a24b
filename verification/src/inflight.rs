//! Inflight P2ID notes: the advice data that a transaction script turns into payback notes, and
//! that script's reading of it.
use vstd::prelude::*;
use crate::felt::{all_felts, is_felt, Word};
use crate::protocol::{
    account_target_tag, account_target_tag_spec, p2id_recipient_commitment, p2id_recipient_digest,
    rpo256_digest, rpo256_hash_elements,
};
use crate::types::{p2id_script_root, p2id_script_root_spec, AccountIdFelts, AssetValue, NoteType};

verus! {

/// Number of field elements that describe one note in the advice data (four words).
pub const FELTS_PER_NOTE: usize = 16;

/// The sixteen elements describing one note: its serial number; recipient prefix, recipient
/// suffix, tag and note type; the attachment word `[amount, 0, 0, 0]`; the asset word.
pub open spec fn note_block(asset: AssetValue, recipient: AccountIdFelts, serial_num: Seq<u64>) -> Seq<u64> {
    serial_num + seq![
        recipient.prefix,
        recipient.suffix,
        account_target_tag_spec(recipient) as u64,
        NoteType::Public.code() as u64,
        asset.amount_spec(),
        0u64,
        0u64,
        0u64,
    ] + asset.word_spec()
}

/// The advice data for the first `n` notes: their blocks one after another.
pub open spec fn advice_data(notes: Seq<(AssetValue, AccountIdFelts)>, serial_nums: Seq<Word>, n: nat) -> Seq<u64>
    decreases n,
{
    if n == 0 {
        Seq::empty()
    } else {
        advice_data(notes, serial_nums, (n - 1) as nat)
            + note_block(notes[n - 1].0, notes[n - 1].1, serial_nums[n - 1]@)
    }
}

/// A P2ID note that the transaction is expected to output, as plain values.
#[derive(Clone, Copy, Debug)]
pub struct InflightP2idNote {
    /// The account executing the transaction.
    pub sender: AccountIdFelts,
    /// The account the note pays.
    pub recipient: AccountIdFelts,
    /// The standard P2ID recipient commitment for `recipient` and `serial_num`.
    pub recipient_digest: Word,
    /// The P2ID note inputs the commitment is made over: `[recipient suffix, recipient prefix]`.
    pub recipient_inputs: [u64; 2],
    /// The note's serial number.
    pub serial_num: Word,
    /// The note type (always public).
    pub note_type: NoteType,
    /// The routing tag targeting the recipient.
    pub tag: u32,
    /// The attachment word's first element: the fungible amount, or 0.
    pub aux: u64,
    /// The single asset the note carries.
    pub asset: AssetValue,
}

/// Output of `InflightP2idScript::prepare`: everything needed to wire the P2ID transaction
/// script into a transaction.
pub struct InflightP2idData {
    /// The commitment word passed as the transaction script's argument.
    pub commitment_arg: Word,
    /// The `(key, value)` pair to put in the advice map.
    pub advice_map_entry: (Word, Vec<u64>),
    /// The expected output notes, one per recipient.
    pub expected_notes: Vec<InflightP2idNote>,
}

/// The preconditions of `prepare`: valid accounts, well-formed assets and one field-element
/// serial number per note.
pub open spec fn prepare_inputs_ok(sender_id: AccountIdFelts, notes: Seq<(AssetValue, AccountIdFelts)>, serial_nums: Seq<Word>) -> bool {
    &&& sender_id.valid()
    &&& notes.len() > 0
    &&& serial_nums.len() == notes.len()
    &&& forall|k: int| 0 <= k < notes.len() ==> (#[trigger] notes[k]).0.well_formed() && notes[k].1.valid()
    &&& forall|k: int| 0 <= k < serial_nums.len() ==> all_felts((#[trigger] serial_nums[k])@)
}

/// `note` is the expected note for entry `k`: it pays `notes[k].0` to `notes[k].1` from the
/// sender, with serial number `serial_nums[k]`, the standard P2ID recipient commitment over the
/// inputs `[recipient suffix, recipient prefix]`, the public note type, the recipient's routing
/// tag and the attachment `[amount, 0, 0, 0]`.
pub open spec fn expected_note_matches(note: InflightP2idNote, sender_id: AccountIdFelts, notes: Seq<(AssetValue, AccountIdFelts)>, serial_nums: Seq<Word>, k: int) -> bool {
    &&& note.sender == sender_id
    &&& note.recipient == notes[k].1
    &&& note.recipient_digest@ == p2id_recipient_commitment(notes[k].1, serial_nums[k]@)
    &&& note.recipient_inputs@ == seq![notes[k].1.suffix, notes[k].1.prefix]
    &&& note.serial_num == serial_nums[k]
    &&& note.note_type == NoteType::Public
    &&& note.tag == account_target_tag_spec(notes[k].1)
    &&& note.aux == notes[k].0.amount_spec()
    &&& note.asset == notes[k].0
}

/// `data` is what `prepare` returns for these notes: the advice data for them, stored under its
/// hash, that hash reversed as the script's argument, and the expected note for each entry.
pub open spec fn prepare_outcome(data: InflightP2idData, sender_id: AccountIdFelts, notes: Seq<(AssetValue, AccountIdFelts)>, serial_nums: Seq<Word>) -> bool {
    &&& data.advice_map_entry.1@ == advice_data(notes, serial_nums, notes.len())
    &&& data.advice_map_entry.0@ == rpo256_digest(data.advice_map_entry.1@)
    &&& data.commitment_arg@ == data.advice_map_entry.0@.reverse()
    &&& data.expected_notes@.len() == notes.len()
    &&& forall|k: int| 0 <= k < notes.len() ==> expected_note_matches(#[trigger] data.expected_notes@[k], sender_id, notes, serial_nums, k)
}

/// SDK helper for the P2ID transaction script, which creates N inflight P2ID notes in one
/// transaction.
pub struct InflightP2idScript;

impl InflightP2idScript {
    /// Prepares the advice data, its commitment and the expected notes for paying
    /// `notes[k].0` to `notes[k].1` with serial number `serial_nums[k]`.
    pub fn prepare(sender_id: AccountIdFelts, notes: &[(AssetValue, AccountIdFelts)], serial_nums: &[Word]) -> (data: InflightP2idData)
        requires
            prepare_inputs_ok(sender_id, notes@, serial_nums@),
        ensures
            prepare_outcome(data, sender_id, notes@, serial_nums@),
    {
        let note_type = NoteType::Public;
        let note_type_felt: u64 = note_type.as_u8() as u64;
        let mut advice_felts: Vec<u64> = Vec::new();
        let mut expected_notes: Vec<InflightP2idNote> = Vec::new();
        let n = notes.len();
        let mut i: usize = 0;
        while i < n
            invariant
                n == notes@.len(),
                i <= n,
                prepare_inputs_ok(sender_id, notes@, serial_nums@),
                note_type_felt == 1,
                note_type == NoteType::Public,
                advice_felts@ == advice_data(notes@, serial_nums@, i as nat),
                expected_notes@.len() == i,
                forall|k: int| 0 <= k < i ==> expected_note_matches(#[trigger] expected_notes@[k], sender_id, notes@, serial_nums@, k),
            decreases n - i,
        {
            let (asset, recipient_id) = notes[i];
            let serial_num: Word = serial_nums[i];
            proof {
                assert(asset.well_formed() && recipient_id.valid());
            }
            let tag = account_target_tag(recipient_id);
            let tag_felt: u64 = tag as u64;
            let asset_word = asset.to_word();
            let amount = asset.amount();
            let ghost before = advice_felts@;

            advice_felts.push(serial_num[0]);
            advice_felts.push(serial_num[1]);
            advice_felts.push(serial_num[2]);
            advice_felts.push(serial_num[3]);
            advice_felts.push(recipient_id.prefix);
            advice_felts.push(recipient_id.suffix);
            advice_felts.push(tag_felt);
            advice_felts.push(note_type_felt);
            advice_felts.push(amount);
            advice_felts.push(0);
            advice_felts.push(0);
            advice_felts.push(0);
            advice_felts.push(asset_word[0]);
            advice_felts.push(asset_word[1]);
            advice_felts.push(asset_word[2]);
            advice_felts.push(asset_word[3]);
            proof {
                assert(advice_felts@ =~= before + note_block(asset, recipient_id, serial_num@));
            }

            let recipient_digest = p2id_recipient_digest(recipient_id, serial_num);
            let recipient_inputs: [u64; 2] = [recipient_id.suffix, recipient_id.prefix];
            expected_notes.push(InflightP2idNote {
                sender: sender_id,
                recipient: recipient_id,
                recipient_digest,
                recipient_inputs,
                serial_num,
                note_type,
                tag,
                aux: amount,
                asset,
            });
            proof {
                assert(notes@[i as int] == (asset, recipient_id));
                assert(recipient_inputs@ =~= seq![recipient_id.suffix, recipient_id.prefix]);
                assert(expected_note_matches(expected_notes@[i as int], sender_id, notes@, serial_nums@, i as int));
            }
            i = i + 1;
        }
        proof {
            lemma_advice_data_felts(notes@, serial_nums@, n as nat);
        }
        let commitment_key = rpo256_hash_elements(advice_felts.as_slice());
        let commitment_arg: Word = [commitment_key[3], commitment_key[2], commitment_key[1], commitment_key[0]];
        proof {
            assert(commitment_arg@ =~= commitment_key@.reverse());
        }
        InflightP2idData {
            commitment_arg,
            advice_map_entry: (commitment_key, advice_felts),
            expected_notes,
        }
    }
}

/// One note that the P2ID transaction script outputs, as it reads it from the advice data.
#[derive(Clone, Copy, Debug)]
pub struct InflightNoteRequest {
    /// The note's serial number.
    pub serial_num: Word,
    /// The recipient account's prefix and suffix.
    pub recipient: AccountIdFelts,
    /// The P2ID script root the script's recipient commitment is made with.
    pub script_root: Word,
    /// The P2ID note inputs the script's recipient commitment is made over:
    /// `[recipient suffix, recipient prefix]`.
    pub recipient_inputs: [u64; 2],
    /// The note tag element.
    pub tag: u64,
    /// The note type element.
    pub note_type: u64,
    /// The first element of the attachment word.
    pub aux: u64,
    /// The word of the asset added to the note.
    pub asset_word: Word,
}

/// Why the P2ID transaction script refuses its advice data.
#[derive(Clone, Copy, Debug, PartialEq, Eq, Structural)]
pub enum InflightAdviceError {
    /// The number of elements is not a multiple of `FELTS_PER_NOTE`.
    LengthNotMultipleOfBlock { len: usize },
    /// The data does not hash to the commitment the script was given.
    CommitmentMismatch,
}

/// `request` is what the script reads from block `k` of `data`.
pub open spec fn request_read_from(request: InflightNoteRequest, data: Seq<u64>, k: int) -> bool {
    let base = FELTS_PER_NOTE * k;
    &&& request.serial_num@ == data.subrange(base, base + 4)
    &&& request.recipient == (AccountIdFelts { prefix: data[base + 4], suffix: data[base + 5] })
    &&& request.script_root@ == p2id_script_root_spec()
    &&& request.recipient_inputs@ == seq![data[base + 5], data[base + 4]]
    &&& request.tag == data[base + 6]
    &&& request.note_type == data[base + 7]
    &&& request.aux == data[base + 8]
    &&& request.asset_word@ == data.subrange(base + 12, base + 16)
}

/// `request` asks for exactly the note that `note` describes.
pub open spec fn request_agrees_with(request: InflightNoteRequest, note: InflightP2idNote) -> bool {
    &&& request.serial_num@ == note.serial_num@
    &&& request.recipient == note.recipient
    &&& request.recipient_inputs@ == note.recipient_inputs@
    &&& request.tag == note.tag as u64
    &&& request.note_type == note.note_type.code() as u64
    &&& request.aux == note.aux
    &&& request.asset_word@ == note.asset.word_spec()
}

/// What the P2ID transaction script does with the advice data `data` and its argument `arg`:
/// it refuses data whose length is not a multiple of sixteen, then data that does not hash to
/// the commitment, which it reads as `arg` reversed; otherwise it creates one note per sixteen
/// elements, as read by `request_read_from`.
pub open spec fn advice_read_outcome(data: Seq<u64>, arg: Seq<u64>, r: Result<Vec<InflightNoteRequest>, InflightAdviceError>) -> bool {
    if data.len() % (FELTS_PER_NOTE as nat) != 0 {
        r == Err::<Vec<InflightNoteRequest>, InflightAdviceError>(
            InflightAdviceError::LengthNotMultipleOfBlock { len: data.len() as usize })
    } else if rpo256_digest(data) != arg.reverse() {
        r == Err::<Vec<InflightNoteRequest>, InflightAdviceError>(InflightAdviceError::CommitmentMismatch)
    } else {
        r matches Ok(requests) && {
            &&& requests@.len() == data.len() / (FELTS_PER_NOTE as nat)
            &&& forall|k: int| 0 <= k < requests@.len() ==> request_read_from(#[trigger] requests@[k], data, k)
        }
    }
}

/// Reads the advice data the way the P2ID transaction script does, given the word `arg` that the
/// transaction passes as the script's argument. Each request only creates a note and adds its
/// asset to that note directly; nothing is taken from the account.
pub fn read_inflight_advice(data: &[u64], arg: Word) -> (r: Result<Vec<InflightNoteRequest>, InflightAdviceError>)
    requires
        all_felts(data@),
    ensures
        advice_read_outcome(data@, arg@, r),
{
    let num_felts = data.len();
    if num_felts % FELTS_PER_NOTE != 0 {
        return Err(InflightAdviceError::LengthNotMultipleOfBlock { len: num_felts });
    }
    let digest = rpo256_hash_elements(data);
    let commitment: Word = [arg[3], arg[2], arg[1], arg[0]];
    proof {
        assert(commitment@ =~= arg@.reverse());
    }
    if !(digest[0] == commitment[0] && digest[1] == commitment[1] && digest[2] == commitment[2]
        && digest[3] == commitment[3]) {
        proof {
            if rpo256_digest(data@) == arg@.reverse() {
                assert(digest@[0] == commitment@[0] && digest@[1] == commitment@[1]);
                assert(digest@[2] == commitment@[2] && digest@[3] == commitment@[3]);
            }
        }
        return Err(InflightAdviceError::CommitmentMismatch);
    }
    proof {
        assert(digest@ =~= commitment@);
    }
    let num_notes = num_felts / FELTS_PER_NOTE;
    let mut requests: Vec<InflightNoteRequest> = Vec::new();
    let mut i: usize = 0;
    while i < num_notes
        invariant
            num_felts == data@.len(),
            num_notes == num_felts / FELTS_PER_NOTE,
            num_felts % FELTS_PER_NOTE == 0,
            i <= num_notes,
            requests@.len() == i,
            forall|k: int| 0 <= k < i ==> request_read_from(#[trigger] requests@[k], data@, k),
        decreases num_notes - i,
    {
        let off = i * FELTS_PER_NOTE;
        assert(off + 16 <= num_felts) by (nonlinear_arith)
            requires
                off == i * 16,
                i < num_notes,
                num_notes == num_felts / 16,
                num_felts % 16 == 0,
        {
            assert(num_felts == 16 * num_notes);
        }
        let request = InflightNoteRequest {
            serial_num: [data[off], data[off + 1], data[off + 2], data[off + 3]],
            recipient: AccountIdFelts { prefix: data[off + 4], suffix: data[off + 5] },
            script_root: p2id_script_root(),
            recipient_inputs: [data[off + 5], data[off + 4]],
            tag: data[off + 6],
            note_type: data[off + 7],
            aux: data[off + 8],
            asset_word: [data[off + 12], data[off + 13], data[off + 14], data[off + 15]],
        };
        proof {
            assert(request.serial_num@ =~= data@.subrange(off as int, off + 4));
            assert(request.recipient_inputs@ =~= seq![data@[off + 5], data@[off + 4]]);
            assert(request.asset_word@ =~= data@.subrange(off + 12, off + 16));
        }
        requests.push(request);
        i = i + 1;
    }
    Ok(requests)
}

/// Element `j` of block `k` of the advice data is element `j` of that note's block.
pub proof fn lemma_advice_data_index(notes: Seq<(AssetValue, AccountIdFelts)>, serial_nums: Seq<Word>, n: nat, k: int, j: int)
    requires
        n <= notes.len(),
        n <= serial_nums.len(),
        forall|m: int| 0 <= m < serial_nums.len() ==> (#[trigger] serial_nums[m])@.len() == 4,
        0 <= k < n,
        0 <= j < FELTS_PER_NOTE,
    ensures
        advice_data(notes, serial_nums, n).len() == FELTS_PER_NOTE * n,
        advice_data(notes, serial_nums, n)[FELTS_PER_NOTE * k + j] == note_block(notes[k].0, notes[k].1, serial_nums[k]@)[j],
    decreases n,
{
    lemma_advice_data_len(notes, serial_nums, n);
    let prev = advice_data(notes, serial_nums, (n - 1) as nat);
    lemma_advice_data_len(notes, serial_nums, (n - 1) as nat);
    if k < n - 1 {
        lemma_advice_data_index(notes, serial_nums, (n - 1) as nat, k, j);
    } else {
        let block = note_block(notes[k].0, notes[k].1, serial_nums[k]@);
        assert((prev + block)[FELTS_PER_NOTE * k + j] == block[j]);
    }
}

/// The advice data holds sixteen elements per note.
pub proof fn lemma_advice_data_len(notes: Seq<(AssetValue, AccountIdFelts)>, serial_nums: Seq<Word>, n: nat)
    requires
        n <= notes.len(),
        n <= serial_nums.len(),
        forall|m: int| 0 <= m < serial_nums.len() ==> (#[trigger] serial_nums[m])@.len() == 4,
    ensures
        advice_data(notes, serial_nums, n).len() == FELTS_PER_NOTE * n,
    decreases n,
{
    if n > 0 {
        lemma_advice_data_len(notes, serial_nums, (n - 1) as nat);
        let k = n - 1;
        let (asset, _) = notes[k as int];
        assert(serial_nums[k as int]@.len() == 4);
        match asset {
            AssetValue::Fungible { .. } => {},
            AssetValue::NonFungible { data } => { assert(data@.len() == 4); },
        }
    }
}

/// Block `k` of the advice data for these notes, read as the script reads it, asks for the note
/// that entry `k` is expected to produce.
proof fn lemma_block_read_agrees(sender_id: AccountIdFelts, notes: Seq<(AssetValue, AccountIdFelts)>, serial_nums: Seq<Word>, request: InflightNoteRequest, note: InflightP2idNote, k: int)
    requires
        prepare_inputs_ok(sender_id, notes, serial_nums),
        0 <= k < notes.len(),
        request_read_from(request, advice_data(notes, serial_nums, notes.len()), k),
        expected_note_matches(note, sender_id, notes, serial_nums, k),
    ensures
        request_agrees_with(request, note),
{
    let n = notes.len();
    assert forall|m: int| 0 <= m < serial_nums.len() implies (#[trigger] serial_nums[m])@.len() == 4 by {}
    lemma_advice_data_len(notes, serial_nums, n);
    let data = advice_data(notes, serial_nums, n);
    let (asset, recipient) = notes[k];
    let block = note_block(asset, recipient, serial_nums[k]@);
    assert forall|j: int| 0 <= j < 16 implies data[16 * k + j] == #[trigger] block[j] by {
        lemma_advice_data_index(notes, serial_nums, n, k, j);
    }
    assert(asset.word_spec().len() == 4) by {
        match asset {
            AssetValue::Fungible { .. } => {},
            AssetValue::NonFungible { data } => { assert(data@.len() == 4); },
        }
    }
    assert(serial_nums[k]@.len() == 4);
    assert forall|j: int| 0 <= j < 4 implies request.serial_num@[j] == #[trigger] serial_nums[k]@[j] by {
        assert(data[16 * k + j] == block[j]);
        assert(data.subrange(16 * k, 16 * k + 4)[j] == data[16 * k + j]);
    }
    assert(request.serial_num@ =~= serial_nums[k]@);
    assert forall|j: int| 0 <= j < 4 implies request.asset_word@[j] == #[trigger] asset.word_spec()[j] by {
        assert(data[16 * k + (12 + j)] == block[12 + j]);
        assert(data.subrange(16 * k + 12, 16 * k + 16)[j] == data[16 * k + 12 + j]);
    }
    assert(request.asset_word@ =~= asset.word_spec());
    assert(data[16 * k + 4] == block[4] && block[4] == recipient.prefix);
    assert(data[16 * k + 5] == block[5] && block[5] == recipient.suffix);
    assert(data[16 * k + 6] == block[6] && block[6] == account_target_tag_spec(recipient) as u64);
    assert(data[16 * k + 7] == block[7] && block[7] == 1);
    assert(data[16 * k + 8] == block[8] && block[8] == asset.amount_spec());
}

/// The amount an inflight note for `asset` carries in its attachment: a fungible asset's whole
/// amount, zero for a non-fungible asset.
pub open spec fn carried_amount(asset: AssetValue) -> u64 {
    match asset {
        AssetValue::Fungible { amount, .. } => amount,
        AssetValue::NonFungible { .. } => 0,
    }
}

/// What `prepare` returns lays each note out element by element from the inputs alone: block `k`
/// of the advice data is the serial number, the recipient's prefix and suffix, the recipient's
/// account-target tag, the public note type code 1, the asset's whole amount, three zeros and the
/// asset's word (`[amount, 0, faucet suffix, faucet prefix]`, or the non-fungible data); the
/// expected note carries that whole amount as its attachment, with the asset, recipient, serial
/// number and tag it was asked for.
pub proof fn law_prepared_note_layout(
    sender_id: AccountIdFelts,
    notes: Seq<(AssetValue, AccountIdFelts)>,
    serial_nums: Seq<Word>,
    prepared: InflightP2idData,
    k: int,
)
    requires
        prepare_inputs_ok(sender_id, notes, serial_nums),
        prepare_outcome(prepared, sender_id, notes, serial_nums),
        0 <= k < notes.len(),
    ensures
        ({
            let data = prepared.advice_map_entry.1@;
            let (asset, recipient) = notes[k];
            let base = 16 * k;
            &&& data.len() == 16 * notes.len()
            &&& forall|j: int| 0 <= j < 4 ==> #[trigger] data[base + j] == serial_nums[k]@[j]
            &&& data[base + 4] == recipient.prefix
            &&& data[base + 5] == recipient.suffix
            &&& data[base + 6] == account_target_tag_spec(recipient) as u64
            &&& data[base + 7] == 1
            &&& data[base + 8] == carried_amount(asset)
            &&& data[base + 9] == 0 && data[base + 10] == 0 && data[base + 11] == 0
            &&& (asset matches AssetValue::Fungible { faucet_prefix, faucet_suffix, amount } ==> {
                &&& data[base + 8] == amount
                &&& data[base + 12] == amount
                &&& data[base + 13] == 0
                &&& data[base + 14] == faucet_suffix
                &&& data[base + 15] == faucet_prefix
            })
            &&& (asset matches AssetValue::NonFungible { data: nf } ==>
                forall|j: int| 0 <= j < 4 ==> #[trigger] data[base + 12 + j] == nf[j])
            &&& prepared.expected_notes@[k].aux == carried_amount(asset)
            &&& (asset matches AssetValue::Fungible { amount, .. } ==> prepared.expected_notes@[k].aux == amount)
            &&& prepared.expected_notes@[k].asset == asset
            &&& prepared.expected_notes@[k].recipient == recipient
            &&& prepared.expected_notes@[k].sender == sender_id
            &&& prepared.expected_notes@[k].serial_num == serial_nums[k]
            &&& prepared.expected_notes@[k].tag == account_target_tag_spec(recipient)
            &&& prepared.expected_notes@[k].note_type == NoteType::Public
        }),
{
    let n = notes.len();
    assert forall|m: int| 0 <= m < serial_nums.len() implies (#[trigger] serial_nums[m])@.len() == 4 by {}
    lemma_advice_data_len(notes, serial_nums, n);
    let data = advice_data(notes, serial_nums, n);
    let (asset, recipient) = notes[k];
    let block = note_block(asset, recipient, serial_nums[k]@);
    assert forall|j: int| 0 <= j < 16 implies data[16 * k + j] == #[trigger] block[j] by {
        lemma_advice_data_index(notes, serial_nums, n, k, j);
    }
    assert(serial_nums[k]@.len() == 4);
    assert forall|j: int| 0 <= j < 4 implies #[trigger] data[16 * k + j] == serial_nums[k]@[j] by {
        assert(data[16 * k + j] == block[j]);
    }
    assert(data[16 * k + 4] == block[4]);
    assert(data[16 * k + 5] == block[5]);
    assert(data[16 * k + 6] == block[6]);
    assert(data[16 * k + 7] == block[7]);
    assert(data[16 * k + 8] == block[8]);
    assert(data[16 * k + 9] == block[9]);
    assert(data[16 * k + 10] == block[10]);
    assert(data[16 * k + 11] == block[11]);
    match asset {
        AssetValue::Fungible { .. } => {
            assert(data[16 * k + 12] == block[12]);
            assert(data[16 * k + 13] == block[13]);
            assert(data[16 * k + 14] == block[14]);
            assert(data[16 * k + 15] == block[15]);
        },
        AssetValue::NonFungible { data: nf } => {
            assert(nf@.len() == 4);
            assert forall|j: int| 0 <= j < 4 implies #[trigger] data[16 * k + 12 + j] == nf[j] by {
                assert(data[16 * k + (12 + j)] == block[12 + j]);
            }
        },
    }
    assert(expected_note_matches(prepared.expected_notes@[k], sender_id, notes, serial_nums, k));
}

/// Run on what `prepare` returns (its `commitment_arg` as the argument, and the advice data it
/// stores under the commitment), the P2ID transaction script accepts the data and creates exactly
/// the expected notes, one per entry and in order: same serial number, recipient, P2ID inputs,
/// tag, note type, attachment and asset.
pub proof fn law_script_creates_prepared_notes(
    sender_id: AccountIdFelts,
    notes: Seq<(AssetValue, AccountIdFelts)>,
    serial_nums: Seq<Word>,
    prepared: InflightP2idData,
    r: Result<Vec<InflightNoteRequest>, InflightAdviceError>,
)
    requires
        prepare_inputs_ok(sender_id, notes, serial_nums),
        prepare_outcome(prepared, sender_id, notes, serial_nums),
        advice_read_outcome(prepared.advice_map_entry.1@, prepared.commitment_arg@, r),
    ensures
        r matches Ok(requests) && {
            &&& requests@.len() == prepared.expected_notes@.len()
            &&& forall|k: int| 0 <= k < requests@.len()
                ==> request_agrees_with(#[trigger] requests@[k], prepared.expected_notes@[k])
        },
{
    let n = notes.len();
    assert forall|m: int| 0 <= m < serial_nums.len() implies (#[trigger] serial_nums[m])@.len() == 4 by {}
    lemma_advice_data_len(notes, serial_nums, n);
    let data = advice_data(notes, serial_nums, n);
    assert(data.len() % 16 == 0 && data.len() / 16 == n) by (nonlinear_arith)
        requires data.len() == 16 * n;
    let key = prepared.advice_map_entry.0@;
    assert(prepared.commitment_arg@.reverse() =~= key);
    match r {
        Ok(requests) => {
            assert forall|k: int| 0 <= k < requests@.len()
                implies request_agrees_with(#[trigger] requests@[k], prepared.expected_notes@[k]) by {
                lemma_block_read_agrees(sender_id, notes, serial_nums, requests@[k], prepared.expected_notes@[k], k);
            }
        },
        Err(_) => {},
    }
}

/// The advice data is made of field elements.
pub proof fn lemma_advice_data_felts(notes: Seq<(AssetValue, AccountIdFelts)>, serial_nums: Seq<Word>, n: nat)
    requires
        n <= notes.len(),
        n <= serial_nums.len(),
        forall|k: int| 0 <= k < notes.len() ==> (#[trigger] notes[k]).0.well_formed() && notes[k].1.valid(),
        forall|k: int| 0 <= k < serial_nums.len() ==> all_felts((#[trigger] serial_nums[k])@),
    ensures
        all_felts(advice_data(notes, serial_nums, n)),
        advice_data(notes, serial_nums, n).len() == FELTS_PER_NOTE * n,
    decreases n,
{
    if n > 0 {
        let k = n - 1;
        lemma_advice_data_felts(notes, serial_nums, (n - 1) as nat);
        let (asset, recipient) = notes[k as int];
        assert(asset.well_formed() && recipient.valid());
        assert(all_felts(serial_nums[k as int]@));
        let tag = account_target_tag_spec(recipient);
        assert(is_felt(tag as u64));
        let block = note_block(asset, recipient, serial_nums[k as int]@);
        assert(all_felts(block)) by {
            assert forall|j: int| 0 <= j < block.len() implies is_felt(#[trigger] block[j]) by {
                if j < 4 {
                } else if j < 12 {
                } else {
                    match asset {
                        AssetValue::Fungible { .. } => {},
                        AssetValue::NonFungible { .. } => {},
                    }
                }
            }
        }
        let prev = advice_data(notes, serial_nums, (n - 1) as nat);
        assert forall|j: int| 0 <= j < prev.len() + block.len() implies is_felt(#[trigger] (prev + block)[j]) by {
            if j < prev.len() {
                assert((prev + block)[j] == prev[j]);
            } else {
                assert((prev + block)[j] == block[j - prev.len()]);
            }
        }
    }
}

} // verus!
