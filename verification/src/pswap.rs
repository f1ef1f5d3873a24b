//! The PSWAP note: a partially fillable offer of one asset for another.
use vstd::prelude::*;
use crate::felt::{all_felts, is_felt, Word};
use crate::pricing::{output_amount, output_amount_computable};
use crate::protocol::{
    account_id_from_felts, account_target_tag, account_target_tag_spec, asset_decoded_from_word,
    asset_from_word, note_type_from_code, word_as_bytes, word_byte,
};
use crate::types::{AccountIdFelts, AssetValue, NoteType, account_id_valid};

verus! {

/// Why a PSWAP note could not be built or its inputs could not be read.
#[derive(Clone, Copy, Debug, PartialEq, Eq, Structural)]
pub enum PswapError {
    /// The note inputs do not have `NUM_INPUT_ITEMS` elements.
    WrongInputCount { provided: usize },
    /// Inputs 4 and 5 are not a valid account ID.
    InvalidCreatorAccountId,
    /// Input 6, cut to a byte, is not a note type code.
    UnknownNoteType { code: u8 },
    /// Inputs 0 to 3 are not a valid asset word.
    InvalidRequestedAsset,
    /// The offered and the requested asset come from faucets with the same ID prefix.
    SameFaucet,
    /// The requested asset is non-fungible, which the note does not support.
    NonFungibleRequestedAsset,
}

/// The note type that a valid type code stands for.
pub open spec fn note_type_of_code(code: u8) -> NoteType {
    if code == 1 {
        NoteType::Public
    } else if code == 2 {
        NoteType::Private
    } else {
        NoteType::Encrypted
    }
}

/// What `parse_inputs` reads from the note inputs: the requested asset word (inputs 0 to 3), the
/// creator (prefix at 4, suffix at 5), the payback note type (input 6 cut to a byte) and the
/// payback tag (input 7 cut to 32 bits).
pub open spec fn parse_inputs_spec(inputs: Seq<u64>) -> Result<(Seq<u64>, AccountIdFelts, NoteType, u32), PswapError> {
    if inputs.len() != 8 {
        Err(PswapError::WrongInputCount { provided: inputs.len() as usize })
    } else if !account_id_valid(inputs[4], inputs[5]) {
        Err(PswapError::InvalidCreatorAccountId)
    } else if !(1 <= (inputs[6] as u8) <= 3) {
        Err(PswapError::UnknownNoteType { code: inputs[6] as u8 })
    } else {
        Ok((
            inputs.subrange(0, 4),
            AccountIdFelts { prefix: inputs[4], suffix: inputs[5] },
            note_type_of_code(inputs[6] as u8),
            inputs[7] as u32,
        ))
    }
}

/// The parsed inputs with the word taken by its view.
pub open spec fn parsed_view(r: Result<(Word, AccountIdFelts, NoteType, u32), PswapError>) -> Result<(Seq<u64>, AccountIdFelts, NoteType, u32), PswapError> {
    match r {
        Ok((w, id, t, tag)) => Ok((w@, id, t, tag)),
        Err(e) => Err(e),
    }
}

/// The requested asset that `get_requested_asset` reads from the note inputs: inputs 0 to 3 hold
/// the asset word in reverse, `[prefix, suffix, 0, amount]`, so they are decoded as
/// `[inputs[3], inputs[2], inputs[1], inputs[0]]`.
pub open spec fn requested_asset_spec(inputs: Seq<u64>) -> Result<AssetValue, PswapError> {
    match parse_inputs_spec(inputs) {
        Err(e) => Err(e),
        Ok((word, _, _, _)) => match asset_decoded_from_word(word.reverse()) {
            Some(a) => Ok(a),
            None => Err(PswapError::InvalidRequestedAsset),
        },
    }
}

/// The PSWAP tag: `note_type (2 bits) | use case (14 bits) | offered faucet (8 bits) |
/// requested faucet (8 bits)`, where the use case is the top 14 bits of the first two bytes of the
/// script root and each faucet byte is the most significant byte of the faucet ID prefix.
pub open spec fn pswap_tag_spec(type_code: u8, root_byte0: u8, root_byte1: u8, offered_prefix: u64, requested_prefix: u64) -> u32 {
    let use_case = ((root_byte0 as u16) << 6u16) | ((root_byte1 >> 2u8) as u16);
    let pair = ((((offered_prefix >> 56u64) as u8) as u16) << 8u16) | (((requested_prefix >> 56u64) as u8) as u16);
    ((type_code as u32) << 30u32) | ((use_case as u32) << 16u32) | (pair as u32)
}

/// The tag of a PSWAP note for these parameters and this script root.
pub open spec fn build_tag_spec(note_type: NoteType, script_root: Seq<u64>, offered: AssetValue, requested: AssetValue) -> u32 {
    pswap_tag_spec(
        note_type.code(),
        word_byte(script_root, 0),
        word_byte(script_root, 1),
        offered.faucet_prefix_spec(),
        requested.faucet_prefix_spec(),
    )
}

/// The eight note inputs of a PSWAP note requesting a fungible asset.
pub open spec fn pswap_inputs_spec(requested: AssetValue, creator: AccountIdFelts, note_type: NoteType) -> Seq<u64> {
    match requested {
        AssetValue::Fungible { faucet_prefix, faucet_suffix, amount } => seq![
            faucet_prefix,
            faucet_suffix,
            0u64,
            amount,
            creator.prefix,
            creator.suffix,
            note_type.code() as u64,
            account_target_tag_spec(creator) as u64,
        ],
        AssetValue::NonFungible { .. } => Seq::empty(),
    }
}

/// Parsing the inputs of a created PSWAP note gives back what the note was created with: the
/// requested asset in input order `[prefix, suffix, 0, amount]`, the creator, the note type and
/// the creator's P2ID routing tag.
pub proof fn law_parse_inverts_create_inputs(requested: AssetValue, creator: AccountIdFelts, note_type: NoteType)
    requires
        creator.valid(),
        requested.well_formed(),
        requested is Fungible,
    ensures
        all_felts(pswap_inputs_spec(requested, creator, note_type)),
        parse_inputs_spec(pswap_inputs_spec(requested, creator, note_type)) == (match requested {
            AssetValue::Fungible { faucet_prefix, faucet_suffix, amount } => Ok::<(Seq<u64>, AccountIdFelts, NoteType, u32), PswapError>((
                seq![faucet_prefix, faucet_suffix, 0u64, amount],
                creator,
                note_type,
                account_target_tag_spec(creator),
            )),
            AssetValue::NonFungible { .. } => Err(PswapError::InvalidRequestedAsset),
        }),
{
    let inputs = pswap_inputs_spec(requested, creator, note_type);
    let code = note_type.code();
    let tag = account_target_tag_spec(creator);
    assert(((code as u64) as u8) == code) by (bit_vector);
    assert(((tag as u64) as u32) == tag) by (bit_vector);
    assert(is_felt(tag as u64));
    assert(is_felt(code as u64));
    if let AssetValue::Fungible { faucet_prefix, faucet_suffix, amount } = requested {
        assert(inputs.subrange(0, 4) =~= seq![faucet_prefix, faucet_suffix, 0u64, amount]);
        assert(note_type_of_code(code) == note_type);
    }
}

/// The inputs of a created PSWAP note hold each field whole, at its documented position: the
/// requested faucet's prefix and suffix, a zero, the requested amount, the creator's prefix and
/// suffix, the note type's protocol code (1, 2 or 3, no other value) and the creator's 32-bit
/// account-target tag. Nothing is stored wider than the field it stands for, so nothing is lost
/// only when a reader cuts it down.
pub proof fn law_created_inputs_hold_each_field(requested: AssetValue, creator: AccountIdFelts, note_type: NoteType)
    requires
        requested is Fungible,
    ensures
        ({
            let inputs = pswap_inputs_spec(requested, creator, note_type);
            &&& inputs.len() == 8
            &&& inputs[0] == requested->Fungible_faucet_prefix
            &&& inputs[1] == requested->Fungible_faucet_suffix
            &&& inputs[2] == 0
            &&& inputs[3] == requested->Fungible_amount
            &&& inputs[4] == creator.prefix
            &&& inputs[5] == creator.suffix
            &&& 1 <= inputs[6] <= 3
            &&& inputs[6] == note_type.code() as u64
            &&& (note_type == NoteType::Public ==> inputs[6] == 1)
            &&& (note_type == NoteType::Private ==> inputs[6] == 2)
            &&& (note_type == NoteType::Encrypted ==> inputs[6] == 3)
            &&& inputs[7] <= u32::MAX
            &&& inputs[7] == account_target_tag_spec(creator) as u64
        }),
{
}

/// The tag's low sixteen bits are the top byte of the offered asset's issuing faucet ID prefix,
/// then that of the requested asset: the faucet prefix is element 3 of an asset's word for every
/// kind of asset, where the protocol keeps it.
pub proof fn law_tag_pair_is_faucet_prefix_bytes(note_type: NoteType, script_root: Seq<u64>, offered: AssetValue, requested: AssetValue)
    ensures
        build_tag_spec(note_type, script_root, offered, requested) & 0xffffu32
            == ((offered.word_spec()[3] >> 56u64) << 8u64) | (requested.word_spec()[3] >> 56u64),
        build_tag_spec(note_type, script_root, offered, requested) >> 30u32 == note_type.code() as u32,
{
    crate::types::law_faucet_prefix_is_word_element_3(offered);
    crate::types::law_faucet_prefix_is_word_element_3(requested);
    let (c, b0, b1) = (note_type.code(), word_byte(script_root, 0), word_byte(script_root, 1));
    let (o, r) = (offered.word_spec()[3], requested.word_spec()[3]);
    assert(pswap_tag_spec(c, b0, b1, o, r) & 0xffffu32 == ((o >> 56u64) << 8u64) | (r >> 56u64)
        && (1 <= c <= 3 ==> pswap_tag_spec(c, b0, b1, o, r) >> 30u32 == c as u32)) by (bit_vector);
}

/// Everything a PSWAP note is made of, as plain values: the note script and the attachment are
/// added where the note object is built.
pub struct PswapNoteParts {
    /// The note's sender: the creator of the offer.
    pub sender: AccountIdFelts,
    /// Whether the note is public or private.
    pub note_type: NoteType,
    /// The PSWAP tag.
    pub tag: u32,
    /// The eight note inputs.
    pub inputs: Vec<u64>,
    /// The asset locked in the note.
    pub offered_asset: AssetValue,
    /// The note's serial number.
    pub serial_num: Word,
}

/// Partial swap (pswap) note for decentralized asset exchange.
///
/// The creator offers an asset and requests another; consumers fill the note partly or fully,
/// unfilled portions go to a remainder note and the creator is paid through P2ID notes.
pub struct PswapNote;

impl PswapNote {
    /// Expected number of note inputs: requested asset (4), creator account ID (2), note type,
    /// P2ID routing tag.
    pub const NUM_INPUT_ITEMS: usize = 8;

    /// Checks the assets of a PSWAP note before anything else is prepared for it: they must come
    /// from faucets with different ID prefixes, and the requested asset must be fungible.
    pub fn check_create(offered_asset: &AssetValue, requested_asset: &AssetValue) -> (r: Result<(), PswapError>)
        ensures
            offered_asset.faucet_prefix_spec() == requested_asset.faucet_prefix_spec()
                ==> r == Err::<(), PswapError>(PswapError::SameFaucet),
            offered_asset.faucet_prefix_spec() != requested_asset.faucet_prefix_spec()
                && requested_asset is NonFungible
                ==> r == Err::<(), PswapError>(PswapError::NonFungibleRequestedAsset),
            offered_asset.faucet_prefix_spec() != requested_asset.faucet_prefix_spec()
                && requested_asset is Fungible
                ==> r == Ok::<(), PswapError>(()),
    {
        if offered_asset.faucet_id_prefix() == requested_asset.faucet_id_prefix() {
            return Err(PswapError::SameFaucet);
        }
        match requested_asset {
            AssetValue::Fungible { .. } => Ok(()),
            AssetValue::NonFungible { .. } => Err(PswapError::NonFungibleRequestedAsset),
        }
    }

    /// Creates the parts of a PSWAP note offering `offered_asset` for `requested_asset`, tagged
    /// for `script_root` and numbered `serial_num`.
    pub fn create(
        creator_account_id: AccountIdFelts,
        offered_asset: AssetValue,
        requested_asset: AssetValue,
        note_type: NoteType,
        script_root: Word,
        serial_num: Word,
    ) -> (r: Result<PswapNoteParts, PswapError>)
        requires
            creator_account_id.valid(),
            offered_asset.well_formed(),
            requested_asset.well_formed(),
            all_felts(script_root@),
        ensures
            offered_asset.faucet_prefix_spec() == requested_asset.faucet_prefix_spec()
                ==> r == Err::<PswapNoteParts, PswapError>(PswapError::SameFaucet),
            offered_asset.faucet_prefix_spec() != requested_asset.faucet_prefix_spec()
                && requested_asset is NonFungible
                ==> r == Err::<PswapNoteParts, PswapError>(PswapError::NonFungibleRequestedAsset),
            offered_asset.faucet_prefix_spec() != requested_asset.faucet_prefix_spec()
                && requested_asset is Fungible
                ==> (r matches Ok(parts) && {
                    &&& parts.sender == creator_account_id
                    &&& parts.note_type == note_type
                    &&& parts.tag == build_tag_spec(note_type, script_root@, offered_asset, requested_asset)
                    &&& parts.inputs@ == pswap_inputs_spec(requested_asset, creator_account_id, note_type)
                    &&& parts.inputs@.len() == 8
                    &&& parts.inputs@[6] == note_type.code() as u64
                    &&& parts.inputs@[7] == account_target_tag_spec(creator_account_id) as u64
                    &&& parts.offered_asset == offered_asset
                    &&& parts.serial_num == serial_num
                }),
    {
        Self::check_create(&offered_asset, &requested_asset)?;
        let (faucet_prefix, faucet_suffix, amount) = match requested_asset {
            AssetValue::Fungible { faucet_prefix, faucet_suffix, amount } => (faucet_prefix, faucet_suffix, amount),
            AssetValue::NonFungible { .. } => {
                return Err(PswapError::NonFungibleRequestedAsset);
            },
        };
        let p2id_tag_felt = Self::compute_p2id_tag_felt(creator_account_id);
        let inputs: Vec<u64> = vec![
            faucet_prefix,
            faucet_suffix,
            0,
            amount,
            creator_account_id.prefix,
            creator_account_id.suffix,
            note_type.as_u8() as u64,
            p2id_tag_felt,
        ];
        let tag = Self::build_tag(note_type, script_root, &offered_asset, &requested_asset);
        Ok(PswapNoteParts {
            sender: creator_account_id,
            note_type,
            tag,
            inputs,
            offered_asset,
            serial_num,
        })
    }

    /// Returns the note tag of a PSWAP note with these parameters, whose script has root
    /// `script_root`.
    pub fn build_tag(note_type: NoteType, script_root: Word, offered_asset: &AssetValue, requested_asset: &AssetValue) -> (tag: u32)
        requires
            all_felts(script_root@),
        ensures
            tag == build_tag_spec(note_type, script_root@, *offered_asset, *requested_asset),
            tag >> 30u32 == note_type.code() as u32,
            tag & 0xffffu32 == ((offered_asset.faucet_prefix_spec() >> 56u64) << 8u64) | (requested_asset.faucet_prefix_spec() >> 56u64),
            (tag >> 16u32) & 0x3fffu32 == ((word_byte(script_root@, 0) as u32) << 6u32) | ((word_byte(script_root@, 1) as u32) >> 2u32),
    {
        let pswap_root_bytes = word_as_bytes(script_root);
        let b0 = pswap_root_bytes[0];
        let b1 = pswap_root_bytes[1];
        let mut pswap_use_case_id: u16 = (b0 as u16) << 6u16;
        pswap_use_case_id = pswap_use_case_id | ((b1 >> 2u8) as u16);

        let offered_asset_id: u64 = offered_asset.faucet_id_prefix();
        let offered_asset_tag = (offered_asset_id >> 56u64) as u8;
        let requested_asset_id: u64 = requested_asset.faucet_id_prefix();
        let requested_asset_tag = (requested_asset_id >> 56u64) as u8;
        let asset_pair: u16 = ((offered_asset_tag as u16) << 8u16) | (requested_asset_tag as u16);

        let code = note_type.as_u8();
        let tag: u32 = ((code as u32) << 30u32) | ((pswap_use_case_id as u32) << 16u32) | (asset_pair as u32);
        proof {
            assert(tag == pswap_tag_spec(code, b0, b1, offered_asset_id, requested_asset_id));
            assert(tag >> 30u32 == code as u32 && tag & 0xffffu32 == ((offered_asset_id >> 56u64) << 8u64) | (requested_asset_id >> 56u64)
                && (tag >> 16u32) & 0x3fffu32 == ((b0 as u32) << 6u32) | ((b1 as u32) >> 2u32))
                by (bit_vector)
                requires
                    1 <= code <= 3,
                    tag == ((code as u32) << 30u32) | ((((b0 as u16) << 6u16) | ((b1 >> 2u8) as u16)) as u32) << 16u32
                        | (((((offered_asset_id >> 56u64) as u8) as u16) << 8u16) | (((requested_asset_id >> 56u64) as u8) as u16)) as u32;
        }
        tag
    }

    /// Computes the P2ID tag that routes payback notes to the creator.
    fn compute_p2id_tag_felt(account_id: AccountIdFelts) -> (tag: u64)
        requires
            account_id.valid(),
        ensures
            tag == account_target_tag_spec(account_id) as u64,
    {
        account_target_tag(account_id) as u64
    }

    /// Parses PSWAP note inputs into the requested asset word, the creator's account ID, the
    /// payback note type and the payback tag.
    pub fn parse_inputs(inputs: &[u64]) -> (r: Result<(Word, AccountIdFelts, NoteType, u32), PswapError>)
        requires
            all_felts(inputs@),
        ensures
            parsed_view(r) == parse_inputs_spec(inputs@),
    {
        if inputs.len() != Self::NUM_INPUT_ITEMS {
            return Err(PswapError::WrongInputCount { provided: inputs.len() });
        }
        let requested_asset_word: Word = [inputs[0], inputs[1], inputs[2], inputs[3]];
        let creator_prefix = inputs[4];
        let creator_suffix = inputs[5];
        let creator_account_id = match account_id_from_felts(creator_prefix, creator_suffix) {
            Some(id) => id,
            None => {
                return Err(PswapError::InvalidCreatorAccountId);
            },
        };
        let code = inputs[6] as u8;
        let note_type = match note_type_from_code(code) {
            Some(t) => t,
            None => {
                return Err(PswapError::UnknownNoteType { code });
            },
        };
        let p2id_tag = inputs[7] as u32;
        proof {
            assert(requested_asset_word@ == inputs@.subrange(0, 4));
            assert(note_type == note_type_of_code(code));
        }
        Ok((requested_asset_word, creator_account_id, note_type, p2id_tag))
    }

    /// Reads the requested asset from PSWAP note inputs. On the inputs of a note that `create`
    /// made, it gives back the requested asset.
    pub fn get_requested_asset(inputs: &[u64]) -> (r: Result<AssetValue, PswapError>)
        requires
            all_felts(inputs@),
        ensures
            r == requested_asset_spec(inputs@),
            forall|requested: AssetValue, creator: AccountIdFelts, note_type: NoteType|
                #![trigger pswap_inputs_spec(requested, creator, note_type)]
                inputs@ == pswap_inputs_spec(requested, creator, note_type) && creator.valid()
                    && requested.well_formed() && requested is Fungible
                    ==> r == Ok::<AssetValue, PswapError>(requested),
    {
        let (inputs_word, _, _, _) = Self::parse_inputs(inputs)?;
        let requested_asset_word: Word = [inputs_word[3], inputs_word[2], inputs_word[1], inputs_word[0]];
        proof {
            assert(requested_asset_word@ =~= inputs_word@.reverse());
            assert(all_felts(requested_asset_word@));
        }
        let r = match asset_from_word(requested_asset_word) {
            Some(asset) => Ok(asset),
            None => Err(PswapError::InvalidRequestedAsset),
        };
        proof {
            assert forall|requested: AssetValue, creator: AccountIdFelts, note_type: NoteType|
                #![trigger pswap_inputs_spec(requested, creator, note_type)]
                inputs@ == pswap_inputs_spec(requested, creator, note_type) && creator.valid()
                    && requested.well_formed() && requested is Fungible
                    implies r == Ok::<AssetValue, PswapError>(requested) by {
                law_parse_inverts_create_inputs(requested, creator, note_type);
                assert(requested_asset_word@ =~= seq![inputs@[3], inputs@[2], inputs@[1], inputs@[0]]);
            }
        }
        r
    }

    /// Reads the creator's account ID from PSWAP note inputs.
    pub fn get_creator_account_id(inputs: &[u64]) -> (r: Result<AccountIdFelts, PswapError>)
        requires
            all_felts(inputs@),
        ensures
            r == (match parse_inputs_spec(inputs@) {
                Ok((_, id, _, _)) => Ok::<AccountIdFelts, PswapError>(id),
                Err(e) => Err(e),
            }),
    {
        let (_, creator_account_id, _, _) = Self::parse_inputs(inputs)?;
        Ok(creator_account_id)
    }

    /// Checks whether `account_id` created the PSWAP note with these inputs.
    pub fn is_creator(inputs: &[u64], account_id: AccountIdFelts) -> (r: Result<bool, PswapError>)
        requires
            all_felts(inputs@),
        ensures
            r == (match parse_inputs_spec(inputs@) {
                Ok((_, id, _, _)) => Ok::<bool, PswapError>(id == account_id),
                Err(e) => Err(e),
            }),
    {
        let creator_id = Self::get_creator_account_id(inputs)?;
        Ok(creator_id == account_id)
    }

    /// Calculates the proportional amount of the offered asset paid for `input_amount` of the
    /// requested asset: `input_amount * offered_total / requested_total`, rounded down.
    pub fn calculate_output_amount(offered_total: u64, requested_total: u64, input_amount: u64) -> (out: u64)
        requires
            output_amount_computable(offered_total, requested_total, input_amount),
        ensures
            out == output_amount(offered_total as int, requested_total as int, input_amount as int),
    {
        proof {
            vstd::arithmetic::mul::lemma_mul_upper_bound(input_amount as int, u64::MAX as int, offered_total as int, u64::MAX as int);
            assert((u64::MAX as int) * (u64::MAX as int) <= u128::MAX) by (nonlinear_arith);
        }
        let product: u128 = input_amount as u128 * offered_total as u128;
        (product / (requested_total as u128)) as u64
    }
}

} // verus!
