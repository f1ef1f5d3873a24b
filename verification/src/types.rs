//! Plain-value forms of the protocol objects that the swap logic reads.
use vstd::prelude::*;
use crate::felt::{is_felt, Word};

verus! {

/// The largest amount a fungible asset can carry: `2^63 - 2^31`.
pub const MAX_FUNGIBLE_AMOUNT: u64 = 0x7fff_ffff_8000_0000;

/// The type of a note: how much of it is published.
#[derive(Clone, Copy, Debug, PartialEq, Eq, Structural)]
pub enum NoteType {
    /// Only the note's hash is published.
    Private,
    /// The note is shared encrypted.
    Encrypted,
    /// The note is shared in full.
    Public,
}

impl NoteType {
    /// The two-bit code of a note type in the protocol: public `0b01`, private `0b10`,
    /// encrypted `0b11`.
    pub open spec fn code(self) -> u8 {
        match self {
            NoteType::Public => 1,
            NoteType::Private => 2,
            NoteType::Encrypted => 3,
        }
    }

    /// Returns the two-bit code of this note type.
    pub fn as_u8(&self) -> (code: u8)
        ensures
            code == self.code(),
            1 <= code <= 3,
    {
        match self {
            NoteType::Public => 1,
            NoteType::Private => 2,
            NoteType::Encrypted => 3,
        }
    }
}

/// An account identifier as its two field elements.
#[derive(Clone, Copy, Debug, PartialEq, Eq, Structural)]
pub struct AccountIdFelts {
    /// The prefix element, whose low byte carries version, type and storage mode.
    pub prefix: u64,
    /// The suffix element.
    pub suffix: u64,
}

/// The storage mode bits of an account ID prefix (bits 6 and 7).
pub open spec fn storage_mode_bits(prefix: u64) -> u64 {
    (prefix & 0xc0) >> 6
}

/// The protocol's constraints on an account ID: both elements are field elements, the storage
/// mode is public (`0b00`), network (`0b01`) or private (`0b10`), the version nibble is 0, the
/// suffix's most significant bit is clear and its low byte is zero.
pub open spec fn account_id_valid(prefix: u64, suffix: u64) -> bool {
    &&& is_felt(prefix)
    &&& is_felt(suffix)
    &&& storage_mode_bits(prefix) != 3
    &&& prefix & 0xf == 0
    &&& suffix >> 63 == 0
    &&& suffix & 0xff == 0
}

impl AccountIdFelts {
    /// This identifier meets the protocol's account ID constraints.
    pub open spec fn valid(self) -> bool {
        account_id_valid(self.prefix, self.suffix)
    }

    /// The account has network storage mode.
    pub open spec fn is_network(self) -> bool {
        storage_mode_bits(self.prefix) == 1
    }

    /// The account type bits of the prefix (bits 4 and 5); `0b10` is a fungible faucet and
    /// `0b11` a non-fungible faucet.
    pub open spec fn type_bits(self) -> u64 {
        (self.prefix & 0x30) >> 4
    }
}

/// An asset as the protocol holds it.
#[derive(Clone, Copy, Debug)]
pub enum AssetValue {
    /// A fungible asset: an amount issued by a fungible faucet.
    Fungible { faucet_prefix: u64, faucet_suffix: u64, amount: u64 },
    /// A non-fungible asset: `[hash0, hash1, hash2, faucet_prefix]`.
    NonFungible { data: Word },
}

impl AssetValue {
    /// The prefix of the issuing faucet's ID.
    pub open spec fn faucet_prefix_spec(self) -> u64 {
        match self {
            AssetValue::Fungible { faucet_prefix, .. } => faucet_prefix,
            AssetValue::NonFungible { data } => data[3],
        }
    }

    /// The asset's word: `[amount, 0, faucet_suffix, faucet_prefix]` for a fungible asset,
    /// its data for a non-fungible one.
    pub open spec fn word_spec(self) -> Seq<u64> {
        match self {
            AssetValue::Fungible { faucet_prefix, faucet_suffix, amount } =>
                seq![amount, 0u64, faucet_suffix, faucet_prefix],
            AssetValue::NonFungible { data } => data@,
        }
    }

    /// The amount carried, zero for a non-fungible asset.
    pub open spec fn amount_spec(self) -> u64 {
        match self {
            AssetValue::Fungible { amount, .. } => amount,
            AssetValue::NonFungible { .. } => 0,
        }
    }

    /// The values the protocol allows: a valid faucet ID of the matching kind, a fungible amount
    /// of at most `MAX_FUNGIBLE_AMOUNT`, and field elements throughout.
    pub open spec fn well_formed(self) -> bool {
        match self {
            AssetValue::Fungible { faucet_prefix, faucet_suffix, amount } => {
                &&& account_id_valid(faucet_prefix, faucet_suffix)
                &&& (AccountIdFelts { prefix: faucet_prefix, suffix: faucet_suffix }).type_bits() == 2
                &&& amount <= MAX_FUNGIBLE_AMOUNT
            },
            AssetValue::NonFungible { data } => {
                &&& is_felt(data[0])
                &&& is_felt(data[1])
                &&& is_felt(data[2])
                &&& is_felt(data[3])
            },
        }
    }

    /// Returns the prefix of the issuing faucet's ID.
    pub fn faucet_id_prefix(&self) -> (p: u64)
        ensures
            p == self.faucet_prefix_spec(),
            p == self.word_spec()[3],
    {
        match self {
            AssetValue::Fungible { faucet_prefix, .. } => *faucet_prefix,
            AssetValue::NonFungible { data } => data[3],
        }
    }

    /// Returns the asset's word, laid out as the protocol lays it out.
    pub fn to_word(&self) -> (w: Word)
        ensures
            w@ == self.word_spec(),
    {
        match self {
            AssetValue::Fungible { faucet_prefix, faucet_suffix, amount } =>
                [*amount, 0, *faucet_suffix, *faucet_prefix],
            AssetValue::NonFungible { data } => *data,
        }
    }

    /// Returns the amount carried, zero for a non-fungible asset.
    pub fn amount(&self) -> (a: u64)
        ensures
            a == self.amount_spec(),
    {
        match self {
            AssetValue::Fungible { amount, .. } => *amount,
            AssetValue::NonFungible { .. } => 0,
        }
    }
}

/// An asset's issuing faucet ID prefix is element 3 of its word, for every kind of asset: the
/// fungible word `[amount, 0, faucet suffix, faucet prefix]` and the non-fungible word
/// `[hash, hash, hash, faucet prefix]` both keep it last.
pub proof fn law_faucet_prefix_is_word_element_3(asset: AssetValue)
    ensures
        asset.word_spec().len() == 4,
        asset.faucet_prefix_spec() == asset.word_spec()[3],
        asset matches AssetValue::NonFungible { data } ==> asset.faucet_prefix_spec() == data[3],
        asset matches AssetValue::Fungible { faucet_prefix, .. } ==> asset.faucet_prefix_spec() == faucet_prefix,
{
    match asset {
        AssetValue::Fungible { .. } => {},
        AssetValue::NonFungible { data } => { assert(data@.len() == 4); },
    }
}

/// The root of the standard P2ID note script, which both note-creating scripts hard-code: the
/// recipients of the payback notes commit to it.
pub open spec fn p2id_script_root_spec() -> Seq<u64> {
    seq![13362761878458161062u64, 15090726097241769395u64, 444910447169617901u64, 3558201871398422326u64]
}

/// Returns the root of the standard P2ID note script.
pub fn p2id_script_root() -> (root: Word)
    ensures
        root@ == p2id_script_root_spec(),
        crate::felt::all_felts(root@),
{
    let root: Word = [13362761878458161062, 15090726097241769395, 444910447169617901, 3558201871398422326];
    proof { assert(root@ =~= p2id_script_root_spec()); }
    root
}

} // verus!
