//! The decisions of the SWAPP note script, run when a consumer fills a PSWAP note: whether the
//! creator reclaims it, whether a fill is accepted, and which payback and remainder notes it
//! creates. Amounts are field elements. They are priced with the documented proportional rule,
//! `input * offered / requested` rounded down on integers, the rule the client computes; the
//! compiled script approximates it with a precision factor and division in the field, and that
//! arithmetic is not what is modelled here.
use vstd::prelude::*;
use crate::felt::{
    all_felts, felt_add, felt_add_spec, felt_sub, is_felt, lemma_felt_ops_canonical, Word,
    FELT_MODULUS,
};
use crate::pricing::{
    output_amount, output_amount_is_computable, law_fill_within_offer, lemma_output_bounds,
};
use crate::protocol::{p2id_script_recipient, p2id_script_recipient_digest};
use crate::pswap::{parse_inputs_spec, PswapError, PswapNote};
use crate::types::{p2id_script_root, p2id_script_root_spec, AccountIdFelts, NoteType};

verus! {

/// Why the note script aborts a consumption.
#[derive(Clone, Copy, Debug, PartialEq, Eq, Structural)]
pub enum SwappScriptError {
    /// The note does not hold exactly one asset.
    NotExactlyOneAsset,
    /// The consumer provides more than the note requests in total.
    InputExceedsRequested,
    /// The price rule would divide by zero: nothing is requested or nothing is offered.
    ZeroDivisor,
}

/// The note script's price rule: the proportional amount `input * offered / requested`
/// rounded down, as for the client; no result where nothing is requested or nothing is offered
/// (the rule divides by both totals) or where the amount is not a field element.
pub open spec fn script_output_spec(offered_total: u64, requested_total: u64, input_amount: u64) -> Option<u64> {
    if requested_total == 0 || offered_total == 0 {
        None
    } else if output_amount(offered_total as int, requested_total as int, input_amount as int) >= FELT_MODULUS {
        None
    } else {
        Some(output_amount(offered_total as int, requested_total as int, input_amount as int) as u64)
    }
}

/// The script's price is the floored proportion whenever it is defined: with both totals
/// non-zero, every payout below the field modulus is given exactly, and `v` is the one value with
/// `v * requested <= input * offered < (v + 1) * requested`; there is a result only for non-zero
/// totals and a payout below the modulus.
pub proof fn law_script_price_is_floored_proportion(offered_total: u64, requested_total: u64, input_amount: u64)
    ensures
        offered_total > 0 && requested_total > 0
            && ((input_amount as int) * (offered_total as int)) / (requested_total as int) < FELT_MODULUS
            ==> script_output_spec(offered_total, requested_total, input_amount)
                == Some(((input_amount as int * offered_total as int) / (requested_total as int)) as u64),
        script_output_spec(offered_total, requested_total, input_amount) matches Some(v) ==> {
            &&& offered_total > 0
            &&& requested_total > 0
            &&& v < FELT_MODULUS
            &&& (v as int) * (requested_total as int) <= (input_amount as int) * (offered_total as int)
            &&& (input_amount as int) * (offered_total as int) < ((v as int) + 1) * (requested_total as int)
        },
        offered_total == 0 || requested_total == 0 ==> script_output_spec(offered_total, requested_total, input_amount) is None,
{
    if offered_total > 0 && requested_total > 0 {
        crate::pricing::law_payout_is_floored_proportion(offered_total, requested_total, input_amount);
        let v = output_amount(offered_total as int, requested_total as int, input_amount as int);
        assert((v + 1) * requested_total == v * requested_total + requested_total) by (nonlinear_arith);
    }
}

/// Computes the note script's price rule on field elements.
pub fn script_output_amount(offered_total: u64, requested_total: u64, input_amount: u64) -> (out: Option<u64>)
    requires
        is_felt(offered_total),
        is_felt(requested_total),
        is_felt(input_amount),
    ensures
        out == script_output_spec(offered_total, requested_total, input_amount),
        offered_total > 0 && requested_total > 0
            && ((input_amount as int) * (offered_total as int)) / (requested_total as int) < FELT_MODULUS
            ==> out == Some(((input_amount as int * offered_total as int) / (requested_total as int)) as u64),
        out matches Some(v) ==> is_felt(v),
{
    if !output_amount_is_computable(offered_total, requested_total, input_amount) {
        return None;
    }
    let out = PswapNote::calculate_output_amount(offered_total, requested_total, input_amount);
    if out >= FELT_MODULUS {
        None
    } else {
        Some(out)
    }
}

/// Reads the note type from the metadata element: the two bits above the six execution-hint
/// bits, `(metadata >> 6) & 0b11`.
pub fn note_type_from_metadata(metadata_felt: u64) -> (note_type: u64)
    ensures
        note_type == (metadata_felt >> 6u64) & 3u64,
        note_type <= 3,
{
    let note_type = (metadata_felt >> 6u64) & 3u64;
    assert(note_type <= 3) by (bit_vector)
        requires
            note_type == (metadata_felt >> 6u64) & 3u64;
    note_type
}

/// Adds two words element by element in the field.
pub fn add_word(a: Word, b: Word) -> (r: Word)
    requires
        all_felts(a@),
        all_felts(b@),
    ensures
        forall|k: int| 0 <= k < 4 ==> #[trigger] r@[k] == felt_add_spec(a@[k], b@[k]),
        all_felts(r@),
{
    proof {
        lemma_felt_ops_canonical(a[0], b[0]);
        lemma_felt_ops_canonical(a[1], b[1]);
        lemma_felt_ops_canonical(a[2], b[2]);
        lemma_felt_ops_canonical(a[3], b[3]);
    }
    let r = [felt_add(a[0], b[0]), felt_add(a[1], b[1]), felt_add(a[2], b[2]), felt_add(a[3], b[3])];
    proof {
        assert forall|k: int| 0 <= k < 4 implies #[trigger] r@[k] == felt_add_spec(a@[k], b@[k]) by {
            if k == 0 {} else if k == 1 {} else if k == 2 {} else {}
        }
    }
    r
}

/// The tag of the remainder note: a local "any" tag with payload 0.
pub const OUTPUT_NOTE_TAG: u64 = 0xc000_0000;

/// The P2ID note that pays the creator.
#[derive(Clone, Debug)]
pub struct PaymentNotePlan {
    /// Serial number: the consumed note's serial number plus one in every element.
    pub serial_num: Word,
    /// The creator, who is paid.
    pub recipient: AccountIdFelts,
    /// The standard P2ID script root.
    pub script_root: Word,
    /// The P2ID note inputs: the creator's suffix and prefix, then six zeros.
    pub recipient_inputs: Vec<u64>,
    /// The recipient digest the protocol defines for `serial_num`, the standard P2ID script and
    /// `recipient_inputs`: what the note script commits the note to.
    pub recipient_digest: Word,
    /// The note tag: the creator's P2ID routing tag, note input 7.
    pub tag: u64,
    /// The note type: the swap note's type, note input 6.
    pub note_type: u64,
    /// Auxiliary value: the total amount provided, direct and inflight.
    pub aux: u64,
    /// The directly provided asset moved from the consumer into the note, when its amount is not
    /// zero, as `[amount, inputs[2], inputs[1], inputs[0]]`.
    pub input_asset: Option<Word>,
    /// The inflight asset added to the note, as `[amount, inputs[2], inputs[1], inputs[0]]`.
    pub inflight_asset: Word,
}

/// The SWAPP note that carries the unfilled part of the offer. Its serial number (a hash of the
/// consumed note's) and its recipient commitment (over the consumed note's script root and
/// `inputs`) are computed by the note script in the VM and are not part of this plan.
pub struct RemainderNotePlan {
    /// The note tag: a local "any" tag, `OUTPUT_NOTE_TAG`.
    pub tag: u64,
    /// The note type: the consumed note's type, note input 6.
    pub note_type: u64,
    /// Auxiliary value: the total amount of the offered asset paid out.
    pub aux: u64,
    /// The remaining offered amount, moved from the consumer into the note.
    pub offered_amount: u64,
    /// The offered asset moved into the note: the consumed note's asset word with its amount
    /// replaced by `offered_amount`.
    pub offered_asset: Word,
    /// The remaining requested amount.
    pub requested_amount: u64,
    /// The note inputs: the consumed note's inputs with the requested total replaced by
    /// `requested_amount`; the creator, note type and routing tag are carried over.
    pub inputs: Vec<u64>,
}

/// What a fill does besides giving the consumer the note's asset.
pub struct FillPlan {
    /// The payback note to the creator.
    pub payment: PaymentNotePlan,
    /// The sum of the two proportional payouts, for the direct and for the inflight input. When
    /// a remainder note is made, the consumer keeps exactly this; without one the consumer keeps
    /// the whole offer, which may exceed this sum by the rounding of the two parts.
    pub offered_out: u64,
    /// The remainder note, when less than the requested total is provided.
    pub remainder: Option<RemainderNotePlan>,
}

/// How a consumption of the note goes.
pub enum SwappConsumption {
    /// The creator consumes the note and takes its assets back; no note is created.
    Reclaim,
    /// Another account fills the note.
    Fill(FillPlan),
}

/// The state the note script starts from.
pub open spec fn consumption_requires(inputs: Seq<u64>, arg: Seq<u64>, note_assets: Seq<Word>, serial_num: Seq<u64>) -> bool {
    &&& inputs.len() >= 8
    &&& all_felts(inputs)
    &&& all_felts(arg)
    &&& all_felts(serial_num)
    &&& forall|k: int| 0 <= k < note_assets.len() ==> all_felts((#[trigger] note_assets[k])@)
}

/// The creator named by the note inputs.
pub open spec fn creator_of(inputs: Seq<u64>) -> AccountIdFelts {
    AccountIdFelts { prefix: inputs[4], suffix: inputs[5] }
}

/// The total amount a consumer provides: direct plus inflight.
pub open spec fn total_input_of(arg: Seq<u64>) -> int {
    arg[0] + arg[1]
}

/// The error, if any, on which a fill by another account aborts, in the order the script checks.
pub open spec fn fill_error(inputs: Seq<u64>, arg: Seq<u64>, note_assets: Seq<Word>) -> Option<SwappScriptError> {
    if note_assets.len() as u32 != 1 {
        Some(SwappScriptError::NotExactlyOneAsset)
    } else if total_input_of(arg) > inputs[3] {
        Some(SwappScriptError::InputExceedsRequested)
    } else if inputs[3] == 0 || note_assets[0]@[0] == 0 {
        Some(SwappScriptError::ZeroDivisor)
    } else {
        None
    }
}

/// The total amount of the offered asset a fill pays out: the proportional amount for the
/// direct input plus that for the inflight input.
pub open spec fn offered_out_of(inputs: Seq<u64>, arg: Seq<u64>, note_assets: Seq<Word>) -> int {
    let offered_total = note_assets[0]@[0] as int;
    let requested_total = inputs[3] as int;
    output_amount(offered_total, requested_total, arg[0] as int)
        + output_amount(offered_total, requested_total, arg[1] as int)
}

/// `plan` is the fill the script performs on this state.
pub open spec fn fill_plan_matches(plan: FillPlan, inputs: Seq<u64>, arg: Seq<u64>, note_assets: Seq<Word>, serial_num: Seq<u64>) -> bool {
    let offered = note_assets[0]@;
    let offered_total = offered[0];
    let requested_total = inputs[3];
    let total_input = total_input_of(arg);
    let offered_out = offered_out_of(inputs, arg, note_assets);
    &&& forall|k: int| 0 <= k < 4 ==> #[trigger] plan.payment.serial_num@[k] == felt_add_spec(serial_num[k], 1)
    &&& plan.payment.recipient == creator_of(inputs)
    &&& plan.payment.script_root@ == p2id_script_root_spec()
    &&& plan.payment.recipient_inputs@ == seq![inputs[5], inputs[4], 0u64, 0u64, 0u64, 0u64, 0u64, 0u64]
    &&& plan.payment.recipient_digest@ == p2id_script_recipient(plan.payment.serial_num@, plan.payment.recipient_inputs@)
    &&& plan.payment.tag == inputs[7]
    &&& plan.payment.note_type == inputs[6]
    &&& plan.payment.aux == total_input
    &&& (if arg[0] != 0 {
            plan.payment.input_asset matches Some(w) && w@ == seq![arg[0], inputs[2], inputs[1], inputs[0]]
        } else {
            plan.payment.input_asset is None
        })
    &&& plan.payment.inflight_asset@ == seq![arg[1], inputs[2], inputs[1], inputs[0]]
    &&& plan.offered_out == offered_out
    &&& (if total_input < requested_total {
            plan.remainder matches Some(rem) && {
                &&& rem.aux == offered_out
                &&& rem.tag == OUTPUT_NOTE_TAG
                &&& rem.note_type == inputs[6]
                &&& rem.offered_amount == offered_total - offered_out
                &&& rem.offered_asset@ == seq![rem.offered_amount, offered[1], offered[2], offered[3]]
                &&& rem.requested_amount == requested_total - total_input
                &&& rem.inputs@ == seq![inputs[0], inputs[1], inputs[2], rem.requested_amount,
                    inputs[4], inputs[5], inputs[6], inputs[7]]
            }
        } else {
            plan.remainder is None
        })
}

/// A fill neither creates nor loses either asset: the consumer's payout plus the remainder note's
/// amount is the note's offered total, and what is provided plus what the remainder note still
/// requests is the requested total. A remainder note exists exactly when less than the requested
/// total is provided; without one the consumer keeps the whole offer.
pub open spec fn fill_conserves_amounts(plan: FillPlan, inputs: Seq<u64>, note_assets: Seq<Word>) -> bool {
    &&& plan.payment.aux <= inputs[3]
    &&& plan.offered_out <= note_assets[0]@[0]
    &&& plan.remainder matches Some(rem) ==> {
        &&& plan.payment.aux < inputs[3]
        &&& rem.offered_amount + plan.offered_out == note_assets[0]@[0]
        &&& rem.requested_amount + plan.payment.aux == inputs[3]
        &&& (note_assets[0]@[0] > 0 ==> rem.offered_amount > 0)
    }
    &&& plan.remainder is None ==> plan.payment.aux == inputs[3]
}

/// A remainder note is a PSWAP note like the one consumed: where the consumed note's inputs
/// parse, the remainder's inputs parse to the same creator, payback note type and payback tag,
/// and to the same requested asset word with the remaining requested amount in place of the
/// total.
pub proof fn law_remainder_inputs_parse_like_consumed(plan: FillPlan, inputs: Seq<u64>, arg: Seq<u64>, note_assets: Seq<Word>, serial_num: Seq<u64>)
    requires
        fill_plan_matches(plan, inputs, arg, note_assets, serial_num),
        plan.remainder is Some,
    ensures
        parse_inputs_spec(inputs) matches Ok((word, creator, note_type, tag)) ==>
            parse_inputs_spec(plan.remainder.unwrap().inputs@)
                == Ok::<(Seq<u64>, AccountIdFelts, NoteType, u32), PswapError>((
                    word.update(3, plan.remainder.unwrap().requested_amount), creator, note_type, tag)),
{
    let rem = plan.remainder.unwrap();
    if parse_inputs_spec(inputs) is Ok {
        assert(rem.inputs@.subrange(0, 4) =~= inputs.subrange(0, 4).update(3, rem.requested_amount));
    }
}

/// The two parts of a fill together pay at most the offer, and less than the offer when less
/// than the requested total is provided and something is offered.
pub proof fn lemma_two_part_payout(offered_total: u64, requested_total: u64, input_amount: u64, inflight_amount: u64)
    requires
        requested_total > 0,
        input_amount + inflight_amount <= requested_total,
    ensures
        output_amount(offered_total as int, requested_total as int, input_amount as int)
            + output_amount(offered_total as int, requested_total as int, inflight_amount as int) <= offered_total,
        input_amount + inflight_amount < requested_total && offered_total > 0 ==>
            output_amount(offered_total as int, requested_total as int, input_amount as int)
                + output_amount(offered_total as int, requested_total as int, inflight_amount as int) < offered_total,
{
    let (o, r, i, f) = (offered_total as int, requested_total as int, input_amount as int, inflight_amount as int);
    lemma_output_bounds(o, r, i);
    lemma_output_bounds(o, r, f);
    let (a, b) = (output_amount(o, r, i), output_amount(o, r, f));
    assert((a + b) * r <= (i + f) * o) by (nonlinear_arith)
        requires a * r <= i * o, b * r <= f * o;
    assert(a + b <= o) by (nonlinear_arith)
        requires (a + b) * r <= (i + f) * o, i + f <= r, r > 0, o >= 0, a >= 0, b >= 0;
    if i + f < r && o > 0 {
        assert(a + b < o) by (nonlinear_arith)
            requires (a + b) * r <= (i + f) * o, i + f < r, r > 0, o > 0;
    }
}

/// Decides what consuming a SWAPP note does, as its note script does: the creator reclaims the
/// note; anyone else fills it with `arg[0]` provided directly and `arg[1]` inflight, is paid the
/// proportional share of the offered asset, pays the creator through a P2ID note of the note
/// type and with the routing tag that note inputs 6 and 7 hold, and leaves a remainder SWAPP
/// note of the same type, with the same inputs but the remaining requested amount, when less
/// than the requested total is provided.
pub fn plan_consumption(
    inputs: &[u64],
    executing_account_id: AccountIdFelts,
    arg: Word,
    note_assets: &[Word],
    serial_num: Word,
) -> (r: Result<SwappConsumption, SwappScriptError>)
    requires
        consumption_requires(inputs@, arg@, note_assets@, serial_num@),
    ensures
        creator_of(inputs@) == executing_account_id ==> r matches Ok(SwappConsumption::Reclaim),
        creator_of(inputs@) != executing_account_id ==> (match fill_error(inputs@, arg@, note_assets@) {
            Some(e) => r == Err::<SwappConsumption, SwappScriptError>(e),
            None => (r matches Ok(SwappConsumption::Fill(plan))
                && fill_plan_matches(plan, inputs@, arg@, note_assets@, serial_num@)),
        }),
        r matches Ok(SwappConsumption::Fill(plan)) ==> fill_conserves_amounts(plan, inputs@, note_assets@),
{
    let swapp_note_creator_id = AccountIdFelts { prefix: inputs[4], suffix: inputs[5] };
    if swapp_note_creator_id == executing_account_id {
        return Ok(SwappConsumption::Reclaim);
    }
    let input_amount = arg[0];
    let inflight_amount = arg[1];
    let num_assets = note_assets.len();
    if num_assets as u32 != 1 {
        return Err(SwappScriptError::NotExactlyOneAsset);
    }
    let offered_asset = note_assets[0];
    let requested_asset_total = inputs[3];
    let offered_asset_total = offered_asset[0];
    proof {
        assert(all_felts(note_assets@[0]@));
        assert(is_felt(offered_asset_total));
    }
    if input_amount > requested_asset_total || inflight_amount > requested_asset_total - input_amount {
        return Err(SwappScriptError::InputExceedsRequested);
    }
    let total_input_amount = felt_add(input_amount, inflight_amount);
    proof { lemma_felt_ops_canonical(input_amount, inflight_amount); }
    if requested_asset_total == 0 || offered_asset_total == 0 {
        return Err(SwappScriptError::ZeroDivisor);
    }
    proof {
        law_fill_within_offer(offered_asset_total, requested_asset_total, input_amount);
        law_fill_within_offer(offered_asset_total, requested_asset_total, inflight_amount);
        lemma_two_part_payout(offered_asset_total, requested_asset_total, input_amount, inflight_amount);
    }
    let input_offered_out = match script_output_amount(offered_asset_total, requested_asset_total, input_amount) {
        Some(v) => v,
        None => {
            return Err(SwappScriptError::ZeroDivisor);
        },
    };
    let inflight_offered_out = match script_output_amount(offered_asset_total, requested_asset_total, inflight_amount) {
        Some(v) => v,
        None => {
            return Err(SwappScriptError::ZeroDivisor);
        },
    };
    let routing_serial = add_word(serial_num, [1, 1, 1, 1]);
    let input_asset = if input_amount != 0 {
        Some([input_amount, inputs[2], inputs[1], inputs[0]])
    } else {
        None
    };
    let recipient_inputs: Vec<u64> = vec![
        swapp_note_creator_id.suffix,
        swapp_note_creator_id.prefix,
        0,
        0,
        0,
        0,
        0,
        0,
    ];
    proof {
        assert forall|k: int| 0 <= k < recipient_inputs@.len() implies is_felt(#[trigger] recipient_inputs@[k]) by {
            if k >= 2 {
                assert(recipient_inputs@[k] == 0);
            }
        }
    }
    let recipient_digest = p2id_script_recipient_digest(routing_serial, recipient_inputs.as_slice());
    let payment = PaymentNotePlan {
        serial_num: routing_serial,
        recipient: swapp_note_creator_id,
        script_root: p2id_script_root(),
        recipient_inputs,
        recipient_digest,
        tag: inputs[7],
        note_type: inputs[6],
        aux: total_input_amount,
        input_asset,
        inflight_asset: [inflight_amount, inputs[2], inputs[1], inputs[0]],
    };
    let total_offered_out = felt_add(input_offered_out, inflight_offered_out);
    proof {
        lemma_felt_ops_canonical(input_offered_out, inflight_offered_out);
        lemma_felt_ops_canonical(offered_asset_total, total_offered_out);
        lemma_felt_ops_canonical(requested_asset_total, total_input_amount);
    }
    let remainder = if total_input_amount < requested_asset_total {
        let requested_remaining = felt_sub(requested_asset_total, total_input_amount);
        let offered_remaining = felt_sub(offered_asset_total, total_offered_out);
        let inputs_out: Vec<u64> = vec![
            inputs[0],
            inputs[1],
            inputs[2],
            requested_remaining,
            swapp_note_creator_id.prefix,
            swapp_note_creator_id.suffix,
            inputs[6],
            inputs[7],
        ];
        Some(RemainderNotePlan {
            tag: OUTPUT_NOTE_TAG,
            note_type: inputs[6],
            aux: total_offered_out,
            offered_amount: offered_remaining,
            offered_asset: [offered_remaining, offered_asset[1], offered_asset[2], offered_asset[3]],
            requested_amount: requested_remaining,
            inputs: inputs_out,
        })
    } else {
        None
    };
    let plan = FillPlan { payment, offered_out: total_offered_out, remainder };
    proof {
        assert(plan.payment.inflight_asset@ =~= seq![arg@[1], inputs@[2], inputs@[1], inputs@[0]]);
        if input_amount != 0 {
            assert(plan.payment.input_asset.unwrap()@ =~= seq![arg@[0], inputs@[2], inputs@[1], inputs@[0]]);
        }
        if total_input_amount < requested_asset_total {
            let rem = plan.remainder.unwrap();
            assert(rem.offered_asset@ =~= seq![rem.offered_amount, offered_asset@[1], offered_asset@[2], offered_asset@[3]]);
        }
    }
    Ok(SwappConsumption::Fill(plan))
}

} // verus!
