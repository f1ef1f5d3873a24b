//! Verified core of a partially fillable swap (PSWAP) note library for the Miden rollup: the
//! price rule, the note's inputs and tag, the note script's fill decisions, and the advice data
//! of the inflight P2ID transaction script.
pub mod felt;
pub mod inflight;
pub mod pricing;
pub mod protocol;
pub mod pswap;
pub mod swapp_script;
pub mod types;

pub use felt::{Word, FELT_MODULUS};
pub use inflight::{InflightAdviceError, InflightNoteRequest, InflightP2idData, InflightP2idNote, InflightP2idScript};
pub use pswap::{PswapError, PswapNote, PswapNoteParts};
pub use swapp_script::{FillPlan, PaymentNotePlan, RemainderNotePlan, SwappConsumption, SwappScriptError};
pub use types::{AccountIdFelts, AssetValue, NoteType};
