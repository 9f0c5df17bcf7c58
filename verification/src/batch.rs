//! Production batches: their lifecycle states and their lot codes.

use vstd::prelude::*;
use vstd::utf8::is_ascii_chars;
use crate::dates::{format_utc, utc_text, MAX_UTC_TIMESTAMP, MIN_UTC_TIMESTAMP};
use crate::text::{ascii_lower, str_eq, to_lowercase, unicode_lowercase};

verus! {

/// The lifecycle state of a production batch.
#[derive(Debug, Clone, Copy, PartialEq, Eq, Structural)]
pub enum BatchState {
    /// Being prepared.
    Draft,
    /// Under quality control.
    QC,
    /// Published: its QR codes lead to its public page.
    Published,
    /// Recalled.
    Recalled,
}

/// The stored name of each state.
pub open spec fn batch_state_name(state: BatchState) -> Seq<char> {
    match state {
        BatchState::Draft => "draft"@,
        BatchState::QC => "qc"@,
        BatchState::Published => "published"@,
        BatchState::Recalled => "recalled"@,
    }
}

/// The state whose stored name is `name`.
pub open spec fn batch_state_of_name(name: Seq<char>) -> Option<BatchState> {
    if name == "draft"@ {
        Some(BatchState::Draft)
    } else if name == "qc"@ {
        Some(BatchState::QC)
    } else if name == "published"@ {
        Some(BatchState::Published)
    } else if name == "recalled"@ {
        Some(BatchState::Recalled)
    } else {
        None
    }
}

impl BatchState {
    /// The stored name of the state.
    pub fn to_string(&self) -> (r: String)
        ensures
            r@ == batch_state_name(*self),
    {
        match self {
            BatchState::Draft => String::from_str("draft"),
            BatchState::QC => String::from_str("qc"),
            BatchState::Published => String::from_str("published"),
            BatchState::Recalled => String::from_str("recalled"),
        }
    }

    /// The state whose stored name is exactly `name`, which the caller has lowercased.
    pub fn from_lowercase(name: &str) -> (r: Option<BatchState>)
        ensures
            r == batch_state_of_name(name@),
    {
        if str_eq(name, "draft") {
            Some(BatchState::Draft)
        } else if str_eq(name, "qc") {
            Some(BatchState::QC)
        } else if str_eq(name, "published") {
            Some(BatchState::Published)
        } else if str_eq(name, "recalled") {
            Some(BatchState::Recalled)
        } else {
            None
        }
    }

    /// The state that `s` names in any letter case, or the message refusing it.
    pub fn parse(s: &str) -> (r: Result<BatchState, String>)
        ensures
            match batch_state_of_name(unicode_lowercase(s@)) {
                Some(state) => r == Ok::<BatchState, String>(state),
                None => r is Err && r->Err_0@ == "Invalid batch state: "@ + s@,
            },
            is_ascii_chars(s@) ==> match batch_state_of_name(ascii_lower(s@)) {
                Some(state) => r == Ok::<BatchState, String>(state),
                None => r is Err,
            },
    {
        let lowered = to_lowercase(s);
        match BatchState::from_lowercase(lowered.as_str()) {
            Some(state) => Ok(state),
            None => {
                let mut message = String::from_str("Invalid batch state: ");
                message.append(s);
                Err(message)
            },
        }
    }
}

impl std::str::FromStr for BatchState {
    type Err = String;

    fn from_str(s: &str) -> (r: Result<BatchState, String>)
        ensures
            match batch_state_of_name(unicode_lowercase(s@)) {
                Some(state) => r == Ok::<BatchState, String>(state),
                None => r is Err && r->Err_0@ == "Invalid batch state: "@ + s@,
            },
            is_ascii_chars(s@) ==> match batch_state_of_name(ascii_lower(s@)) {
                Some(state) => r == Ok::<BatchState, String>(state),
                None => r is Err,
            },
    {
        BatchState::parse(s)
    }
}

/// A request to recall a batch.
#[derive(Debug, Clone)]
pub struct RecallBatchRequest {
    /// Why the batch is recalled.
    pub reason: String,
}

/// The lot code of a batch of `product_code` made on the day written `date_text`.
pub fn lot_code_from_date_text(product_code: &str, date_text: &str) -> (r: String)
    ensures
        r@ == product_code@ + "-"@ + date_text@ + "-A"@,
{
    let mut code = String::from_str(product_code);
    code.append("-");
    code.append(date_text);
    code.append("-A");
    code
}

/// The lot code of a batch of `product_code` produced at `production_date` (Unix seconds):
/// the product code, the UTC day of production and the first lot letter.
pub fn generate_lot_code(product_code: &str, production_date: i64) -> (r: String)
    requires
        MIN_UTC_TIMESTAMP <= production_date <= MAX_UTC_TIMESTAMP,
    ensures
        r@ == product_code@ + "-"@ + utc_text(production_date, "%Y-%m-%d"@) + "-A"@,
{
    proof {
        reveal_strlit("%Y-%m-%d");
    }
    let date_text = format_utc(production_date, "%Y-%m-%d");
    lot_code_from_date_text(product_code, date_text.as_str())
}

/// The lot code given to a new batch: the one requested, else a generated `LOT` code for
/// the creation instant `now` (Unix seconds).
pub fn batch_lot_code(requested: Option<String>, now: i64) -> (r: String)
    requires
        MIN_UTC_TIMESTAMP <= now <= MAX_UTC_TIMESTAMP,
    ensures
        r@ == match requested {
            Some(code) => code@,
            None => "LOT"@ + "-"@ + utc_text(now, "%Y-%m-%d"@) + "-A"@,
        },
{
    match requested {
        Some(code) => code,
        None => generate_lot_code("LOT", now),
    }
}

/// A state's stored name reads back as that state, and it is lowercase ASCII text, so it
/// reads back through `BatchState::parse` too.
pub proof fn law_batch_state_name_roundtrip(state: BatchState)
    ensures
        batch_state_of_name(batch_state_name(state)) == Some(state),
        is_ascii_chars(batch_state_name(state)),
        ascii_lower(batch_state_name(state)) == batch_state_name(state),
{
    reveal_strlit("draft");
    reveal_strlit("qc");
    reveal_strlit("published");
    reveal_strlit("recalled");
    assert("draft"@.len() == 5 && "qc"@.len() == 2 && "published"@.len() == 9 && "recalled"@.len() == 8);
    assert(ascii_lower(batch_state_name(state)) =~= batch_state_name(state));
}

/// The states are stored under their own names: a draft as `draft`, a batch under quality
/// control as `qc`, a published one as `published`, a recalled one as `recalled`; each of
/// these names reads back as its own state, and no other name reads as a state.
pub proof fn law_batch_states_have_their_own_names(name: Seq<char>)
    ensures
        batch_state_name(BatchState::Draft) == "draft"@,
        batch_state_name(BatchState::QC) == "qc"@,
        batch_state_name(BatchState::Published) == "published"@,
        batch_state_name(BatchState::Recalled) == "recalled"@,
        batch_state_of_name("draft"@) == Some(BatchState::Draft),
        batch_state_of_name("qc"@) == Some(BatchState::QC),
        batch_state_of_name("published"@) == Some(BatchState::Published),
        batch_state_of_name("recalled"@) == Some(BatchState::Recalled),
        batch_state_of_name(name) matches Some(s) ==> name == batch_state_name(s),
{
    reveal_strlit("draft");
    reveal_strlit("qc");
    reveal_strlit("published");
    reveal_strlit("recalled");
    assert("draft"@.len() == 5 && "qc"@.len() == 2 && "published"@.len() == 9 && "recalled"@.len() == 8);
}

} // verus!
