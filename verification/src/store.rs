//! The persisted-preference codec and the initial state.
//!
//! The external key-value store holds, under one fixed key, a serialized
//! record with a single optional boolean field. This module fixes the
//! canonical serialized form, decodes it tolerantly (anything else counts
//! as "no preference recorded"), and builds the state a fresh page load
//! starts from. The caller performs the actual store reads and writes and
//! hands the raw strings here.

use vstd::prelude::*;

use crate::state::{MsgModel, State, StateModel, StoredState};
use crate::state::{apply_msg, spec_persist_request};

verus! {

/// The fixed key the preference record is stored under.
pub fn state_key() -> (r: String)
    ensures
        r@ == "codestyle.state"@,
{
    "codestyle.state".to_owned()
}

/// The canonical serialized form of a preference record: an object with the
/// one field `show_info`, holding `true`, `false` or `null`.
pub open spec fn spec_encode(p: StoredState) -> Seq<char> {
    match p.show_info {
        Some(true) => "{\"show_info\":true}"@,
        Some(false) => "{\"show_info\":false}"@,
        None => "{\"show_info\":null}"@,
    }
}

/// What a raw stored string decodes to: the record for each canonical form,
/// and `None` — "no preference recorded" — for every other string.
pub open spec fn spec_decode(s: Seq<char>) -> Option<StoredState> {
    if s == "{\"show_info\":true}"@ {
        Some(StoredState { show_info: Some(true) })
    } else if s == "{\"show_info\":false}"@ {
        Some(StoredState { show_info: Some(false) })
    } else if s == "{\"show_info\":null}"@ {
        Some(StoredState { show_info: None })
    } else {
        None
    }
}

/// Serialize a preference record into its canonical stored form.
pub fn encode_stored(p: &StoredState) -> (r: String)
    ensures
        r@ == spec_encode(*p),
{
    match p.show_info {
        Some(true) => "{\"show_info\":true}".to_owned(),
        Some(false) => "{\"show_info\":false}".to_owned(),
        None => "{\"show_info\":null}".to_owned(),
    }
}

/// Parse a raw stored string. Fails soft: a string that is not one of the
/// canonical forms yields `None`, treated as "no preference recorded".
pub fn decode_stored(s: &str) -> (r: Option<StoredState>)
    ensures
        r == spec_decode(s@),
{
    let owned: String = s.to_owned();
    if owned == "{\"show_info\":true}".to_owned() {
        Some(StoredState { show_info: Some(true) })
    } else if owned == "{\"show_info\":false}".to_owned() {
        Some(StoredState { show_info: Some(false) })
    } else if owned == "{\"show_info\":null}".to_owned() {
        Some(StoredState { show_info: None })
    } else {
        None
    }
}

/// The state a fresh page load starts from, given what the store yielded:
/// empty code, no language, and the intro shown unless a recorded
/// preference says otherwise.
pub open spec fn spec_initial_state(stored: Option<StoredState>) -> StateModel {
    StateModel {
        show_info: match stored {
            Some(p) => match p.show_info {
                Some(b) => b,
                None => true,
            },
            None => true,
        },
        code: Seq::<char>::empty(),
        programming_language: None,
    }
}

/// Construct the state for a fresh page load from the decoded preference
/// record, if any was recorded.
pub fn initial_state(stored: Option<StoredState>) -> (s: State)
    ensures
        s@ == spec_initial_state(stored),
{
    let mut show_info = true;
    if let Some(p) = stored {
        if let Some(b) = p.show_info {
            show_info = b;
        }
    }
    let s = State { show_info, code: String::new(), programming_language: None };
    proof {
        assert(s@ =~= spec_initial_state(stored));
    }
    s
}

/// The codec round-trips: decoding a canonically encoded record yields
/// exactly that record, for every record.
pub proof fn lemma_store_roundtrip(p: StoredState)
    ensures
        spec_decode(spec_encode(p)) == Some(p),
{
    reveal_strlit("{\"show_info\":true}");
    reveal_strlit("{\"show_info\":false}");
    reveal_strlit("{\"show_info\":null}");
    // The three canonical forms are pairwise distinct: the first two differ
    // in length from each other, and the outer two differ at the character
    // after the colon.
    assert("{\"show_info\":true}"@.len() == 18);
    assert("{\"show_info\":false}"@.len() == 19);
    assert("{\"show_info\":null}"@.len() == 18);
    assert("{\"show_info\":true}"@[13] == 't');
    assert("{\"show_info\":null}"@[13] == 'n');
    assert("{\"show_info\":true}"@ != "{\"show_info\":null}"@);
}

/// Dismissing the intro panel stores the negation of the "permanently"
/// flag, and a fresh load that re-reads the store shows the intro exactly
/// when the dismissal was not permanent: `HideInitMessage(true)` keeps the
/// intro hidden across a reload, `HideInitMessage(false)` lets it show
/// again.
pub proof fn lemma_dismiss_intro_reload(s: StateModel, permanently: bool)
    ensures
        apply_msg(s, MsgModel::HideInitMessage(permanently)).show_info == false,
        spec_persist_request(MsgModel::HideInitMessage(permanently)) == Some(
            StoredState { show_info: Some(!permanently) },
        ),
        spec_initial_state(
            spec_decode(spec_encode(StoredState { show_info: Some(!permanently) })),
        ).show_info == !permanently,
{
    lemma_store_roundtrip(StoredState { show_info: Some(!permanently) });
}

} // verus!
