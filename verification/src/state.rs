//! The application state machine.
//!
//! A single `State` value is owned by the application and changed only
//! through [`update`], the reducer that turns one message into the next
//! state. No message ever fails: all transitions are total. Persistence of
//! the intro preference is returned to the caller as data, never performed
//! here.

use vstd::prelude::*;

use crate::language::Language;

verus! {

/// The whole UI state: which screen shows, the pasted code, and the chosen
/// language (`None` until the user picks one).
pub struct State {
    pub show_info: bool,
    pub code: String,
    pub programming_language: Option<Language>,
}

/// Mathematical model of [`State`]: the code as a sequence of characters.
#[verifier::ext_equal]
pub ghost struct StateModel {
    pub show_info: bool,
    pub code: Seq<char>,
    pub programming_language: Option<Language>,
}

impl View for State {
    type V = StateModel;

    open spec fn view(&self) -> StateModel {
        StateModel {
            show_info: self.show_info,
            code: self.code@,
            programming_language: self.programming_language,
        }
    }
}

/// The durable record kept in the preference store: whether the intro
/// panel should show on the next load. `None` means "no preference
/// recorded", which defaults to showing it.
#[derive(Clone, Copy, PartialEq, Eq, Structural, Debug)]
pub struct StoredState {
    pub show_info: Option<bool>,
}

/// A user intent, reduced by [`update`] into the next state.
pub enum Msg {
    /// Dismiss the intro panel; `true` asks for a permanent dismissal.
    HideInitMessage(bool),
    /// Pick the language whose class tag drives the highlighter.
    ChooseLanguage(Language),
    /// Replace the pasted code with the current editor content.
    InputCode(String),
}

/// Mathematical model of [`Msg`].
pub ghost enum MsgModel {
    HideInitMessage(bool),
    ChooseLanguage(Language),
    InputCode(Seq<char>),
}

impl View for Msg {
    type V = MsgModel;

    open spec fn view(&self) -> MsgModel {
        match self {
            Msg::HideInitMessage(permanently) => MsgModel::HideInitMessage(*permanently),
            Msg::ChooseLanguage(l) => MsgModel::ChooseLanguage(*l),
            Msg::InputCode(text) => MsgModel::InputCode(text@),
        }
    }
}

/// What one message does to the state: the transition function of the
/// machine. Every message is total and touches exactly one field.
pub open spec fn apply_msg(s: StateModel, m: MsgModel) -> StateModel {
    match m {
        MsgModel::HideInitMessage(_) => StateModel { show_info: false, ..s },
        MsgModel::ChooseLanguage(l) => StateModel { programming_language: Some(l), ..s },
        MsgModel::InputCode(text) => StateModel { code: text, ..s },
    }
}

/// The record a message asks the caller to persist, if any. Dismissing the
/// intro stores the *negation* of the "permanently" flag: the stored field
/// means "show the intro again".
pub open spec fn spec_persist_request(m: MsgModel) -> Option<StoredState> {
    match m {
        MsgModel::HideInitMessage(permanently) => Some(
            StoredState { show_info: Some(!permanently) },
        ),
        _ => None,
    }
}

/// Whether the message changes the displayed code or language, i.e. whether
/// the hand-off controller must run after the re-render it triggers.
pub open spec fn spec_changes_preview(m: MsgModel) -> bool {
    !(m is HideInitMessage)
}

/// The reducer: processes one message into the next state.
///
/// Returns the preference record the caller must persist, if the message
/// asks for one. Every message triggers a re-render; the returned state is
/// exactly `apply_msg` of the old one.
pub fn update(state: &mut State, msg: Msg) -> (persist: Option<StoredState>)
    ensures
        final(state)@ == apply_msg(old(state)@, msg@),
        persist == spec_persist_request(msg@),
{
    match msg {
        Msg::HideInitMessage(permanently) => {
            state.show_info = false;
            Some(StoredState { show_info: Some(!permanently) })
        },
        Msg::ChooseLanguage(language) => {
            state.programming_language = Some(language);
            None
        },
        Msg::InputCode(text) => {
            state.code = text;
            None
        },
    }
}

/// A whole sequence of messages, applied in order.
pub open spec fn apply_msgs(s: StateModel, ms: Seq<MsgModel>) -> StateModel
    decreases ms.len(),
{
    if ms.len() == 0 {
        s
    } else {
        apply_msgs(apply_msg(s, ms[0]), ms.subrange(1, ms.len() as int))
    }
}

/// Applying a sequence with one more message at the end is applying the
/// sequence, then that message.
pub proof fn lemma_apply_msgs_push(s: StateModel, ms: Seq<MsgModel>, m: MsgModel)
    ensures
        apply_msgs(s, ms.push(m)) == apply_msg(apply_msgs(s, ms), m),
    decreases ms.len(),
{
    let whole = ms.push(m);
    if ms.len() == 0 {
        assert(whole.subrange(1, 1) =~= Seq::<MsgModel>::empty());
        assert(whole[0] == m);
        assert(apply_msgs(s, whole) == apply_msgs(apply_msg(s, m), whole.subrange(1, 1)));
        assert(apply_msgs(apply_msg(s, m), whole.subrange(1, 1)) == apply_msg(s, m));
    } else {
        let tail = ms.subrange(1, ms.len() as int);
        assert(whole[0] == ms[0]);
        assert(whole.subrange(1, ms.len() as int + 1) =~= tail.push(m));
        assert(apply_msgs(s, whole) == apply_msgs(
            apply_msg(s, ms[0]),
            whole.subrange(1, ms.len() as int + 1),
        ));
        lemma_apply_msgs_push(apply_msg(s, ms[0]), tail, m);
        assert(apply_msgs(s, ms) == apply_msgs(apply_msg(s, ms[0]), tail));
    }
}

/// A sequence without any `ChooseLanguage` message leaves the chosen
/// language as it was.
pub proof fn lemma_no_language_message(s: StateModel, ms: Seq<MsgModel>)
    requires
        forall|j: int| 0 <= j < ms.len() ==> !(ms[j] is ChooseLanguage),
    ensures
        apply_msgs(s, ms).programming_language == s.programming_language,
    decreases ms.len(),
{
    if ms.len() > 0 {
        lemma_no_language_message(apply_msg(s, ms[0]), ms.subrange(1, ms.len() as int));
    }
}

/// A sequence without any `InputCode` message leaves the code as it was.
pub proof fn lemma_no_input_message(s: StateModel, ms: Seq<MsgModel>)
    requires
        forall|j: int| 0 <= j < ms.len() ==> !(ms[j] is InputCode),
    ensures
        apply_msgs(s, ms).code == s.code,
    decreases ms.len(),
{
    if ms.len() > 0 {
        lemma_no_input_message(apply_msg(s, ms[0]), ms.subrange(1, ms.len() as int));
    }
}

/// The last value wins: after any message sequence, the chosen language is
/// exactly the one carried by the last `ChooseLanguage` message.
pub proof fn lemma_last_language_wins(s: StateModel, ms: Seq<MsgModel>, i: int, l: Language)
    requires
        0 <= i < ms.len(),
        ms[i] == MsgModel::ChooseLanguage(l),
        forall|j: int| i < j < ms.len() ==> !(ms[j] is ChooseLanguage),
    ensures
        apply_msgs(s, ms).programming_language == Some(l),
    decreases ms.len(),
{
    let tail = ms.subrange(1, ms.len() as int);
    if i == 0 {
        assert(forall|j: int| 0 <= j < tail.len() ==> !(tail[j] is ChooseLanguage));
        lemma_no_language_message(apply_msg(s, ms[0]), tail);
    } else {
        lemma_last_language_wins(apply_msg(s, ms[0]), tail, i - 1, l);
    }
}

/// The last value wins: after any message sequence, the code is exactly
/// the text carried by the last `InputCode` message.
pub proof fn lemma_last_input_wins(s: StateModel, ms: Seq<MsgModel>, i: int, text: Seq<char>)
    requires
        0 <= i < ms.len(),
        ms[i] == MsgModel::InputCode(text),
        forall|j: int| i < j < ms.len() ==> !(ms[j] is InputCode),
    ensures
        apply_msgs(s, ms).code == text,
    decreases ms.len(),
{
    let tail = ms.subrange(1, ms.len() as int);
    if i == 0 {
        assert(forall|j: int| 0 <= j < tail.len() ==> !(tail[j] is InputCode));
        lemma_no_input_message(apply_msg(s, ms[0]), tail);
    } else {
        lemma_last_input_wins(apply_msg(s, ms[0]), tail, i - 1, text);
    }
}

/// Replaying a message right after itself is a no-op on state: the second
/// application changes nothing.
pub proof fn lemma_replay_idempotent(s: StateModel, m: MsgModel)
    ensures
        apply_msg(apply_msg(s, m), m) == apply_msg(s, m),
{
    assert(apply_msg(apply_msg(s, m), m) =~= apply_msg(s, m));
}

/// Within a session the intro never comes back: once `show_info` is false,
/// no message makes it true again.
pub proof fn lemma_intro_never_reverts(s: StateModel, m: MsgModel)
    requires
        !s.show_info,
    ensures
        !apply_msg(s, m).show_info,
{
}

} // verus!
