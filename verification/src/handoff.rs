//! The DOM hand-off protocol.
//!
//! The external highlighter mutates the document in place and is not
//! idempotent: invoked twice without cleanup it duplicates its output. The
//! controller here guarantees that after every render that changed the
//! displayed code or language, the stale output container is removed
//! *before* the highlighter runs exactly once — so duplicate highlighted
//! nodes never accumulate.
//!
//! The document itself is out of reach of this crate, so the part of it the
//! workbench owns is modelled explicitly: [`PreviewDoc`] holds the raw
//! preview node (class tag and text) and the highlighted output containers
//! currently present. The page performs the same steps, in the same order,
//! on the real document.

use vstd::prelude::*;

use crate::language::{is_highlight_class, Language};
use crate::state::{apply_msg, apply_msgs, spec_changes_preview, spec_persist_request, update};
use crate::state::{Msg, MsgModel, State, StateModel, StoredState};

verus! {

/// One block of highlighted output produced by the external highlighter:
/// the class tag it was produced for and the text it wraps.
pub struct OutputContainer {
    pub class: String,
    pub content: String,
}

/// Mathematical model of [`OutputContainer`].
#[verifier::ext_equal]
pub ghost struct OutputContainerModel {
    pub class: Seq<char>,
    pub content: Seq<char>,
}

impl View for OutputContainer {
    type V = OutputContainerModel;

    open spec fn view(&self) -> OutputContainerModel {
        OutputContainerModel { class: self.class@, content: self.content@ }
    }
}

/// The part of the document the workbench owns: the raw preview node (its
/// class tag — empty when no language is chosen — and its text) and the
/// highlighted output containers currently in the document.
pub struct PreviewDoc {
    pub preview_class: String,
    pub preview_text: String,
    pub containers: Vec<OutputContainer>,
}

/// Mathematical model of [`PreviewDoc`].
#[verifier::ext_equal]
pub ghost struct PreviewDocModel {
    pub preview_class: Seq<char>,
    pub preview_text: Seq<char>,
    pub containers: Seq<OutputContainerModel>,
}

impl View for PreviewDoc {
    type V = PreviewDocModel;

    open spec fn view(&self) -> PreviewDocModel {
        PreviewDocModel {
            preview_class: self.preview_class@,
            preview_text: self.preview_text@,
            containers: self.containers@.map_values(|c: OutputContainer| c@),
        }
    }
}

impl PreviewDoc {
    /// A document with nothing rendered yet: no class, placeholder text
    /// pending, no highlighted output.
    pub fn empty() -> (d: PreviewDoc)
        ensures
            d@.preview_class =~= Seq::<char>::empty(),
            d@.preview_text =~= Seq::<char>::empty(),
            d@.containers =~= Seq::<OutputContainerModel>::empty(),
    {
        PreviewDoc {
            preview_class: String::new(),
            preview_text: String::new(),
            containers: Vec::new(),
        }
    }
}

/// No duplicate output has leaked: at most one highlighted output container
/// exists in the document.
pub open spec fn doc_wf(d: PreviewDocModel) -> bool {
    d.containers.len() <= 1
}

/// The class the preview node carries: the chosen language's tag, or no
/// class at all while no language is chosen.
pub open spec fn spec_preview_class(s: StateModel) -> Seq<char> {
    match s.programming_language {
        Some(l) => l.spec_class(),
        None => Seq::<char>::empty(),
    }
}

/// The text the preview node shows: the raw code, or a placeholder while
/// nothing was entered.
pub open spec fn spec_preview_text(s: StateModel) -> Seq<char> {
    if s.code.len() > 0 {
        s.code
    } else {
        "Nothing to show...yet"@
    }
}

/// Whether a hand-off pass must run: there is code to highlight and a
/// language to highlight it as. Otherwise there is nothing to highlight
/// and the pass is a no-op.
pub open spec fn spec_needs_highlight(s: StateModel) -> bool {
    s.code.len() > 0 && s.programming_language is Some
}

/// Decide whether the hand-off controller must run for the current state.
pub fn needs_highlight(state: &State) -> (b: bool)
    ensures
        b == spec_needs_highlight(state@),
{
    !state.code.as_str().is_empty() && state.programming_language.is_some()
}

/// Whether the preview node's class tag is one the external highlighter
/// acts on, i.e. the class of some supported language.
fn class_is_recognized(class: &String) -> (b: bool)
    ensures
        b == is_highlight_class(class@),
{
    let r = *class == Language::C.to_class() || *class == Language::CSharp.to_class() || *class
        == Language::Python.to_class() || *class == Language::Css.to_class() || *class
        == Language::Delphi.to_class() || *class == Language::VisualBasic.to_class() || *class
        == Language::Java.to_class() || *class == Language::JavaScript.to_class() || *class
        == Language::Ruby.to_class() || *class == Language::Sql.to_class() || *class
        == Language::Xml.to_class() || *class == Language::Php.to_class();
    proof {
        if r {
            assert(is_highlight_class(class@));
        } else {
            assert(forall|l: Language| l.spec_class() != class@);
        }
    }
    r
}

/// Re-render the preview node declaratively from the state: it carries the
/// chosen language's class (or none) and shows the raw code (or the
/// placeholder while nothing was entered). Rendering never touches the
/// highlighter's output containers.
pub fn render_preview(doc: &mut PreviewDoc, state: &State)
    ensures
        final(doc)@.preview_class == spec_preview_class(state@),
        final(doc)@.preview_text == spec_preview_text(state@),
        final(doc)@.containers == old(doc)@.containers,
{
    doc.preview_class = match state.programming_language {
        Some(l) => l.to_class(),
        None => String::new(),
    };
    doc.preview_text = if !state.code.as_str().is_empty() {
        state.code.clone()
    } else {
        "Nothing to show...yet".to_owned()
    };
}

/// The cleanup step: remove any previously produced output container from
/// the document. Absence of one is the normal "nothing to clean up yet"
/// case, not an error.
pub fn remove_stale_output(doc: &mut PreviewDoc)
    ensures
        final(doc)@.preview_class == old(doc)@.preview_class,
        final(doc)@.preview_text == old(doc)@.preview_text,
        final(doc)@.containers =~= Seq::<OutputContainerModel>::empty(),
{
    doc.containers.clear();
    proof {
        assert(doc.containers@.map_values(|c: OutputContainer| c@) =~= Seq::<
            OutputContainerModel,
        >::empty());
    }
}

/// Model of one invocation of the external highlighter: it scans the
/// document once and, where the preview node carries a recognized language
/// class, wraps the preview text in one new output container. It is not
/// idempotent: it appends to whatever containers already exist, which is
/// why stale output must be removed before it runs.
pub fn invoke_highlighter(doc: &mut PreviewDoc)
    ensures
        final(doc)@.preview_class == old(doc)@.preview_class,
        final(doc)@.preview_text == old(doc)@.preview_text,
        final(doc)@.containers =~= if is_highlight_class(old(doc)@.preview_class) {
            old(doc)@.containers.push(
                (OutputContainerModel {
                    class: old(doc)@.preview_class,
                    content: old(doc)@.preview_text,
                }),
            )
        } else {
            old(doc)@.containers
        },
{
    if class_is_recognized(&doc.preview_class) {
        let ghost before = doc.containers@;
        let wrapped = OutputContainer {
            class: doc.preview_class.clone(),
            content: doc.preview_text.clone(),
        };
        doc.containers.push(wrapped);
        proof {
            assert(doc.containers@.map_values(|c: OutputContainer| c@) =~= before.map_values(
                |c: OutputContainer| c@,
            ).push(wrapped@));
        }
    }
}

/// What a hand-off pass leaves in the document: when a re-highlight is due,
/// exactly one fresh container wrapping the current preview; otherwise the
/// containers as they were.
pub open spec fn spec_handoff_containers(cs: Seq<OutputContainerModel>, s: StateModel) -> Seq<
    OutputContainerModel,
> {
    if spec_needs_highlight(s) {
        seq![
            (OutputContainerModel { class: spec_preview_class(s), content: spec_preview_text(s) }),
        ]
    } else {
        cs
    }
}

/// One hand-off controller pass, run after a render (the preview node
/// already reflects the state). When there is code and a chosen language,
/// it removes the stale output container and then — only then — invokes
/// the external highlighter exactly once. Otherwise it leaves the document
/// alone: in particular, with empty code the highlighter is never invoked,
/// whatever the chosen language.
pub fn handoff(doc: &mut PreviewDoc, state: &State)
    requires
        old(doc)@.preview_class == spec_preview_class(state@),
        old(doc)@.preview_text == spec_preview_text(state@),
    ensures
        final(doc)@.preview_class == old(doc)@.preview_class,
        final(doc)@.preview_text == old(doc)@.preview_text,
        final(doc)@.containers =~= spec_handoff_containers(old(doc)@.containers, state@),
{
    if needs_highlight(state) {
        remove_stale_output(doc);
        invoke_highlighter(doc);
        proof {
            match state.programming_language {
                Some(l) => {
                    assert(l.spec_class() == spec_preview_class(state@));
                    assert(is_highlight_class(spec_preview_class(state@)));
                },
                None => {
                    assert(false);
                },
            }
        }
    }
}

/// What one cycle does to the document and state, as pure mathematics: the
/// specification [`process_message`] is proved against. Dismissing the
/// intro leaves code and language unchanged, so it never triggers a
/// hand-off pass; the other messages do.
pub open spec fn apply_cycle(d: PreviewDocModel, s: StateModel, m: MsgModel) -> (
    PreviewDocModel,
    StateModel,
) {
    let s2 = apply_msg(s, m);
    (
        PreviewDocModel {
            preview_class: spec_preview_class(s2),
            preview_text: spec_preview_text(s2),
            containers: if spec_changes_preview(m) {
                spec_handoff_containers(d.containers, s2)
            } else {
                d.containers
            },
        },
        s2,
    )
}

/// One full cycle for one user event, in the order the page runs it:
/// reduce the message into the next state, re-render the preview from that
/// state, then — where the message changed the displayed code or language —
/// run the hand-off pass. Returns the preference record the caller must
/// persist, if the message asks for one.
pub fn process_message(state: &mut State, doc: &mut PreviewDoc, msg: Msg) -> (persist: Option<
    StoredState,
>)
    ensures
        final(state)@ == apply_msg(old(state)@, msg@),
        persist == spec_persist_request(msg@),
        final(doc)@ =~= apply_cycle(old(doc)@, old(state)@, msg@).0,
        doc_wf(old(doc)@) ==> doc_wf(final(doc)@),
{
    let rerun = match &msg {
        Msg::HideInitMessage(_) => false,
        _ => true,
    };
    let persist = update(state, msg);
    render_preview(doc, state);
    if rerun {
        handoff(doc, state);
    }
    persist
}

/// A whole session: every message of the sequence processed in order, each
/// through one full cycle.
pub open spec fn apply_cycles(d: PreviewDocModel, s: StateModel, ms: Seq<MsgModel>) -> (
    PreviewDocModel,
    StateModel,
)
    decreases ms.len(),
{
    if ms.len() == 0 {
        (d, s)
    } else {
        let (d2, s2) = apply_cycle(d, s, ms[0]);
        apply_cycles(d2, s2, ms.subrange(1, ms.len() as int))
    }
}

/// With empty code a hand-off pass never invokes the highlighter, whatever
/// the chosen language: the pass is due only when there is code.
pub proof fn lemma_empty_code_never_highlights(s: StateModel, cs: Seq<OutputContainerModel>)
    requires
        s.code.len() == 0,
    ensures
        !spec_needs_highlight(s),
        spec_handoff_containers(cs, s) == cs,
{
}

/// With no language chosen the preview carries no class, shows entered code
/// raw, and no hand-off pass is due.
pub proof fn lemma_raw_preview_without_language(s: StateModel)
    requires
        s.programming_language is None,
        s.code.len() > 0,
    ensures
        spec_preview_class(s).len() == 0,
        spec_preview_text(s) == s.code,
        !spec_needs_highlight(s),
{
}

/// No accumulation: starting from a well-formed document, at most one
/// highlighted output container exists after any number of processed
/// messages, whatever they are.
pub proof fn lemma_at_most_one_container(d: PreviewDocModel, s: StateModel, ms: Seq<MsgModel>)
    requires
        doc_wf(d),
    ensures
        doc_wf(apply_cycles(d, s, ms).0),
    decreases ms.len(),
{
    if ms.len() > 0 {
        let (d2, s2) = apply_cycle(d, s, ms[0]);
        lemma_at_most_one_container(d2, s2, ms.subrange(1, ms.len() as int));
    }
}

/// The document protocol never touches the state: after a whole session the
/// state is exactly the reducer's fold over its messages, so everything
/// proved of [`apply_msgs`] holds of full cycles too.
pub proof fn lemma_cycles_state_agrees(d: PreviewDocModel, s: StateModel, ms: Seq<MsgModel>)
    ensures
        apply_cycles(d, s, ms).1 == apply_msgs(s, ms),
    decreases ms.len(),
{
    if ms.len() > 0 {
        let (d2, s2) = apply_cycle(d, s, ms[0]);
        lemma_cycles_state_agrees(d2, s2, ms.subrange(1, ms.len() as int));
    }
}

} // verus!
