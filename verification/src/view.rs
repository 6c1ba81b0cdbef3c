//! What the page shows, computed from the state.
//!
//! The view is declarative: every displayed datum is a pure function of the
//! current state. This module computes those data — which screen is hidden,
//! the dropdown's label and icon, and the preview node's class and text —
//! and the page only places them into markup.

use vstd::prelude::*;
use vstd::string::StringExecFns;

use crate::handoff::{spec_preview_class, spec_preview_text};
use crate::state::{State, StateModel};

verus! {

/// Everything the page displays that depends on the state.
pub struct ViewModel {
    /// The intro panel is hidden (the workbench screen shows).
    pub intro_hidden: bool,
    /// The workbench is hidden (the intro screen shows).
    pub workbench_hidden: bool,
    /// Icon beside the dropdown label, once a language is chosen.
    pub dropdown_icon: Option<String>,
    /// The dropdown label: a prompt, or the chosen language's name.
    pub dropdown_label: String,
    /// The class tag on the preview node; empty while no language is chosen.
    pub preview_class: String,
    /// The text the preview node shows.
    pub preview_text: String,
}

/// Mathematical model of [`ViewModel`].
#[verifier::ext_equal]
pub ghost struct ViewModelModel {
    pub intro_hidden: bool,
    pub workbench_hidden: bool,
    pub dropdown_icon: Option<Seq<char>>,
    pub dropdown_label: Seq<char>,
    pub preview_class: Seq<char>,
    pub preview_text: Seq<char>,
}

impl View for ViewModel {
    type V = ViewModelModel;

    open spec fn view(&self) -> ViewModelModel {
        ViewModelModel {
            intro_hidden: self.intro_hidden,
            workbench_hidden: self.workbench_hidden,
            dropdown_icon: match self.dropdown_icon {
                Some(ref p) => Some(p@),
                None => None,
            },
            dropdown_label: self.dropdown_label@,
            preview_class: self.preview_class@,
            preview_text: self.preview_text@,
        }
    }
}

/// The dropdown label: the chosen language's name behind two spaces of
/// padding, or the prompt while no language is chosen.
pub open spec fn spec_dropdown_label(s: StateModel) -> Seq<char> {
    match s.programming_language {
        Some(l) => "  "@ + l.spec_name(),
        None => "Select a Programming language ..."@,
    }
}

/// The dropdown icon: the chosen language's asset path, if any is chosen.
pub open spec fn spec_dropdown_icon(s: StateModel) -> Option<Seq<char>> {
    match s.programming_language {
        Some(l) => Some(l.spec_file_path()),
        None => None,
    }
}

/// The whole view model as a function of the state.
pub open spec fn spec_view_model(s: StateModel) -> ViewModelModel {
    ViewModelModel {
        intro_hidden: !s.show_info,
        workbench_hidden: s.show_info,
        dropdown_icon: spec_dropdown_icon(s),
        dropdown_label: spec_dropdown_label(s),
        preview_class: spec_preview_class(s),
        preview_text: spec_preview_text(s),
    }
}

/// Compute everything the page displays from the current state.
pub fn view_model(state: &State) -> (vm: ViewModel)
    ensures
        vm@ =~= spec_view_model(state@),
{
    let dropdown_icon = match state.programming_language {
        Some(l) => Some(l.to_file_path()),
        None => None,
    };
    let dropdown_label = match state.programming_language {
        Some(l) => "  ".to_owned().concat(l.to_name().as_str()),
        None => "Select a Programming language ...".to_owned(),
    };
    let preview_class = match state.programming_language {
        Some(l) => l.to_class(),
        None => String::new(),
    };
    let preview_text = if !state.code.as_str().is_empty() {
        state.code.clone()
    } else {
        "Nothing to show...yet".to_owned()
    };
    ViewModel {
        intro_hidden: !state.show_info,
        workbench_hidden: state.show_info,
        dropdown_icon,
        dropdown_label,
        preview_class,
        preview_text,
    }
}

} // verus!
