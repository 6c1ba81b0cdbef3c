use codestyle::handoff::{handoff, needs_highlight, process_message, render_preview, PreviewDoc};
use codestyle::language::Language;
use codestyle::state::{update, Msg, State, StoredState};
use codestyle::store::{decode_stored, encode_stored, initial_state, state_key};
use codestyle::view::view_model;

fn fresh_state() -> State {
    initial_state(None)
}

#[test]
fn language_catalog_classes() {
    assert_eq!(Language::C.to_class(), "cpp");
    assert_eq!(Language::CSharp.to_class(), "csharp");
    assert_eq!(Language::Python.to_class(), "python");
    assert_eq!(Language::Css.to_class(), "css");
    assert_eq!(Language::Delphi.to_class(), "delphi");
    assert_eq!(Language::VisualBasic.to_class(), "vb");
    assert_eq!(Language::Java.to_class(), "java");
    assert_eq!(Language::JavaScript.to_class(), "js");
    assert_eq!(Language::Ruby.to_class(), "ruby");
    assert_eq!(Language::Sql.to_class(), "sql");
    assert_eq!(Language::Xml.to_class(), "xml");
    assert_eq!(Language::Php.to_class(), "php");
}

#[test]
fn language_catalog_names() {
    assert_eq!(Language::C.to_name(), "C / C++");
    assert_eq!(Language::CSharp.to_name(), "C#");
    assert_eq!(Language::Python.to_name(), "Python");
    assert_eq!(Language::Css.to_name(), "CSS");
    assert_eq!(Language::Delphi.to_name(), "Delphi");
    assert_eq!(Language::VisualBasic.to_name(), "VisualBasic");
    assert_eq!(Language::Java.to_name(), "Java");
    assert_eq!(Language::JavaScript.to_name(), "JavaScript");
    assert_eq!(Language::Ruby.to_name(), "Ruby");
    assert_eq!(Language::Sql.to_name(), "SQL");
    assert_eq!(Language::Xml.to_name(), "HTML / XML");
    assert_eq!(Language::Php.to_name(), "PHP");
}

#[test]
fn language_catalog_icon_paths() {
    assert_eq!(Language::C.to_file_path(), "./assets/images/cpp.png");
    assert_eq!(Language::Python.to_file_path(), "./assets/images/python.png");
    // The VisualBasic asset path is spelled this way in the shipped assets.
    assert_eq!(
        Language::VisualBasic.to_file_path(),
        "./assets/images/viauslbasic.svg"
    );
    assert_eq!(Language::Xml.to_file_path(), "./assets/images/html.png");
    assert_eq!(Language::Php.to_file_path(), "./assets/images/php.png");
}

#[test]
fn fresh_load_without_preference_shows_intro() {
    let s = fresh_state();
    assert!(s.show_info);
    assert_eq!(s.code, "");
    assert!(s.programming_language.is_none());
}

#[test]
fn fresh_load_honours_recorded_preference() {
    let hidden = initial_state(Some(StoredState {
        show_info: Some(false),
    }));
    assert!(!hidden.show_info);
    let shown = initial_state(Some(StoredState {
        show_info: Some(true),
    }));
    assert!(shown.show_info);
    let unrecorded = initial_state(Some(StoredState { show_info: None }));
    assert!(unrecorded.show_info);
}

#[test]
fn choose_language_sets_only_the_language() {
    let mut s = fresh_state();
    let persist = update(&mut s, Msg::ChooseLanguage(Language::Ruby));
    assert!(persist.is_none());
    assert!(matches!(s.programming_language, Some(Language::Ruby)));
    assert_eq!(s.code, "");
    assert!(s.show_info);
}

#[test]
fn input_code_sets_only_the_code() {
    let mut s = fresh_state();
    let persist = update(&mut s, Msg::InputCode("fn main() {}".to_string()));
    assert!(persist.is_none());
    assert_eq!(s.code, "fn main() {}");
    assert!(s.programming_language.is_none());
    assert!(s.show_info);
}

#[test]
fn hide_init_message_persists_the_inverted_flag() {
    let mut s = fresh_state();
    let persist = update(&mut s, Msg::HideInitMessage(true));
    assert!(!s.show_info);
    assert_eq!(
        persist,
        Some(StoredState {
            show_info: Some(false)
        })
    );

    let mut s2 = fresh_state();
    let persist2 = update(&mut s2, Msg::HideInitMessage(false));
    assert!(!s2.show_info);
    assert_eq!(
        persist2,
        Some(StoredState {
            show_info: Some(true)
        })
    );
}

#[test]
fn last_message_of_each_kind_wins() {
    let mut s = fresh_state();
    update(&mut s, Msg::ChooseLanguage(Language::C));
    update(&mut s, Msg::InputCode("first".to_string()));
    update(&mut s, Msg::ChooseLanguage(Language::Sql));
    update(&mut s, Msg::InputCode("second".to_string()));
    update(&mut s, Msg::InputCode("third".to_string()));
    assert!(matches!(s.programming_language, Some(Language::Sql)));
    assert_eq!(s.code, "third");
}

#[test]
fn replaying_a_message_is_a_no_op_on_state() {
    let mut s = fresh_state();
    update(&mut s, Msg::ChooseLanguage(Language::Java));
    update(&mut s, Msg::InputCode("x = 1".to_string()));
    let language_before = s.programming_language;
    let code_before = s.code.clone();
    let show_before = s.show_info;
    update(&mut s, Msg::ChooseLanguage(Language::Java));
    update(&mut s, Msg::InputCode("x = 1".to_string()));
    assert!(matches!(
        (language_before, s.programming_language),
        (Some(Language::Java), Some(Language::Java))
    ));
    assert_eq!(s.code, code_before);
    assert_eq!(s.show_info, show_before);
}

#[test]
fn store_codec_round_trips_every_record() {
    let records = [
        StoredState {
            show_info: Some(true),
        },
        StoredState {
            show_info: Some(false),
        },
        StoredState { show_info: None },
    ];
    for record in records {
        let encoded = encode_stored(&record);
        assert_eq!(decode_stored(&encoded), Some(record));
    }
}

#[test]
fn store_codec_exact_forms() {
    assert_eq!(
        encode_stored(&StoredState {
            show_info: Some(true)
        }),
        "{\"show_info\":true}"
    );
    assert_eq!(
        encode_stored(&StoredState {
            show_info: Some(false)
        }),
        "{\"show_info\":false}"
    );
    assert_eq!(
        encode_stored(&StoredState { show_info: None }),
        "{\"show_info\":null}"
    );
    assert_eq!(state_key(), "codestyle.state");
}

#[test]
fn store_decode_fails_soft_on_anything_else() {
    assert_eq!(decode_stored(""), None);
    assert_eq!(decode_stored("not json"), None);
    assert_eq!(decode_stored("{\"show_info\":tru}"), None);
    assert_eq!(decode_stored("{\"show_info\": true}"), None);
    assert_eq!(decode_stored("{\"other\":true}"), None);
}

#[test]
fn dismiss_permanently_keeps_intro_hidden_after_reload() {
    let mut s = fresh_state();
    let persist = update(&mut s, Msg::HideInitMessage(true));
    assert!(!s.show_info);
    // A fresh load re-reads what was written to the store.
    let written = encode_stored(&persist.unwrap());
    let reloaded = initial_state(decode_stored(&written));
    assert!(!reloaded.show_info);
}

#[test]
fn dismiss_once_lets_intro_show_again_after_reload() {
    let mut s = fresh_state();
    let persist = update(&mut s, Msg::HideInitMessage(false));
    assert!(!s.show_info);
    let written = encode_stored(&persist.unwrap());
    let reloaded = initial_state(decode_stored(&written));
    assert!(reloaded.show_info);
}

#[test]
fn empty_code_never_invokes_the_highlighter() {
    let mut s = fresh_state();
    update(&mut s, Msg::ChooseLanguage(Language::Python));
    assert!(!needs_highlight(&s));
    let mut doc = PreviewDoc::empty();
    render_preview(&mut doc, &s);
    handoff(&mut doc, &s);
    assert!(doc.containers.is_empty());
}

#[test]
fn no_language_means_raw_unclassed_preview() {
    let mut s = fresh_state();
    update(&mut s, Msg::InputCode("select 1;".to_string()));
    assert!(!needs_highlight(&s));
    let vm = view_model(&s);
    assert_eq!(vm.preview_class, "");
    assert_eq!(vm.preview_text, "select 1;");
    let mut doc = PreviewDoc::empty();
    render_preview(&mut doc, &s);
    handoff(&mut doc, &s);
    assert!(doc.containers.is_empty());
    assert_eq!(doc.preview_text, "select 1;");
    assert_eq!(doc.preview_class, "");
}

#[test]
fn scenario_python_then_java_swaps_the_single_container() {
    let mut s = fresh_state();
    let mut doc = PreviewDoc::empty();

    process_message(&mut s, &mut doc, Msg::ChooseLanguage(Language::Python));
    assert!(doc.containers.is_empty());

    process_message(&mut s, &mut doc, Msg::InputCode("print(1)".to_string()));
    assert_eq!(doc.preview_class, "python");
    assert_eq!(doc.containers.len(), 1);
    assert_eq!(doc.containers[0].class, "python");
    assert_eq!(doc.containers[0].content, "print(1)");

    process_message(&mut s, &mut doc, Msg::ChooseLanguage(Language::Java));
    assert_eq!(doc.containers.len(), 1);
    assert_eq!(doc.containers[0].class, "java");
    assert_eq!(doc.containers[0].content, "print(1)");
}

#[test]
fn containers_never_accumulate() {
    let mut s = fresh_state();
    let mut doc = PreviewDoc::empty();
    let languages = [
        Language::C,
        Language::CSharp,
        Language::Python,
        Language::Css,
        Language::Delphi,
        Language::VisualBasic,
        Language::Java,
        Language::JavaScript,
        Language::Ruby,
        Language::Sql,
        Language::Xml,
        Language::Php,
    ];
    for (i, language) in languages.iter().enumerate() {
        process_message(&mut s, &mut doc, Msg::ChooseLanguage(*language));
        assert!(doc.containers.len() <= 1);
        process_message(&mut s, &mut doc, Msg::InputCode(format!("line {i}")));
        assert!(doc.containers.len() <= 1);
        process_message(&mut s, &mut doc, Msg::InputCode(format!("line {i} again")));
        assert!(doc.containers.len() <= 1);
    }
    assert_eq!(doc.containers.len(), 1);
    assert_eq!(doc.containers[0].class, "php");
    assert_eq!(doc.containers[0].content, "line 11 again");
}

#[test]
fn dismissing_the_intro_leaves_the_preview_alone() {
    let mut s = fresh_state();
    let mut doc = PreviewDoc::empty();
    process_message(&mut s, &mut doc, Msg::ChooseLanguage(Language::Css));
    process_message(&mut s, &mut doc, Msg::InputCode("a { color: red }".to_string()));
    let before_class = doc.containers[0].class.clone();
    let before_content = doc.containers[0].content.clone();
    let persist = process_message(&mut s, &mut doc, Msg::HideInitMessage(true));
    assert!(persist.is_some());
    assert_eq!(doc.containers.len(), 1);
    assert_eq!(doc.containers[0].class, before_class);
    assert_eq!(doc.containers[0].content, before_content);
}

#[test]
fn view_model_reflects_the_state() {
    let mut s = fresh_state();
    let vm = view_model(&s);
    assert!(!vm.intro_hidden);
    assert!(vm.workbench_hidden);
    assert_eq!(vm.dropdown_label, "Select a Programming language ...");
    assert!(vm.dropdown_icon.is_none());
    assert_eq!(vm.preview_text, "Nothing to show...yet");
    assert_eq!(vm.preview_class, "");

    update(&mut s, Msg::HideInitMessage(false));
    update(&mut s, Msg::ChooseLanguage(Language::Python));
    update(&mut s, Msg::InputCode("print(1)".to_string()));
    let vm2 = view_model(&s);
    assert!(vm2.intro_hidden);
    assert!(!vm2.workbench_hidden);
    assert_eq!(vm2.dropdown_label, "  Python");
    assert_eq!(vm2.dropdown_icon.as_deref(), Some("./assets/images/python.png"));
    assert_eq!(vm2.preview_class, "python");
    assert_eq!(vm2.preview_text, "print(1)");
}
