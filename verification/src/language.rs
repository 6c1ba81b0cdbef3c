//! The catalog of supported source languages.
//!
//! Each language maps statically to a display name, the class tag the
//! external highlighter recognizes, and an icon asset path. The mapping is
//! pure data and total: every language has a complete entry.

use vstd::prelude::*;

verus! {

/// A supported source language, identified for highlighting purposes only.
#[derive(Clone, Copy, PartialEq, Eq, Structural, Debug)]
pub enum Language {
    C,
    CSharp,
    Python,
    Css,
    Delphi,
    VisualBasic,
    Java,
    JavaScript,
    Ruby,
    Sql,
    Xml,
    Php,
}

impl Language {
    /// The class tag the highlighter recognizes, as a mathematical string.
    pub open spec fn spec_class(self) -> Seq<char> {
        match self {
            Language::C => "cpp"@,
            Language::CSharp => "csharp"@,
            Language::Python => "python"@,
            Language::Css => "css"@,
            Language::Delphi => "delphi"@,
            Language::VisualBasic => "vb"@,
            Language::Java => "java"@,
            Language::JavaScript => "js"@,
            Language::Ruby => "ruby"@,
            Language::Sql => "sql"@,
            Language::Xml => "xml"@,
            Language::Php => "php"@,
        }
    }

    /// The human-readable name shown in the dropdown.
    pub open spec fn spec_name(self) -> Seq<char> {
        match self {
            Language::C => "C / C++"@,
            Language::CSharp => "C#"@,
            Language::Python => "Python"@,
            Language::Css => "CSS"@,
            Language::Delphi => "Delphi"@,
            Language::VisualBasic => "VisualBasic"@,
            Language::Java => "Java"@,
            Language::JavaScript => "JavaScript"@,
            Language::Ruby => "Ruby"@,
            Language::Sql => "SQL"@,
            Language::Xml => "HTML / XML"@,
            Language::Php => "PHP"@,
        }
    }

    /// The icon asset path shown beside the language.
    pub open spec fn spec_file_path(self) -> Seq<char> {
        match self {
            Language::C => "./assets/images/cpp.png"@,
            Language::CSharp => "./assets/images/csharp.png"@,
            Language::Python => "./assets/images/python.png"@,
            Language::Css => "./assets/images/css.png"@,
            Language::Delphi => "./assets/images/delphi.png"@,
            Language::VisualBasic => "./assets/images/viauslbasic.svg"@,
            Language::Java => "./assets/images/java.png"@,
            Language::JavaScript => "./assets/images/javascript.png"@,
            Language::Ruby => "./assets/images/ruby.png"@,
            Language::Sql => "./assets/images/sql.png"@,
            Language::Xml => "./assets/images/html.png"@,
            Language::Php => "./assets/images/php.png"@,
        }
    }

    /// The class tag the highlighter recognizes for this language.
    pub fn to_class(self) -> (r: String)
        ensures
            r@ == self.spec_class(),
    {
        match self {
            Language::C => "cpp".to_owned(),
            Language::CSharp => "csharp".to_owned(),
            Language::Python => "python".to_owned(),
            Language::Css => "css".to_owned(),
            Language::Delphi => "delphi".to_owned(),
            Language::VisualBasic => "vb".to_owned(),
            Language::Java => "java".to_owned(),
            Language::JavaScript => "js".to_owned(),
            Language::Ruby => "ruby".to_owned(),
            Language::Sql => "sql".to_owned(),
            Language::Xml => "xml".to_owned(),
            Language::Php => "php".to_owned(),
        }
    }

    /// The human-readable name shown in the dropdown.
    pub fn to_name(self) -> (r: String)
        ensures
            r@ == self.spec_name(),
    {
        match self {
            Language::C => "C / C++".to_owned(),
            Language::CSharp => "C#".to_owned(),
            Language::Python => "Python".to_owned(),
            Language::Css => "CSS".to_owned(),
            Language::Delphi => "Delphi".to_owned(),
            Language::VisualBasic => "VisualBasic".to_owned(),
            Language::Java => "Java".to_owned(),
            Language::JavaScript => "JavaScript".to_owned(),
            Language::Ruby => "Ruby".to_owned(),
            Language::Sql => "SQL".to_owned(),
            Language::Xml => "HTML / XML".to_owned(),
            Language::Php => "PHP".to_owned(),
        }
    }

    /// The icon asset path for this language.
    pub fn to_file_path(self) -> (r: String)
        ensures
            r@ == self.spec_file_path(),
    {
        match self {
            Language::C => "./assets/images/cpp.png".to_owned(),
            Language::CSharp => "./assets/images/csharp.png".to_owned(),
            Language::Python => "./assets/images/python.png".to_owned(),
            Language::Css => "./assets/images/css.png".to_owned(),
            Language::Delphi => "./assets/images/delphi.png".to_owned(),
            Language::VisualBasic => "./assets/images/viauslbasic.svg".to_owned(),
            Language::Java => "./assets/images/java.png".to_owned(),
            Language::JavaScript => "./assets/images/javascript.png".to_owned(),
            Language::Ruby => "./assets/images/ruby.png".to_owned(),
            Language::Sql => "./assets/images/sql.png".to_owned(),
            Language::Xml => "./assets/images/html.png".to_owned(),
            Language::Php => "./assets/images/php.png".to_owned(),
        }
    }
}

/// Whether `s` is the class tag of some supported language, i.e. a tag the
/// external highlighter acts on.
pub open spec fn is_highlight_class(s: Seq<char>) -> bool {
    exists|l: Language| l.spec_class() == s
}

} // verus!
