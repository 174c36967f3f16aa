use vstd::prelude::*;
use crate::language::Language;

verus! {

/// The parameters of one submission: which task, which file, in which
/// language, whether to send it archived, and under what name.
#[derive(Debug, PartialEq, Eq)]
pub struct TaskConfig {
    pub id: String,
    pub file: String,
    pub language: Language,
    pub to_zip: bool,
    pub rename_as: Option<String>,
}

/// What a `TaskConfig` holds, as mathematical values.
pub struct TaskConfigView {
    pub id: Seq<char>,
    pub file: Seq<char>,
    pub language: Language,
    pub to_zip: bool,
    pub rename_as: Option<Seq<char>>,
}

pub open spec fn opt_view(o: Option<String>) -> Option<Seq<char>> {
    match o {
        Some(s) => Some(s@),
        None => None,
    }
}

impl View for TaskConfig {
    type V = TaskConfigView;

    open spec fn view(&self) -> TaskConfigView {
        TaskConfigView {
            id: self.id@,
            file: self.file@,
            language: self.language,
            to_zip: self.to_zip,
            rename_as: opt_view(self.rename_as),
        }
    }
}

/// The configuration that stands where none was saved.
pub open spec fn blank_config() -> TaskConfigView {
    TaskConfigView {
        id: Seq::empty(),
        file: Seq::empty(),
        language: Language::Unsupported,
        to_zip: false,
        rename_as: None,
    }
}

impl TaskConfig {
    pub fn new(id: &str, file: &str, to_zip: bool, language: Language, rename_as: Option<String>) -> (r: TaskConfig)
        ensures
            r.id@ == id@,
            r.file@ == file@,
            r.to_zip == to_zip,
            r.language == language,
            r.rename_as == rename_as,
    {
        TaskConfig { id: id.to_owned(), file: file.to_owned(), language, to_zip, rename_as }
    }
}

impl Default for TaskConfig {
    fn default() -> (r: TaskConfig)
        ensures
            r@ == blank_config(),
    {
        TaskConfig {
            id: String::new(),
            file: String::new(),
            language: Language::Unsupported,
            to_zip: false,
            rename_as: None,
        }
    }
}

} // verus!
