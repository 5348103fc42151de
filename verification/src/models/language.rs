//! Programming languages that submissions may be written in.

use vstd::prelude::*;

verus! {

/// A language as the language store keeps it. `created_at` counts
/// microseconds since the Unix epoch.
#[derive(Debug)]
pub struct Language {
    pub name: String,
    pub display_name: String,
    pub file_extension: String,
    pub created_at: i64,
}

/// A language with its texts as sequences of characters.
pub struct LanguageView {
    pub name: Seq<char>,
    pub display_name: Seq<char>,
    pub file_extension: Seq<char>,
    pub created_at: i64,
}

impl View for Language {
    type V = LanguageView;

    open spec fn view(&self) -> LanguageView {
        LanguageView {
            name: self.name@,
            display_name: self.display_name@,
            file_extension: self.file_extension@,
            created_at: self.created_at,
        }
    }
}

impl DeepView for Language {
    type V = LanguageView;

    open spec fn deep_view(&self) -> LanguageView {
        self@
    }
}

impl Clone for Language {
    fn clone(&self) -> (r: Self)
        ensures
            r == *self,
    {
        Language {
            name: self.name.clone(),
            display_name: self.display_name.clone(),
            file_extension: self.file_extension.clone(),
            created_at: self.created_at,
        }
    }
}

/// What a new language is made of.
#[derive(Debug, Clone)]
pub struct CreateLanguageRequest {
    pub name: String,
    pub display_name: String,
    pub file_extension: String,
}

/// The fields of a language that a request replaces.
#[derive(Debug, Clone)]
pub struct UpdateLanguageRequest {
    pub display_name: Option<String>,
    pub file_extension: Option<String>,
}

} // verus!
