//! The rules for languages.

use crate::errors::service::ServiceError;
use crate::models::language::CreateLanguageRequest;
use crate::models::language::Language;
use crate::models::language::UpdateLanguageRequest;
use crate::services::rules::decides;
use crate::services::rules::quote;
use crate::services::rules::quoted;
use crate::services::rules::refuse;
use crate::text::blank;
use crate::text::identifier;
use crate::text::is_blank;
use crate::text::is_identifier;
use crate::text::starts_with_char;
use vstd::prelude::*;

verus! {

/// Whether a file extension begins with a dot.
pub open spec fn dotted(extension: Seq<char>) -> bool {
    extension.len() > 0 && extension[0] == '.'
}

/// What is wrong with a new language, if anything: the first of its name,
/// display name and file extension that is blank, then a name that is no
/// identifier, then a file extension without its dot.
pub open spec fn new_language_fault(
    name: Seq<char>,
    display_name: Seq<char>,
    file_extension: Seq<char>,
) -> Option<Seq<char>> {
    if blank(name) {
        Some("Language name cannot be empty"@)
    } else if blank(display_name) {
        Some("Display name cannot be empty"@)
    } else if blank(file_extension) {
        Some("File extension cannot be empty"@)
    } else if !identifier(name) {
        Some(
            "Language name must be lowercase and contain only alphanumeric characters, underscores, or hyphens"@,
        )
    } else if !dotted(file_extension) {
        Some("File extension must start with a dot (e.g., .py, .js)"@)
    } else {
        None
    }
}

/// What is wrong with a new file extension, if anything.
pub open spec fn file_extension_fault(file_extension: Seq<char>) -> Option<Seq<char>> {
    if blank(file_extension) {
        Some("File extension cannot be empty"@)
    } else if !dotted(file_extension) {
        Some("File extension must start with a dot (e.g., .py, .js)"@)
    } else {
        None
    }
}

/// What is wrong with a change to a language, if anything: a display name
/// that is given and blank, then a file extension that is given and blank or
/// without its dot.
pub open spec fn language_update_fault(
    display_name: Option<Seq<char>>,
    file_extension: Option<Seq<char>>,
) -> Option<Seq<char>> {
    if display_name is Some && blank(display_name->0) {
        Some("Display name cannot be empty"@)
    } else if file_extension is Some {
        file_extension_fault(file_extension->0)
    } else {
        None
    }
}

/// Holds a new language to the rules.
pub fn validate_new_language(request: &CreateLanguageRequest) -> (result: Result<(), ServiceError>)
    ensures
        decides(
            result,
            new_language_fault(request.name@, request.display_name@, request.file_extension@),
        ),
{
    if is_blank(request.name.as_str()) {
        refuse("Language name cannot be empty")
    } else if is_blank(request.display_name.as_str()) {
        refuse("Display name cannot be empty")
    } else if is_blank(request.file_extension.as_str()) {
        refuse("File extension cannot be empty")
    } else if !is_identifier(request.name.as_str()) {
        refuse(
            "Language name must be lowercase and contain only alphanumeric characters, underscores, or hyphens",
        )
    } else if !starts_with_char(request.file_extension.as_str(), '.') {
        refuse("File extension must start with a dot (e.g., .py, .js)")
    } else {
        Ok(())
    }
}

/// Holds a change to a language to the rules.
pub fn validate_language_update(update: &UpdateLanguageRequest) -> (result: Result<
    (),
    ServiceError,
>)
    ensures
        decides(
            result,
            language_update_fault(update.display_name.deep_view(), update.file_extension.deep_view()),
        ),
{
    if let Some(display_name) = &update.display_name {
        if is_blank(display_name.as_str()) {
            return refuse("Display name cannot be empty");
        }
    }
    if let Some(file_extension) = &update.file_extension {
        if is_blank(file_extension.as_str()) {
            return refuse("File extension cannot be empty");
        }
        if !starts_with_char(file_extension.as_str(), '.') {
            return refuse("File extension must start with a dot (e.g., .py, .js)");
        }
    }
    Ok(())
}

/// The refusal of a language whose name is taken.
pub fn language_exists(name: &str) -> (error: ServiceError)
    ensures
        error matches ServiceError::ConflictError(m) && m@ == quoted(
            "Language '"@,
            name@,
            "' already exists"@,
        ),
{
    ServiceError::ConflictError(quote("Language '", name, "' already exists"))
}

/// The refusal of a request for a language that is not there.
pub fn language_not_found(name: &str) -> (error: ServiceError)
    ensures
        error matches ServiceError::NotFoundError(m) && m@ == quoted(
            "Language '"@,
            name@,
            "' not found"@,
        ),
{
    ServiceError::NotFoundError(quote("Language '", name, "' not found"))
}

/// The names of the given languages, in order.
pub fn language_names(languages: Vec<Language>) -> (names: Vec<String>)
    ensures
        names.len() == languages.len(),
        forall|i: int| 0 <= i < names.len() ==> (#[trigger] names[i])@ == languages[i].name@,
{
    let mut names: Vec<String> = Vec::new();
    let mut i: usize = 0;
    while i < languages.len()
        invariant
            i <= languages.len(),
            names.len() == i,
            forall|k: int| 0 <= k < i ==> (#[trigger] names[k])@ == languages[k].name@,
        decreases languages.len() - i,
    {
        names.push(languages[i].name.clone());
        i += 1;
    }
    names
}

} // verus!
