//! The execution trail and the recipe by which a language is run.

use crate::models::language::Language;
use crate::models::language::LanguageView;
use crate::models::submission::clone_text;
use crate::models::submission::SubmissionStatus;
use crate::text::joined;
use crate::text::same_text;
use uuid::Uuid;
use vstd::prelude::*;

verus! {

/// One record of the execution trail as the log store keeps it.
/// `created_at` counts microseconds since the Unix epoch.
#[derive(Debug)]
pub struct ExecutionLog {
    pub id: Uuid,
    pub submission_id: Uuid,
    pub language: String,
    pub execution_time: Option<i32>,
    pub memory_used: Option<i32>,
    pub exit_code: Option<i32>,
    pub stdout: Option<String>,
    pub stderr: Option<String>,
    pub status: SubmissionStatus,
    pub error_message: Option<String>,
    pub created_at: i64,
}

impl Clone for ExecutionLog {
    fn clone(&self) -> (r: Self)
        ensures
            r == *self,
    {
        ExecutionLog {
            id: self.id,
            submission_id: self.submission_id,
            language: self.language.clone(),
            execution_time: self.execution_time,
            memory_used: self.memory_used,
            exit_code: self.exit_code,
            stdout: clone_text(&self.stdout),
            stderr: clone_text(&self.stderr),
            status: self.status,
            error_message: clone_text(&self.error_message),
            created_at: self.created_at,
        }
    }
}

/// One record to append to the execution trail: what one attempt, or one
/// failure before any attempt, left behind.
#[derive(Debug)]
pub struct CreateExecutionLogRequest {
    pub submission_id: Uuid,
    pub language: String,
    pub execution_time: Option<i32>,
    pub memory_used: Option<i32>,
    pub exit_code: Option<i32>,
    pub stdout: Option<String>,
    pub stderr: Option<String>,
    pub status: SubmissionStatus,
    pub error_message: Option<String>,
}

/// A record to append, with its texts as sequences of characters.
pub struct ExecutionLogEntry {
    pub submission_id: Uuid,
    pub language: Seq<char>,
    pub execution_time: Option<i32>,
    pub memory_used: Option<i32>,
    pub exit_code: Option<i32>,
    pub stdout: Option<Seq<char>>,
    pub stderr: Option<Seq<char>>,
    pub status: SubmissionStatus,
    pub error_message: Option<Seq<char>>,
}

impl View for CreateExecutionLogRequest {
    type V = ExecutionLogEntry;

    open spec fn view(&self) -> ExecutionLogEntry {
        ExecutionLogEntry {
            submission_id: self.submission_id,
            language: self.language@,
            execution_time: self.execution_time,
            memory_used: self.memory_used,
            exit_code: self.exit_code,
            stdout: self.stdout.deep_view(),
            stderr: self.stderr.deep_view(),
            status: self.status,
            error_message: self.error_message.deep_view(),
        }
    }
}

impl Clone for CreateExecutionLogRequest {
    fn clone(&self) -> (r: Self)
        ensures
            r == *self,
    {
        CreateExecutionLogRequest {
            submission_id: self.submission_id,
            language: self.language.clone(),
            execution_time: self.execution_time,
            memory_used: self.memory_used,
            exit_code: self.exit_code,
            stdout: clone_text(&self.stdout),
            stderr: clone_text(&self.stderr),
            status: self.status,
            error_message: clone_text(&self.error_message),
        }
    }
}

/// The recipe for running code in one language: the extension of its source
/// file, the command that builds it, if it is built, the command that runs
/// it, and its limits in milliseconds and kilobytes.
#[derive(Debug)]
pub struct LanguageConfig {
    pub name: String,
    pub display_name: String,
    pub file_extension: String,
    pub compile_command: Option<String>,
    pub execute_command: String,
    pub time_limit: i32,
    pub memory_limit: i32,
}

/// A recipe with its texts as sequences of characters.
pub struct LanguageConfigView {
    pub name: Seq<char>,
    pub display_name: Seq<char>,
    pub file_extension: Seq<char>,
    pub compile_command: Option<Seq<char>>,
    pub execute_command: Seq<char>,
    pub time_limit: i32,
    pub memory_limit: i32,
}

impl View for LanguageConfig {
    type V = LanguageConfigView;

    open spec fn view(&self) -> LanguageConfigView {
        LanguageConfigView {
            name: self.name@,
            display_name: self.display_name@,
            file_extension: self.file_extension@,
            compile_command: self.compile_command.deep_view(),
            execute_command: self.execute_command@,
            time_limit: self.time_limit,
            memory_limit: self.memory_limit,
        }
    }
}

impl Clone for LanguageConfig {
    fn clone(&self) -> (r: Self)
        ensures
            r == *self,
    {
        LanguageConfig {
            name: self.name.clone(),
            display_name: self.display_name.clone(),
            file_extension: self.file_extension.clone(),
            compile_command: clone_text(&self.compile_command),
            execute_command: self.execute_command.clone(),
            time_limit: self.time_limit,
            memory_limit: self.memory_limit,
        }
    }
}

/// The memory limit of every language, in kilobytes.
pub const MEMORY_LIMIT_KB: i32 = 262144;

/// The command that builds a program in the language `name`, where the
/// language is built before it is run.
pub open spec fn compile_command_of(name: Seq<char>) -> Option<Seq<char>> {
    if name == "c"@ {
        Some("gcc -o solution solution.c"@)
    } else if name == "rust"@ {
        Some("rustc solution.rs -o solution"@)
    } else if name == "go"@ {
        Some("go build -o solution solution.go"@)
    } else if name == "typescript"@ {
        Some("tsc solution.ts"@)
    } else {
        None
    }
}

/// The command that runs a program in the language `name`. For a language
/// without a recipe it prints that the language is unsupported.
pub open spec fn execute_command_of(name: Seq<char>) -> Seq<char> {
    if name == "python"@ {
        "python3 solution.py"@
    } else if name == "c"@ || name == "rust"@ || name == "go"@ {
        "./solution"@
    } else if name == "typescript"@ {
        "node solution.js"@
    } else {
        "echo 'Unsupported language: "@ + name + "'"@
    }
}

/// The time limit of the language `name`, in milliseconds.
pub open spec fn time_limit_of(name: Seq<char>) -> i32 {
    if name == "c"@ {
        3000
    } else {
        5000
    }
}

/// The recipe of a language.
pub open spec fn config_of(language: LanguageView) -> LanguageConfigView {
    LanguageConfigView {
        name: language.name,
        display_name: language.display_name,
        file_extension: language.file_extension,
        compile_command: compile_command_of(language.name),
        execute_command: execute_command_of(language.name),
        time_limit: time_limit_of(language.name),
        memory_limit: MEMORY_LIMIT_KB,
    }
}

impl LanguageConfig {
    /// The recipe of a language: its commands and limits go by its name, the
    /// rest is taken over.
    pub fn from(lang: Language) -> (config: Self)
        ensures
            config@ == config_of(lang@),
    {
        let name = lang.name.as_str();
        let is_c = same_text(name, "c");
        let compile_command: Option<String> = if is_c {
            Some(String::from_str("gcc -o solution solution.c"))
        } else if same_text(name, "rust") {
            Some(String::from_str("rustc solution.rs -o solution"))
        } else if same_text(name, "go") {
            Some(String::from_str("go build -o solution solution.go"))
        } else if same_text(name, "typescript") {
            Some(String::from_str("tsc solution.ts"))
        } else {
            None
        };
        let execute_command: String = if same_text(name, "python") {
            String::from_str("python3 solution.py")
        } else if is_c || same_text(name, "rust") || same_text(name, "go") {
            String::from_str("./solution")
        } else if same_text(name, "typescript") {
            String::from_str("node solution.js")
        } else {
            let quoted = joined("echo 'Unsupported language: ", name);
            joined(quoted.as_str(), "'")
        };
        let time_limit: i32 = if is_c {
            3000
        } else {
            5000
        };
        LanguageConfig {
            name: lang.name,
            display_name: lang.display_name,
            file_extension: lang.file_extension,
            compile_command,
            execute_command,
            time_limit,
            memory_limit: MEMORY_LIMIT_KB,
        }
    }
}

/// The recipe of the language that a lookup found, if it found one.
pub fn language_config(found: Option<Language>) -> (config: Option<LanguageConfig>)
    ensures
        found is None ==> config is None,
        found is Some ==> config is Some && config->0@ == config_of(found->0@),
{
    match found {
        Some(language) => Some(LanguageConfig::from(language)),
        None => None,
    }
}

} // verus!
