use judge_engine::models::judge::LanguageConfig;
use judge_engine::models::judge::MEMORY_LIMIT_KB;
use judge_engine::models::language::Language;

fn language(name: &str, display_name: &str, file_extension: &str) -> Language {
    Language {
        name: name.to_string(),
        display_name: display_name.to_string(),
        file_extension: file_extension.to_string(),
        created_at: 1_700_000_000_000_000,
    }
}

#[test]
fn python_is_interpreted() {
    let config = LanguageConfig::from(language("python", "Python 3", ".py"));
    assert_eq!(config.name, "python");
    assert_eq!(config.display_name, "Python 3");
    assert_eq!(config.file_extension, ".py");
    assert_eq!(config.compile_command, None);
    assert_eq!(config.execute_command, "python3 solution.py");
    assert_eq!(config.time_limit, 5000);
    assert_eq!(config.memory_limit, 256 * 1024);
}

#[test]
fn c_is_compiled_and_has_three_seconds() {
    let config = LanguageConfig::from(language("c", "C", ".c"));
    assert_eq!(config.compile_command.as_deref(), Some("gcc -o solution solution.c"));
    assert_eq!(config.execute_command, "./solution");
    assert_eq!(config.time_limit, 3000);
    assert_eq!(config.memory_limit, 262144);
}

#[test]
fn rust_is_compiled() {
    let config = LanguageConfig::from(language("rust", "Rust", ".rs"));
    assert_eq!(config.compile_command.as_deref(), Some("rustc solution.rs -o solution"));
    assert_eq!(config.execute_command, "./solution");
    assert_eq!(config.time_limit, 5000);
}

#[test]
fn go_is_compiled() {
    let config = LanguageConfig::from(language("go", "Go", ".go"));
    assert_eq!(config.compile_command.as_deref(), Some("go build -o solution solution.go"));
    assert_eq!(config.execute_command, "./solution");
    assert_eq!(config.time_limit, 5000);
}

#[test]
fn typescript_is_compiled_and_run_by_node() {
    let config = LanguageConfig::from(language("typescript", "TypeScript", ".ts"));
    assert_eq!(config.compile_command.as_deref(), Some("tsc solution.ts"));
    assert_eq!(config.execute_command, "node solution.js");
    assert_eq!(config.time_limit, 5000);
}

#[test]
fn a_language_without_a_recipe_says_so_when_run() {
    let config = LanguageConfig::from(language("cobol", "COBOL", ".cbl"));
    assert_eq!(config.name, "cobol");
    assert_eq!(config.compile_command, None);
    assert_eq!(config.execute_command, "echo 'Unsupported language: cobol'");
    assert_eq!(config.time_limit, 5000);
    assert_eq!(config.memory_limit, MEMORY_LIMIT_KB);
}

#[test]
fn names_are_matched_exactly() {
    let config = LanguageConfig::from(language("Python", "Python", ".py"));
    assert_eq!(config.execute_command, "echo 'Unsupported language: Python'");
    let config = LanguageConfig::from(language("", "", ""));
    assert_eq!(config.execute_command, "echo 'Unsupported language: '");
}
