use judge_engine::errors::service::ServiceError;
use judge_engine::models::language::CreateLanguageRequest;
use judge_engine::models::language::Language;
use judge_engine::models::language::UpdateLanguageRequest;
use judge_engine::models::problem::CreateProblemRequest;
use judge_engine::models::problem::DifficultyLevel;
use judge_engine::models::problem::Problem;
use judge_engine::models::submission::CreateSubmissionRequest;
use judge_engine::models::submission::Submission;
use judge_engine::models::submission::SubmissionStatus;
use judge_engine::models::tag::CreateTagRequest;
use judge_engine::models::test_case::CreateTestCaseRequest;
use judge_engine::models::user::CreateUserRequest;
use judge_engine::models::user::UpdateUserRequest;
use judge_engine::models::user::User;
use judge_engine::models::user::UserRole;
use judge_engine::services::language::language_exists;
use judge_engine::services::language::language_names;
use judge_engine::services::language::language_not_found;
use judge_engine::services::language::validate_language_update;
use judge_engine::services::language::validate_new_language;
use judge_engine::services::problem::slug_exists;
use judge_engine::services::problem::slug_taken_by_other;
use judge_engine::services::problem::validate_description;
use judge_engine::services::problem::validate_new_problem;
use judge_engine::services::problem::validate_search_query;
use judge_engine::services::problem::validate_slug;
use judge_engine::services::problem::validate_slug_present;
use judge_engine::services::problem::validate_title;
use judge_engine::services::submission::count_with_status;
use judge_engine::services::submission::validate_new_submission;
use judge_engine::services::tag::has_name;
use judge_engine::services::tag::names_absent_from;
use judge_engine::services::tag::tag_exists;
use judge_engine::services::tag::tag_not_assigned;
use judge_engine::services::tag::tag_not_found;
use judge_engine::services::tag::validate_new_tag;
use judge_engine::services::tag::validate_popular_limit;
use judge_engine::services::test_case::validate_batch;
use judge_engine::services::test_case::validate_batch_formats;
use judge_engine::services::test_case::validate_test_case_format;
use judge_engine::services::user::user_profile;
use judge_engine::services::user::validate_new_user;
use judge_engine::services::user::validate_user_update;
use judge_engine::text::is_blank;
use judge_engine::text::is_identifier;
use judge_engine::text::is_slug;
use judge_engine::text::contains_char;
use judge_engine::text::starts_with_char;
use uuid::Uuid;

fn refused(result: Result<(), ServiceError>) -> String {
    match result {
        Err(ServiceError::ValidationError(message)) => message,
        other => panic!("expected a refusal, got {:?}", other),
    }
}

fn new_language(name: &str, display_name: &str, file_extension: &str) -> CreateLanguageRequest {
    CreateLanguageRequest {
        name: name.to_string(),
        display_name: display_name.to_string(),
        file_extension: file_extension.to_string(),
    }
}

#[test]
fn blank_texts_are_those_that_trim_to_nothing() {
    for s in ["", " ", "\t\r\n", "\u{00A0}\u{3000}", " a ", "a", "\u{200B}"].iter() {
        assert_eq!(is_blank(s), s.trim().is_empty(), "{:?}", s);
    }
}

#[test]
fn identifiers_are_lowercase_letters_digits_underscores_and_hyphens() {
    for s in ["", "python", "c", "my-lang_2", "Python", "c++", "go lang", "ünï", "a1", "1", "_", "-", "ß"]
        .iter()
    {
        let expected =
            s.chars().all(|c| c.is_lowercase() && (c.is_alphanumeric() || c == '_' || c == '-'));
        assert_eq!(is_identifier(s), expected, "{:?}", s);
    }
    assert!(is_identifier("python"));
    assert!(!is_identifier("Python"));
    assert!(!is_identifier("a1"));
}

#[test]
fn slugs_are_letters_digits_and_hyphens() {
    for s in ["", "two-sum", "Two-Sum-2", "two sum", "two_sum", "été", "a/b"].iter() {
        let expected = s.chars().all(|c| c.is_alphanumeric() || c == '-');
        assert_eq!(is_slug(s), expected, "{:?}", s);
    }
    assert!(is_slug("Two-Sum-2"));
    assert!(!is_slug("two_sum"));
}

#[test]
fn characters_are_found_in_texts() {
    assert!(contains_char("a@b", '@'));
    assert!(!contains_char("ab", '@'));
    assert!(!contains_char("", '@'));
    assert!(starts_with_char(".py", '.'));
    assert!(!starts_with_char("py.", '.'));
    assert!(!starts_with_char("", '.'));
}

#[test]
fn a_well_formed_language_passes() {
    assert!(validate_new_language(&new_language("python", "Python 3", ".py")).is_ok());
}

#[test]
fn a_new_language_is_held_to_its_rules_in_order() {
    assert_eq!(
        refused(validate_new_language(&new_language(" ", "", "py"))),
        "Language name cannot be empty"
    );
    assert_eq!(
        refused(validate_new_language(&new_language("Python", " ", "py"))),
        "Display name cannot be empty"
    );
    assert_eq!(
        refused(validate_new_language(&new_language("Python", "Python", "\t"))),
        "File extension cannot be empty"
    );
    assert_eq!(
        refused(validate_new_language(&new_language("Python", "Python", "py"))),
        "Language name must be lowercase and contain only alphanumeric characters, underscores, or hyphens"
    );
    assert_eq!(
        refused(validate_new_language(&new_language("python", "Python", "py"))),
        "File extension must start with a dot (e.g., .py, .js)"
    );
}

#[test]
fn a_language_update_is_held_to_its_rules() {
    let update = |d: Option<&str>, e: Option<&str>| UpdateLanguageRequest {
        display_name: d.map(|s| s.to_string()),
        file_extension: e.map(|s| s.to_string()),
    };
    assert!(validate_language_update(&update(None, None)).is_ok());
    assert!(validate_language_update(&update(Some("Python"), Some(".py"))).is_ok());
    assert_eq!(
        refused(validate_language_update(&update(Some(" "), Some("py")))),
        "Display name cannot be empty"
    );
    assert_eq!(
        refused(validate_language_update(&update(None, Some(" ")))),
        "File extension cannot be empty"
    );
    assert_eq!(
        refused(validate_language_update(&update(Some("P"), Some("py")))),
        "File extension must start with a dot (e.g., .py, .js)"
    );
}

#[test]
fn language_refusals_name_the_language() {
    assert!(matches!(
        language_exists("python"),
        ServiceError::ConflictError(m) if m == "Language 'python' already exists"
    ));
    assert!(matches!(
        language_not_found("cobol"),
        ServiceError::NotFoundError(m) if m == "Language 'cobol' not found"
    ));
}

#[test]
fn language_names_are_listed_in_order() {
    let language = |name: &str| Language {
        name: name.to_string(),
        display_name: name.to_uppercase(),
        file_extension: ".x".to_string(),
        created_at: 0,
    };
    assert_eq!(
        language_names(vec![language("python"), language("c"), language("go")]),
        vec!["python", "c", "go"]
    );
    assert_eq!(language_names(Vec::new()), Vec::<String>::new());
}

#[test]
fn a_new_problem_is_held_to_its_rules_in_order() {
    let problem = |t: &str, s: &str, d: &str| CreateProblemRequest {
        title: t.to_string(),
        slug: s.to_string(),
        description: d.to_string(),
        difficulty: DifficultyLevel::Easy,
    };
    assert!(validate_new_problem(&problem("Two Sum", "two-sum", "Add.")).is_ok());
    assert!(validate_new_problem(&problem("Two Sum", "two sum", "Add.")).is_ok());
    assert_eq!(refused(validate_new_problem(&problem(" ", "", ""))), "Title cannot be empty");
    assert_eq!(refused(validate_new_problem(&problem("T", " ", ""))), "Slug cannot be empty");
    assert_eq!(
        refused(validate_new_problem(&problem("T", "s", "\n"))),
        "Description cannot be empty"
    );
}

#[test]
fn the_parts_of_a_problem_are_held_to_their_rules() {
    assert!(validate_slug("two-sum").is_ok());
    assert_eq!(
        refused(validate_slug("two sum")),
        "Slug can only contain alphanumeric characters and hyphens"
    );
    assert!(validate_title("T").is_ok());
    assert_eq!(refused(validate_title(" ")), "Title cannot be empty");
    assert!(validate_slug_present("s").is_ok());
    assert_eq!(refused(validate_slug_present("")), "Slug cannot be empty");
    assert!(validate_description("d").is_ok());
    assert_eq!(refused(validate_description("\t")), "Description cannot be empty");
    assert!(validate_search_query("sum").is_ok());
    assert_eq!(refused(validate_search_query("  ")), "Search query cannot be empty");
}

#[test]
fn a_slug_is_taken_only_by_another_problem() {
    let problem = Problem {
        id: Uuid::from_u128(5),
        title: "T".to_string(),
        slug: "t".to_string(),
        description: "d".to_string(),
        difficulty: DifficultyLevel::Hard,
        created_at: 0,
        updated_at: 0,
    };
    assert!(!slug_taken_by_other(&None, Uuid::from_u128(5)));
    assert!(!slug_taken_by_other(&Some(problem.clone()), Uuid::from_u128(5)));
    assert!(slug_taken_by_other(&Some(problem), Uuid::from_u128(6)));
    assert!(matches!(
        slug_exists(),
        ServiceError::ConflictError(m) if m == "A problem with this slug already exists"
    ));
}

#[test]
fn a_new_tag_is_held_to_its_rules() {
    let tag = |name: &str| CreateTagRequest { name: name.to_string(), description: None };
    assert!(validate_new_tag(&tag("graphs")).is_ok());
    assert_eq!(refused(validate_new_tag(&tag(" "))), "Tag name cannot be empty");
    assert_eq!(
        refused(validate_new_tag(&tag("dynamic-programming"))),
        "Tag name must be lowercase and contain only alphanumeric characters, hyphens, or underscores"
    );
    assert_eq!(
        refused(validate_new_tag(&tag("Graphs"))),
        "Tag name must be lowercase and contain only alphanumeric characters, hyphens, or underscores"
    );
}

#[test]
fn the_number_of_popular_tags_must_be_positive() {
    assert!(validate_popular_limit(None).is_ok());
    assert!(validate_popular_limit(Some(1)).is_ok());
    assert_eq!(refused(validate_popular_limit(Some(0))), "Limit must be greater than 0");
    assert_eq!(refused(validate_popular_limit(Some(-3))), "Limit must be greater than 0");
}

#[test]
fn tag_refusals_name_the_tag() {
    assert!(matches!(
        tag_exists("dp"),
        ServiceError::ConflictError(m) if m == "Tag 'dp' already exists"
    ));
    assert!(matches!(
        tag_not_found("dp"),
        ServiceError::NotFoundError(m) if m == "Tag 'dp' not found"
    ));
    assert!(matches!(
        tag_not_assigned("dp"),
        ServiceError::NotFoundError(m) if m == "Tag 'dp' is not assigned to this problem"
    ));
}

#[test]
fn replacing_tags_takes_away_and_adds_what_differs() {
    let names = |v: &[&str]| v.iter().map(|s| s.to_string()).collect::<Vec<String>>();
    let current = names(&["arrays", "dp", "graphs"]);
    let wanted = names(&["dp", "math", "math", "trees"]);
    assert_eq!(names_absent_from(&current, &wanted), names(&["arrays", "graphs"]));
    assert_eq!(names_absent_from(&wanted, &current), names(&["math", "math", "trees"]));
    assert_eq!(names_absent_from(&current, &current), Vec::<String>::new());
    assert_eq!(names_absent_from(&current, &Vec::new()), current);
    assert_eq!(names_absent_from(&Vec::new(), &current), Vec::<String>::new());
    assert!(has_name(&current, &"dp".to_string()));
    assert!(!has_name(&current, &"DP".to_string()));
}

#[test]
fn a_test_case_is_held_to_its_rules_in_order() {
    assert!(validate_test_case_format("1 2", "3").is_ok());
    assert_eq!(refused(validate_test_case_format(" ", " ")), "Input data cannot be empty");
    assert_eq!(refused(validate_test_case_format("1", "\n")), "Expected output cannot be empty");
    let large = "x".repeat(1024 * 1024 + 1);
    let limit = "x".repeat(1024 * 1024);
    assert_eq!(
        refused(validate_test_case_format(&large, &large)),
        "Input data too large (max 1MB)"
    );
    assert_eq!(
        refused(validate_test_case_format("1", &large)),
        "Expected output too large (max 1MB)"
    );
    assert!(validate_test_case_format(&limit, &limit).is_ok());
}

#[test]
fn the_size_of_a_test_case_is_counted_in_bytes() {
    let wide = "é".repeat(1024 * 512 + 1);
    assert_eq!(refused(validate_test_case_format(&wide, "1")), "Input data too large (max 1MB)");
    let fits = "é".repeat(1024 * 512);
    assert!(validate_test_case_format(&fits, "1").is_ok());
}

#[test]
fn a_batch_of_test_cases_is_held_to_its_rules() {
    let case = |problem: u128, input: &str, expected: &str| CreateTestCaseRequest {
        problem_id: Uuid::from_u128(problem),
        input_data: input.to_string(),
        expected_output: expected.to_string(),
        is_sample: false,
    };
    assert_eq!(refused(validate_batch(&Vec::new())), "No test cases provided");
    assert!(validate_batch(&vec![case(1, "", "")]).is_ok());
    assert!(validate_batch(&vec![case(1, "a", "b"), case(1, "c", "d")]).is_ok());
    assert_eq!(
        refused(validate_batch(&vec![case(1, "a", "b"), case(1, "c", "d"), case(2, "e", "f")])),
        "All test cases must belong to the same problem"
    );
    assert!(validate_batch_formats(&Vec::new()).is_ok());
    assert!(validate_batch_formats(&vec![case(1, "a", "b"), case(1, "c", "d")]).is_ok());
    assert_eq!(
        refused(validate_batch_formats(&vec![case(1, "a", "b"), case(1, "c", " "), case(1, " ", "f")])),
        "Expected output cannot be empty"
    );
    assert_eq!(
        refused(validate_batch_formats(&vec![case(1, " ", "b")])),
        "Input data cannot be empty"
    );
}

#[test]
fn a_new_submission_is_held_to_its_rules() {
    let submission = |code: &str| CreateSubmissionRequest {
        user_id: Uuid::from_u128(1),
        problem_id: Uuid::from_u128(2),
        language_id: "python".to_string(),
        code: code.to_string(),
    };
    assert!(validate_new_submission(&submission("print(1)")).is_ok());
    assert_eq!(refused(validate_new_submission(&submission(" \n"))), "Code cannot be empty");
    assert!(validate_new_submission(&submission(&"x".repeat(65536))).is_ok());
    assert_eq!(
        refused(validate_new_submission(&submission(&"x".repeat(65537)))),
        "Code size exceeds limit"
    );
}

fn judged(status: SubmissionStatus) -> Submission {
    Submission {
        id: Uuid::from_u128(1),
        user_id: Uuid::from_u128(2),
        problem_id: Uuid::from_u128(3),
        language_id: "python".to_string(),
        code: "x".to_string(),
        status,
        execution_time: None,
        memory_used: None,
        error_message: None,
        created_at: 0,
    }
}

#[test]
fn submissions_are_counted_by_verdict() {
    let all = vec![
        judged(SubmissionStatus::Accepted),
        judged(SubmissionStatus::WrongAnswer),
        judged(SubmissionStatus::Accepted),
        judged(SubmissionStatus::RuntimeError),
        judged(SubmissionStatus::Accepted),
    ];
    assert_eq!(count_with_status(&all, SubmissionStatus::Accepted), 3);
    assert_eq!(count_with_status(&all, SubmissionStatus::WrongAnswer), 1);
    assert_eq!(count_with_status(&all, SubmissionStatus::TimeLimitExceeded), 0);
    assert_eq!(count_with_status(&all, SubmissionStatus::RuntimeError), 1);
    assert_eq!(count_with_status(&Vec::new(), SubmissionStatus::Accepted), 0);
}

#[test]
fn a_new_user_is_held_to_its_rules_in_order() {
    let user = |name: &str, email: &str| CreateUserRequest {
        username: name.to_string(),
        email: email.to_string(),
        password_hash: "secret".to_string(),
        role: UserRole::User,
    };
    assert!(validate_new_user(&user("ada", "ada@example.org")).is_ok());
    assert!(validate_new_user(&user("é1", "@")).is_ok());
    assert_eq!(
        refused(validate_new_user(&user("ab", ""))),
        "Username must be at least 3 characters"
    );
    assert_eq!(refused(validate_new_user(&user("ada", ""))), "Invalid email format");
    assert_eq!(refused(validate_new_user(&user("ada", "ada.example.org"))), "Invalid email format");
}

#[test]
fn a_user_update_is_held_to_its_rules() {
    let update = |name: Option<&str>| UpdateUserRequest {
        username: name.map(|s| s.to_string()),
        email: None,
        avatar_url: None,
    };
    assert!(validate_user_update(&update(None)).is_ok());
    assert!(validate_user_update(&update(Some("ada"))).is_ok());
    assert_eq!(
        refused(validate_user_update(&update(Some("ad")))),
        "Username must be at least 3 characters"
    );
}

#[test]
fn a_profile_counts_the_submissions_of_its_user() {
    let user = User {
        id: Uuid::from_u128(2),
        username: "ada".to_string(),
        email: "ada@example.org".to_string(),
        password_hash: "hash".to_string(),
        avatar_url: Some("http://example.org/a.png".to_string()),
        role: UserRole::Admin,
        created_at: 17,
        updated_at: 18,
    };
    let submissions = vec![
        judged(SubmissionStatus::Accepted),
        judged(SubmissionStatus::WrongAnswer),
        judged(SubmissionStatus::Accepted),
    ];
    let profile = user_profile(user, &submissions);
    assert_eq!(profile.id, Uuid::from_u128(2));
    assert_eq!(profile.username, "ada");
    assert_eq!(profile.email, "ada@example.org");
    assert_eq!(profile.avatar_url.as_deref(), Some("http://example.org/a.png"));
    assert_eq!(profile.role, UserRole::Admin);
    assert_eq!(profile.total_submissions, 3);
    assert_eq!(profile.accepted_submissions, 2);
    assert_eq!(profile.created_at, 17);
}
