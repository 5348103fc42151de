//! The texts of the queries whose shape depends on what is asked for. Each
//! parameter of a query is written as `$` and its number, counted from 1 in
//! the order in which the values are bound.

use crate::models::problem::ProblemFilter;
use crate::models::submission::SubmissionFilter;
use crate::text::blank;
use crate::text::count_text;
use crate::text::decimal;
use crate::text::decimal_nat;
use crate::text::decimal_text;
use crate::text::is_blank;
use crate::text::joined;
use vstd::prelude::*;

verus! {

/// A query under construction: its text so far and the number of
/// parameters that the text names.
pub struct Draft {
    pub text: Seq<char>,
    pub parameters: nat,
}

/// The draft with more text.
pub open spec fn with_text(draft: Draft, more: Seq<char>) -> Draft {
    Draft { text: draft.text + more, ..draft }
}

/// The draft with a clause that names the next parameter: `head`, then the
/// parameter.
pub open spec fn with_parameter(draft: Draft, head: Seq<char>) -> Draft {
    Draft {
        text: draft.text + head + decimal_nat(draft.parameters + 1),
        parameters: draft.parameters + 1,
    }
}

/// The draft with a clause that names the next parameter twice: `head`, the
/// parameter, `middle`, the parameter again, and `tail`.
pub open spec fn with_parameter_twice(
    draft: Draft,
    head: Seq<char>,
    middle: Seq<char>,
    tail: Seq<char>,
) -> Draft {
    Draft {
        text: draft.text + head + decimal_nat(draft.parameters + 1) + middle + decimal_nat(
            draft.parameters + 1,
        ) + tail,
        parameters: draft.parameters + 1,
    }
}

/// The draft with the clause if it is asked for, and unchanged if not.
pub open spec fn maybe_parameter(draft: Draft, asked: bool, head: Seq<char>) -> Draft {
    if asked {
        with_parameter(draft, head)
    } else {
        draft
    }
}

/// The query that lists the submissions whose column `key` has a given
/// value, newest first: with a condition on the status and on the language
/// where the filter names them, and with a limit and an offset where it
/// names them.
pub open spec fn submission_listing(key: Seq<char>, filter: SubmissionFilter) -> Draft {
    let begun = Draft {
        text: "SELECT * FROM submissions WHERE "@ + key + " = $1"@,
        parameters: 1,
    };
    let by_status = maybe_parameter(begun, filter.status is Some, " AND status = $"@);
    let by_language = maybe_parameter(
        by_status,
        filter.language_id is Some,
        " AND language_id = $"@,
    );
    let ordered = with_text(by_language, " ORDER BY created_at DESC"@);
    let limited = maybe_parameter(ordered, filter.limit is Some, " LIMIT $"@);
    maybe_parameter(limited, filter.offset is Some, " OFFSET $"@)
}

/// Whether a filter of problems names tags.
pub open spec fn names_tags(filter: ProblemFilter) -> bool {
    filter.tags is Some && filter.tags->0.len() > 0
}

/// Whether a filter of problems names a text to search for.
pub open spec fn names_search(filter: ProblemFilter) -> bool {
    filter.search is Some && !blank(filter.search->0@)
}

/// The query that lists problems, newest first: joined with their tags and
/// held to them where the filter names tags, with a condition on the
/// difficulty and on the text where it names them, and with a limit and an
/// offset where it names them.
pub open spec fn problem_listing(filter: ProblemFilter) -> Draft {
    let selected = Draft { text: "SELECT DISTINCT p.* FROM problems p"@, parameters: 0 };
    let joined_tags = if names_tags(filter) {
        with_text(selected, " INNER JOIN problem_tags pt ON p.id = pt.problem_id"@)
    } else {
        selected
    };
    let begun = with_text(joined_tags, " WHERE 1=1"@);
    let by_difficulty = maybe_parameter(
        begun,
        filter.difficulty is Some,
        " AND p.difficulty = $"@,
    );
    let by_tags = if names_tags(filter) {
        with_text(with_parameter(by_difficulty, " AND pt.tag_id = ANY($"@), ")"@)
    } else {
        by_difficulty
    };
    let by_search = if names_search(filter) {
        with_parameter_twice(
            by_tags,
            " AND (p.title ILIKE $"@,
            " OR p.description ILIKE $"@,
            ")"@,
        )
    } else {
        by_tags
    };
    let ordered = with_text(by_search, " ORDER BY p.created_at DESC"@);
    let limited = maybe_parameter(ordered, filter.limit is Some, " LIMIT $"@);
    maybe_parameter(limited, filter.offset is Some, " OFFSET $"@)
}

/// The pattern that matches every text that holds `search`.
pub open spec fn containing(search: Seq<char>) -> Seq<char> {
    "%"@ + search + "%"@
}

/// The four parameters of row `row` of an insertion of many rows, between
/// brackets.
pub open spec fn row_of_four(row: nat) -> Seq<char> {
    "($"@ + decimal_nat(4 * row + 1) + ", $"@ + decimal_nat(4 * row + 2) + ", $"@ + decimal_nat(
        4 * row + 3,
    ) + ", $"@ + decimal_nat(4 * row + 4) + ")"@
}

/// The rows of an insertion of `rows` rows, each after the first behind a
/// comma.
pub open spec fn rows_of_four(rows: nat) -> Seq<char>
    decreases rows,
{
    if rows == 0 {
        Seq::empty()
    } else if rows == 1 {
        row_of_four(0)
    } else {
        rows_of_four((rows - 1) as nat) + ", "@ + row_of_four((rows - 1) as nat)
    }
}

/// The text that opens the insertion of test cases.
pub open spec fn test_case_insertion_head() -> Seq<char> {
    "INSERT INTO test_cases (problem_id, input_data, expected_output, is_sample) VALUES "@
}

/// The query that inserts `rows` test cases and returns them.
pub open spec fn test_case_insertion(rows: nat) -> Seq<char> {
    test_case_insertion_head() + rows_of_four(rows) + " RETURNING *"@
}

/// A query under construction.
struct Builder {
    text: String,
    parameters: usize,
}

impl View for Builder {
    type V = Draft;

    closed spec fn view(&self) -> Draft {
        Draft { text: self.text@, parameters: self.parameters as nat }
    }
}

impl Builder {
    fn begin(text: String, parameters: usize) -> (builder: Self)
        ensures
            builder@ == (Draft { text: text@, parameters: parameters as nat }),
    {
        Builder { text, parameters }
    }

    fn text(&mut self, more: &str)
        ensures
            final(self)@ == with_text(old(self)@, more@),
    {
        self.text.append(more);
    }

    fn parameter(&mut self, head: &str)
        requires
            old(self).parameters < usize::MAX,
        ensures
            final(self)@ == with_parameter(old(self)@, head@),
            final(self).parameters == old(self).parameters + 1,
    {
        self.parameters = self.parameters + 1;
        let number = count_text(self.parameters);
        self.text.append(head);
        self.text.append(number.as_str());
    }

    fn finish(self) -> (text: String)
        ensures
            text@ == self@.text,
    {
        self.text
    }
}

/// The text of the query that lists the submissions whose column `key` has
/// a given value.
pub fn submission_listing_query(key: &str, filter: &SubmissionFilter) -> (query: String)
    ensures
        query@ == submission_listing(key@, *filter).text,
{
    let head = joined("SELECT * FROM submissions WHERE ", key);
    let mut builder = Builder::begin(joined(head.as_str(), " = $1"), 1);
    if filter.status.is_some() {
        builder.parameter(" AND status = $");
    }
    if filter.language_id.is_some() {
        builder.parameter(" AND language_id = $");
    }
    builder.text(" ORDER BY created_at DESC");
    if filter.limit.is_some() {
        builder.parameter(" LIMIT $");
    }
    if filter.offset.is_some() {
        builder.parameter(" OFFSET $");
    }
    builder.finish()
}

/// Whether a filter of problems names tags.
pub fn filter_names_tags(filter: &ProblemFilter) -> (named: bool)
    ensures
        named == names_tags(*filter),
{
    match &filter.tags {
        Some(tags) => tags.len() > 0,
        None => false,
    }
}

/// Whether a filter of problems names a text to search for.
pub fn filter_names_search(filter: &ProblemFilter) -> (named: bool)
    ensures
        named == names_search(*filter),
{
    match &filter.search {
        Some(search) => !is_blank(search.as_str()),
        None => false,
    }
}

/// The text of the query that lists problems. Its parameters are, in order
/// and as far as the filter names them: the difficulty, the tags, the
/// pattern to search for, the limit and the offset.
pub fn problem_listing_query(filter: &ProblemFilter) -> (query: String)
    ensures
        query@ == problem_listing(*filter).text,
{
    let tags = filter_names_tags(filter);
    let mut builder = Builder::begin(String::from_str("SELECT DISTINCT p.* FROM problems p"), 0);
    if tags {
        builder.text(" INNER JOIN problem_tags pt ON p.id = pt.problem_id");
    }
    builder.text(" WHERE 1=1");
    if filter.difficulty.is_some() {
        builder.parameter(" AND p.difficulty = $");
    }
    if tags {
        builder.parameter(" AND pt.tag_id = ANY($");
        builder.text(")");
    }
    if filter_names_search(filter) {
        let ghost before = builder@;
        builder.parameter(" AND (p.title ILIKE $");
        let number = count_text(builder.parameters);
        builder.text(" OR p.description ILIKE $");
        builder.text(number.as_str());
        builder.text(")");
        assert(builder@ == with_parameter_twice(
            before,
            " AND (p.title ILIKE $"@,
            " OR p.description ILIKE $"@,
            ")"@,
        ));
    }
    builder.text(" ORDER BY p.created_at DESC");
    if filter.limit.is_some() {
        builder.parameter(" LIMIT $");
    }
    if filter.offset.is_some() {
        builder.parameter(" OFFSET $");
    }
    builder.finish()
}

/// The pattern that matches every text that holds `search`.
pub fn search_pattern(search: &str) -> (pattern: String)
    ensures
        pattern@ == containing(search@),
{
    let begun = joined("%", search);
    joined(begun.as_str(), "%")
}

/// Appends the parameters of row `row` to `out`.
fn push_row_of_four(out: &mut String, row: usize)
    requires
        4 * row + 4 <= usize::MAX,
    ensures
        final(out)@ == old(out)@ + row_of_four(row as nat),
{
    let base = 4 * row;
    let first = count_text(base + 1);
    let second = count_text(base + 2);
    let third = count_text(base + 3);
    let fourth = count_text(base + 4);
    out.append("($");
    out.append(first.as_str());
    out.append(", $");
    out.append(second.as_str());
    out.append(", $");
    out.append(third.as_str());
    out.append(", $");
    out.append(fourth.as_str());
    out.append(")");
    assert(final(out)@ =~= old(out)@ + row_of_four(row as nat));
}

/// The text of the query that inserts `rows` test cases and returns them.
/// Its parameters are, row by row: the problem, the input, the expected
/// output and whether the test case is a sample.
pub fn test_case_insertion_query(rows: usize) -> (query: String)
    requires
        4 * rows <= usize::MAX,
    ensures
        query@ == test_case_insertion(rows as nat),
{
    let mut query = String::from_str(
        "INSERT INTO test_cases (problem_id, input_data, expected_output, is_sample) VALUES ",
    );
    let mut i: usize = 0;
    assert(query@ =~= test_case_insertion_head() + rows_of_four(0));
    while i < rows
        invariant
            i <= rows,
            4 * rows <= usize::MAX,
            query@ == test_case_insertion_head() + rows_of_four(i as nat),
        decreases rows - i,
    {
        let ghost before = query@;
        if i > 0 {
            query.append(", ");
        }
        push_row_of_four(&mut query, i);
        assert(query@ =~= test_case_insertion_head() + rows_of_four((i + 1) as nat));
        i += 1;
    }
    query.append(" RETURNING *");
    query
}

/// The query that lists the test cases of a problem: all of them, samples
/// first, or the samples alone.
pub fn test_case_listing_query(include_hidden: bool) -> (query: &'static str)
    ensures
        query@ == if include_hidden {
            "SELECT * FROM test_cases WHERE problem_id = $1 ORDER BY is_sample DESC, created_at ASC"@
        } else {
            "SELECT * FROM test_cases WHERE problem_id = $1 AND is_sample = true ORDER BY created_at ASC"@
        },
{
    if include_hidden {
        "SELECT * FROM test_cases WHERE problem_id = $1 ORDER BY is_sample DESC, created_at ASC"
    } else {
        "SELECT * FROM test_cases WHERE problem_id = $1 AND is_sample = true ORDER BY created_at ASC"
    }
}

/// The text that opens the query for the tags with the numbers of their
/// problems, the most used first.
pub open spec fn popular_tags_head() -> Seq<char> {
    "SELECT t.name, t.description, COUNT(pt.problem_id) as problem_count FROM tags t LEFT JOIN problem_tags pt ON t.name = pt.tag_id GROUP BY t.name, t.description ORDER BY problem_count DESC, t.name ASC"@
}

/// The query for the tags with the numbers of their problems: all of them,
/// or as many as the limit says, written into the text.
pub open spec fn popular_tags(limit: Option<i32>) -> Seq<char> {
    match limit {
        Some(n) => popular_tags_head() + " LIMIT "@ + decimal(n as int),
        None => popular_tags_head(),
    }
}

/// The text of the query for the tags with the numbers of their problems.
pub fn popular_tags_query(limit: Option<i32>) -> (query: String)
    ensures
        query@ == popular_tags(limit),
{
    let mut query = String::from_str(
        "SELECT t.name, t.description, COUNT(pt.problem_id) as problem_count FROM tags t LEFT JOIN problem_tags pt ON t.name = pt.tag_id GROUP BY t.name, t.description ORDER BY problem_count DESC, t.name ASC",
    );
    match limit {
        Some(n) => {
            let number = decimal_text(n);
            query.append(" LIMIT ");
            query.append(number.as_str());
        },
        None => {},
    }
    query
}

} // verus!
