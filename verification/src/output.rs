//! The output field selector and its kebab-case token vocabulary, and the
//! formatter that extracts the selected field from a matched record.

use vstd::prelude::*;
use crate::record::{RecordView, RepositoryRecord};
use crate::text::str_eq;

verus! {

/// Which attribute of a matched record is printed. Fixed at parse time for
/// the duration of one invocation.
#[derive(Clone, Copy, PartialEq, Eq, Structural, Debug)]
pub enum OutputField {
    FullName,
    Url,
    GitUrl,
    Link,
}

/// The kebab-case token that names an output field on the command line.
pub open spec fn token_view(f: OutputField) -> Seq<char> {
    match f {
        OutputField::FullName => "full-name"@,
        OutputField::Url => "url"@,
        OutputField::GitUrl => "git-url"@,
        OutputField::Link => "link"@,
    }
}

/// The output field named by a token, if any. The match is case-sensitive:
/// only the exact kebab-case tokens are recognized.
pub open spec fn field_of(tok: Seq<char>) -> Option<OutputField> {
    if tok == token_view(OutputField::FullName) {
        Some(OutputField::FullName)
    } else if tok == token_view(OutputField::Url) {
        Some(OutputField::Url)
    } else if tok == token_view(OutputField::GitUrl) {
        Some(OutputField::GitUrl)
    } else if tok == token_view(OutputField::Link) {
        Some(OutputField::Link)
    } else {
        None
    }
}

/// The token that names an output field, in declaration order:
/// `full-name`, `url`, `git-url`, `link`.
pub fn output_token(f: OutputField) -> (r: &'static str)
    ensures
        r@ == token_view(f),
{
    match f {
        OutputField::FullName => "full-name",
        OutputField::Url => "url",
        OutputField::GitUrl => "git-url",
        OutputField::Link => "link",
    }
}

/// Parse a command-line token into an output field.
pub fn parse_output_field(tok: &str) -> (r: Option<OutputField>)
    ensures
        r == field_of(tok@),
{
    if str_eq(tok, "full-name") {
        Some(OutputField::FullName)
    } else if str_eq(tok, "url") {
        Some(OutputField::Url)
    } else if str_eq(tok, "git-url") {
        Some(OutputField::GitUrl)
    } else if str_eq(tok, "link") {
        Some(OutputField::Link)
    } else {
        None
    }
}

/// The record attribute selected by an output field choice.
pub open spec fn selected(rec: RecordView, f: OutputField) -> Seq<char> {
    match f {
        OutputField::FullName => rec.full_name,
        OutputField::Url => rec.clone_url,
        OutputField::GitUrl => rec.git_url,
        OutputField::Link => rec.html_url,
    }
}

/// Extract the requested attribute from a matched record. Total: every
/// record and every field choice yield a string, there is no failure mode.
pub fn format_field(rec: RepositoryRecord, f: OutputField) -> (r: String)
    ensures
        r@ == selected(rec@, f),
{
    match f {
        OutputField::FullName => rec.full_name,
        OutputField::Url => rec.clone_url,
        OutputField::GitUrl => rec.git_url,
        OutputField::Link => rec.html_url,
    }
}

/// The token mapping is bidirectional: parsing the token of a field gives
/// back that field, so distinct fields carry distinct tokens.
pub proof fn lemma_token_round_trip(f: OutputField)
    ensures
        field_of(token_view(f)) == Some(f),
{
    reveal_strlit("full-name");
    reveal_strlit("url");
    reveal_strlit("git-url");
    reveal_strlit("link");
    assert("full-name"@.len() == 9);
    assert("url"@.len() == 3);
    assert("git-url"@.len() == 7);
    assert("link"@.len() == 4);
}

} // verus!
