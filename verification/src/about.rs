//! The program's fixed self-description: name, version, homepage, the search
//! endpoint, the usage text and the version line.

use vstd::prelude::*;
use vstd::string::StringExecFns;
use crate::output::{output_token, token_view, OutputField};

verus! {

/// The program's name.
pub fn pkg_name() -> (r: &'static str)
    ensures
        r@ == "repo"@,
{
    "repo"
}

/// The program's version number.
pub fn pkg_version() -> (r: &'static str)
    ensures
        r@ == "0.1.0"@,
{
    "0.1.0"
}

/// The program's homepage, the third part of the client identity.
pub fn pkg_homepage() -> (r: &'static str)
    ensures
        r@ == "https://crates.io/crates/repo"@,
{
    "https://crates.io/crates/repo"
}

/// The fixed search endpoint every page request is issued against.
pub fn api_url() -> (r: &'static str)
    ensures
        r@ == "https://api.github.com/search/repositories"@,
{
    "https://api.github.com/search/repositories"
}

/// The client identity sent as the `User-Agent` header: the name/version/
/// homepage triple.
pub open spec fn user_agent_view() -> Seq<char> {
    "repo"@ + "/"@ + "0.1.0"@ + " "@ + "https://crates.io/crates/repo"@
}

/// Compose the `User-Agent` value.
pub fn user_agent() -> (r: String)
    ensures
        r@ == user_agent_view(),
{
    pkg_name().to_owned().concat("/").concat(pkg_version()).concat(" ").concat(pkg_homepage())
}

/// The fixed head of the usage text, up to and including the indentation of
/// the first output-type token.
pub fn usage_header() -> (r: &'static str)
    ensures
        r@ == usage_header_view(),
{
    "Usage: repo [output_type] <repository_name>\n       repo {-h|--help}\n       repo {-v|--version}\n\nOutput types:\n    "
}

/// The view of the usage text's fixed head.
pub open spec fn usage_header_view() -> Seq<char> {
    "Usage: repo [output_type] <repository_name>\n       repo {-h|--help}\n       repo {-v|--version}\n\nOutput types:\n    "@
}

/// The usage text: the fixed template followed by the four output-type
/// tokens in declaration order, one per indented line.
pub open spec fn usage_view() -> Seq<char> {
    usage_header_view() + token_view(OutputField::FullName) + "\n    "@ + token_view(
        OutputField::Url,
    ) + "\n    "@ + token_view(OutputField::GitUrl) + "\n    "@ + token_view(OutputField::Link)
}

/// Compose the usage text.
pub fn usage() -> (r: String)
    ensures
        r@ == usage_view(),
{
    usage_header().to_owned().concat(output_token(OutputField::FullName)).concat("\n    ").concat(
        output_token(OutputField::Url),
    ).concat("\n    ").concat(output_token(OutputField::GitUrl)).concat("\n    ").concat(
        output_token(OutputField::Link),
    )
}

/// The version line: the program's name and version number.
pub open spec fn version_view() -> Seq<char> {
    "repo"@ + " "@ + "0.1.0"@
}

/// Compose the version line.
pub fn version() -> (r: String)
    ensures
        r@ == version_view(),
{
    pkg_name().to_owned().concat(" ").concat(pkg_version())
}

} // verus!
