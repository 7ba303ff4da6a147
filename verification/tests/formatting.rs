//! The output formatter and the fixed texts: field extraction, usage,
//! version and the client identity.

use repo::about::{api_url, usage, user_agent, version};
use repo::output::{format_field, output_token, parse_output_field, OutputField};
use repo::record::RepositoryRecord;

fn sample() -> RepositoryRecord {
    RepositoryRecord {
        name: "myrepo".to_string(),
        full_name: "owner/myrepo".to_string(),
        clone_url: "https://example.com/owner/myrepo.git".to_string(),
        git_url: "git://example.com/owner/myrepo.git".to_string(),
        html_url: "https://example.com/owner/myrepo".to_string(),
    }
}

#[test]
fn url_selects_the_clone_url() {
    assert_eq!(
        format_field(sample(), OutputField::Url),
        "https://example.com/owner/myrepo.git"
    );
}

#[test]
fn every_field_selects_its_attribute() {
    assert_eq!(format_field(sample(), OutputField::FullName), "owner/myrepo");
    assert_eq!(
        format_field(sample(), OutputField::GitUrl),
        "git://example.com/owner/myrepo.git"
    );
    assert_eq!(
        format_field(sample(), OutputField::Link),
        "https://example.com/owner/myrepo"
    );
}

#[test]
fn tokens_round_trip_through_the_parser() {
    for f in [
        OutputField::FullName,
        OutputField::Url,
        OutputField::GitUrl,
        OutputField::Link,
    ] {
        assert_eq!(parse_output_field(output_token(f)), Some(f));
    }
    assert_eq!(parse_output_field("clone"), None);
}

#[test]
fn usage_lists_the_tokens_in_declaration_order() {
    let expected = "Usage: repo [output_type] <repository_name>\n       \
                    repo {-h|--help}\n       repo {-v|--version}\n\n\
                    Output types:\n    full-name\n    url\n    git-url\n    link";
    assert_eq!(usage(), expected);
}

#[test]
fn version_line_is_name_and_number() {
    assert_eq!(version(), "repo 0.1.0");
}

#[test]
fn user_agent_is_the_identity_triple() {
    assert_eq!(user_agent(), "repo/0.1.0 https://crates.io/crates/repo");
}

#[test]
fn the_endpoint_is_the_search_api() {
    assert_eq!(api_url(), "https://api.github.com/search/repositories");
}
