//! The values decoded from one page of the search API's response.

use vstd::prelude::*;

verus! {

/// One repository entry returned by the search API. Immutable once decoded;
/// discarded after the requested field is extracted.
pub struct RepositoryRecord {
    /// The bare repository name, the key the query is matched against.
    pub name: String,
    /// The owner-qualified name.
    pub full_name: String,
    /// The HTTPS clone URL.
    pub clone_url: String,
    /// The git protocol URL.
    pub git_url: String,
    /// The web link.
    pub html_url: String,
}

/// The mathematical content of a record: each field as a character sequence.
pub struct RecordView {
    pub name: Seq<char>,
    pub full_name: Seq<char>,
    pub clone_url: Seq<char>,
    pub git_url: Seq<char>,
    pub html_url: Seq<char>,
}

impl View for RepositoryRecord {
    type V = RecordView;

    open spec fn view(&self) -> RecordView {
        RecordView {
            name: self.name@,
            full_name: self.full_name@,
            clone_url: self.clone_url@,
            git_url: self.git_url@,
            html_url: self.html_url@,
        }
    }
}

impl DeepView for RepositoryRecord {
    type V = RecordView;

    open spec fn deep_view(&self) -> RecordView {
        self@
    }
}

/// One decoded API response: an ordered list of candidate records, possibly
/// absent, and an optional error or status message. An absent list marks an
/// API-level error, not an empty page.
pub struct SearchPage {
    pub items: Option<Vec<RepositoryRecord>>,
    pub message: Option<String>,
}

} // verus!
