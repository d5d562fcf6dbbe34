//! Merge-request detail, as the CI platform's merge-request query returns it.

use vstd::prelude::*;

verus! {

/// What the relay reads of a merge request: enough to head the notification
/// and to resolve the people involved. `merger_username` is `None` for a
/// request that was never merged.
#[derive(Debug)]
pub struct MergeRequestDetail {
    pub merge_request_id: u64,
    pub title: String,
    pub web_url: String,
    pub author_username: String,
    pub merger_username: Option<String>,
}

/// Mathematical model of a [`MergeRequestDetail`].
pub struct MergeRequestView {
    pub merge_request_id: u64,
    pub title: Seq<char>,
    pub url: Seq<char>,
    pub author: Seq<char>,
    pub merger: Option<Seq<char>>,
}

impl View for MergeRequestDetail {
    type V = MergeRequestView;

    open spec fn view(&self) -> MergeRequestView {
        MergeRequestView {
            merge_request_id: self.merge_request_id,
            title: self.title@,
            url: self.web_url@,
            author: self.author_username@,
            merger: self.merger_username.deep_view(),
        }
    }
}

} // verus!
