//! The typed shape of an inbound release webhook. Plain data, consumed by the
//! pipeline; fields the business logic never reads are still modelled so a
//! permissive deserializer at the process edge has somewhere to put them.
//! Payload pieces that are free-form JSON in the wire format carry no
//! information the pipeline reads and are dropped at that edge.

use vstd::prelude::*;

verus! {

/// One inbound release webhook: the action verb and the release it concerns.
pub struct ReleaseRequestBody {
    pub action: String,
    pub release: Release,
}

/// A tagged software release. `assets` is an ordered sequence in which an
/// entry may be absent: an absent slot is a modelled possibility, not an
/// error.
pub struct Release {
    pub assets: Vec<Option<Asset>>,
    pub assets_url: String,
    pub author: Option<Author>,
    pub body: Option<String>,
    pub created_at: Option<String>,
    pub draft: bool,
    pub html_url: String,
    pub id: u64,
    pub immutable: bool,
    pub name: Option<String>,
    pub node_id: String,
    pub prerelease: bool,
    pub published_at: Option<String>,
    pub tag_name: String,
    pub tarball_url: Option<String>,
    pub target_commitish: String,
    pub updated_at: Option<String>,
    pub upload_url: String,
    pub url: String,
    pub zipball_url: Option<String>,
}

/// The actor who authored the release. Bookkeeping only; the pipeline does
/// not read it.
pub struct Author {
    pub avatar_url: Option<String>,
    pub deleted: Option<bool>,
    pub email: Option<String>,
    pub events_url: Option<String>,
    pub followers_url: Option<String>,
    pub following_url: Option<String>,
    pub gists_url: Option<String>,
    pub gravatar_id: Option<String>,
    pub html_url: Option<String>,
    pub id: u64,
    pub login: String,
    pub name: Option<String>,
    pub node_id: Option<String>,
    pub organizations_url: Option<String>,
    pub received_events_url: Option<String>,
    pub repos_url: Option<String>,
    pub site_admin: Option<bool>,
    pub starred_url: Option<String>,
    pub subscriptions_url: Option<String>,
    pub type_field: Option<String>,
    pub url: Option<String>,
    pub user_view_type: Option<String>,
}

/// One build artifact attached to a release.
pub struct Asset {
    pub url: String,
    pub browser_download_url: String,
    pub id: u64,
    pub node_id: String,
    pub name: String,
    pub label: Option<String>,
    pub state: String,
    pub content_type: String,
    pub size: u64,
    pub download_count: u64,
    pub created_at: String,
    pub updated_at: String,
}

} // verus!
