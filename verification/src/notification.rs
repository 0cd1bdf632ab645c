//! Construction of the rich notification sent for a qualifying release:
//! a title, a cosmetic colour, and one field per present asset holding a
//! markdown download link.

use vstd::prelude::*;
use vstd::string::*;
use crate::payload::{Asset, Release};
use rand::Rng;

verus! {

/// One discrete field of a rich message: a name and a text value.
pub struct EmbedField {
    pub name: String,
    pub value: String,
}

/// A rich message: built fresh for one qualifying release, handed to the
/// outbound client, and discarded after the send attempt.
pub struct NotificationMessage {
    pub title: String,
    pub color: u32,
    pub fields: Vec<EmbedField>,
}

impl NotificationMessage {
    /// The colour is cosmetic but always stays inside the platform's
    /// 24-bit colour space.
    pub open spec fn wf(&self) -> bool {
        self.color <= 0xFFFFFF
    }

    /// The fields as mathematical pairs of name and value.
    pub open spec fn fields_model(&self) -> Seq<(Seq<char>, Seq<char>)> {
        self.fields@.map_values(|f: EmbedField| (f.name@, f.value@))
    }
}

/// The markdown link shown for one asset.
pub open spec fn spec_download_link(url: Seq<char>) -> Seq<char> {
    "[Download Link]("@ + url + ")"@
}

/// The field derived from one present asset: named after the asset's
/// filename, valued with its markdown download link.
pub open spec fn spec_field(a: Asset) -> (Seq<char>, Seq<char>) {
    (a.name@, spec_download_link(a.browser_download_url@))
}

/// The fields of a notification: one per present asset, in the original
/// order; absent slots contribute nothing.
pub open spec fn spec_fields(assets: Seq<Option<Asset>>) -> Seq<(Seq<char>, Seq<char>)>
    decreases assets.len(),
{
    if assets.len() == 0 {
        Seq::empty()
    } else {
        let rest = spec_fields(assets.drop_last());
        match assets.last() {
            Some(a) => rest.push(spec_field(a)),
            None => rest,
        }
    }
}

/// The notification's title: the release's name, or a fixed fallback for a
/// nameless release.
pub open spec fn spec_title(release: Release) -> Seq<char> {
    match release.name {
        Some(n) => n@,
        None => "Unnamed Release"@,
    }
}

/// Builds the markdown download link for one asset URL.
pub fn download_link(url: &str) -> (r: String)
    ensures
        r@ == spec_download_link(url@),
{
    let mut s = String::from_str("[Download Link](");
    s.append(url);
    s.append(")");
    s
}

/// Picks the cosmetic colour for one notification.
///
/// Relies on rand's `Rng::gen_range` over the thread-local generator: the
/// sample lies within the half-open range it is given, and the range here is
/// never empty, so the call does not panic.
#[verifier::external_body]
pub(crate) fn random_color() -> (c: u32)
    ensures
        c < 0xFFFFFF,
{
    rand::thread_rng().gen_range(0..0xFFFFFFu32)
}

/// Builds the notification for a release: the release's name (or the
/// fallback) as title, the chosen colour, and one field per present asset in
/// the original order.
pub fn build_notification(release: &Release, color: u32) -> (m: NotificationMessage)
    requires
        color <= 0xFFFFFF,
    ensures
        m.wf(),
        m.color == color,
        m.title@ == spec_title(*release),
        m.fields_model() == spec_fields(release.assets@),
{
    let title = match &release.name {
        Some(n) => n.clone(),
        None => String::from_str("Unnamed Release"),
    };
    let mut fields: Vec<EmbedField> = Vec::new();
    let n = release.assets.len();
    let mut i: usize = 0;
    while i < n
        invariant
            i <= n,
            n == release.assets@.len(),
            fields@.map_values(|f: EmbedField| (f.name@, f.value@)) == spec_fields(
                release.assets@.take(i as int),
            ),
        decreases n - i,
    {
        match &release.assets[i] {
            Some(asset) => {
                let value = download_link(asset.browser_download_url.as_str());
                let field = EmbedField { name: asset.name.clone(), value };
                fields.push(field);
            },
            None => {},
        }
        proof {
            assert(release.assets@.take(i as int + 1).drop_last() =~= release.assets@.take(
                i as int,
            ));
            assert(fields@.map_values(|f: EmbedField| (f.name@, f.value@)) =~= spec_fields(
                release.assets@.take(i as int + 1),
            ));
        }
        i += 1;
    }
    proof {
        assert(release.assets@.take(n as int) =~= release.assets@);
    }
    NotificationMessage { title, color, fields }
}

} // verus!
