//! The records of the catalog, as the service passes them on.

use vstd::prelude::*;

verus! {

/// A submitted ad, as a caller states it.
#[derive(Clone, Debug, PartialEq, Eq)]
pub struct AdPost {
    pub id: String,
    pub html: String,
    pub political: Option<bool>,
    pub targeting: Option<String>,
}

/// The mathematical value of an [`AdPost`].
pub struct AdPostView {
    pub id: Seq<char>,
    pub html: Seq<char>,
    pub political: Option<bool>,
    pub targeting: Option<Seq<char>>,
}

impl DeepView for AdPost {
    type V = AdPostView;

    open spec fn deep_view(&self) -> AdPostView {
        AdPostView {
            id: self.id@,
            html: self.html@,
            political: self.political,
            targeting: self.targeting.deep_view(),
        }
    }
}

/// How far the media of an ad have been fetched and stored.
#[derive(Clone, Copy, Debug, PartialEq, Eq)]
pub enum MediaStatus {
    /// Nothing was fetched yet.
    Pending,
    /// The media are stored.
    Stored,
    /// Fetching or storing failed, for good.
    Failed,
}

/// An ad of the catalog.
#[derive(Clone, Debug, PartialEq, Eq)]
pub struct Ad {
    pub id: String,
    pub html: String,
    pub political: Option<bool>,
    pub targeting: Option<String>,
    pub locale: String,
    pub suppressed: bool,
    pub media_status: MediaStatus,
}

/// The mathematical value of an [`Ad`].
pub struct AdView {
    pub id: Seq<char>,
    pub html: Seq<char>,
    pub political: Option<bool>,
    pub targeting: Option<Seq<char>>,
    pub locale: Seq<char>,
    pub suppressed: bool,
    pub media_status: MediaStatus,
}

impl DeepView for Ad {
    type V = AdView;

    open spec fn deep_view(&self) -> AdView {
        AdView {
            id: self.id@,
            html: self.html@,
            political: self.political,
            targeting: self.targeting.deep_view(),
            locale: self.locale@,
            suppressed: self.suppressed,
            media_status: self.media_status,
        }
    }
}

impl AdView {
    /// The ad that a submitted ad becomes in a locale: what was submitted,
    /// shown to everyone, its media still to be fetched.
    pub open spec fn created(post: AdPostView, locale: Seq<char>) -> AdView {
        AdView {
            id: post.id,
            html: post.html,
            political: post.political,
            targeting: post.targeting,
            locale,
            suppressed: false,
            media_status: MediaStatus::Pending,
        }
    }
}

impl Ad {
    /// Makes the ad that a submitted ad becomes in a locale.
    pub fn new(post: &AdPost, locale: &str) -> (ad: Ad)
        ensures
            ad.deep_view() == AdView::created(post.deep_view(), locale@),
    {
        Ad {
            id: post.id.clone(),
            html: post.html.clone(),
            political: post.political,
            targeting: match &post.targeting {
                Some(targeting) => Some(targeting.clone()),
                None => None,
            },
            locale: locale.to_owned(),
            suppressed: false,
            media_status: MediaStatus::Pending,
        }
    }
}

/// A targeting criterion that ads of a listing share: its identifier and what
/// is shown of it.
#[derive(Clone, Debug, PartialEq, Eq)]
pub struct Target {
    pub id: String,
    pub attributes: Vec<(String, String)>,
}

/// An entity that ads of a listing mention: its identifier and what is shown
/// of it.
#[derive(Clone, Debug, PartialEq, Eq)]
pub struct Entity {
    pub id: String,
    pub attributes: Vec<(String, String)>,
}

/// An advertiser behind ads of a listing: its identifier and what is shown of
/// it.
#[derive(Clone, Debug, PartialEq, Eq)]
pub struct Advertiser {
    pub id: String,
    pub attributes: Vec<(String, String)>,
}

/// A failure that the storage reported, in its own words.
#[derive(Clone, Debug, PartialEq, Eq)]
pub struct StorageError {
    pub description: String,
}

} // verus!
