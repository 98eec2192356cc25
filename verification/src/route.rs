//! The routes of the service: which operation a method and a path ask for.

use vstd::prelude::*;

use crate::http::{ContentType, Method};
use crate::text::str_eq;

verus! {

/// The static files that the service hands out.
#[derive(Clone, Copy, Debug, PartialEq, Eq)]
pub enum Asset {
    AdminPage,
    AdminScript,
    AdminScriptMap,
    AdminStyles,
    IndexPage,
    IndexScript,
    IndexScriptMap,
    Beacons,
    BeaconsMap,
    Styles,
    StylesMap,
    EnglishTexts,
    GermanTexts,
}

impl Asset {
    /// The path under which the file is asked for.
    pub open spec fn spec_path(self) -> Seq<char> {
        match self {
            Asset::AdminPage => "/facebook-ads/admin"@,
            Asset::AdminScript => "/facebook-ads/admin.js"@,
            Asset::AdminScriptMap => "/facebook-ads/admin.js.map"@,
            Asset::AdminStyles => "/facebook-ads/admin/styles.css"@,
            Asset::IndexPage => "/facebook-ads/"@,
            Asset::IndexScript => "/facebook-ads/index.js"@,
            Asset::IndexScriptMap => "/facebook-ads/index.js.map"@,
            Asset::Beacons => "/facebook-ads/beacons.js"@,
            Asset::BeaconsMap => "/facebook-ads/beacons.js.map"@,
            Asset::Styles => "/facebook-ads/styles.css"@,
            Asset::StylesMap => "/facebook-ads/styles.css.map"@,
            Asset::EnglishTexts => "/facebook-ads/locales/en/translation.json"@,
            Asset::GermanTexts => "/facebook-ads/locales/de/translation.json"@,
        }
    }

    /// Where the file lies, from the directory that the service runs in.
    pub open spec fn spec_file(self) -> Seq<char> {
        match self {
            Asset::AdminPage => "public/admin.html"@,
            Asset::AdminScript => "public/dist/admin.js"@,
            Asset::AdminScriptMap => "public/dist/admin.js.map"@,
            Asset::AdminStyles => "public/css/admin/styles.css"@,
            Asset::IndexPage => "public/index.html"@,
            Asset::IndexScript => "public/dist/index.js"@,
            Asset::IndexScriptMap => "public/dist/index.js.map"@,
            Asset::Beacons => "public/dist/beacons.js"@,
            Asset::BeaconsMap => "public/dist/beacons.js.map"@,
            Asset::Styles => "public/dist/styles.css"@,
            Asset::StylesMap => "public/dist/styles.css.map"@,
            Asset::EnglishTexts => "public/locales/en/translation.json"@,
            Asset::GermanTexts => "public/locales/de/translation.json"@,
        }
    }

    /// The media type that the file is sent as.
    pub open spec fn spec_content_type(self) -> ContentType {
        match self {
            Asset::AdminPage | Asset::IndexPage => ContentType::Html,
            Asset::AdminScript | Asset::IndexScript | Asset::Beacons => ContentType::Javascript,
            Asset::AdminStyles | Asset::Styles => ContentType::Css,
            Asset::AdminScriptMap
            | Asset::IndexScriptMap
            | Asset::BeaconsMap
            | Asset::StylesMap
            | Asset::EnglishTexts
            | Asset::GermanTexts => ContentType::Json,
        }
    }

    /// The path under which the file is asked for.
    pub fn path(self) -> (path: &'static str)
        ensures
            path@ == self.spec_path(),
    {
        match self {
            Asset::AdminPage => "/facebook-ads/admin",
            Asset::AdminScript => "/facebook-ads/admin.js",
            Asset::AdminScriptMap => "/facebook-ads/admin.js.map",
            Asset::AdminStyles => "/facebook-ads/admin/styles.css",
            Asset::IndexPage => "/facebook-ads/",
            Asset::IndexScript => "/facebook-ads/index.js",
            Asset::IndexScriptMap => "/facebook-ads/index.js.map",
            Asset::Beacons => "/facebook-ads/beacons.js",
            Asset::BeaconsMap => "/facebook-ads/beacons.js.map",
            Asset::Styles => "/facebook-ads/styles.css",
            Asset::StylesMap => "/facebook-ads/styles.css.map",
            Asset::EnglishTexts => "/facebook-ads/locales/en/translation.json",
            Asset::GermanTexts => "/facebook-ads/locales/de/translation.json",
        }
    }

    /// Where the file lies, from the directory that the service runs in.
    pub fn file(self) -> (file: &'static str)
        ensures
            file@ == self.spec_file(),
    {
        match self {
            Asset::AdminPage => "public/admin.html",
            Asset::AdminScript => "public/dist/admin.js",
            Asset::AdminScriptMap => "public/dist/admin.js.map",
            Asset::AdminStyles => "public/css/admin/styles.css",
            Asset::IndexPage => "public/index.html",
            Asset::IndexScript => "public/dist/index.js",
            Asset::IndexScriptMap => "public/dist/index.js.map",
            Asset::Beacons => "public/dist/beacons.js",
            Asset::BeaconsMap => "public/dist/beacons.js.map",
            Asset::Styles => "public/dist/styles.css",
            Asset::StylesMap => "public/dist/styles.css.map",
            Asset::EnglishTexts => "public/locales/en/translation.json",
            Asset::GermanTexts => "public/locales/de/translation.json",
        }
    }

    /// The media type that the file is sent as.
    pub fn content_type(self) -> (content_type: ContentType)
        ensures
            content_type == self.spec_content_type(),
    {
        match self {
            Asset::AdminPage | Asset::IndexPage => ContentType::Html,
            Asset::AdminScript | Asset::IndexScript | Asset::Beacons => ContentType::Javascript,
            Asset::AdminStyles | Asset::Styles => ContentType::Css,
            Asset::AdminScriptMap
            | Asset::IndexScriptMap
            | Asset::BeaconsMap
            | Asset::StylesMap
            | Asset::EnglishTexts
            | Asset::GermanTexts => ContentType::Json,
        }
    }

    /// Every static file, once.
    pub open spec fn all() -> Seq<Asset> {
        seq![
            Asset::AdminPage,
            Asset::AdminScript,
            Asset::AdminScriptMap,
            Asset::AdminStyles,
            Asset::IndexPage,
            Asset::IndexScript,
            Asset::IndexScriptMap,
            Asset::Beacons,
            Asset::BeaconsMap,
            Asset::Styles,
            Asset::StylesMap,
            Asset::EnglishTexts,
            Asset::GermanTexts,
        ]
    }

    /// Every static file, once.
    pub fn list() -> (assets: Vec<Asset>)
        ensures
            assets@ == Asset::all(),
    {
        let mut assets: Vec<Asset> = Vec::new();
        assets.push(Asset::AdminPage);
        assets.push(Asset::AdminScript);
        assets.push(Asset::AdminScriptMap);
        assets.push(Asset::AdminStyles);
        assets.push(Asset::IndexPage);
        assets.push(Asset::IndexScript);
        assets.push(Asset::IndexScriptMap);
        assets.push(Asset::Beacons);
        assets.push(Asset::BeaconsMap);
        assets.push(Asset::Styles);
        assets.push(Asset::StylesMap);
        assets.push(Asset::EnglishTexts);
        assets.push(Asset::GermanTexts);
        assert(assets@ =~= Asset::all());
        assets
    }
}

/// The first of these files that is asked for under `path`.
pub open spec fn first_at(assets: Seq<Asset>, path: Seq<char>) -> Option<Asset>
    decreases assets.len(),
{
    if assets.len() == 0 {
        None
    } else if assets[0].spec_path() == path {
        Some(assets[0])
    } else {
        first_at(assets.drop_first(), path)
    }
}

/// The static file that is asked for under `path`.
pub open spec fn asset_at(path: Seq<char>) -> Option<Asset> {
    first_at(Asset::all(), path)
}

/// What the paths of the static files are, character by character.
proof fn lemma_paths_revealed()
    ensures
        "/facebook-ads/admin"@.len() == 19,
        "/facebook-ads/admin.js"@.len() == 22 && "/facebook-ads/admin.js"@[14] == 'a',
        "/facebook-ads/admin.js.map"@.len() == 26 && "/facebook-ads/admin.js.map"@[14] == 'a',
        "/facebook-ads/admin/styles.css"@.len() == 30,
        "/facebook-ads/"@.len() == 14,
        "/facebook-ads/index.js"@.len() == 22 && "/facebook-ads/index.js"@[14] == 'i',
        "/facebook-ads/index.js.map"@.len() == 26 && "/facebook-ads/index.js.map"@[14] == 'i',
        "/facebook-ads/beacons.js"@.len() == 24 && "/facebook-ads/beacons.js"@[14] == 'b',
        "/facebook-ads/beacons.js.map"@.len() == 28 && "/facebook-ads/beacons.js.map"@[14]
            == 'b',
        "/facebook-ads/styles.css"@.len() == 24 && "/facebook-ads/styles.css"@[14] == 's',
        "/facebook-ads/styles.css.map"@.len() == 28 && "/facebook-ads/styles.css.map"@[14]
            == 's',
        "/facebook-ads/locales/en/translation.json"@.len() == 41
            && "/facebook-ads/locales/en/translation.json"@[22] == 'e',
        "/facebook-ads/locales/de/translation.json"@.len() == 41
            && "/facebook-ads/locales/de/translation.json"@[22] == 'd',
        "/facebook-ads/ads"@.len() == 17,
        "/facebook-ads/stream"@.len() == 20,
        "/facebook-ads/heartbeat"@.len() == 23,
        "/facebook-ads/login"@.len() == 19,
        "/facebook-ads/admin/ads"@.len() == 23,
{
    reveal_strlit("/facebook-ads/admin");
    reveal_strlit("/facebook-ads/admin.js");
    reveal_strlit("/facebook-ads/admin.js.map");
    reveal_strlit("/facebook-ads/admin/styles.css");
    reveal_strlit("/facebook-ads/");
    reveal_strlit("/facebook-ads/index.js");
    reveal_strlit("/facebook-ads/index.js.map");
    reveal_strlit("/facebook-ads/beacons.js");
    reveal_strlit("/facebook-ads/beacons.js.map");
    reveal_strlit("/facebook-ads/styles.css");
    reveal_strlit("/facebook-ads/styles.css.map");
    reveal_strlit("/facebook-ads/locales/en/translation.json");
    reveal_strlit("/facebook-ads/locales/de/translation.json");
    reveal_strlit("/facebook-ads/ads");
    reveal_strlit("/facebook-ads/stream");
    reveal_strlit("/facebook-ads/heartbeat");
    reveal_strlit("/facebook-ads/login");
    reveal_strlit("/facebook-ads/admin/ads");
}

/// No two static files share a path, and none hides an operation: each file
/// is the one found under its own path, and each of the six operations is
/// found under its method and path.
pub proof fn law_routes_do_not_collide(asset: Asset)
    ensures
        asset_at(asset.spec_path()) == Some(asset),
        route_of(Method::Get, asset.spec_path()) == Route::File(asset),
        route_of(Method::Get, "/facebook-ads/ads"@) == Route::GetAds,
        route_of(Method::Get, "/facebook-ads/stream"@) == Route::Stream,
        route_of(Method::Get, "/facebook-ads/heartbeat"@) == Route::Heartbeat,
        route_of(Method::Post, "/facebook-ads/login"@) == Route::Login,
        route_of(Method::Post, "/facebook-ads/admin/ads"@) == Route::MarkAd,
        route_of(Method::Post, "/facebook-ads/ads"@) == Route::ProcessAds,
{
    lemma_paths_revealed();
    reveal_with_fuel(first_at, 14);
}

/// Finds the static file that is asked for under `path`.
pub fn find_asset(path: &str) -> (asset: Option<Asset>)
    ensures
        asset == asset_at(path@),
{
    let assets = Asset::list();
    assert(assets@.skip(0) =~= assets@);
    let mut i: usize = 0;
    while i < assets.len()
        invariant
            i <= assets.len(),
            assets@ == Asset::all(),
            asset_at(path@) == first_at(assets@.skip(i as int), path@),
        decreases assets.len() - i,
    {
        proof {
            assert(assets@.skip(i as int)[0] == assets@[i as int]);
            assert(assets@.skip(i as int).drop_first() =~= assets@.skip(i + 1));
        }
        if str_eq(path, assets[i].path()) {
            return Some(assets[i]);
        }
        i += 1;
    }
    None
}

/// What a request asks for.
#[derive(Clone, Copy, Debug, PartialEq, Eq)]
pub enum Route {
    /// To have a bearer token checked.
    Login,
    /// A static file.
    File(Asset),
    /// To suppress an ad; behind the credential gate.
    MarkAd,
    /// A listing of ads.
    GetAds,
    /// The live stream of changes.
    Stream,
    /// To take in a batch of submitted ads.
    ProcessAds,
    /// A sign of life.
    Heartbeat,
    /// Nothing that the service offers.
    NotFound,
}

impl Route {
    /// Whether the route lies behind the credential gate.
    pub open spec fn spec_protected(self) -> bool {
        self == Route::Login || self == Route::MarkAd
    }

    /// Whether the route lies behind the credential gate.
    #[verifier::when_used_as_spec(spec_protected)]
    pub fn protected(self) -> (protected: bool)
        ensures
            protected == self.spec_protected(),
    {
        match self {
            Route::Login | Route::MarkAd => true,
            _ => false,
        }
    }
}

/// The route of a method and a path. Static files and the three read-only
/// operations answer to `GET`, the three operations that take something in
/// to `POST`; everything else is not found.
pub open spec fn route_of(method: Method, path: Seq<char>) -> Route {
    match method {
        Method::Get => match asset_at(path) {
            Some(asset) => Route::File(asset),
            None => if path == "/facebook-ads/ads"@ {
                Route::GetAds
            } else if path == "/facebook-ads/stream"@ {
                Route::Stream
            } else if path == "/facebook-ads/heartbeat"@ {
                Route::Heartbeat
            } else {
                Route::NotFound
            },
        },
        Method::Post => if path == "/facebook-ads/login"@ {
            Route::Login
        } else if path == "/facebook-ads/admin/ads"@ {
            Route::MarkAd
        } else if path == "/facebook-ads/ads"@ {
            Route::ProcessAds
        } else {
            Route::NotFound
        },
        Method::Other => Route::NotFound,
    }
}

/// Finds the route of a method and a path.
pub fn route(method: Method, path: &str) -> (route: Route)
    ensures
        route == route_of(method, path@),
{
    match method {
        Method::Get => match find_asset(path) {
            Some(asset) => Route::File(asset),
            None => if str_eq(path, "/facebook-ads/ads") {
                Route::GetAds
            } else if str_eq(path, "/facebook-ads/stream") {
                Route::Stream
            } else if str_eq(path, "/facebook-ads/heartbeat") {
                Route::Heartbeat
            } else {
                Route::NotFound
            },
        },
        Method::Post => if str_eq(path, "/facebook-ads/login") {
            Route::Login
        } else if str_eq(path, "/facebook-ads/admin/ads") {
            Route::MarkAd
        } else if str_eq(path, "/facebook-ads/ads") {
            Route::ProcessAds
        } else {
            Route::NotFound
        },
        Method::Other => Route::NotFound,
    }
}

} // verus!
