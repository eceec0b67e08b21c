//! The list that describes the modding API: its version, where to download
//! it for each system, and the files that it is made of.

use vstd::prelude::*;

verus! {

/// Where the API is downloaded from for one system, and the SHA-256 digest
/// of what is found there.
#[derive(Debug, PartialEq)]
pub struct ApiLink {
    pub sha256: String,
    pub link: String,
}

/// An `ApiLink` as a value of the contracts.
pub struct ApiLinkView {
    pub sha256: Seq<char>,
    pub link: Seq<char>,
}

impl View for ApiLink {
    type V = ApiLinkView;

    open spec fn view(&self) -> ApiLinkView {
        ApiLinkView { sha256: self.sha256@, link: self.link@ }
    }
}

impl ApiLink {
    /// A link with no address and no digest.
    pub fn empty() -> (r: ApiLink)
        ensures
            r@ == (ApiLinkView { sha256: Seq::empty(), link: Seq::empty() }),
    {
        ApiLink { sha256: String::new(), link: String::new() }
    }
}

/// The download links of the API, one for each system.
#[derive(Debug, PartialEq)]
pub struct ApiPlatformLinks {
    pub linux: ApiLink,
    pub mac: ApiLink,
    pub windows: ApiLink,
}

/// An `ApiPlatformLinks` as a value of the contracts.
pub struct ApiPlatformLinksView {
    pub linux: ApiLinkView,
    pub mac: ApiLinkView,
    pub windows: ApiLinkView,
}

impl View for ApiPlatformLinks {
    type V = ApiPlatformLinksView;

    open spec fn view(&self) -> ApiPlatformLinksView {
        ApiPlatformLinksView { linux: self.linux@, mac: self.mac@, windows: self.windows@ }
    }
}

/// The names of the files that make up the API.
#[derive(Debug, PartialEq)]
pub struct ApiFiles {
    pub files: Vec<String>,
}

impl View for ApiFiles {
    type V = Seq<Seq<char>>;

    open spec fn view(&self) -> Seq<Seq<char>> {
        self.files.deep_view()
    }
}

/// The description of one release of the API.
#[derive(Debug, PartialEq)]
pub struct ApiManifest {
    pub version: String,
    pub links: ApiPlatformLinks,
    pub files: ApiFiles,
}

/// An `ApiManifest` as a value of the contracts.
pub struct ApiManifestView {
    pub version: Seq<char>,
    pub links: ApiPlatformLinksView,
    pub files: Seq<Seq<char>>,
}

impl View for ApiManifest {
    type V = ApiManifestView;

    open spec fn view(&self) -> ApiManifestView {
        ApiManifestView { version: self.version@, links: self.links@, files: self.files@ }
    }
}

/// The list that describes the API.
#[derive(Debug, PartialEq)]
pub struct ApiLinks {
    pub manifest: ApiManifest,
}

impl View for ApiLinks {
    type V = ApiManifestView;

    open spec fn view(&self) -> ApiManifestView {
        self.manifest@
    }
}

/// The description that holds nothing: no version, no links, no files.
pub open spec fn empty_api_manifest() -> ApiManifestView {
    let nothing = ApiLinkView { sha256: Seq::empty(), link: Seq::empty() };
    ApiManifestView {
        version: Seq::empty(),
        links: ApiPlatformLinksView { linux: nothing, mac: nothing, windows: nothing },
        files: Seq::empty(),
    }
}

impl ApiLinks {
    /// A list that describes nothing; it stands in until the real one has
    /// been read.
    pub fn new() -> (r: ApiLinks)
        ensures
            r@ == empty_api_manifest(),
    {
        let r = ApiLinks {
            manifest: ApiManifest {
                version: String::new(),
                links: ApiPlatformLinks {
                    linux: ApiLink::empty(),
                    mac: ApiLink::empty(),
                    windows: ApiLink::empty(),
                },
                files: ApiFiles { files: Vec::new() },
            },
        };
        assert(r@.files =~= Seq::<Seq<char>>::empty());
        r
    }
}

} // verus!
