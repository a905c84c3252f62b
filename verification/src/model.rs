//! Typed representation of the registry's JSON payloads, and the derivation
//! of the display-only fields from a decoded metadata response.

use vstd::prelude::*;
use vstd::string::StringExecFns;

verus! {

/// One package's metadata, as decoded from the registry's metadata endpoint
/// plus the two derived fields (`features`, `versions_`) filled in afterwards
/// from the sibling version list of the same response.
#[derive(Debug)]
pub struct CrateMetadata {
    pub created_at: String,
    pub description: Option<String>,
    pub documentation: Option<String>,
    pub downloads: u64,
    pub homepage: Option<String>,
    pub id: String,
    pub keywords: Vec<String>,
    pub license: Option<String>,
    pub max_version: String,
    pub name: String,
    pub repository: Option<String>,
    pub updated_at: String,
    pub versions: Vec<u64>,
    /// Feature map of the newest release: feature name to the names it enables,
    /// in the key order the decoder produced (ascending).
    pub features: Vec<(String, Vec<String>)>,
    /// Version strings of all releases, newest first.
    pub versions_: Vec<String>,
}

/// Mathematical image of a [`CrateMetadata`].
pub ghost struct CrateMetadataView {
    pub created_at: Seq<char>,
    pub description: Option<Seq<char>>,
    pub documentation: Option<Seq<char>>,
    pub downloads: u64,
    pub homepage: Option<Seq<char>>,
    pub id: Seq<char>,
    pub keywords: Seq<Seq<char>>,
    pub license: Option<Seq<char>>,
    pub max_version: Seq<char>,
    pub name: Seq<char>,
    pub repository: Option<Seq<char>>,
    pub updated_at: Seq<char>,
    pub versions: Seq<u64>,
    pub features: Seq<(Seq<char>, Seq<Seq<char>>)>,
    pub versions_: Seq<Seq<char>>,
}

impl View for CrateMetadata {
    type V = CrateMetadataView;

    open spec fn view(&self) -> CrateMetadataView {
        CrateMetadataView {
            created_at: self.created_at@,
            description: self.description.deep_view(),
            documentation: self.documentation.deep_view(),
            downloads: self.downloads,
            homepage: self.homepage.deep_view(),
            id: self.id@,
            keywords: self.keywords.deep_view(),
            license: self.license.deep_view(),
            max_version: self.max_version@,
            name: self.name@,
            repository: self.repository.deep_view(),
            updated_at: self.updated_at@,
            versions: self.versions@,
            features: self.features.deep_view(),
            versions_: self.versions_.deep_view(),
        }
    }
}

impl DeepView for CrateMetadata {
    type V = CrateMetadataView;

    open spec fn deep_view(&self) -> CrateMetadataView {
        self.view()
    }
}

/// One release's snapshot inside the metadata response: its feature map and
/// its version string (the response's `num`).
#[derive(Debug)]
pub struct CrateVersion {
    pub features: Vec<(String, Vec<String>)>,
    pub version: String,
}

/// Mathematical image of a [`CrateVersion`].
pub ghost struct CrateVersionView {
    pub features: Seq<(Seq<char>, Seq<Seq<char>>)>,
    pub version: Seq<char>,
}

impl View for CrateVersion {
    type V = CrateVersionView;

    open spec fn view(&self) -> CrateVersionView {
        CrateVersionView { features: self.features.deep_view(), version: self.version@ }
    }
}

impl DeepView for CrateVersion {
    type V = CrateVersionView;

    open spec fn deep_view(&self) -> CrateVersionView {
        self.view()
    }
}

/// The whole metadata endpoint response: the crate record under `crate` and
/// the release list under `versions`, newest first.
#[derive(Debug)]
pub struct CrateMetaResponse {
    pub crate_data: CrateMetadata,
    pub versions: Vec<CrateVersion>,
}

/// Mathematical image of a [`CrateMetaResponse`].
pub ghost struct CrateMetaResponseView {
    pub crate_data: CrateMetadataView,
    pub versions: Seq<CrateVersionView>,
}

impl View for CrateMetaResponse {
    type V = CrateMetaResponseView;

    open spec fn view(&self) -> CrateMetaResponseView {
        CrateMetaResponseView {
            crate_data: self.crate_data@,
            versions: self.versions.deep_view(),
        }
    }
}

impl DeepView for CrateMetaResponse {
    type V = CrateMetaResponseView;

    open spec fn deep_view(&self) -> CrateMetaResponseView {
        self.view()
    }
}

/// The record with its derived fields filled in: the feature map of the
/// first (newest) release and every release's version string, in response
/// order. Meaningful only when the version list is non-empty.
pub open spec fn spec_enrich(resp: CrateMetaResponseView) -> CrateMetadataView {
    CrateMetadataView {
        features: resp.versions[0].features,
        versions_: resp.versions.map_values(|v: CrateVersionView| v.version),
        ..resp.crate_data
    }
}

fn clone_strings(v: &Vec<String>) -> (r: Vec<String>)
    ensures
        r.deep_view() == v.deep_view(),
{
    let n = v.len();
    let mut r: Vec<String> = Vec::new();
    let mut i: usize = 0;
    proof {
        assert(r.deep_view() =~= v.deep_view().take(0));
    }
    while i < n
        invariant
            i <= n,
            n == v.len(),
            r.deep_view() == v.deep_view().take(i as int),
        decreases n - i,
    {
        let ghost dv_old = r.deep_view();
        r.push(v[i].clone());
        proof {
            assert(r.deep_view() =~= dv_old.push(v@[i as int]@));
            assert(r.deep_view() =~= v.deep_view().take(i as int + 1));
        }
        i = i + 1;
    }
    proof {
        assert(v.deep_view().take(n as int) =~= v.deep_view());
    }
    r
}

fn clone_features(v: &Vec<(String, Vec<String>)>) -> (r: Vec<(String, Vec<String>)>)
    ensures
        r.deep_view() == v.deep_view(),
{
    let n = v.len();
    let mut r: Vec<(String, Vec<String>)> = Vec::new();
    let mut i: usize = 0;
    proof {
        assert(r.deep_view() =~= v.deep_view().take(0));
    }
    while i < n
        invariant
            i <= n,
            n == v.len(),
            r.deep_view() == v.deep_view().take(i as int),
        decreases n - i,
    {
        let ghost dv_old = r.deep_view();
        let e = &v[i];
        let vals = clone_strings(&e.1);
        r.push((e.0.clone(), vals));
        proof {
            assert(r.deep_view() =~= dv_old.push((v@[i as int].0@, v@[i as int].1.deep_view())));
            assert(r.deep_view() =~= v.deep_view().take(i as int + 1));
        }
        i = i + 1;
    }
    proof {
        assert(v.deep_view().take(n as int) =~= v.deep_view());
    }
    r
}

impl CrateMetaResponse {
    /// Fills the derived fields of the crate record from the sibling version
    /// list of the same response: `features` is copied from the first entry,
    /// which the registry documents as the newest release, and `versions_`
    /// lists every entry's version string in response order. An empty version
    /// list leaves no feature map to copy and is reported as an error, never
    /// guessed around.
    pub fn into_metadata(self) -> (r: Result<CrateMetadata, DecodeError>)
        ensures
            self.versions@.len() == 0 ==> r == Result::<CrateMetadata, DecodeError>::Err(
                DecodeError::EmptyVersions,
            ),
            self.versions@.len() > 0 ==> (r matches Ok(m) && m@ == spec_enrich(self@)),
    {
        if self.versions.is_empty() {
            return Err(DecodeError::EmptyVersions);
        }
        let mut crate_data = self.crate_data;
        let versions = self.versions;
        crate_data.features = clone_features(&versions[0].features);
        let n = versions.len();
        let mut vs: Vec<String> = Vec::new();
        let mut i: usize = 0;
        proof {
            assert(vs.deep_view() =~= versions.deep_view().take(0).map_values(
                |v: CrateVersionView| v.version,
            ));
        }
        while i < n
            invariant
                i <= n,
                n == versions.len(),
                vs.deep_view() == versions.deep_view().take(i as int).map_values(
                    |v: CrateVersionView| v.version,
                ),
            decreases n - i,
        {
            let ghost dv_old = vs.deep_view();
            vs.push(versions[i].version.clone());
            proof {
                assert(vs.deep_view() =~= dv_old.push(versions@[i as int].version@));
                assert(vs.deep_view() =~= versions.deep_view().take(i as int + 1).map_values(
                    |v: CrateVersionView| v.version,
                ));
            }
            i = i + 1;
        }
        proof {
            assert(versions.deep_view().take(n as int) =~= versions.deep_view());
        }
        crate_data.versions_ = vs;
        Ok(crate_data)
    }
}

/// Why a dependency edge exists. The display order is the declaration order:
/// `Normal`, then `Dev`, then `Build`.
#[derive(Clone, Copy, Debug, PartialEq, Eq, Structural)]
pub enum CrateDependencyKind {
    /// A regular dependency of the library or binary.
    Normal,
    /// A dependency used only by examples or tests.
    Dev,
    /// A dependency required by `build.rs`.
    Build,
}

impl CrateDependencyKind {
    /// The kind's position in the display order.
    pub open spec fn spec_rank(self) -> int {
        match self {
            CrateDependencyKind::Normal => 0,
            CrateDependencyKind::Dev => 1,
            CrateDependencyKind::Build => 2,
        }
    }

    /// The kind's lowercase name, as the registry writes it.
    pub open spec fn spec_label(self) -> Seq<char> {
        match self {
            CrateDependencyKind::Normal => "normal"@,
            CrateDependencyKind::Dev => "dev"@,
            CrateDependencyKind::Build => "build"@,
        }
    }

    /// The kind's position in the display order.
    pub fn rank(self) -> (r: u8)
        ensures
            r as int == self.spec_rank(),
    {
        match self {
            CrateDependencyKind::Normal => 0,
            CrateDependencyKind::Dev => 1,
            CrateDependencyKind::Build => 2,
        }
    }

    /// The kind's lowercase name, as the registry writes it.
    pub fn label(self) -> (r: &'static str)
        ensures
            r@ == self.spec_label(),
    {
        match self {
            CrateDependencyKind::Normal => "normal",
            CrateDependencyKind::Dev => "dev",
            CrateDependencyKind::Build => "build",
        }
    }
}

/// One dependency edge of a release.
#[derive(Debug)]
pub struct CrateDependency {
    /// The depended-on package's name (the response's `crate_id`).
    pub id: String,
    /// The required version range (semver requirement).
    pub req: String,
    /// Why the dependency exists.
    pub kind: CrateDependencyKind,
    /// Whether the dependency is optional.
    pub optional: bool,
}

/// Mathematical image of a [`CrateDependency`].
pub ghost struct CrateDependencyView {
    pub id: Seq<char>,
    pub req: Seq<char>,
    pub kind: CrateDependencyKind,
    pub optional: bool,
}

impl View for CrateDependency {
    type V = CrateDependencyView;

    open spec fn view(&self) -> CrateDependencyView {
        CrateDependencyView {
            id: self.id@,
            req: self.req@,
            kind: self.kind,
            optional: self.optional,
        }
    }
}

impl DeepView for CrateDependency {
    type V = CrateDependencyView;

    open spec fn deep_view(&self) -> CrateDependencyView {
        self.view()
    }
}

/// The whole dependency endpoint response: the edge list under `dependencies`.
#[derive(Debug)]
pub struct CrateDependencyResponse {
    pub dependencies: Vec<CrateDependency>,
}

impl View for CrateDependencyResponse {
    type V = Seq<CrateDependencyView>;

    open spec fn view(&self) -> Seq<CrateDependencyView> {
        self.dependencies.deep_view()
    }
}

impl DeepView for CrateDependencyResponse {
    type V = Seq<CrateDependencyView>;

    open spec fn deep_view(&self) -> Seq<CrateDependencyView> {
        self.view()
    }
}

/// A field of one of the registry's payloads, named in decode errors.
#[derive(Clone, Copy, Debug, PartialEq, Eq, Structural)]
pub enum FieldName {
    Document,
    Crate,
    Id,
    Name,
    CreatedAt,
    UpdatedAt,
    Downloads,
    MaxVersion,
    Description,
    Documentation,
    Homepage,
    Repository,
    License,
    Keywords,
    Versions,
    Num,
    Features,
    Dependencies,
    CrateId,
    Req,
    Kind,
    Optional,
}

/// Why a payload failed to decode.
#[derive(Clone, Copy, Debug, PartialEq, Eq, Structural)]
pub enum DecodeError {
    /// The payload is not well-formed JSON.
    InvalidJson,
    /// A required field is absent.
    MissingField(FieldName),
    /// A field holds a value of the wrong JSON type.
    WrongType(FieldName),
    /// A dependency `kind` outside `normal`, `dev`, `build`.
    UnknownKind,
    /// The response's version list is empty, so no feature map exists.
    EmptyVersions,
}

impl FieldName {
    /// The field's name as it appears in the payload.
    pub open spec fn spec_label(self) -> Seq<char> {
        match self {
            FieldName::Document => "document"@,
            FieldName::Crate => "crate"@,
            FieldName::Id => "id"@,
            FieldName::Name => "name"@,
            FieldName::CreatedAt => "created_at"@,
            FieldName::UpdatedAt => "updated_at"@,
            FieldName::Downloads => "downloads"@,
            FieldName::MaxVersion => "max_version"@,
            FieldName::Description => "description"@,
            FieldName::Documentation => "documentation"@,
            FieldName::Homepage => "homepage"@,
            FieldName::Repository => "repository"@,
            FieldName::License => "license"@,
            FieldName::Keywords => "keywords"@,
            FieldName::Versions => "versions"@,
            FieldName::Num => "num"@,
            FieldName::Features => "features"@,
            FieldName::Dependencies => "dependencies"@,
            FieldName::CrateId => "crate_id"@,
            FieldName::Req => "req"@,
            FieldName::Kind => "kind"@,
            FieldName::Optional => "optional"@,
        }
    }

    /// The field's name as it appears in the payload.
    pub fn label(self) -> (r: &'static str)
        ensures
            r@ == self.spec_label(),
    {
        match self {
            FieldName::Document => "document",
            FieldName::Crate => "crate",
            FieldName::Id => "id",
            FieldName::Name => "name",
            FieldName::CreatedAt => "created_at",
            FieldName::UpdatedAt => "updated_at",
            FieldName::Downloads => "downloads",
            FieldName::MaxVersion => "max_version",
            FieldName::Description => "description",
            FieldName::Documentation => "documentation",
            FieldName::Homepage => "homepage",
            FieldName::Repository => "repository",
            FieldName::License => "license",
            FieldName::Keywords => "keywords",
            FieldName::Versions => "versions",
            FieldName::Num => "num",
            FieldName::Features => "features",
            FieldName::Dependencies => "dependencies",
            FieldName::CrateId => "crate_id",
            FieldName::Req => "req",
            FieldName::Kind => "kind",
            FieldName::Optional => "optional",
        }
    }
}

/// The cause text of a [`DecodeError`].
pub open spec fn spec_error_message(e: DecodeError) -> Seq<char> {
    match e {
        DecodeError::InvalidJson => "invalid JSON"@,
        DecodeError::MissingField(f) => "missing field `"@ + f.spec_label() + "`"@,
        DecodeError::WrongType(f) => "wrong type for field `"@ + f.spec_label() + "`"@,
        DecodeError::UnknownKind => "unknown dependency kind"@,
        DecodeError::EmptyVersions => "empty versions array"@,
    }
}

impl DecodeError {
    /// The cause text of the error, used inside per-package error lines.
    pub fn message(self) -> (r: String)
        ensures
            r@ == spec_error_message(self),
    {
        match self {
            DecodeError::InvalidJson => String::from_str("invalid JSON"),
            DecodeError::MissingField(f) => {
                let mut r = String::from_str("missing field `");
                r.append(f.label());
                r.append("`");
                r
            },
            DecodeError::WrongType(f) => {
                let mut r = String::from_str("wrong type for field `");
                r.append(f.label());
                r.append("`");
                r
            },
            DecodeError::UnknownKind => String::from_str("unknown dependency kind"),
            DecodeError::EmptyVersions => String::from_str("empty versions array"),
        }
    }
}

} // verus!
