//! Decoding the registry's JSON trees into the typed records, with an exact
//! specification of which trees decode, to what, and with which error
//! otherwise.

use vstd::prelude::*;
use crate::json::{JsonValue, json_tree_of, parse_json, spec_get};
use crate::model::{
    CrateDependency, CrateDependencyKind, CrateDependencyResponse, CrateDependencyView,
    CrateMetaResponse, CrateMetaResponseView, CrateMetadata, CrateMetadataView, CrateVersion,
    CrateVersionView, DecodeError, FieldName,
};

verus! {

/// A decode result with its payload replaced by the payload's deep view.
pub open spec fn res_dview<T: DeepView>(r: Result<T, DecodeError>) -> Result<
    T::V,
    DecodeError,
> {
    match r {
        Ok(t) => Ok(t.deep_view()),
        Err(e) => Err(e),
    }
}

/// The characters of a `Str` node (empty for the other variants).
pub open spec fn str_of(t: JsonValue) -> Seq<char> {
    match t {
        JsonValue::Str(s) => s@,
        _ => Seq::empty(),
    }
}

/// The number of a `Num` node that fits `u64` (zero otherwise).
pub open spec fn num_of(t: JsonValue) -> u64 {
    match t {
        JsonValue::Num(n) => match n {
            Some(v) => v,
            None => 0,
        },
        _ => 0,
    }
}

/// The elements of an `Arr` node (empty for the other variants).
pub open spec fn arr_of(t: JsonValue) -> Seq<JsonValue> {
    match t {
        JsonValue::Arr(a) => a@,
        _ => Seq::empty(),
    }
}

/// Every element is a string.
pub open spec fn all_strings(arr: Seq<JsonValue>) -> bool {
    forall|i: int| 0 <= i < arr.len() ==> (#[trigger] arr[i]) is Str
}

/// Every element is a number that fits `u64`.
pub open spec fn all_nums(arr: Seq<JsonValue>) -> bool {
    forall|i: int| 0 <= i < arr.len() ==> (#[trigger] arr[i]) matches JsonValue::Num(Some(_))
}

/// The characters of each element of a string array.
pub open spec fn string_views(arr: Seq<JsonValue>) -> Seq<Seq<char>> {
    arr.map_values(|t: JsonValue| str_of(t))
}

/// The number of each element of a numeric array.
pub open spec fn num_views(arr: Seq<JsonValue>) -> Seq<u64> {
    arr.map_values(|t: JsonValue| num_of(t))
}

/// The node is an array of strings.
pub open spec fn is_string_arr(t: JsonValue) -> bool {
    t matches JsonValue::Arr(a) && all_strings(a@)
}

/// Every value of a feature object is an array of strings.
pub open spec fn feature_entries_ok(entries: Seq<(String, JsonValue)>) -> bool {
    forall|i: int| 0 <= i < entries.len() ==> is_string_arr((#[trigger] entries[i]).1)
}

/// A feature object as pairs of feature name and enabled names.
pub open spec fn feature_views(entries: Seq<(String, JsonValue)>) -> Seq<
    (Seq<char>, Seq<Seq<char>>),
> {
    entries.map_values(|e: (String, JsonValue)| (e.0@, string_views(arr_of(e.1))))
}

/// A required string field: absent fails, any other type fails.
pub open spec fn spec_req_string(t: JsonValue, f: FieldName) -> Result<Seq<char>, DecodeError> {
    match spec_get(t, f.spec_label()) {
        None => Err(DecodeError::MissingField(f)),
        Some(v) => match v {
            JsonValue::Str(s) => Ok(s@),
            _ => Err(DecodeError::WrongType(f)),
        },
    }
}

/// An optional string field: absent or `null` is "not provided".
pub open spec fn spec_opt_string(t: JsonValue, f: FieldName) -> Result<
    Option<Seq<char>>,
    DecodeError,
> {
    match spec_get(t, f.spec_label()) {
        None => Ok(None),
        Some(v) => match v {
            JsonValue::Null => Ok(None),
            JsonValue::Str(s) => Ok(Some(s@)),
            _ => Err(DecodeError::WrongType(f)),
        },
    }
}

/// A required non-negative integer field.
pub open spec fn spec_req_u64(t: JsonValue, f: FieldName) -> Result<u64, DecodeError> {
    match spec_get(t, f.spec_label()) {
        None => Err(DecodeError::MissingField(f)),
        Some(v) => match v {
            JsonValue::Num(n) => match n {
                Some(x) => Ok(x),
                None => Err(DecodeError::WrongType(f)),
            },
            _ => Err(DecodeError::WrongType(f)),
        },
    }
}

/// A required boolean field.
pub open spec fn spec_req_bool(t: JsonValue, f: FieldName) -> Result<bool, DecodeError> {
    match spec_get(t, f.spec_label()) {
        None => Err(DecodeError::MissingField(f)),
        Some(v) => match v {
            JsonValue::Bool(b) => Ok(b),
            _ => Err(DecodeError::WrongType(f)),
        },
    }
}

/// A string-array field that defaults to empty when absent.
pub open spec fn spec_string_array(t: JsonValue, f: FieldName) -> Result<
    Seq<Seq<char>>,
    DecodeError,
> {
    match spec_get(t, f.spec_label()) {
        None => Ok(Seq::empty()),
        Some(v) => match v {
            JsonValue::Arr(a) => if all_strings(a@) {
                Ok(string_views(a@))
            } else {
                Err(DecodeError::WrongType(f))
            },
            _ => Err(DecodeError::WrongType(f)),
        },
    }
}

/// A numeric-array field that defaults to empty when absent.
pub open spec fn spec_u64_array(t: JsonValue, f: FieldName) -> Result<Seq<u64>, DecodeError> {
    match spec_get(t, f.spec_label()) {
        None => Ok(Seq::empty()),
        Some(v) => match v {
            JsonValue::Arr(a) => if all_nums(a@) {
                Ok(num_views(a@))
            } else {
                Err(DecodeError::WrongType(f))
            },
            _ => Err(DecodeError::WrongType(f)),
        },
    }
}

fn req_string(t: &JsonValue, f: FieldName) -> (r: Result<String, DecodeError>)
    ensures
        res_dview(r) == spec_req_string(*t, f),
{
    match t.get(f.label()) {
        None => Err(DecodeError::MissingField(f)),
        Some(v) => match v {
            JsonValue::Str(s) => Ok(s.clone()),
            _ => Err(DecodeError::WrongType(f)),
        },
    }
}

fn opt_string(t: &JsonValue, f: FieldName) -> (r: Result<Option<String>, DecodeError>)
    ensures
        res_dview(r) == spec_opt_string(*t, f),
{
    match t.get(f.label()) {
        None => Ok(None),
        Some(v) => match v {
            JsonValue::Null => Ok(None),
            JsonValue::Str(s) => Ok(Some(s.clone())),
            _ => Err(DecodeError::WrongType(f)),
        },
    }
}

fn req_u64(t: &JsonValue, f: FieldName) -> (r: Result<u64, DecodeError>)
    ensures
        res_dview(r) == spec_req_u64(*t, f),
{
    match t.get(f.label()) {
        None => Err(DecodeError::MissingField(f)),
        Some(v) => match v {
            JsonValue::Num(n) => match n {
                Some(x) => Ok(*x),
                None => Err(DecodeError::WrongType(f)),
            },
            _ => Err(DecodeError::WrongType(f)),
        },
    }
}

fn req_bool(t: &JsonValue, f: FieldName) -> (r: Result<bool, DecodeError>)
    ensures
        res_dview(r) == spec_req_bool(*t, f),
{
    match t.get(f.label()) {
        None => Err(DecodeError::MissingField(f)),
        Some(v) => match v {
            JsonValue::Bool(b) => Ok(*b),
            _ => Err(DecodeError::WrongType(f)),
        },
    }
}

/// The strings of an all-string array, or `None` when some element is not a
/// string.
fn strings_of_arr(a: &Vec<JsonValue>) -> (r: Option<Vec<String>>)
    ensures
        match r {
            Some(v) => all_strings(a@) && v.deep_view() == string_views(a@),
            None => !all_strings(a@),
        },
{
    let n = a.len();
    let mut out: Vec<String> = Vec::new();
    let mut i: usize = 0;
    proof {
        assert(out.deep_view() =~= string_views(a@.take(0)));
    }
    while i < n
        invariant
            i <= n,
            n == a.len(),
            forall|j: int| 0 <= j < i ==> (#[trigger] a@[j]) is Str,
            out.deep_view() == string_views(a@.take(i as int)),
        decreases n - i,
    {
        let ghost dv_old = out.deep_view();
        match &a[i] {
            JsonValue::Str(s) => {
                out.push(s.clone());
                proof {
                    assert(out.deep_view() =~= dv_old.push(a@[i as int]->Str_0@));
                    assert(a@.take(i as int).push(a@[i as int]) =~= a@.take(i as int + 1));
                    assert(string_views(a@.take(i as int + 1)) =~= string_views(
                        a@.take(i as int),
                    ).push(str_of(a@[i as int])));
                }
            },
            _ => {
                proof {
                    assert(!all_strings(a@)) by {
                        assert(!(a@[i as int] is Str));
                    }
                }
                return None;
            },
        }
        i = i + 1;
    }
    proof {
        assert(a@.take(n as int) =~= a@);
    }
    Some(out)
}

/// The numbers of an all-numeric array, or `None` when some element is not a
/// number that fits `u64`.
fn nums_of_arr(a: &Vec<JsonValue>) -> (r: Option<Vec<u64>>)
    ensures
        match r {
            Some(v) => all_nums(a@) && v@ == num_views(a@),
            None => !all_nums(a@),
        },
{
    let n = a.len();
    let mut out: Vec<u64> = Vec::new();
    let mut i: usize = 0;
    proof {
        assert(out@ =~= num_views(a@.take(0)));
    }
    while i < n
        invariant
            i <= n,
            n == a.len(),
            forall|j: int| 0 <= j < i ==> (#[trigger] a@[j]) matches JsonValue::Num(Some(_)),
            out@ == num_views(a@.take(i as int)),
        decreases n - i,
    {
        let ghost dv_old = out@;
        match &a[i] {
            JsonValue::Num(n_opt) => match n_opt {
                Some(x) => {
                    out.push(*x);
                    proof {
                        assert(a@.take(i as int).push(a@[i as int]) =~= a@.take(i as int + 1));
                        assert(num_views(a@.take(i as int + 1)) =~= num_views(
                            a@.take(i as int),
                        ).push(num_of(a@[i as int])));
                    }
                },
                None => {
                    proof {
                        assert(!all_nums(a@)) by {
                            assert(!(a@[i as int] matches JsonValue::Num(Some(_))));
                        }
                    }
                    return None;
                },
            },
            _ => {
                proof {
                    assert(!all_nums(a@)) by {
                        assert(!(a@[i as int] matches JsonValue::Num(Some(_))));
                    }
                }
                return None;
            },
        }
        i = i + 1;
    }
    proof {
        assert(a@.take(n as int) =~= a@);
    }
    Some(out)
}

fn string_array(t: &JsonValue, f: FieldName) -> (r: Result<Vec<String>, DecodeError>)
    ensures
        res_dview(r) == spec_string_array(*t, f),
{
    match t.get(f.label()) {
        None => {
            let out: Vec<String> = Vec::new();
            proof {
                assert(out.deep_view() =~= Seq::<Seq<char>>::empty());
            }
            Ok(out)
        },
        Some(v) => match v {
            JsonValue::Arr(a) => match strings_of_arr(a) {
                Some(out) => Ok(out),
                None => Err(DecodeError::WrongType(f)),
            },
            _ => Err(DecodeError::WrongType(f)),
        },
    }
}

fn u64_array(t: &JsonValue, f: FieldName) -> (r: Result<Vec<u64>, DecodeError>)
    ensures
        res_dview(r) == spec_u64_array(*t, f),
{
    match t.get(f.label()) {
        None => {
            let out: Vec<u64> = Vec::new();
            proof {
                assert(out.deep_view() =~= Seq::<u64>::empty());
            }
            Ok(out)
        },
        Some(v) => match v {
            JsonValue::Arr(a) => match nums_of_arr(a) {
                Some(out) => {
                    proof {
                        assert(out.deep_view() =~= out@);
                    }
                    Ok(out)
                },
                None => Err(DecodeError::WrongType(f)),
            },
            _ => Err(DecodeError::WrongType(f)),
        },
    }
}

/// The feature map of one release: the required `features` object, every
/// value an array of strings.
pub open spec fn spec_features_field(t: JsonValue) -> Result<
    Seq<(Seq<char>, Seq<Seq<char>>)>,
    DecodeError,
> {
    match spec_get(t, "features"@) {
        None => Err(DecodeError::MissingField(FieldName::Features)),
        Some(v) => match v {
            JsonValue::Obj(entries) => if feature_entries_ok(entries@) {
                Ok(feature_views(entries@))
            } else {
                Err(DecodeError::WrongType(FieldName::Features))
            },
            _ => Err(DecodeError::WrongType(FieldName::Features)),
        },
    }
}

/// One element of the response's `versions` array.
pub open spec fn spec_decode_version(t: JsonValue) -> Result<CrateVersionView, DecodeError> {
    if !(t is Obj) {
        Err(DecodeError::WrongType(FieldName::Versions))
    } else {
        let features = spec_features_field(t);
        let num = spec_req_string(t, FieldName::Num);
        if features is Err {
            Err(features->Err_0)
        } else if num is Err {
            Err(num->Err_0)
        } else {
            Ok(CrateVersionView { features: features->Ok_0, version: num->Ok_0 })
        }
    }
}

/// The whole `versions` array, stopping at the first failing element.
pub open spec fn spec_decode_versions(arr: Seq<JsonValue>) -> Result<
    Seq<CrateVersionView>,
    DecodeError,
>
    decreases arr.len(),
{
    if arr.len() == 0 {
        Ok(Seq::empty())
    } else {
        match spec_decode_version(arr[0]) {
            Err(e) => Err(e),
            Ok(v) => match spec_decode_versions(arr.drop_first()) {
                Err(e) => Err(e),
                Ok(rest) => Ok(seq![v] + rest),
            },
        }
    }
}

/// The crate record under the response's `crate` key. The two derived fields
/// stay empty here; they are filled in from the version list afterwards.
pub open spec fn spec_decode_crate(t: JsonValue) -> Result<CrateMetadataView, DecodeError> {
    if !(t is Obj) {
        Err(DecodeError::WrongType(FieldName::Crate))
    } else {
        let id = spec_req_string(t, FieldName::Id);
        let name = spec_req_string(t, FieldName::Name);
        let created_at = spec_req_string(t, FieldName::CreatedAt);
        let updated_at = spec_req_string(t, FieldName::UpdatedAt);
        let downloads = spec_req_u64(t, FieldName::Downloads);
        let max_version = spec_req_string(t, FieldName::MaxVersion);
        let description = spec_opt_string(t, FieldName::Description);
        let documentation = spec_opt_string(t, FieldName::Documentation);
        let homepage = spec_opt_string(t, FieldName::Homepage);
        let repository = spec_opt_string(t, FieldName::Repository);
        let license = spec_opt_string(t, FieldName::License);
        let keywords = spec_string_array(t, FieldName::Keywords);
        let versions = spec_u64_array(t, FieldName::Versions);
        if id is Err {
            Err(id->Err_0)
        } else if name is Err {
            Err(name->Err_0)
        } else if created_at is Err {
            Err(created_at->Err_0)
        } else if updated_at is Err {
            Err(updated_at->Err_0)
        } else if downloads is Err {
            Err(downloads->Err_0)
        } else if max_version is Err {
            Err(max_version->Err_0)
        } else if description is Err {
            Err(description->Err_0)
        } else if documentation is Err {
            Err(documentation->Err_0)
        } else if homepage is Err {
            Err(homepage->Err_0)
        } else if repository is Err {
            Err(repository->Err_0)
        } else if license is Err {
            Err(license->Err_0)
        } else if keywords is Err {
            Err(keywords->Err_0)
        } else if versions is Err {
            Err(versions->Err_0)
        } else {
            Ok(
                CrateMetadataView {
                    created_at: created_at->Ok_0,
                    description: description->Ok_0,
                    documentation: documentation->Ok_0,
                    downloads: downloads->Ok_0,
                    homepage: homepage->Ok_0,
                    id: id->Ok_0,
                    keywords: keywords->Ok_0,
                    license: license->Ok_0,
                    max_version: max_version->Ok_0,
                    name: name->Ok_0,
                    repository: repository->Ok_0,
                    updated_at: updated_at->Ok_0,
                    versions: versions->Ok_0,
                    features: Seq::empty(),
                    versions_: Seq::empty(),
                },
            )
        }
    }
}

/// The whole metadata endpoint payload: the crate record under `crate` and
/// the release list under `versions`.
pub open spec fn spec_decode_meta(t: JsonValue) -> Result<CrateMetaResponseView, DecodeError> {
    if !(t is Obj) {
        Err(DecodeError::WrongType(FieldName::Document))
    } else {
        match spec_get(t, "crate"@) {
            None => Err(DecodeError::MissingField(FieldName::Crate)),
            Some(c) => match spec_decode_crate(c) {
                Err(e) => Err(e),
                Ok(cd) => match spec_get(t, "versions"@) {
                    None => Err(DecodeError::MissingField(FieldName::Versions)),
                    Some(v) => match v {
                        JsonValue::Arr(a) => match spec_decode_versions(a@) {
                            Err(e) => Err(e),
                            Ok(vs) => Ok(
                                CrateMetaResponseView { crate_data: cd, versions: vs },
                            ),
                        },
                        _ => Err(DecodeError::WrongType(FieldName::Versions)),
                    },
                },
            },
        }
    }
}

/// What the metadata endpoint's text decodes to.
pub open spec fn spec_decode_meta_str(s: Seq<char>) -> Result<CrateMetaResponseView, DecodeError> {
    match json_tree_of(s) {
        None => Err(DecodeError::InvalidJson),
        Some(t) => spec_decode_meta(t),
    }
}

/// The dependency kind named by `s`; the set is closed.
pub open spec fn spec_kind_of(s: Seq<char>) -> Option<CrateDependencyKind> {
    if s == "normal"@ {
        Some(CrateDependencyKind::Normal)
    } else if s == "dev"@ {
        Some(CrateDependencyKind::Dev)
    } else if s == "build"@ {
        Some(CrateDependencyKind::Build)
    } else {
        None
    }
}

/// One element of the response's `dependencies` array.
pub open spec fn spec_decode_dep(t: JsonValue) -> Result<CrateDependencyView, DecodeError> {
    if !(t is Obj) {
        Err(DecodeError::WrongType(FieldName::Dependencies))
    } else {
        let id = spec_req_string(t, FieldName::CrateId);
        let req = spec_req_string(t, FieldName::Req);
        let kind = spec_req_string(t, FieldName::Kind);
        let optional = spec_req_bool(t, FieldName::Optional);
        if id is Err {
            Err(id->Err_0)
        } else if req is Err {
            Err(req->Err_0)
        } else if kind is Err {
            Err(kind->Err_0)
        } else if spec_kind_of(kind->Ok_0) is None {
            Err(DecodeError::UnknownKind)
        } else if optional is Err {
            Err(optional->Err_0)
        } else {
            Ok(
                CrateDependencyView {
                    id: id->Ok_0,
                    req: req->Ok_0,
                    kind: spec_kind_of(kind->Ok_0)->Some_0,
                    optional: optional->Ok_0,
                },
            )
        }
    }
}

/// The whole `dependencies` array, stopping at the first failing element.
pub open spec fn spec_decode_deps(arr: Seq<JsonValue>) -> Result<
    Seq<CrateDependencyView>,
    DecodeError,
>
    decreases arr.len(),
{
    if arr.len() == 0 {
        Ok(Seq::empty())
    } else {
        match spec_decode_dep(arr[0]) {
            Err(e) => Err(e),
            Ok(d) => match spec_decode_deps(arr.drop_first()) {
                Err(e) => Err(e),
                Ok(rest) => Ok(seq![d] + rest),
            },
        }
    }
}

/// The whole dependency endpoint payload: the edge list under `dependencies`.
pub open spec fn spec_decode_deps_doc(t: JsonValue) -> Result<
    Seq<CrateDependencyView>,
    DecodeError,
> {
    if !(t is Obj) {
        Err(DecodeError::WrongType(FieldName::Document))
    } else {
        match spec_get(t, "dependencies"@) {
            None => Err(DecodeError::MissingField(FieldName::Dependencies)),
            Some(v) => match v {
                JsonValue::Arr(a) => spec_decode_deps(a@),
                _ => Err(DecodeError::WrongType(FieldName::Dependencies)),
            },
        }
    }
}

/// What the dependency endpoint's text decodes to.
pub open spec fn spec_decode_deps_str(s: Seq<char>) -> Result<
    Seq<CrateDependencyView>,
    DecodeError,
> {
    match json_tree_of(s) {
        None => Err(DecodeError::InvalidJson),
        Some(t) => spec_decode_deps_doc(t),
    }
}

fn is_obj(t: &JsonValue) -> (r: bool)
    ensures
        r == (*t is Obj),
{
    match t {
        JsonValue::Obj(_) => true,
        _ => false,
    }
}

fn features_field(t: &JsonValue) -> (r: Result<Vec<(String, Vec<String>)>, DecodeError>)
    ensures
        res_dview(r) == spec_features_field(*t),
{
    match t.get("features") {
        None => Err(DecodeError::MissingField(FieldName::Features)),
        Some(v) => match v {
            JsonValue::Obj(entries) => {
                let n = entries.len();
                let mut out: Vec<(String, Vec<String>)> = Vec::new();
                let mut i: usize = 0;
                proof {
                    assert(out.deep_view() =~= feature_views(entries@.take(0)));
                }
                while i < n
                    invariant
                        i <= n,
                        n == entries.len(),
                        spec_get(*t, "features"@) == Some(JsonValue::Obj(*entries)),
                        forall|j: int| 0 <= j < i ==> is_string_arr((#[trigger] entries@[j]).1),
                        out.deep_view() == feature_views(entries@.take(i as int)),
                    decreases n - i,
                {
                    let ghost dv_old = out.deep_view();
                    let e = &entries[i];
                    match &e.1 {
                        JsonValue::Arr(a) => match strings_of_arr(a) {
                            Some(vals) => {
                                out.push((e.0.clone(), vals));
                                proof {
                                    assert(entries@.take(i as int).push(entries@[i as int])
                                        =~= entries@.take(i as int + 1));
                                    assert(feature_views(entries@.take(i as int + 1))
                                        =~= feature_views(entries@.take(i as int)).push(
                                        (entries@[i as int].0@, string_views(
                                            arr_of(entries@[i as int].1),
                                        )),
                                    ));
                                    assert(out.deep_view() =~= feature_views(
                                        entries@.take(i as int + 1),
                                    ));
                                }
                            },
                            None => {
                                proof {
                                    assert(!feature_entries_ok(entries@)) by {
                                        assert(!is_string_arr(entries@[i as int].1));
                                    }
                                }
                                return Err(DecodeError::WrongType(FieldName::Features));
                            },
                        },
                        _ => {
                            proof {
                                assert(!feature_entries_ok(entries@)) by {
                                    assert(!is_string_arr(entries@[i as int].1));
                                }
                            }
                            return Err(DecodeError::WrongType(FieldName::Features));
                        },
                    }
                    i = i + 1;
                }
                proof {
                    assert(entries@.take(n as int) =~= entries@);
                }
                Ok(out)
            },
            _ => Err(DecodeError::WrongType(FieldName::Features)),
        },
    }
}

fn decode_version(t: &JsonValue) -> (r: Result<CrateVersion, DecodeError>)
    ensures
        res_dview(r) == spec_decode_version(*t),
{
    if !is_obj(t) {
        return Err(DecodeError::WrongType(FieldName::Versions));
    }
    let features = match features_field(t) {
        Ok(f) => f,
        Err(e) => {
            return Err(e);
        },
    };
    let num = match req_string(t, FieldName::Num) {
        Ok(s) => s,
        Err(e) => {
            return Err(e);
        },
    };
    Ok(CrateVersion { features, version: num })
}

fn decode_versions(a: &Vec<JsonValue>) -> (r: Result<Vec<CrateVersion>, DecodeError>)
    ensures
        res_dview(r) == spec_decode_versions(a@),
{
    let n = a.len();
    let mut out: Vec<CrateVersion> = Vec::new();
    let mut i: usize = 0;
    proof {
        assert(a@.skip(0) =~= a@);
        if spec_decode_versions(a@) is Ok {
            assert(Seq::empty() + spec_decode_versions(a@)->Ok_0 =~= spec_decode_versions(
                a@,
            )->Ok_0);
        }
    }
    while i < n
        invariant
            i <= n,
            n == a.len(),
            spec_decode_versions(a@) == (match spec_decode_versions(a@.skip(i as int)) {
                Ok(rest) => Ok::<_, DecodeError>(out.deep_view() + rest),
                Err(e) => Err(e),
            }),
        decreases n - i,
    {
        proof {
            assert(a@.skip(i as int)[0] == a@[i as int]);
            assert(a@.skip(i as int).drop_first() =~= a@.skip(i as int + 1));
        }
        let ghost dv_old = out.deep_view();
        match decode_version(&a[i]) {
            Err(e) => {
                return Err(e);
            },
            Ok(v) => {
                proof {
                    let rest = spec_decode_versions(a@.skip(i as int + 1));
                    if rest is Ok {
                        assert(dv_old.push(v@) + rest->Ok_0 =~= dv_old + (seq![v@]
                            + rest->Ok_0));
                    }
                }
                out.push(v);
                proof {
                    assert(out.deep_view() =~= dv_old.push(v@));
                }
            },
        }
        i = i + 1;
    }
    proof {
        assert(a@.skip(n as int) =~= Seq::<JsonValue>::empty());
        assert(out.deep_view() + Seq::<CrateVersionView>::empty() =~= out.deep_view());
    }
    Ok(out)
}

fn decode_crate(t: &JsonValue) -> (r: Result<CrateMetadata, DecodeError>)
    ensures
        res_dview(r) == spec_decode_crate(*t),
{
    if !is_obj(t) {
        return Err(DecodeError::WrongType(FieldName::Crate));
    }
    let id = match req_string(t, FieldName::Id) {
        Ok(v) => v,
        Err(e) => {
            return Err(e);
        },
    };
    let name = match req_string(t, FieldName::Name) {
        Ok(v) => v,
        Err(e) => {
            return Err(e);
        },
    };
    let created_at = match req_string(t, FieldName::CreatedAt) {
        Ok(v) => v,
        Err(e) => {
            return Err(e);
        },
    };
    let updated_at = match req_string(t, FieldName::UpdatedAt) {
        Ok(v) => v,
        Err(e) => {
            return Err(e);
        },
    };
    let downloads = match req_u64(t, FieldName::Downloads) {
        Ok(v) => v,
        Err(e) => {
            return Err(e);
        },
    };
    let max_version = match req_string(t, FieldName::MaxVersion) {
        Ok(v) => v,
        Err(e) => {
            return Err(e);
        },
    };
    let description = match opt_string(t, FieldName::Description) {
        Ok(v) => v,
        Err(e) => {
            return Err(e);
        },
    };
    let documentation = match opt_string(t, FieldName::Documentation) {
        Ok(v) => v,
        Err(e) => {
            return Err(e);
        },
    };
    let homepage = match opt_string(t, FieldName::Homepage) {
        Ok(v) => v,
        Err(e) => {
            return Err(e);
        },
    };
    let repository = match opt_string(t, FieldName::Repository) {
        Ok(v) => v,
        Err(e) => {
            return Err(e);
        },
    };
    let license = match opt_string(t, FieldName::License) {
        Ok(v) => v,
        Err(e) => {
            return Err(e);
        },
    };
    let keywords = match string_array(t, FieldName::Keywords) {
        Ok(v) => v,
        Err(e) => {
            return Err(e);
        },
    };
    let versions = match u64_array(t, FieldName::Versions) {
        Ok(v) => v,
        Err(e) => {
            return Err(e);
        },
    };
    let out = CrateMetadata {
        created_at,
        description,
        documentation,
        downloads,
        homepage,
        id,
        keywords,
        license,
        max_version,
        name,
        repository,
        updated_at,
        versions,
        features: Vec::new(),
        versions_: Vec::new(),
    };
    proof {
        assert(out.features.deep_view() =~= Seq::<(Seq<char>, Seq<Seq<char>>)>::empty());
        assert(out.versions_.deep_view() =~= Seq::<Seq<char>>::empty());
        assert(out.versions@ =~= out.versions.deep_view());
    }
    Ok(out)
}

impl CrateMetaResponse {
    /// Decodes the metadata endpoint's payload from its JSON tree.
    pub fn from_json(t: &JsonValue) -> (r: Result<CrateMetaResponse, DecodeError>)
        ensures
            res_dview(r) == spec_decode_meta(*t),
    {
        if !is_obj(t) {
            return Err(DecodeError::WrongType(FieldName::Document));
        }
        let c = match t.get("crate") {
            Some(c) => c,
            None => {
                return Err(DecodeError::MissingField(FieldName::Crate));
            },
        };
        let crate_data = match decode_crate(c) {
            Ok(v) => v,
            Err(e) => {
                return Err(e);
            },
        };
        let versions = match t.get("versions") {
            None => {
                return Err(DecodeError::MissingField(FieldName::Versions));
            },
            Some(v) => match v {
                JsonValue::Arr(a) => match decode_versions(a) {
                    Ok(vs) => vs,
                    Err(e) => {
                        return Err(e);
                    },
                },
                _ => {
                    return Err(DecodeError::WrongType(FieldName::Versions));
                },
            },
        };
        Ok(CrateMetaResponse { crate_data, versions })
    }

    /// Decodes the metadata endpoint's payload from its text, through the
    /// outside JSON parser.
    pub fn decode(s: &str) -> (r: Result<CrateMetaResponse, DecodeError>)
        ensures
            res_dview(r) == spec_decode_meta_str(s@),
    {
        match parse_json(s) {
            None => Err(DecodeError::InvalidJson),
            Some(t) => Self::from_json(&t),
        }
    }
}

fn decode_dep(t: &JsonValue) -> (r: Result<CrateDependency, DecodeError>)
    ensures
        res_dview(r) == spec_decode_dep(*t),
{
    if !is_obj(t) {
        return Err(DecodeError::WrongType(FieldName::Dependencies));
    }
    let id = match req_string(t, FieldName::CrateId) {
        Ok(v) => v,
        Err(e) => {
            return Err(e);
        },
    };
    let req = match req_string(t, FieldName::Req) {
        Ok(v) => v,
        Err(e) => {
            return Err(e);
        },
    };
    let kind_name = match req_string(t, FieldName::Kind) {
        Ok(v) => v,
        Err(e) => {
            return Err(e);
        },
    };
    let kind = if crate::json::str_eq(kind_name.as_str(), "normal") {
        CrateDependencyKind::Normal
    } else if crate::json::str_eq(kind_name.as_str(), "dev") {
        CrateDependencyKind::Dev
    } else if crate::json::str_eq(kind_name.as_str(), "build") {
        CrateDependencyKind::Build
    } else {
        return Err(DecodeError::UnknownKind);
    };
    let optional = match req_bool(t, FieldName::Optional) {
        Ok(v) => v,
        Err(e) => {
            return Err(e);
        },
    };
    Ok(CrateDependency { id, req, kind, optional })
}

fn decode_deps(a: &Vec<JsonValue>) -> (r: Result<Vec<CrateDependency>, DecodeError>)
    ensures
        res_dview(r) == spec_decode_deps(a@),
{
    let n = a.len();
    let mut out: Vec<CrateDependency> = Vec::new();
    let mut i: usize = 0;
    proof {
        assert(a@.skip(0) =~= a@);
        if spec_decode_deps(a@) is Ok {
            assert(Seq::empty() + spec_decode_deps(a@)->Ok_0 =~= spec_decode_deps(a@)->Ok_0);
        }
    }
    while i < n
        invariant
            i <= n,
            n == a.len(),
            spec_decode_deps(a@) == (match spec_decode_deps(a@.skip(i as int)) {
                Ok(rest) => Ok::<_, DecodeError>(out.deep_view() + rest),
                Err(e) => Err(e),
            }),
        decreases n - i,
    {
        proof {
            assert(a@.skip(i as int)[0] == a@[i as int]);
            assert(a@.skip(i as int).drop_first() =~= a@.skip(i as int + 1));
        }
        let ghost dv_old = out.deep_view();
        match decode_dep(&a[i]) {
            Err(e) => {
                return Err(e);
            },
            Ok(d) => {
                proof {
                    let rest = spec_decode_deps(a@.skip(i as int + 1));
                    if rest is Ok {
                        assert(dv_old.push(d@) + rest->Ok_0 =~= dv_old + (seq![d@]
                            + rest->Ok_0));
                    }
                }
                out.push(d);
                proof {
                    assert(out.deep_view() =~= dv_old.push(d@));
                }
            },
        }
        i = i + 1;
    }
    proof {
        assert(a@.skip(n as int) =~= Seq::<JsonValue>::empty());
        assert(out.deep_view() + Seq::<CrateDependencyView>::empty() =~= out.deep_view());
    }
    Ok(out)
}

impl CrateDependencyResponse {
    /// Decodes the dependency endpoint's payload from its JSON tree.
    pub fn from_json(t: &JsonValue) -> (r: Result<CrateDependencyResponse, DecodeError>)
        ensures
            res_dview(r) == spec_decode_deps_doc(*t),
    {
        if !is_obj(t) {
            return Err(DecodeError::WrongType(FieldName::Document));
        }
        match t.get("dependencies") {
            None => Err(DecodeError::MissingField(FieldName::Dependencies)),
            Some(v) => match v {
                JsonValue::Arr(a) => match decode_deps(a) {
                    Ok(ds) => Ok(CrateDependencyResponse { dependencies: ds }),
                    Err(e) => Err(e),
                },
                _ => Err(DecodeError::WrongType(FieldName::Dependencies)),
            },
        }
    }

    /// Decodes the dependency endpoint's payload from its text, through the
    /// outside JSON parser.
    pub fn decode(s: &str) -> (r: Result<CrateDependencyResponse, DecodeError>)
        ensures
            res_dview(r) == spec_decode_deps_str(s@),
    {
        match parse_json(s) {
            None => Err(DecodeError::InvalidJson),
            Some(t) => Self::from_json(&t),
        }
    }
}

} // verus!
