//! Rendering the records as the canonical text block, with an exact
//! character-level specification of every line, and the display ordering of
//! dependency lists.

use vstd::prelude::*;
use vstd::string::StringExecFns;
use crate::json::str_eq;
use crate::model::{CrateDependency, CrateDependencyKind, CrateDependencyView, CrateMetadata,
    CrateMetadataView};
use crate::text::{dec_digits, join_sep, join_strings, max_width, max_width_of, pad_left,
    pad_left_str, pad_right, pad_right_str, u64_to_dec};

verus! {

/// An optional field's text: the value, or the literal "None".
pub open spec fn opt_text(o: Option<Seq<char>>) -> Seq<char> {
    match o {
        Some(s) => s,
        None => "None"@,
    }
}

/// The feature names, in the map's own order.
pub open spec fn feature_names(features: Seq<(Seq<char>, Seq<Seq<char>>)>) -> Seq<Seq<char>> {
    Seq::new(features.len(), |i: int| features[i].0)
}

/// The names a feature enables, for the first feature called `key`.
pub open spec fn spec_lookup_feature(
    features: Seq<(Seq<char>, Seq<Seq<char>>)>,
    key: Seq<char>,
) -> Option<Seq<Seq<char>>>
    decreases features.len(),
{
    if features.len() == 0 {
        None
    } else if features[0].0 == key {
        Some(features[0].1)
    } else {
        spec_lookup_feature(features.drop_first(), key)
    }
}

/// The default_features value: the names the "default" feature enables,
/// comma-joined, or "--" when the map has no "default" key.
pub open spec fn default_features_text(features: Seq<(Seq<char>, Seq<Seq<char>>)>) -> Seq<char> {
    match spec_lookup_feature(features, "default"@) {
        Some(subs) => join_sep(subs, ","@),
        None => "--"@,
    }
}

/// Each name left-justified to width `w`.
pub open spec fn padded_views(names: Seq<Seq<char>>, w: nat) -> Seq<Seq<char>> {
    Seq::new(names.len(), |i: int| pad_right(names[i], w))
}

/// One chunk of up to four names, padded and space-joined.
pub open spec fn chunk_text(chunk: Seq<Seq<char>>, w: nat) -> Seq<char> {
    join_sep(padded_views(chunk, w), " "@)
}

/// The features line's value: the names in chunks of four per line, each
/// padded to the widest name, continuation lines indented ten spaces.
pub open spec fn features_text(names: Seq<Seq<char>>, w: nat) -> Seq<char>
    decreases names.len(),
{
    if names.len() == 0 {
        Seq::empty()
    } else if names.len() <= 4 {
        chunk_text(names, w)
    } else {
        chunk_text(names.take(4), w) + "\n          "@ + features_text(names.skip(4), w)
    }
}

/// One features_detail line: two spaces, the name right-justified to the
/// widest name, ` = `, and the enabled names comma-joined.
pub open spec fn detail_line(k: Seq<char>, vals: Seq<Seq<char>>, w: nat) -> Seq<char> {
    "  "@ + pad_left(k, w) + " = "@ + join_sep(vals, ","@)
}

/// The features_detail lines, one per feature, in map order.
pub open spec fn detail_lines(features: Seq<(Seq<char>, Seq<Seq<char>>)>, w: nat) -> Seq<
    Seq<char>,
> {
    Seq::new(features.len(), |i: int| detail_line(features[i].0, features[i].1, w))
}

/// The version strings shown on the latest_versions line: the first five
/// entries, or all of them when there are fewer.
pub open spec fn latest_shown(m: CrateMetadataView) -> Seq<Seq<char>> {
    m.versions_.take(
        if m.versions_.len() < 5 {
            m.versions_.len() as int
        } else {
            5
        },
    )
}

/// Every line of the rendered block above the features_detail entries, in
/// order.
pub open spec fn head_lines(m: CrateMetadataView) -> Seq<Seq<char>> {
    let w = max_width(feature_names(m.features));
    seq![
        "---"@,
        "id: "@ + m.id,
        "name: "@ + m.name,
        "description: "@ + opt_text(m.description),
        "documentation: "@ + opt_text(m.documentation),
        "homepage: "@ + opt_text(m.homepage),
        "repository: "@ + opt_text(m.repository),
        "max_version: "@ + m.max_version,
        "latest_versions: "@ + join_sep(latest_shown(m), ", "@),
        "downloads: "@ + dec_digits(m.downloads as nat),
        "license: "@ + opt_text(m.license),
        "created: "@ + m.created_at,
        "updated: "@ + m.updated_at,
        "keywords: "@ + join_sep(m.keywords, ", "@),
        "default_features: "@ + default_features_text(m.features),
        "features: "@ + features_text(feature_names(m.features), w),
        "features_detail:"@,
    ]
}

/// The whole rendered metadata block: the head lines newline-joined, then a
/// newline, then the features_detail lines newline-joined (nothing when the
/// feature map is empty).
pub open spec fn spec_render_metadata(m: CrateMetadataView) -> Seq<char> {
    let w = max_width(feature_names(m.features));
    join_sep(head_lines(m), "\n"@) + "\n"@ + join_sep(detail_lines(m.features, w), "\n"@)
}

fn opt_or_none<'a>(o: &'a Option<String>) -> (r: &'a str)
    ensures
        r@ == opt_text(o.deep_view()),
{
    match o {
        Some(s) => s.as_str(),
        None => "None",
    }
}

fn line2(label: &str, value: &str) -> (r: String)
    ensures
        r@ == label@ + value@,
{
    let mut s = String::from_str(label);
    s.append(value);
    s
}

fn lookup_feature<'a>(features: &'a Vec<(String, Vec<String>)>, key: &str) -> (r: Option<
    &'a Vec<String>,
>)
    ensures
        match r {
            Some(v) => spec_lookup_feature(features.deep_view(), key@) == Some(v.deep_view()),
            None => spec_lookup_feature(features.deep_view(), key@) is None,
        },
{
    let n = features.len();
    let mut i: usize = 0;
    proof {
        assert(features.deep_view().skip(0) =~= features.deep_view());
    }
    while i < n
        invariant
            i <= n,
            n == features.len(),
            spec_lookup_feature(features.deep_view(), key@) == spec_lookup_feature(
                features.deep_view().skip(i as int),
                key@,
            ),
        decreases n - i,
    {
        proof {
            assert(features.deep_view().skip(i as int)[0] == features.deep_view()[i as int]);
            assert(features.deep_view().skip(i as int).drop_first() =~= features.deep_view().skip(
                i as int + 1,
            ));
        }
        let e = &features[i];
        if str_eq(e.0.as_str(), key) {
            return Some(&e.1);
        }
        i = i + 1;
    }
    None
}

fn features_block(names: &Vec<String>, w: usize) -> (r: String)
    ensures
        r@ == features_text(names.deep_view(), w as nat),
{
    let n = names.len();
    let mut r = String::new();
    let mut c: usize = 0;
    proof {
        assert(names.deep_view().skip(0) =~= names.deep_view());
        assert(Seq::<char>::empty() + features_text(names.deep_view(), w as nat) =~= features_text(
            names.deep_view(),
            w as nat,
        ));
    }
    while c < n
        invariant
            c <= n,
            n == names.len(),
            features_text(names.deep_view(), w as nat) == r@ + features_text(
                names.deep_view().skip(c as int),
                w as nat,
            ),
        decreases n - c,
    {
        let end = if n - c < 4 {
            n
        } else {
            c + 4
        };
        let mut chunk: Vec<String> = Vec::new();
        let mut j: usize = c;
        proof {
            assert(chunk.deep_view() =~= padded_views(
                names.deep_view().subrange(c as int, c as int),
                w as nat,
            ));
        }
        while j < end
            invariant
                c <= j <= end,
                end <= n,
                n == names.len(),
                chunk.deep_view() == padded_views(
                    names.deep_view().subrange(c as int, j as int),
                    w as nat,
                ),
            decreases end - j,
        {
            let ghost dv_old = chunk.deep_view();
            chunk.push(pad_right_str(names[j].as_str(), w));
            proof {
                assert(chunk.deep_view() =~= dv_old.push(
                    pad_right(names.deep_view()[j as int], w as nat),
                ));
                assert(chunk.deep_view() =~= padded_views(
                    names.deep_view().subrange(c as int, j as int + 1),
                    w as nat,
                ));
            }
            j = j + 1;
        }
        let chunk_str = join_strings(&chunk, " ");
        let ghost r_old = r@;
        r.append(chunk_str.as_str());
        proof {
            let dv = names.deep_view();
            let rest = dv.skip(c as int);
            if n - c < 4 {
                assert(dv.subrange(c as int, end as int) =~= rest);
                assert(chunk_str@ == chunk_text(rest, w as nat));
            } else {
                assert(dv.subrange(c as int, end as int) =~= rest.take(4));
                assert(chunk_str@ == chunk_text(rest.take(4), w as nat));
            }
        }
        if end < n {
            r.append("\n          ");
            proof {
                let dv = names.deep_view();
                let rest = dv.skip(c as int);
                assert(rest.len() > 4);
                assert(rest.skip(4) =~= dv.skip(end as int));
                assert(r@ =~= r_old + (chunk_text(rest.take(4), w as nat) + "\n          "@));
                assert(r_old + (chunk_text(rest.take(4), w as nat) + "\n          "@)
                    + features_text(dv.skip(end as int), w as nat) =~= r_old + (chunk_text(
                    rest.take(4),
                    w as nat,
                ) + "\n          "@ + features_text(rest.skip(4), w as nat)));
            }
        } else {
            proof {
                let dv = names.deep_view();
                let rest = dv.skip(c as int);
                assert(rest.len() <= 4);
                assert(dv.skip(end as int) =~= Seq::<Seq<char>>::empty());
                assert(r@ + features_text(dv.skip(end as int), w as nat) =~= r@);
            }
        }
        c = end;
    }
    proof {
        assert(names.deep_view().skip(n as int) =~= Seq::<Seq<char>>::empty());
        assert(r@ + features_text(Seq::<Seq<char>>::empty(), w as nat) =~= r@);
    }
    r
}

fn detail_block(features: &Vec<(String, Vec<String>)>, w: usize) -> (r: String)
    ensures
        r@ == join_sep(detail_lines(features.deep_view(), w as nat), "\n"@),
{
    let n = features.len();
    let mut lines: Vec<String> = Vec::new();
    let mut i: usize = 0;
    proof {
        assert(lines.deep_view() =~= detail_lines(features.deep_view().take(0), w as nat));
    }
    while i < n
        invariant
            i <= n,
            n == features.len(),
            lines.deep_view() == detail_lines(features.deep_view().take(i as int), w as nat),
        decreases n - i,
    {
        let ghost dv_old = lines.deep_view();
        let e = &features[i];
        let mut line = String::from_str("  ");
        let padded = pad_left_str(e.0.as_str(), w);
        line.append(padded.as_str());
        line.append(" = ");
        let joined = join_strings(&e.1, ",");
        line.append(joined.as_str());
        lines.push(line);
        proof {
            let fdv = features.deep_view();
            assert(lines.deep_view() =~= dv_old.push(
                detail_line(fdv[i as int].0, fdv[i as int].1, w as nat),
            ));
            assert(lines.deep_view() =~= detail_lines(fdv.take(i as int + 1), w as nat));
        }
        i = i + 1;
    }
    proof {
        assert(features.deep_view().take(n as int) =~= features.deep_view());
    }
    join_strings(&lines, "\n")
}

impl CrateMetadata {
    /// The canonical multi-line text block for the record, exactly as
    /// [`spec_render_metadata`] describes it.
    pub fn render(&self) -> (r: String)
        ensures
            r@ == spec_render_metadata(self@),
    {
        // Feature names, in map order, and the widest name's width.
        let nf = self.features.len();
        let mut names: Vec<String> = Vec::new();
        let mut i: usize = 0;
        proof {
            assert(names.deep_view() =~= feature_names(self@.features.take(0)));
        }
        while i < nf
            invariant
                i <= nf,
                nf == self.features.len(),
                names.deep_view() == feature_names(self@.features.take(i as int)),
            decreases nf - i,
        {
            let ghost dv_old = names.deep_view();
            names.push(self.features[i].0.clone());
            proof {
                assert(names.deep_view() =~= dv_old.push(self@.features[i as int].0));
                assert(names.deep_view() =~= feature_names(self@.features.take(i as int + 1)));
            }
            i = i + 1;
        }
        proof {
            assert(self@.features.take(nf as int) =~= self@.features);
        }
        let w = max_width_of(&names);

        // The latest_versions value: the first five version strings.
        let nv = self.versions_.len();
        let k = if nv < 5 {
            nv
        } else {
            5
        };
        let mut latest: Vec<String> = Vec::new();
        let mut j: usize = 0;
        proof {
            assert(latest.deep_view() =~= self@.versions_.take(0));
        }
        while j < k
            invariant
                j <= k,
                k <= self.versions_.len(),
                latest.deep_view() == self@.versions_.take(j as int),
            decreases k - j,
        {
            let ghost dv_old = latest.deep_view();
            latest.push(self.versions_[j].clone());
            proof {
                assert(latest.deep_view() =~= dv_old.push(self@.versions_[j as int]));
                assert(latest.deep_view() =~= self@.versions_.take(j as int + 1));
            }
            j = j + 1;
        }
        let latest_str = join_strings(&latest, ", ");
        proof {
            assert(latest.deep_view() =~= latest_shown(self@));
        }

        // The remaining computed values.
        let downloads_str = u64_to_dec(self.downloads);
        let keywords_str = join_strings(&self.keywords, ", ");
        let def_str = match lookup_feature(&self.features, "default") {
            Some(v) => join_strings(v, ","),
            None => String::from_str("--"),
        };
        let feat_str = features_block(&names, w);

        // The head lines, in their fixed order.
        let mut head: Vec<String> = Vec::new();
        head.push(String::from_str("---"));
        head.push(line2("id: ", self.id.as_str()));
        head.push(line2("name: ", self.name.as_str()));
        head.push(line2("description: ", opt_or_none(&self.description)));
        head.push(line2("documentation: ", opt_or_none(&self.documentation)));
        head.push(line2("homepage: ", opt_or_none(&self.homepage)));
        head.push(line2("repository: ", opt_or_none(&self.repository)));
        head.push(line2("max_version: ", self.max_version.as_str()));
        head.push(line2("latest_versions: ", latest_str.as_str()));
        head.push(line2("downloads: ", downloads_str.as_str()));
        head.push(line2("license: ", opt_or_none(&self.license)));
        head.push(line2("created: ", self.created_at.as_str()));
        head.push(line2("updated: ", self.updated_at.as_str()));
        head.push(line2("keywords: ", keywords_str.as_str()));
        head.push(line2("default_features: ", def_str.as_str()));
        head.push(line2("features: ", feat_str.as_str()));
        head.push(String::from_str("features_detail:"));
        proof {
            assert(head.deep_view() =~= head_lines(self@));
        }

        let mut r = join_strings(&head, "\n");
        r.append("\n");
        let details = detail_block(&self.features, w);
        r.append(details.as_str());
        r
    }
}

/// The parenthesized annotation after a dependency: nothing for a plain
/// normal dependency; otherwise the non-normal kind's name and/or "opt",
/// comma-separated, in parentheses.
pub open spec fn spec_dep_suffix(kind: CrateDependencyKind, optional: bool) -> Seq<char> {
    if kind == CrateDependencyKind::Normal && !optional {
        Seq::empty()
    } else {
        " ("@ + (if kind != CrateDependencyKind::Normal {
            kind.spec_label()
        } else {
            Seq::empty()
        }) + (if kind != CrateDependencyKind::Normal && optional {
            ", "@
        } else {
            Seq::empty()
        }) + (if optional {
            "opt"@
        } else {
            Seq::empty()
        }) + ")"@
    }
}

/// One dependency line: name, space, requirement, then the suffix.
pub open spec fn spec_render_dep(d: CrateDependencyView) -> Seq<char> {
    d.id + " "@ + d.req + spec_dep_suffix(d.kind, d.optional)
}

impl CrateDependency {
    /// The dependency's display line, exactly as [`spec_render_dep`]
    /// describes it.
    pub fn render(&self) -> (r: String)
        ensures
            r@ == spec_render_dep(self@),
    {
        let mut r = self.id.clone();
        r.append(" ");
        r.append(self.req.as_str());
        let ghost base = r@;
        let not_normal = match self.kind {
            CrateDependencyKind::Normal => false,
            _ => true,
        };
        if not_normal || self.optional {
            r.append(" (");
            if not_normal {
                r.append(self.kind.label());
            }
            if not_normal && self.optional {
                r.append(", ");
            }
            if self.optional {
                r.append("opt");
            }
            r.append(")");
            proof {
                assert(r@ =~= base + spec_dep_suffix(self.kind, self.optional));
            }
        } else {
            proof {
                assert(r@ =~= base + spec_dep_suffix(self.kind, self.optional));
            }
        }
        r
    }
}

/// An optional value paired with a fallback text: shows the value when it is
/// there, the fallback when it is not. `text` does the work a Display
/// adapter would, which Verus cannot express.
pub struct OrDisplay(pub Option<String>, pub String);

impl OrDisplay {
    /// What showing the pair yields.
    pub open spec fn spec_text(&self) -> Seq<char> {
        match self.0 {
            Some(s) => s@,
            None => self.1@,
        }
    }

    /// The value's text, or the fallback.
    pub fn text(&self) -> (r: String)
        ensures
            r@ == self.spec_text(),
    {
        match &self.0 {
            Some(s) => s.clone(),
            None => self.1.clone(),
        }
    }
}

/// Pairs an optional value with fallback text for display.
pub trait OrDisplayExt: Sized {
    /// The optional text the adapter reads.
    spec fn spec_opt(&self) -> Option<Seq<char>>;

    /// Pairs a borrowed value with the fallback `u`.
    fn or_display(&self, u: &str) -> (r: OrDisplay)
        ensures
            r.0.deep_view() == self.spec_opt(),
            r.1@ == u@,
    ;

    /// Pairs the value itself with the fallback `u`.
    fn into_or_display(self, u: &str) -> (r: OrDisplay)
        ensures
            r.0.deep_view() == self.spec_opt(),
            r.1@ == u@,
    ;
}

impl OrDisplayExt for Option<String> {
    open spec fn spec_opt(&self) -> Option<Seq<char>> {
        self.deep_view()
    }

    fn or_display(&self, u: &str) -> (r: OrDisplay)
        ensures
            r.0.deep_view() == self.spec_opt(),
            r.1@ == u@,
    {
        let v = match self {
            Some(s) => Some(s.clone()),
            None => None,
        };
        OrDisplay(v, String::from_str(u))
    }

    fn into_or_display(self, u: &str) -> (r: OrDisplay)
        ensures
            r.0.deep_view() == self.spec_opt(),
            r.1@ == u@,
    {
        OrDisplay(self, String::from_str(u))
    }
}

/// The dependencies of one kind, in their original order.
pub open spec fn kind_filter(
    ds: Seq<CrateDependencyView>,
    k: CrateDependencyKind,
) -> Seq<CrateDependencyView> {
    ds.filter(|d: CrateDependencyView| d.kind == k)
}

/// The display order of a dependency list: all Normal entries first, then
/// all Dev, then all Build, each group in original order.
pub open spec fn spec_sort_deps(ds: Seq<CrateDependencyView>) -> Seq<CrateDependencyView> {
    kind_filter(ds, CrateDependencyKind::Normal) + kind_filter(ds, CrateDependencyKind::Dev)
        + kind_filter(ds, CrateDependencyKind::Build)
}

proof fn lemma_kind_filter_empty(k: CrateDependencyKind)
    ensures
        kind_filter(Seq::<CrateDependencyView>::empty(), k) == Seq::<
            CrateDependencyView,
        >::empty(),
{
    reveal(Seq::filter);
}

proof fn lemma_kind_filter_push(
    ds: Seq<CrateDependencyView>,
    k: CrateDependencyKind,
    x: CrateDependencyView,
)
    ensures
        kind_filter(ds.push(x), k) == if x.kind == k {
            kind_filter(ds, k).push(x)
        } else {
            kind_filter(ds, k)
        },
{
    reveal(Seq::filter);
    assert(ds.push(x).drop_last() =~= ds);
    assert(ds.push(x).last() == x);
}

proof fn lemma_kind_filter_twice(
    ds: Seq<CrateDependencyView>,
    k1: CrateDependencyKind,
    k2: CrateDependencyKind,
)
    ensures
        kind_filter(kind_filter(ds, k1), k2) == if k1 == k2 {
            kind_filter(ds, k1)
        } else {
            Seq::<CrateDependencyView>::empty()
        },
    decreases ds.len(),
{
    if ds.len() == 0 {
        reveal(Seq::filter);
        assert(kind_filter(ds, k1) =~= Seq::<CrateDependencyView>::empty());
        lemma_kind_filter_empty(k2);
    } else {
        let prefix = ds.drop_last();
        let x = ds.last();
        lemma_kind_filter_twice(prefix, k1, k2);
        assert(prefix.push(x) =~= ds);
        lemma_kind_filter_push(prefix, k1, x);
        if x.kind == k1 {
            lemma_kind_filter_push(kind_filter(prefix, k1), k2, x);
        }
    }
}

proof fn lemma_kind_filter_kinds(ds: Seq<CrateDependencyView>, k: CrateDependencyKind)
    ensures
        forall|i: int|
            0 <= i < kind_filter(ds, k).len() ==> (#[trigger] kind_filter(ds, k)[i]).kind == k,
{
    assert forall|i: int| 0 <= i < kind_filter(ds, k).len() implies (#[trigger] kind_filter(
        ds,
        k,
    )[i]).kind == k by {
        ds.lemma_filter_pred(|d: CrateDependencyView| d.kind == k, i);
    }
}

/// Law: ordering a dependency list for display groups the kinds as
/// Normal, then Dev, then Build, and within each kind keeps the input's
/// relative order (the entries of each kind come out exactly as they
/// went in).
pub proof fn lemma_sort_deps_stable(ds: Seq<CrateDependencyView>)
    ensures
        forall|i: int, j: int|
            0 <= i <= j < spec_sort_deps(ds).len() ==> (#[trigger] spec_sort_deps(ds)[i])
                .kind.spec_rank() <= (#[trigger] spec_sort_deps(ds)[j]).kind.spec_rank(),
        kind_filter(spec_sort_deps(ds), CrateDependencyKind::Normal) == kind_filter(
            ds,
            CrateDependencyKind::Normal,
        ),
        kind_filter(spec_sort_deps(ds), CrateDependencyKind::Dev) == kind_filter(
            ds,
            CrateDependencyKind::Dev,
        ),
        kind_filter(spec_sort_deps(ds), CrateDependencyKind::Build) == kind_filter(
            ds,
            CrateDependencyKind::Build,
        ),
{
    let a = kind_filter(ds, CrateDependencyKind::Normal);
    let b = kind_filter(ds, CrateDependencyKind::Dev);
    let c = kind_filter(ds, CrateDependencyKind::Build);
    let s = spec_sort_deps(ds);
    lemma_kind_filter_kinds(ds, CrateDependencyKind::Normal);
    lemma_kind_filter_kinds(ds, CrateDependencyKind::Dev);
    lemma_kind_filter_kinds(ds, CrateDependencyKind::Build);
    assert forall|i: int, j: int| 0 <= i <= j < s.len() implies (#[trigger] s[i]).kind.spec_rank()
        <= (#[trigger] s[j]).kind.spec_rank() by {
        assert(s[i].kind.spec_rank() == if i < a.len() {
            0int
        } else if i < a.len() + b.len() {
            1int
        } else {
            2int
        });
        assert(s[j].kind.spec_rank() == if j < a.len() {
            0int
        } else if j < a.len() + b.len() {
            1int
        } else {
            2int
        });
    }
    let cl_n = |d: CrateDependencyView| d.kind == CrateDependencyKind::Normal;
    let cl_d = |d: CrateDependencyView| d.kind == CrateDependencyKind::Dev;
    let cl_b = |d: CrateDependencyView| d.kind == CrateDependencyKind::Build;
    broadcast use Seq::filter_distributes_over_add;

    lemma_kind_filter_twice(ds, CrateDependencyKind::Normal, CrateDependencyKind::Normal);
    lemma_kind_filter_twice(ds, CrateDependencyKind::Dev, CrateDependencyKind::Normal);
    lemma_kind_filter_twice(ds, CrateDependencyKind::Build, CrateDependencyKind::Normal);
    assert(kind_filter(s, CrateDependencyKind::Normal) == (a + b).filter(cl_n) + c.filter(cl_n));
    assert(kind_filter(s, CrateDependencyKind::Normal) =~= a);
    lemma_kind_filter_twice(ds, CrateDependencyKind::Normal, CrateDependencyKind::Dev);
    lemma_kind_filter_twice(ds, CrateDependencyKind::Dev, CrateDependencyKind::Dev);
    lemma_kind_filter_twice(ds, CrateDependencyKind::Build, CrateDependencyKind::Dev);
    assert(kind_filter(s, CrateDependencyKind::Dev) == (a + b).filter(cl_d) + c.filter(cl_d));
    assert(kind_filter(s, CrateDependencyKind::Dev) =~= b);
    lemma_kind_filter_twice(ds, CrateDependencyKind::Normal, CrateDependencyKind::Build);
    lemma_kind_filter_twice(ds, CrateDependencyKind::Dev, CrateDependencyKind::Build);
    lemma_kind_filter_twice(ds, CrateDependencyKind::Build, CrateDependencyKind::Build);
    assert(kind_filter(s, CrateDependencyKind::Build) == (a + b).filter(cl_b) + c.filter(cl_b));
    assert(kind_filter(s, CrateDependencyKind::Build) =~= c);
}

fn clone_dep(d: &CrateDependency) -> (r: CrateDependency)
    ensures
        r@ == d@,
{
    CrateDependency {
        id: d.id.clone(),
        req: d.req.clone(),
        kind: d.kind,
        optional: d.optional,
    }
}

/// The dependency list in display order: a stable sort by kind, Normal
/// first, then Dev, then Build.
pub fn sort_dependencies(deps: &Vec<CrateDependency>) -> (r: Vec<CrateDependency>)
    ensures
        r.deep_view() == spec_sort_deps(deps.deep_view()),
{
    let n = deps.len();
    let mut normal: Vec<CrateDependency> = Vec::new();
    let mut dev: Vec<CrateDependency> = Vec::new();
    let mut build: Vec<CrateDependency> = Vec::new();
    let mut i: usize = 0;
    proof {
        lemma_kind_filter_empty(CrateDependencyKind::Normal);
        lemma_kind_filter_empty(CrateDependencyKind::Dev);
        lemma_kind_filter_empty(CrateDependencyKind::Build);
        assert(deps.deep_view().take(0) =~= Seq::<CrateDependencyView>::empty());
        assert(normal.deep_view() =~= Seq::<CrateDependencyView>::empty());
        assert(dev.deep_view() =~= Seq::<CrateDependencyView>::empty());
        assert(build.deep_view() =~= Seq::<CrateDependencyView>::empty());
    }
    while i < n
        invariant
            i <= n,
            n == deps.len(),
            normal.deep_view() == kind_filter(
                deps.deep_view().take(i as int),
                CrateDependencyKind::Normal,
            ),
            dev.deep_view() == kind_filter(
                deps.deep_view().take(i as int),
                CrateDependencyKind::Dev,
            ),
            build.deep_view() == kind_filter(
                deps.deep_view().take(i as int),
                CrateDependencyKind::Build,
            ),
        decreases n - i,
    {
        let ghost ddv = deps.deep_view();
        let ghost n_old = normal.deep_view();
        let ghost d_old = dev.deep_view();
        let ghost b_old = build.deep_view();
        proof {
            assert(ddv.take(i as int).push(ddv[i as int]) =~= ddv.take(i as int + 1));
            lemma_kind_filter_push(ddv.take(i as int), CrateDependencyKind::Normal, ddv[i as int]);
            lemma_kind_filter_push(ddv.take(i as int), CrateDependencyKind::Dev, ddv[i as int]);
            lemma_kind_filter_push(ddv.take(i as int), CrateDependencyKind::Build, ddv[i as int]);
        }
        let d = &deps[i];
        match d.kind {
            CrateDependencyKind::Normal => {
                normal.push(clone_dep(d));
                proof {
                    assert(normal.deep_view() =~= n_old.push(ddv[i as int]));
                }
            },
            CrateDependencyKind::Dev => {
                dev.push(clone_dep(d));
                proof {
                    assert(dev.deep_view() =~= d_old.push(ddv[i as int]));
                }
            },
            CrateDependencyKind::Build => {
                build.push(clone_dep(d));
                proof {
                    assert(build.deep_view() =~= b_old.push(ddv[i as int]));
                }
            },
        }
        i = i + 1;
    }
    proof {
        assert(deps.deep_view().take(n as int) =~= deps.deep_view());
    }
    let ghost n_dv = normal.deep_view();
    let ghost d_dv = dev.deep_view();
    let ghost b_dv = build.deep_view();
    let mut r = normal;
    r.append(&mut dev);
    r.append(&mut build);
    proof {
        assert(r.deep_view() =~= n_dv + d_dv + b_dv);
    }
    r
}

/// Law: when no optional field is provided, each optional-field line shows
/// the literal "None".
pub proof fn lemma_optional_fields_render_none(m: CrateMetadataView)
    requires
        m.description is None,
        m.documentation is None,
        m.homepage is None,
        m.repository is None,
        m.license is None,
    ensures
        head_lines(m)[3] == "description: None"@,
        head_lines(m)[4] == "documentation: None"@,
        head_lines(m)[5] == "homepage: None"@,
        head_lines(m)[6] == "repository: None"@,
        head_lines(m)[10] == "license: None"@,
{
    reveal_strlit("None");
    reveal_strlit("description: ");
    reveal_strlit("description: None");
    reveal_strlit("documentation: ");
    reveal_strlit("documentation: None");
    reveal_strlit("homepage: ");
    reveal_strlit("homepage: None");
    reveal_strlit("repository: ");
    reveal_strlit("repository: None");
    reveal_strlit("license: ");
    reveal_strlit("license: None");
    assert("description: "@ + "None"@ =~= "description: None"@);
    assert("documentation: "@ + "None"@ =~= "documentation: None"@);
    assert("homepage: "@ + "None"@ =~= "homepage: None"@);
    assert("repository: "@ + "None"@ =~= "repository: None"@);
    assert("license: "@ + "None"@ =~= "license: None"@);
}

/// Law: rendering is deterministic — the rendered text is a function of the
/// record's mathematical view alone, so equal records render byte for byte
/// the same.
pub proof fn lemma_render_deterministic(a: CrateMetadataView, b: CrateMetadataView)
    requires
        a == b,
    ensures
        spec_render_metadata(a) == spec_render_metadata(b),
{
}

/// Law: the latest_versions line shows at most five entries, however many
/// versions the record holds.
pub proof fn lemma_latest_versions_capped(m: CrateMetadataView)
    ensures
        latest_shown(m).len() <= 5,
        head_lines(m)[8] == "latest_versions: "@ + join_sep(latest_shown(m), ", "@),
{
}

/// Law: the default_features line shows "--" exactly when the feature map
/// has no "default" key, and the comma-joined enabled names otherwise.
pub proof fn lemma_default_features_line(m: CrateMetadataView)
    ensures
        spec_lookup_feature(m.features, "default"@) is None ==> head_lines(m)[14]
            == "default_features: "@ + "--"@,
        spec_lookup_feature(m.features, "default"@) matches Some(subs) ==> head_lines(m)[14]
            == "default_features: "@ + join_sep(subs, ","@),
{
}

/// Law: the dependency suffix — a plain Normal dependency has no
/// parenthesized suffix, a Dev optional one reads "(dev, opt)", a Build-only
/// one "(build)", a Normal optional one "(opt)".
pub proof fn lemma_dependency_suffix(d: CrateDependencyView)
    ensures
        d.kind == CrateDependencyKind::Normal && !d.optional ==> spec_render_dep(d) == d.id + " "@
            + d.req,
        d.kind == CrateDependencyKind::Dev && d.optional ==> spec_render_dep(d) == d.id + " "@
            + d.req + " (dev, opt)"@,
        d.kind == CrateDependencyKind::Build && !d.optional ==> spec_render_dep(d) == d.id + " "@
            + d.req + " (build)"@,
        d.kind == CrateDependencyKind::Normal && d.optional ==> spec_render_dep(d) == d.id + " "@
            + d.req + " (opt)"@,
{
    reveal_strlit(" (");
    reveal_strlit(")");
    reveal_strlit(", ");
    reveal_strlit("opt");
    reveal_strlit("dev");
    reveal_strlit("build");
    reveal_strlit(" (dev, opt)");
    reveal_strlit(" (build)");
    reveal_strlit(" (opt)");
    if d.kind == CrateDependencyKind::Normal && !d.optional {
        assert(d.id + " "@ + d.req + Seq::<char>::empty() =~= d.id + " "@ + d.req);
    }
    if d.kind == CrateDependencyKind::Dev && d.optional {
        assert(spec_dep_suffix(d.kind, d.optional) =~= " (dev, opt)"@);
    }
    if d.kind == CrateDependencyKind::Build && !d.optional {
        assert(spec_dep_suffix(d.kind, d.optional) =~= " (build)"@);
    }
    if d.kind == CrateDependencyKind::Normal && d.optional {
        assert(spec_dep_suffix(d.kind, d.optional) =~= " (opt)"@);
    }
}

} // verus!
