//! The per-package sequencing decisions: given one fetched payload and the
//! output flags, exactly what goes to stdout, what goes to the error channel,
//! and whether the dependency endpoint is fetched next. The caller performs
//! the fetches and the printing; every decision here is verified.

use vstd::prelude::*;
use vstd::string::StringExecFns;
use crate::decode::{spec_decode_deps_str, spec_decode_meta_str};
use crate::model::{spec_enrich, spec_error_message, CrateDependencyResponse, CrateDependencyView,
    CrateMetaResponse, DecodeError};
use crate::render::{spec_render_dep, spec_render_metadata, sort_dependencies};

verus! {

/// A request to fetch one package's dependency list: the crate id and
/// version to ask for, and whether the reply is printed raw or rendered.
pub struct DepsFetch {
    pub id: String,
    pub max_version: String,
    pub raw: bool,
}

/// Mathematical image of a [`DepsFetch`].
pub ghost struct DepsFetchView {
    pub id: Seq<char>,
    pub max_version: Seq<char>,
    pub raw: bool,
}

impl View for DepsFetch {
    type V = DepsFetchView;

    open spec fn view(&self) -> DepsFetchView {
        DepsFetchView { id: self.id@, max_version: self.max_version@, raw: self.raw }
    }
}

impl DeepView for DepsFetch {
    type V = DepsFetchView;

    open spec fn deep_view(&self) -> DepsFetchView {
        self.view()
    }
}

/// What to do after the metadata fetch: the blocks to print to stdout (each
/// on its own line), the lines for the error channel, and the dependency
/// fetch to make next, if any.
pub struct MetaPlan {
    pub stdout_blocks: Vec<String>,
    pub stderr_lines: Vec<String>,
    pub deps_fetch: Option<DepsFetch>,
}

/// Mathematical image of a [`MetaPlan`].
pub ghost struct MetaPlanView {
    pub stdout_blocks: Seq<Seq<char>>,
    pub stderr_lines: Seq<Seq<char>>,
    pub deps_fetch: Option<DepsFetchView>,
}

impl View for MetaPlan {
    type V = MetaPlanView;

    open spec fn view(&self) -> MetaPlanView {
        MetaPlanView {
            stdout_blocks: self.stdout_blocks.deep_view(),
            stderr_lines: self.stderr_lines.deep_view(),
            deps_fetch: self.deps_fetch.deep_view(),
        }
    }
}

/// What to do after the dependency fetch: the blocks for stdout and the
/// lines for the error channel.
pub struct DepsPlan {
    pub stdout_blocks: Vec<String>,
    pub stderr_lines: Vec<String>,
}

/// Mathematical image of a [`DepsPlan`].
pub ghost struct DepsPlanView {
    pub stdout_blocks: Seq<Seq<char>>,
    pub stderr_lines: Seq<Seq<char>>,
}

impl View for DepsPlan {
    type V = DepsPlanView;

    open spec fn view(&self) -> DepsPlanView {
        DepsPlanView {
            stdout_blocks: self.stdout_blocks.deep_view(),
            stderr_lines: self.stderr_lines.deep_view(),
        }
    }
}

/// The error line for a failed metadata fetch.
pub open spec fn spec_fetch_error(name: Seq<char>, cause: Seq<char>) -> Seq<char> {
    "Error fetching data for "@ + name + ": "@ + cause
}

/// The error line for a metadata payload that did not decode.
pub open spec fn spec_parse_error(name: Seq<char>, cause: Seq<char>) -> Seq<char> {
    "Error parsing JSON data for "@ + name + ": "@ + cause
}

/// The error line for a failed dependency fetch.
pub open spec fn spec_deps_fetch_error(name: Seq<char>, cause: Seq<char>) -> Seq<char> {
    "Error fetching dependencies for "@ + name + ": "@ + cause
}

/// The error line for a dependency payload that did not decode.
pub open spec fn spec_deps_parse_error(name: Seq<char>, cause: Seq<char>) -> Seq<char> {
    "Error parsing JSON dependencies for "@ + name + ": "@ + cause
}

fn error_line(prefix: &str, name: &str, cause: &str) -> (r: String)
    ensures
        r@ == prefix@ + name@ + ": "@ + cause@,
{
    let mut r = String::from_str(prefix);
    r.append(name);
    r.append(": ");
    r.append(cause);
    r
}

/// The error line for a failed metadata fetch, reported per package and
/// never fatal to the whole run.
pub fn fetch_error_message(name: &str, cause: &str) -> (r: String)
    ensures
        r@ == spec_fetch_error(name@, cause@),
{
    error_line("Error fetching data for ", name, cause)
}

/// The error line for a metadata payload that did not decode.
pub fn parse_error_message(name: &str, cause: &str) -> (r: String)
    ensures
        r@ == spec_parse_error(name@, cause@),
{
    error_line("Error parsing JSON data for ", name, cause)
}

/// The error line for a failed dependency fetch.
pub fn deps_fetch_error_message(name: &str, cause: &str) -> (r: String)
    ensures
        r@ == spec_deps_fetch_error(name@, cause@),
{
    error_line("Error fetching dependencies for ", name, cause)
}

/// The error line for a dependency payload that did not decode.
pub fn deps_parse_error_message(name: &str, cause: &str) -> (r: String)
    ensures
        r@ == spec_deps_parse_error(name@, cause@),
{
    error_line("Error parsing JSON dependencies for ", name, cause)
}

/// What the metadata step does, for every payload and flag combination:
/// a decode or empty-version failure is reported and ends the package; in
/// json mode with dependencies nothing prints yet and the dependency payload
/// is fetched to be printed raw; in json mode without, the payload itself is
/// printed back; in text mode the rendered block prints, followed (when
/// dependencies were asked for) by the "dependencies:" header and a
/// rendered-mode fetch.
pub open spec fn spec_plan_metadata(
    name: Seq<char>,
    response: Seq<char>,
    as_json: bool,
    with_deps: bool,
) -> MetaPlanView {
    match spec_decode_meta_str(response) {
        Err(e) => MetaPlanView {
            stdout_blocks: Seq::empty(),
            stderr_lines: seq![spec_parse_error(name, spec_error_message(e))],
            deps_fetch: None,
        },
        Ok(resp) => if resp.versions.len() == 0 {
            MetaPlanView {
                stdout_blocks: Seq::empty(),
                stderr_lines: seq![
                    spec_parse_error(name, spec_error_message(DecodeError::EmptyVersions)),
                ],
                deps_fetch: None,
            }
        } else {
            let m = spec_enrich(resp);
            if as_json && with_deps {
                MetaPlanView {
                    stdout_blocks: Seq::empty(),
                    stderr_lines: Seq::empty(),
                    deps_fetch: Some(
                        DepsFetchView { id: m.id, max_version: m.max_version, raw: true },
                    ),
                }
            } else if as_json {
                MetaPlanView {
                    stdout_blocks: seq![response],
                    stderr_lines: Seq::empty(),
                    deps_fetch: None,
                }
            } else if with_deps {
                MetaPlanView {
                    stdout_blocks: seq![spec_render_metadata(m), "dependencies:"@],
                    stderr_lines: Seq::empty(),
                    deps_fetch: Some(
                        DepsFetchView { id: m.id, max_version: m.max_version, raw: false },
                    ),
                }
            } else {
                MetaPlanView {
                    stdout_blocks: seq![spec_render_metadata(m)],
                    stderr_lines: Seq::empty(),
                    deps_fetch: None,
                }
            }
        },
    }
}

/// Decides the metadata step for one package, exactly as
/// [`spec_plan_metadata`] describes it.
pub fn plan_metadata(name: &str, response: &str, as_json: bool, with_deps: bool) -> (p: MetaPlan)
    ensures
        p@ == spec_plan_metadata(name@, response@, as_json, with_deps),
{
    let resp = match CrateMetaResponse::decode(response) {
        Err(e) => {
            let msg = e.message();
            let mut stderr_lines: Vec<String> = Vec::new();
            stderr_lines.push(parse_error_message(name, msg.as_str()));
            let p = MetaPlan { stdout_blocks: Vec::new(), stderr_lines, deps_fetch: None };
            proof {
                assert(p.stdout_blocks.deep_view() =~= Seq::<Seq<char>>::empty());
                assert(p.stderr_lines.deep_view() =~= seq![
                    spec_parse_error(name@, spec_error_message(e)),
                ]);
            }
            return p;
        },
        Ok(resp) => resp,
    };
    let m = match resp.into_metadata() {
        Err(e) => {
            let msg = e.message();
            let mut stderr_lines: Vec<String> = Vec::new();
            stderr_lines.push(parse_error_message(name, msg.as_str()));
            let p = MetaPlan { stdout_blocks: Vec::new(), stderr_lines, deps_fetch: None };
            proof {
                assert(p.stdout_blocks.deep_view() =~= Seq::<Seq<char>>::empty());
                assert(p.stderr_lines.deep_view() =~= seq![
                    spec_parse_error(name@, spec_error_message(DecodeError::EmptyVersions)),
                ]);
            }
            return p;
        },
        Ok(m) => m,
    };
    if as_json && with_deps {
        let p = MetaPlan {
            stdout_blocks: Vec::new(),
            stderr_lines: Vec::new(),
            deps_fetch: Some(DepsFetch { id: m.id, max_version: m.max_version, raw: true }),
        };
        proof {
            assert(p.stdout_blocks.deep_view() =~= Seq::<Seq<char>>::empty());
            assert(p.stderr_lines.deep_view() =~= Seq::<Seq<char>>::empty());
        }
        p
    } else if as_json {
        let mut stdout_blocks: Vec<String> = Vec::new();
        stdout_blocks.push(String::from_str(response));
        let p = MetaPlan { stdout_blocks, stderr_lines: Vec::new(), deps_fetch: None };
        proof {
            assert(p.stdout_blocks.deep_view() =~= seq![response@]);
            assert(p.stderr_lines.deep_view() =~= Seq::<Seq<char>>::empty());
        }
        p
    } else if with_deps {
        let mut stdout_blocks: Vec<String> = Vec::new();
        stdout_blocks.push(m.render());
        stdout_blocks.push(String::from_str("dependencies:"));
        let p = MetaPlan {
            stdout_blocks,
            stderr_lines: Vec::new(),
            deps_fetch: Some(DepsFetch { id: m.id, max_version: m.max_version, raw: false }),
        };
        proof {
            assert(p.stdout_blocks.deep_view() =~= seq![
                spec_render_metadata(m@),
                "dependencies:"@,
            ]);
            assert(p.stderr_lines.deep_view() =~= Seq::<Seq<char>>::empty());
        }
        p
    } else {
        let mut stdout_blocks: Vec<String> = Vec::new();
        stdout_blocks.push(m.render());
        let p = MetaPlan { stdout_blocks, stderr_lines: Vec::new(), deps_fetch: None };
        proof {
            assert(p.stdout_blocks.deep_view() =~= seq![spec_render_metadata(m@)]);
            assert(p.stderr_lines.deep_view() =~= Seq::<Seq<char>>::empty());
        }
        p
    }
}

/// One display line per dependency, in the given order.
pub open spec fn dep_lines(ds: Seq<CrateDependencyView>) -> Seq<Seq<char>> {
    Seq::new(ds.len(), |i: int| spec_render_dep(ds[i]))
}

/// What the dependency step does: a raw-mode reply prints back verbatim,
/// undecoded; otherwise the payload decodes (a failure is reported), the
/// entries sort by kind, and each renders on its own line.
pub open spec fn spec_plan_deps(name: Seq<char>, response: Seq<char>, raw: bool) -> DepsPlanView {
    if raw {
        DepsPlanView { stdout_blocks: seq![response], stderr_lines: Seq::empty() }
    } else {
        match spec_decode_deps_str(response) {
            Err(e) => DepsPlanView {
                stdout_blocks: Seq::empty(),
                stderr_lines: seq![spec_deps_parse_error(name, spec_error_message(e))],
            },
            Ok(ds) => DepsPlanView {
                stdout_blocks: dep_lines(crate::render::spec_sort_deps(ds)),
                stderr_lines: Seq::empty(),
            },
        }
    }
}

/// Decides the dependency step for one package, exactly as
/// [`spec_plan_deps`] describes it.
pub fn plan_deps(name: &str, response: &str, raw: bool) -> (p: DepsPlan)
    ensures
        p@ == spec_plan_deps(name@, response@, raw),
{
    if raw {
        let mut stdout_blocks: Vec<String> = Vec::new();
        stdout_blocks.push(String::from_str(response));
        let p = DepsPlan { stdout_blocks, stderr_lines: Vec::new() };
        proof {
            assert(p.stdout_blocks.deep_view() =~= seq![response@]);
            assert(p.stderr_lines.deep_view() =~= Seq::<Seq<char>>::empty());
        }
        return p;
    }
    match CrateDependencyResponse::decode(response) {
        Err(e) => {
            let msg = e.message();
            let mut stderr_lines: Vec<String> = Vec::new();
            stderr_lines.push(deps_parse_error_message(name, msg.as_str()));
            let p = DepsPlan { stdout_blocks: Vec::new(), stderr_lines };
            proof {
                assert(p.stdout_blocks.deep_view() =~= Seq::<Seq<char>>::empty());
                assert(p.stderr_lines.deep_view() =~= seq![
                    spec_deps_parse_error(name@, spec_error_message(e)),
                ]);
            }
            p
        },
        Ok(resp) => {
            let sorted = sort_dependencies(&resp.dependencies);
            let n = sorted.len();
            let mut stdout_blocks: Vec<String> = Vec::new();
            let mut i: usize = 0;
            proof {
                assert(stdout_blocks.deep_view() =~= dep_lines(sorted.deep_view().take(0)));
            }
            while i < n
                invariant
                    i <= n,
                    n == sorted.len(),
                    stdout_blocks.deep_view() == dep_lines(sorted.deep_view().take(i as int)),
                decreases n - i,
            {
                let ghost dv_old = stdout_blocks.deep_view();
                stdout_blocks.push(sorted[i].render());
                proof {
                    assert(stdout_blocks.deep_view() =~= dv_old.push(
                        spec_render_dep(sorted.deep_view()[i as int]),
                    ));
                    assert(stdout_blocks.deep_view() =~= dep_lines(
                        sorted.deep_view().take(i as int + 1),
                    ));
                }
                i = i + 1;
            }
            proof {
                assert(sorted.deep_view().take(n as int) =~= sorted.deep_view());
            }
            let p = DepsPlan { stdout_blocks, stderr_lines: Vec::new() };
            proof {
                assert(p.stderr_lines.deep_view() =~= Seq::<Seq<char>>::empty());
            }
            p
        },
    }
}

} // verus!
