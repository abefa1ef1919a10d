//! Release artifacts: which files count, where they are copied, and the
//! release manifest that lists them.
use vstd::prelude::*;

use crate::config::ArtifactConfig;
use crate::error::ReleaseError;
use crate::text::{
    ascii_lower, contains_str, ends_with, has_suffix, lemma_seq_less_transitive,
    lemma_seq_less_trichotomy, less_than, owned, push_char, push_str, replace_char,
    replace_char_exec, seq_less, to_ascii_lowercase, trim_start, trim_start_char, views,
};
use crate::util::{is_style_separator, join_path, joined, HostStyle};

verus! {

broadcast use vstd::seq_lib::group_to_multiset_ensures;

// ---------------------------------------------------------------------------
// Which files are release artifacts
// ---------------------------------------------------------------------------

/// `name` ends in `.<ext>` or `-<ext>`, ignoring ASCII case and leading dots
/// of `ext`.
pub open spec fn matches_extension(name: Seq<char>, ext: Seq<char>) -> bool {
    let e = ascii_lower(trim_start(ext, '.'));
    let l = ascii_lower(name);
    has_suffix(l, seq!['.'] + e) || has_suffix(l, seq!['-'] + e)
}

/// A file is a release artifact when its name is one of the included files
/// or ends in one of the included extensions.
pub open spec fn is_artifact_name(name: Seq<char>, config: ArtifactConfig) -> bool {
    ||| views(config.include_files@).contains(name)
    ||| exists|i: int|
        0 <= i < config.include_extensions@.len() && matches_extension(
            name,
            #[trigger] config.include_extensions@[i]@,
        )
}

fn matches_extension_exec(lower_name: &str, ext: &str) -> (r: bool)
    ensures
        r == (has_suffix(lower_name@, seq!['.'] + ascii_lower(trim_start(ext@, '.')))
            || has_suffix(lower_name@, seq!['-'] + ascii_lower(trim_start(ext@, '.')))),
{
    let trimmed = trim_start_char(ext, '.');
    let e = to_ascii_lowercase(trimmed.as_str());
    let mut dot = String::new();
    push_char(&mut dot, '.');
    push_str(&mut dot, e.as_str());
    let mut dash = String::new();
    push_char(&mut dash, '-');
    push_str(&mut dash, e.as_str());
    assert(dot@ =~= seq!['.'] + e@);
    assert(dash@ =~= seq!['-'] + e@);
    ends_with(lower_name, dot.as_str()) || ends_with(lower_name, dash.as_str())
}

/// Whether the file named `file_name` is a release artifact (an empty name,
/// for a path without one, matches nothing but an included empty name).
pub fn is_release_artifact(file_name: &str, config: &ArtifactConfig) -> (r: bool)
    ensures
        r == is_artifact_name(file_name@, *config),
{
    if contains_str(&config.include_files, file_name) {
        return true;
    }
    let lower_name = to_ascii_lowercase(file_name);
    let n = config.include_extensions.len();
    let mut i: usize = 0;
    while i < n
        invariant
            n == config.include_extensions@.len(),
            i <= n,
            lower_name@ == ascii_lower(file_name@),
            forall|k: int|
                0 <= k < i ==> !matches_extension(file_name@, #[trigger] config.include_extensions@[k]@),
        decreases n - i,
    {
        if matches_extension_exec(lower_name.as_str(), config.include_extensions[i].as_str()) {
            assert(matches_extension(file_name@, config.include_extensions@[i as int]@));
            return true;
        }
        i = i + 1;
    }
    false
}

/// The number of release artifacts among file names.
pub open spec fn artifact_count(names: Seq<Seq<char>>, config: ArtifactConfig) -> nat
    decreases names.len(),
{
    if names.len() == 0 {
        0
    } else {
        artifact_count(names.drop_last(), config) + (if is_artifact_name(names.last(), config) {
            1nat
        } else {
            0nat
        })
    }
}

/// Counts the release artifacts among the names of the files found under a
/// directory.
pub fn count_release_artifacts(file_names: &Vec<String>, config: &ArtifactConfig) -> (r: usize)
    ensures
        r == artifact_count(views(file_names@), *config),
{
    let n = file_names.len();
    let mut count: usize = 0;
    let mut i: usize = 0;
    while i < n
        invariant
            n == file_names@.len(),
            i <= n,
            count == artifact_count(views(file_names@).take(i as int), *config),
            count <= i,
        decreases n - i,
    {
        let ghost t = views(file_names@).take(i + 1);
        assert(t.drop_last() =~= views(file_names@).take(i as int));
        if is_release_artifact(file_names[i].as_str(), config) {
            count = count + 1;
        }
        i = i + 1;
    }
    assert(views(file_names@).take(n as int) =~= views(file_names@));
    count
}

/// A platform's artifact count stands unless it is zero and empty platforms
/// are not allowed.
pub fn ensure_platform_artifacts(platform: &str, count: usize, allow_empty: bool) -> (r: Result<
    usize,
    ReleaseError,
>)
    ensures
        r.is_ok() == (count > 0 || allow_empty),
        r matches Ok(c) ==> c == count,
        r matches Err(e) ==> e matches ReleaseError::NoArtifacts { platform: p } && p@ == platform@,
{
    if count == 0 && !allow_empty {
        return Err(ReleaseError::NoArtifacts { platform: owned(platform) });
    }
    Ok(count)
}

// ---------------------------------------------------------------------------
// Copying artifacts
// ---------------------------------------------------------------------------

/// Where an artifact is copied: below `out` at its relative path when
/// relative paths are kept, else directly in `out` under its file name.
pub open spec fn destination_spec(
    relative: Seq<char>,
    file_name: Option<Seq<char>>,
    out: Seq<char>,
    keep_relative_paths: bool,
    style: HostStyle,
) -> Option<Seq<char>> {
    if keep_relative_paths {
        Some(joined(out, relative, style))
    } else {
        match file_name {
            Some(n) => Some(joined(out, n, style)),
            None => None,
        }
    }
}

/// The destination of one artifact; an error for a path without file name
/// when relative paths are not kept.
pub fn destination_for(
    path: &str,
    relative: &str,
    file_name: &Option<String>,
    out: &str,
    config: &ArtifactConfig,
    style: HostStyle,
) -> (r: Result<String, ReleaseError>)
    ensures
        match destination_spec(relative@, crate::util::opt_view(*file_name), out@, config.keep_relative_paths, style) {
            Some(d) => r matches Ok(s) && s@ == d,
            None => r matches Err(e) && e matches ReleaseError::MissingFileName { path: p } && p@ == path@,
        },
{
    if config.keep_relative_paths {
        return Ok(join_path(out, relative, style));
    }
    match file_name {
        Some(name) => Ok(join_path(out, name.as_str(), style)),
        None => Err(ReleaseError::MissingFileName { path: owned(path) }),
    }
}

/// A file found below a copy source.
#[derive(Debug, Clone)]
pub struct CopyCandidate {
    /// The file's path.
    pub path: String,
    /// The path relative to the copy source.
    pub relative: String,
    /// The file's name, if the path has one.
    pub file_name: Option<String>,
    /// Whether the entry is a regular file.
    pub is_file: bool,
    /// Whether the file already lives inside the output directory.
    pub inside_out: bool,
}

/// A copy from a source path to a destination path.
#[derive(Debug, Clone)]
pub struct CopyStep {
    pub source: String,
    pub destination: String,
}

/// The copies to make, in order; and the error met after them, if any.
#[derive(Debug, Clone)]
pub struct CopyPlan {
    pub copies: Vec<CopyStep>,
    pub error: Option<ReleaseError>,
}

/// Why a copy plan stops.
pub ghost enum CopyStop {
    /// A destination exists or was planned already.
    Collision { source: Seq<char>, destination: Seq<char> },
    /// An artifact path has no file name.
    NoFileName { path: Seq<char> },
}

/// Whether a candidate is copied at all: a regular release artifact that is
/// not already in the output directory.
pub open spec fn is_copied(c: CopyCandidate, config: ArtifactConfig) -> bool {
    c.is_file && is_artifact_name(
        match c.file_name {
            Some(n) => n@,
            None => Seq::empty(),
        },
        config,
    ) && !c.inside_out
}

/// The place a path occupies: the path itself, or, on a file system that
/// ignores case (`fold_case`), its ASCII lower-case form.
pub open spec fn place(path: Seq<char>, fold_case: bool) -> Seq<char> {
    if fold_case {
        ascii_lower(path)
    } else {
        path
    }
}

/// The places of paths.
pub open spec fn places(paths: Seq<Seq<char>>, fold_case: bool) -> Seq<Seq<char>> {
    paths.map_values(|p: Seq<char>| place(p, fold_case))
}

/// The plan for the candidates taken in order, with `taken` the places of
/// the paths that exist or are destinations of earlier copies: each copied
/// candidate goes to its destination unless that place is taken, which stops
/// the plan with a collision; a missing file name stops it too.
pub open spec fn plan_spec(
    cands: Seq<CopyCandidate>,
    out: Seq<char>,
    config: ArtifactConfig,
    taken: Seq<Seq<char>>,
    style: HostStyle,
    fold_case: bool,
) -> (Seq<(Seq<char>, Seq<char>)>, Option<CopyStop>)
    decreases cands.len(),
{
    if cands.len() == 0 {
        (Seq::empty(), None)
    } else {
        let c = cands[0];
        let rest = cands.drop_first();
        if !is_copied(c, config) {
            plan_spec(rest, out, config, taken, style, fold_case)
        } else {
            match destination_spec(
                c.relative@,
                crate::util::opt_view(c.file_name),
                out,
                config.keep_relative_paths,
                style,
            ) {
                None => (Seq::empty(), Some(CopyStop::NoFileName { path: c.path@ })),
                Some(d) => if taken.contains(place(d, fold_case)) {
                    (Seq::empty(), Some(CopyStop::Collision { source: c.path@, destination: d }))
                } else {
                    let next = plan_spec(rest, out, config, taken.push(place(d, fold_case)), style, fold_case);
                    (seq![(c.path@, d)] + next.0, next.1)
                },
            }
        }
    }
}

/// The view of a copy step.
pub open spec fn step_view(s: CopyStep) -> (Seq<char>, Seq<char>) {
    (s.source@, s.destination@)
}

/// The view of a plan's error.
pub open spec fn stop_view(e: Option<ReleaseError>) -> Option<CopyStop> {
    match e {
        Some(ReleaseError::ArtifactCollision { source, destination }) => Some(
            CopyStop::Collision { source: source@, destination: destination@ },
        ),
        Some(ReleaseError::MissingFileName { path }) => Some(CopyStop::NoFileName { path: path@ }),
        _ => None,
    }
}

/// The view of a plan.
pub open spec fn plan_view(p: CopyPlan) -> (Seq<(Seq<char>, Seq<char>)>, Option<CopyStop>) {
    (p.copies@.map_values(|s: CopyStep| step_view(s)), stop_view(p.error))
}

/// The place a path occupies, as an owned string.
fn place_exec(path: &str, fold_case: bool) -> (r: String)
    ensures
        r@ == place(path@, fold_case),
{
    if fold_case {
        to_ascii_lowercase(path)
    } else {
        owned(path)
    }
}

/// Plans the copies of `copy_matching_files`: the candidates are the entries
/// found below the source, in walk order; `existing` are the paths that exist
/// already; paths are joined in the host's `style`, and with `fold_case` two
/// paths equal but for ASCII case are the same place. The plan holds the
/// copies made before the first collision or missing file name, and that
/// error.
pub fn plan_copies(
    candidates: &Vec<CopyCandidate>,
    out: &str,
    config: &ArtifactConfig,
    existing: &Vec<String>,
    style: HostStyle,
    fold_case: bool,
) -> (r: CopyPlan)
    ensures
        plan_view(r) == plan_spec(candidates@, out@, *config, places(views(existing@), fold_case), style, fold_case),
        r.error is Some ==> (r.error matches Some(ReleaseError::ArtifactCollision { .. }) || r.error
            matches Some(ReleaseError::MissingFileName { .. })),
{
    let mut taken: Vec<String> = Vec::new();
    let mut k: usize = 0;
    while k < existing.len()
        invariant
            k <= existing@.len(),
            views(taken@) == places(views(existing@).take(k as int), fold_case),
        decreases existing@.len() - k,
    {
        let ghost before = taken@;
        let p = place_exec(existing[k].as_str(), fold_case);
        let ghost pv = p@;
        taken.push(p);
        assert(views(taken@) =~= views(before).push(pv));
        assert(views(existing@).take(k + 1) =~= views(existing@).take(k as int).push(existing@[k as int]@));
        assert(places(views(existing@).take(k + 1), fold_case) =~= places(views(existing@).take(k as int), fold_case).push(pv));
        k = k + 1;
    }
    assert(views(existing@).take(existing@.len() as int) =~= views(existing@));
    let ghost whole = plan_spec(candidates@, out@, *config, places(views(existing@), fold_case), style, fold_case);
    let mut copies: Vec<CopyStep> = Vec::new();
    let n = candidates.len();
    let mut i: usize = 0;
    assert(candidates@.skip(0) =~= candidates@);
    assert(copies@.map_values(|s: CopyStep| step_view(s)) + whole.0 =~= whole.0);
    while i < n
        invariant
            n == candidates@.len(),
            i <= n,
            whole == plan_spec(candidates@, out@, *config, places(views(existing@), fold_case), style, fold_case),
            whole == ({
                let rest = plan_spec(candidates@.skip(i as int), out@, *config, views(taken@), style, fold_case);
                (copies@.map_values(|s: CopyStep| step_view(s)) + rest.0, rest.1)
            }),
        decreases n - i,
    {
        let c = &candidates[i];
        let ghost cs = candidates@.skip(i as int);
        assert(cs[0] == *c);
        assert(cs.drop_first() =~= candidates@.skip(i + 1));
        let name: &str = match &c.file_name {
            Some(name) => name.as_str(),
            None => "",
        };
        proof {
            reveal_strlit("");
            assert(name@ == match c.file_name {
                Some(n) => n@,
                None => Seq::<char>::empty(),
            });
        }
        let name_matches = is_release_artifact(name, config);
        if !c.is_file || !name_matches || c.inside_out {
            assert(!is_copied(*c, *config));
            assert(plan_spec(cs, out@, *config, views(taken@), style, fold_case) == plan_spec(
                cs.drop_first(),
                out@,
                *config,
                views(taken@),
                style,
                fold_case,
            ));
            i = i + 1;
            continue;
        }
        assert(is_copied(*c, *config));
        let dest = match destination_for(c.path.as_str(), c.relative.as_str(), &c.file_name, out, config, style) {
            Ok(d) => d,
            Err(e) => {
                proof {
                    assert(plan_spec(cs, out@, *config, views(taken@), style, fold_case) == (
                        Seq::<(Seq<char>, Seq<char>)>::empty(),
                        Some(CopyStop::NoFileName { path: c.path@ }),
                    ));
                    assert(copies@.map_values(|s: CopyStep| step_view(s)) + Seq::empty()
                        =~= copies@.map_values(|s: CopyStep| step_view(s)));
                }
                let r = CopyPlan { copies, error: Some(e) };
                proof {
                    assert(stop_view(r.error) == Some(CopyStop::NoFileName { path: c.path@ }));
                    assert(plan_view(r).0 =~= whole.0);
                    assert(plan_view(r).1 == whole.1);
                    assert(plan_view(r) == whole);
                }
                return r;
            },
        };
        let key = place_exec(dest.as_str(), fold_case);
        if contains_str(&taken, key.as_str()) {
            let ghost d = dest@;
            let error = ReleaseError::ArtifactCollision { source: c.path.clone(), destination: dest };
            proof {
                assert(plan_spec(cs, out@, *config, views(taken@), style, fold_case) == (
                    Seq::<(Seq<char>, Seq<char>)>::empty(),
                    Some(CopyStop::Collision { source: c.path@, destination: d }),
                ));
                assert(copies@.map_values(|s: CopyStep| step_view(s)) + Seq::empty()
                    =~= copies@.map_values(|s: CopyStep| step_view(s)));
            }
            let r = CopyPlan { copies, error: Some(error) };
            proof {
                assert(stop_view(r.error) == Some(CopyStop::Collision { source: c.path@, destination: d }));
                assert(plan_view(r).0 =~= whole.0);
                assert(plan_view(r).1 == whole.1);
                assert(plan_view(r) == whole);
            }
            return r;
        }
        let ghost before = copies@;
        let ghost before_taken = taken@;
        let ghost key_view = key@;
        taken.push(key);
        copies.push(CopyStep { source: c.path.clone(), destination: dest });
        proof {
            assert(views(taken@) =~= views(before_taken).push(key_view));
            assert(copies@.map_values(|s: CopyStep| step_view(s)) =~= before.map_values(
                |s: CopyStep| step_view(s),
            ).push((c.path@, dest@)));
            let rest = plan_spec(candidates@.skip(i + 1), out@, *config, views(taken@), style, fold_case);
            assert(before.map_values(|s: CopyStep| step_view(s)) + (seq![(c.path@, dest@)]
                + rest.0) =~= copies@.map_values(|s: CopyStep| step_view(s)) + rest.0);
        }
        i = i + 1;
    }
    proof {
        assert(candidates@.skip(n as int) =~= Seq::<CopyCandidate>::empty());
        assert(copies@.map_values(|s: CopyStep| step_view(s)) + Seq::empty() =~= copies@.map_values(
            |s: CopyStep| step_view(s),
        ));
    }
    CopyPlan { copies, error: None }
}

/// No planned copy overwrites an existing path or another planned copy: the
/// places of the destinations are pairwise distinct and none was taken
/// before.
pub proof fn law_copies_never_overwrite(
    cands: Seq<CopyCandidate>,
    out: Seq<char>,
    config: ArtifactConfig,
    taken: Seq<Seq<char>>,
    style: HostStyle,
    fold_case: bool,
)
    ensures
        forall|i: int|
            0 <= i < plan_spec(cands, out, config, taken, style, fold_case).0.len() ==> !taken.contains(
                place(#[trigger] plan_spec(cands, out, config, taken, style, fold_case).0[i].1, fold_case),
            ),
        forall|i: int, j: int|
            0 <= i < j < plan_spec(cands, out, config, taken, style, fold_case).0.len() ==> place(
                #[trigger] plan_spec(cands, out, config, taken, style, fold_case).0[i].1,
                fold_case,
            ) != place(#[trigger] plan_spec(cands, out, config, taken, style, fold_case).0[j].1, fold_case),
    decreases cands.len(),
{
    let all = plan_spec(cands, out, config, taken, style, fold_case);
    if cands.len() > 0 {
        let c = cands[0];
        let rest = cands.drop_first();
        if !is_copied(c, config) {
            law_copies_never_overwrite(rest, out, config, taken, style, fold_case);
            assert(all == plan_spec(rest, out, config, taken, style, fold_case));
        } else {
            match destination_spec(
                c.relative@,
                crate::util::opt_view(c.file_name),
                out,
                config.keep_relative_paths,
                style,
            ) {
                None => {
                    assert(all.0.len() == 0);
                },
                Some(d) => {
                    let pd = place(d, fold_case);
                    if taken.contains(pd) {
                        assert(all.0.len() == 0);
                    } else {
                        let t2 = taken.push(pd);
                        law_copies_never_overwrite(rest, out, config, t2, style, fold_case);
                        let next = plan_spec(rest, out, config, t2, style, fold_case);
                        assert(all.0 == seq![(c.path@, d)] + next.0);
                        assert forall|i: int| 0 <= i < all.0.len() implies !taken.contains(
                            place(#[trigger] all.0[i].1, fold_case),
                        ) by {
                            if i > 0 {
                                let q = place(next.0[i - 1].1, fold_case);
                                assert(all.0[i] == next.0[i - 1]);
                                assert(!t2.contains(q));
                                if taken.contains(q) {
                                    let k = choose|k: int| 0 <= k < taken.len() && taken[k] == q;
                                    assert(t2[k] == taken[k]);
                                }
                            }
                        }
                        assert forall|i: int, j: int| 0 <= i < j < all.0.len() implies place(
                            #[trigger] all.0[i].1,
                            fold_case,
                        ) != place(#[trigger] all.0[j].1, fold_case) by {
                            assert(all.0[j] == next.0[j - 1]);
                            if i == 0 {
                                assert(t2[taken.len() as int] == pd);
                                assert(t2.contains(pd));
                                assert(!t2.contains(place(next.0[j - 1].1, fold_case)));
                            } else {
                                assert(all.0[i] == next.0[i - 1]);
                            }
                        }
                    }
                },
            }
        }
    }
}

/// Some candidate with this path is copied at all.
pub open spec fn copied_source(cands: Seq<CopyCandidate>, config: ArtifactConfig, path: Seq<char>) -> bool {
    exists|k: int| 0 <= k < cands.len() && is_copied(cands[k], config) && #[trigger] cands[k].path@ == path
}

/// Only whitelisted files are copied: every planned copy comes from a
/// candidate that is a regular release artifact outside the output directory.
pub proof fn law_only_artifacts_are_copied(
    cands: Seq<CopyCandidate>,
    out: Seq<char>,
    config: ArtifactConfig,
    taken: Seq<Seq<char>>,
    style: HostStyle,
    fold_case: bool,
)
    ensures
        forall|i: int|
            0 <= i < plan_spec(cands, out, config, taken, style, fold_case).0.len() ==> copied_source(
                cands,
                config,
                #[trigger] plan_spec(cands, out, config, taken, style, fold_case).0[i].0,
            ),
    decreases cands.len(),
{
    let all = plan_spec(cands, out, config, taken, style, fold_case);
    if cands.len() > 0 {
        let c = cands[0];
        let rest = cands.drop_first();
        let d_opt = destination_spec(
            c.relative@,
            crate::util::opt_view(c.file_name),
            out,
            config.keep_relative_paths,
            style,
        );
        if !is_copied(c, config) {
            law_only_artifacts_are_copied(rest, out, config, taken, style, fold_case);
            let r = plan_spec(rest, out, config, taken, style, fold_case);
            assert(all == r);
            assert forall|i: int| 0 <= i < all.0.len() implies copied_source(
                cands,
                config,
                #[trigger] all.0[i].0,
            ) by {
                assert(copied_source(rest, config, r.0[i].0));
                let k = choose|k: int|
                    0 <= k < rest.len() && is_copied(rest[k], config) && #[trigger] rest[k].path@
                        == r.0[i].0;
                assert(cands[k + 1] == rest[k]);
            }
        } else if d_opt is Some && !taken.contains(place(d_opt->0, fold_case)) {
            let d = d_opt->0;
            let t2 = taken.push(place(d, fold_case));
            law_only_artifacts_are_copied(rest, out, config, t2, style, fold_case);
            let next = plan_spec(rest, out, config, t2, style, fold_case);
            assert(all.0 == seq![(c.path@, d)] + next.0);
            assert forall|i: int| 0 <= i < all.0.len() implies copied_source(
                cands,
                config,
                #[trigger] all.0[i].0,
            ) by {
                if i == 0 {
                    assert(cands[0] == c);
                    assert(all.0[0].0 == cands[0].path@);
                } else {
                    assert(all.0[i] == next.0[i - 1]);
                    assert(copied_source(rest, config, next.0[i - 1].0));
                    let k = choose|k: int|
                        0 <= k < rest.len() && is_copied(rest[k], config) && #[trigger] rest[k].path@
                            == next.0[i - 1].0;
                    assert(cands[k + 1] == rest[k]);
                }
            }
        } else {
            assert(all.0.len() == 0);
        }
    }
}

// ---------------------------------------------------------------------------
// The release manifest
// ---------------------------------------------------------------------------

/// One file of the release.
#[derive(Debug, Clone)]
pub struct ManifestArtifact {
    pub platform: String,
    pub file: String,
    pub size_bytes: u64,
}

/// The release manifest, a JSON file beside the artifacts.
#[derive(Debug, Clone)]
pub struct ReleaseManifest {
    pub app: String,
    pub version: String,
    pub artifacts: Vec<ManifestArtifact>,
}

/// The view of a manifest entry: platform, file and size.
pub open spec fn artifact_view(a: ManifestArtifact) -> (Seq<char>, Seq<char>, u64) {
    (a.platform@, a.file@, a.size_bytes)
}

/// The views of manifest entries.
pub open spec fn artifact_views(s: Seq<ManifestArtifact>) -> Seq<(Seq<char>, Seq<char>, u64)> {
    s.map_values(|a: ManifestArtifact| artifact_view(a))
}

/// The characters before the first `/`.
pub open spec fn first_segment(s: Seq<char>) -> Seq<char>
    decreases s.len(),
{
    if s.len() == 0 || s[0] == '/' {
        Seq::empty()
    } else {
        seq![s[0]] + first_segment(s.drop_first())
    }
}

/// A path with the separators of the style written as `/`.
pub open spec fn slashed(path: Seq<char>, style: HostStyle) -> Seq<char> {
    match style {
        HostStyle::Posix => path,
        HostStyle::Windows => replace_char(path, '\\', '/'),
    }
}

/// The platform of a file of the release: the first component of its path
/// relative to the output directory (components split at the separators of
/// the host's style), or `unknown`.
pub open spec fn platform_of(rel: Seq<char>, style: HostStyle) -> Seq<char> {
    let seg = first_segment(slashed(rel, style));
    if seg.len() == 0 {
        "unknown"@
    } else {
        seg
    }
}

/// The path's extension is `sha256`: its file name (what follows the last
/// separator of the host's style) ends in `.sha256` after at least one other
/// character.
pub open spec fn is_checksum_path(path: Seq<char>, style: HostStyle) -> bool {
    has_suffix(path, ".sha256"@) && path.len() > 7 && !is_style_separator(path[path.len() - 8], style)
}

/// The manifest entries of the files of a release, in walk order: each file
/// but the checksum files, with its platform, its path with `/` separators,
/// and its size.
pub open spec fn manifest_entries(files: Seq<(Seq<char>, u64)>, style: HostStyle) -> Seq<(Seq<char>, Seq<char>, u64)>
    decreases files.len(),
{
    if files.len() == 0 {
        Seq::empty()
    } else {
        let (rel, size) = files.last();
        let before = manifest_entries(files.drop_last(), style);
        if is_checksum_path(rel, style) {
            before
        } else {
            before.push((platform_of(rel, style), replace_char(rel, '\\', '/'), size))
        }
    }
}

/// Entries ordered by file path.
pub open spec fn sorted_by_file(s: Seq<(Seq<char>, Seq<char>, u64)>) -> bool {
    forall|i: int, j: int| 0 <= i < j < s.len() ==> !seq_less(#[trigger] s[j].1, #[trigger] s[i].1)
}

/// The views of (relative path, size) pairs.
pub open spec fn file_views(v: Seq<(String, u64)>) -> Seq<(Seq<char>, u64)> {
    v.map_values(|p: (String, u64)| (p.0@, p.1))
}

fn first_segment_exec(s: &str) -> (r: String)
    ensures
        r@ == first_segment(s@),
{
    let n = s.unicode_len();
    let mut j: usize = 0;
    while j < n && s.get_char(j) != '/'
        invariant
            n == s@.len(),
            j <= n,
            forall|k: int| 0 <= k < j ==> s@[k] != '/',
        decreases n - j,
    {
        j = j + 1;
    }
    let mut r = String::new();
    let mut i: usize = 0;
    while i < j
        invariant
            n == s@.len(),
            j <= n,
            i <= j,
            r@ == s@.subrange(0, i as int),
        decreases j - i,
    {
        let c = s.get_char(i);
        push_char(&mut r, c);
        assert(s@.subrange(0, i + 1) =~= s@.subrange(0, i as int).push(c));
        i = i + 1;
    }
    proof {
        lemma_first_segment(s@, j as int);
    }
    r
}

proof fn lemma_first_segment(s: Seq<char>, j: int)
    requires
        0 <= j <= s.len(),
        forall|k: int| 0 <= k < j ==> s[k] != '/',
        j == s.len() || s[j] == '/',
    ensures
        first_segment(s) == s.subrange(0, j),
    decreases j,
{
    if j == 0 {
        assert(s.subrange(0, 0) =~= Seq::<char>::empty());
    } else {
        lemma_first_segment(s.drop_first(), j - 1);
        assert(s.subrange(0, j) =~= seq![s[0]] + s.drop_first().subrange(0, j - 1));
    }
}

/// The entries whose path is `file`, in their order.
pub open spec fn entries_named(s: Seq<(Seq<char>, Seq<char>, u64)>, file: Seq<char>) -> Seq<(Seq<char>, Seq<char>, u64)>
    decreases s.len(),
{
    if s.len() == 0 {
        Seq::empty()
    } else {
        entries_named(s.drop_last(), file) + if s.last().1 == file {
            seq![s.last()]
        } else {
            Seq::empty()
        }
    }
}

proof fn lemma_entries_named_concat(
    a: Seq<(Seq<char>, Seq<char>, u64)>,
    b: Seq<(Seq<char>, Seq<char>, u64)>,
    file: Seq<char>,
)
    ensures
        entries_named(a + b, file) == entries_named(a, file) + entries_named(b, file),
    decreases b.len(),
{
    if b.len() == 0 {
        assert(a + b =~= a);
        assert(entries_named(a, file) + entries_named(b, file) =~= entries_named(a, file));
    } else {
        lemma_entries_named_concat(a, b.drop_last(), file);
        assert((a + b).drop_last() =~= a + b.drop_last());
        assert((a + b).last() == b.last());
        assert(entries_named(a + b, file) =~= entries_named(a, file) + entries_named(b, file));
    }
}

proof fn lemma_entries_named_none(s: Seq<(Seq<char>, Seq<char>, u64)>, file: Seq<char>)
    requires
        forall|k: int| 0 <= k < s.len() ==> #[trigger] s[k].1 != file,
    ensures
        entries_named(s, file) == Seq::<(Seq<char>, Seq<char>, u64)>::empty(),
    decreases s.len(),
{
    if s.len() > 0 {
        lemma_entries_named_none(s.drop_last(), file);
        assert(s.last() == s[s.len() - 1]);
    }
}

fn insert_sorted(v: &mut Vec<ManifestArtifact>, a: ManifestArtifact)
    requires
        sorted_by_file(artifact_views(old(v)@)),
    ensures
        sorted_by_file(artifact_views(final(v)@)),
        artifact_views(final(v)@).to_multiset() == artifact_views(old(v)@).to_multiset().insert(
            artifact_view(a),
        ),
        forall|file: Seq<char>| #[trigger] entries_named(artifact_views(final(v)@), file)
            == entries_named(artifact_views(old(v)@).push(artifact_view(a)), file),
{
    let ghost s0 = artifact_views(v@);
    let ghost x = artifact_view(a);
    let n = v.len();
    let mut p: usize = 0;
    while p < n && !less_than(a.file.as_str(), v[p].file.as_str())
        invariant
            n == v@.len(),
            s0 == artifact_views(v@),
            x == artifact_view(a),
            p <= n,
            forall|i: int| 0 <= i < p ==> !seq_less(x.1, #[trigger] s0[i].1),
        decreases n - p,
    {
        assert(s0[p as int].1 == v@[p as int].file@);
        assert(x.1 == a.file@);
        assert(!seq_less(x.1, s0[p as int].1));
        p = p + 1;
    }
    proof {
        if p < n {
            assert(s0[p as int].1 == v@[p as int].file@);
            assert(seq_less(x.1, s0[p as int].1));
        }
    }
    v.insert(p, a);
    proof {
        let s1 = artifact_views(v@);
        assert(s1 =~= s0.insert(p as int, x));
        assert forall|i: int, j: int| 0 <= i < j < s1.len() implies !seq_less(
            #[trigger] s1[j].1,
            #[trigger] s1[i].1,
        ) by {
            if j < p {
                assert(s1[i] == s0[i] && s1[j] == s0[j]);
            } else if j == p {
                assert(s1[i] == s0[i]);
            } else if i < p {
                assert(s1[i] == s0[i] && s1[j] == s0[j - 1]);
                // s0[i] <= x < s0[p] <= s0[j - 1]
                lemma_seq_less_trichotomy(s0[i].1, x.1);
                lemma_seq_less_trichotomy(s0[p as int].1, s0[j - 1].1);
                if s0[p as int].1 != s0[j - 1].1 {
                    lemma_seq_less_transitive(x.1, s0[p as int].1, s0[j - 1].1);
                }
                if s0[i].1 != x.1 {
                    lemma_seq_less_transitive(s0[i].1, x.1, s0[j - 1].1);
                }
                lemma_seq_less_trichotomy(s0[i].1, s0[j - 1].1);
            } else if i == p {
                assert(s1[j] == s0[j - 1]);
                lemma_seq_less_trichotomy(s0[p as int].1, s0[j - 1].1);
                if s0[p as int].1 != s0[j - 1].1 {
                    lemma_seq_less_transitive(x.1, s0[p as int].1, s0[j - 1].1);
                }
                lemma_seq_less_trichotomy(x.1, s0[j - 1].1);
            } else {
                assert(s1[i] == s0[i - 1] && s1[j] == s0[j - 1]);
            }
        }
        vstd::seq_lib::to_multiset_insert(s0, p as int, x);
        // entries with the path of `a` all stand before `p`, so `a` follows them
        assert forall|k: int| p <= k < s0.len() implies #[trigger] s0[k].1 != x.1 by {
            assert(seq_less(x.1, s0[p as int].1));
            if k > p {
                lemma_seq_less_trichotomy(s0[p as int].1, s0[k].1);
                if s0[p as int].1 != s0[k].1 {
                    lemma_seq_less_transitive(x.1, s0[p as int].1, s0[k].1);
                }
            }
            lemma_seq_less_trichotomy(x.1, s0[k].1);
        }
        let front = s0.take(p as int);
        let back = s0.skip(p as int);
        assert(s0 =~= front + back);
        assert(s1 =~= front + seq![x] + back);
        assert(s0.push(x).drop_last() =~= s0);
        assert forall|file: Seq<char>| #[trigger] entries_named(s1, file) == entries_named(
            s0.push(x),
            file,
        ) by {
            lemma_entries_named_concat(front + seq![x], back, file);
            lemma_entries_named_concat(front, seq![x], file);
            lemma_entries_named_concat(front, back, file);
            assert(seq![x].drop_last() =~= Seq::<(Seq<char>, Seq<char>, u64)>::empty());
            assert(seq![x].last() == x);
            let none = Seq::<(Seq<char>, Seq<char>, u64)>::empty();
            assert(entries_named(none, file) == none);
            assert(entries_named(seq![x], file) == entries_named(none, file) + if x.1 == file {
                seq![x]
            } else {
                none
            });
            assert(entries_named(s0.push(x), file) == entries_named(s0, file) + if x.1 == file {
                seq![x]
            } else {
                none
            });
            assert(entries_named(s0, file) == entries_named(front, file) + entries_named(back, file));
            if x.1 == file {
                assert forall|k: int| 0 <= k < back.len() implies #[trigger] back[k].1 != file by {
                    assert(back[k] == s0[p + k]);
                }
                lemma_entries_named_none(back, file);
                assert(entries_named(s1, file) =~= entries_named(s0, file) + seq![x]);
            } else {
                assert(entries_named(s1, file) =~= entries_named(s0, file));
            }
        }
    }
}

/// The manifest of a release: the app and version, and the files of the
/// output directory (relative paths in walk order, with sizes) without the
/// checksum files, ordered by path.
pub fn build_manifest(app: String, version: String, files: &Vec<(String, u64)>, style: HostStyle) -> (r: ReleaseManifest)
    ensures
        r.app == app,
        r.version == version,
        sorted_by_file(artifact_views(r.artifacts@)),
        artifact_views(r.artifacts@).to_multiset() == manifest_entries(file_views(files@), style).to_multiset(),
        distinct_files(manifest_entries(file_views(files@), style)) ==> strictly_sorted_by_file(
            artifact_views(r.artifacts@),
        ),
        forall|file: Seq<char>| #[trigger] entries_named(artifact_views(r.artifacts@), file)
            == entries_named(manifest_entries(file_views(files@), style), file),
{
    let mut artifacts: Vec<ManifestArtifact> = Vec::new();
    let n = files.len();
    let mut i: usize = 0;
    while i < n
        invariant
            n == files@.len(),
            i <= n,
            sorted_by_file(artifact_views(artifacts@)),
            artifact_views(artifacts@).to_multiset() == manifest_entries(file_views(files@).take(i as int), style).to_multiset(),
            forall|file: Seq<char>| #[trigger] entries_named(artifact_views(artifacts@), file)
                == entries_named(manifest_entries(file_views(files@).take(i as int), style), file),
        decreases n - i,
    {
        let ghost t = file_views(files@).take(i + 1);
        assert(t.drop_last() =~= file_views(files@).take(i as int));
        assert(t.last() == (files@[i as int].0@, files@[i as int].1));
        let rel = &files[i].0;
        let file = replace_char_exec(rel.as_str(), '\\', '/');
        if !crate::checksums::is_checksum_file(rel.as_str(), style) {
            let seg = match style {
                HostStyle::Posix => first_segment_exec(rel.as_str()),
                HostStyle::Windows => first_segment_exec(file.as_str()),
            };
            let platform = if seg.unicode_len() == 0 {
                owned("unknown")
            } else {
                seg
            };
            let entry = ManifestArtifact { platform, file, size_bytes: files[i].1 };
            proof {
                vstd::seq_lib::to_multiset_build(
                    manifest_entries(file_views(files@).take(i as int), style),
                    artifact_view(entry),
                );
            }
            let ghost old_v = artifact_views(artifacts@);
            let ghost e = artifact_view(entry);
            let ghost m = manifest_entries(file_views(files@).take(i as int), style);
            insert_sorted(&mut artifacts, entry);
            proof {
                assert(manifest_entries(file_views(files@).take(i + 1), style) == m.push(e));
                assert(old_v.push(e).drop_last() =~= old_v);
                assert(m.push(e).drop_last() =~= m);
                assert forall|file: Seq<char>| #[trigger] entries_named(artifact_views(artifacts@), file)
                    == entries_named(m.push(e), file) by {
                    assert(entries_named(old_v, file) == entries_named(m, file));
                }
            }
        }
        i = i + 1;
    }
    assert(file_views(files@).take(n as int) =~= file_views(files@));
    proof {
        if distinct_files(manifest_entries(file_views(files@), style)) {
            lemma_distinct_files_permutation(
                manifest_entries(file_views(files@), style),
                artifact_views(artifacts@),
            );
            lemma_strictly_sorted(artifact_views(artifacts@));
        }
    }
    ReleaseManifest { app, version, artifacts }
}

/// No two entries share a file path.
pub open spec fn distinct_files(s: Seq<(Seq<char>, Seq<char>, u64)>) -> bool {
    forall|i: int, j: int|
        0 <= i < s.len() && 0 <= j < s.len() && i != j ==> #[trigger] s[i].1 != #[trigger] s[j].1
}

/// Entries in strictly ascending order of file path.
pub open spec fn strictly_sorted_by_file(s: Seq<(Seq<char>, Seq<char>, u64)>) -> bool {
    forall|i: int, j: int| 0 <= i < j < s.len() ==> seq_less(#[trigger] s[i].1, #[trigger] s[j].1)
}

proof fn lemma_manifest_entries_concat(a: Seq<(Seq<char>, u64)>, b: Seq<(Seq<char>, u64)>, style: HostStyle)
    ensures
        manifest_entries(a + b, style) == manifest_entries(a, style) + manifest_entries(b, style),
    decreases b.len(),
{
    if b.len() == 0 {
        assert(a + b =~= a);
        assert(manifest_entries(a, style) + manifest_entries(b, style) =~= manifest_entries(a, style));
    } else {
        lemma_manifest_entries_concat(a, b.drop_last(), style);
        assert((a + b).drop_last() =~= a + b.drop_last());
        assert((a + b).last() == b.last());
        let (rel, size) = b.last();
        if !is_checksum_path(rel, style) {
            assert(manifest_entries(a, style) + manifest_entries(b, style) =~= (manifest_entries(a, style)
                + manifest_entries(b.drop_last(), style)).push((platform_of(rel, style), replace_char(rel, '\\', '/'), size)));
        }
    }
}

/// The entries of a walk depend on the files walked, not on their order.
proof fn lemma_manifest_entries_permutation(s: Seq<(Seq<char>, u64)>, t: Seq<(Seq<char>, u64)>, style: HostStyle)
    requires
        s.to_multiset() == t.to_multiset(),
    ensures
        manifest_entries(s, style).to_multiset() == manifest_entries(t, style).to_multiset(),
    decreases s.len(),
{
    broadcast use vstd::seq_lib::group_to_multiset_ensures, vstd::seq_lib::lemma_multiset_commutative;

    if s.len() == 0 {
        vstd::seq_lib::to_multiset_len(t);
        vstd::seq_lib::to_multiset_len(s);
        assert(t.len() == 0);
        assert(t =~= s);
    } else {
        let x = s.last();
        let s0 = s.drop_last();
        assert(s0.push(x) =~= s);
        assert(s.to_multiset().count(x) > 0);
        assert(t.contains(x));
        let j = choose|j: int| 0 <= j < t.len() && t[j] == x;
        let t0 = t.remove(j);
        assert(t0.to_multiset() =~= s0.to_multiset()) by {
            vstd::seq_lib::to_multiset_remove(t, j);
            vstd::seq_lib::to_multiset_build(s0, x);
        }
        lemma_manifest_entries_permutation(s0, t0, style);
        let a = t.subrange(0, j);
        let c = t.subrange(j + 1, t.len() as int);
        assert(t =~= a + seq![x] + c);
        assert(t0 =~= a + c);
        assert(s =~= s0 + seq![x]);
        lemma_manifest_entries_concat(a + seq![x], c, style);
        lemma_manifest_entries_concat(a, seq![x], style);
        lemma_manifest_entries_concat(a, c, style);
        lemma_manifest_entries_concat(s0, seq![x], style);
        let mx = manifest_entries(seq![x], style);
        let ma = manifest_entries(a, style);
        let mc = manifest_entries(c, style);
        assert(manifest_entries(t, style).to_multiset() =~= ma.to_multiset().add(mx.to_multiset()).add(
            mc.to_multiset(),
        ));
        assert(manifest_entries(t0, style).to_multiset() =~= ma.to_multiset().add(mc.to_multiset()));
        assert(manifest_entries(s, style).to_multiset() =~= manifest_entries(s0, style).to_multiset().add(
            mx.to_multiset(),
        ));
    }
}

/// A permutation of entries with distinct file paths has distinct file paths.
proof fn lemma_distinct_files_permutation(
    a: Seq<(Seq<char>, Seq<char>, u64)>,
    b: Seq<(Seq<char>, Seq<char>, u64)>,
)
    requires
        a.to_multiset() == b.to_multiset(),
        distinct_files(a),
    ensures
        distinct_files(b),
{
    broadcast use vstd::seq_lib::group_to_multiset_ensures;

    assert(a.no_duplicates()) by {
        assert forall|i: int, j: int| 0 <= i < a.len() && 0 <= j < a.len() && i != j implies a[i]
            != a[j] by {
            assert(a[i].1 != a[j].1);
        }
    }
    a.lemma_multiset_has_no_duplicates();
    assert forall|i: int, j: int| 0 <= i < b.len() && 0 <= j < b.len() && i != j implies #[trigger] b[i].1
        != #[trigger] b[j].1 by {
        if b[i].1 == b[j].1 {
            let u = b[i];
            let v = b[j];
            assert(b[i] == u && b[j] == v);
            vstd::seq_lib::to_multiset_contains(b, u);
            vstd::seq_lib::to_multiset_contains(b, v);
            vstd::seq_lib::to_multiset_contains(a, u);
            vstd::seq_lib::to_multiset_contains(a, v);
            assert(a.contains(u) && a.contains(v));
            if u != v {
                let p = choose|p: int| 0 <= p < a.len() && a[p] == u;
                let q = choose|q: int| 0 <= q < a.len() && a[q] == v;
                assert(a[p].1 == a[q].1);
            } else {
                let r = b.remove(j);
                let k = if i < j { i } else { i - 1 };
                assert(r[k] == u);
                assert(r.contains(u));
                vstd::seq_lib::to_multiset_remove(b, j);
                assert(r.to_multiset().count(u) > 0);
                assert(b.to_multiset().count(u) >= 2);
                assert(a.to_multiset().count(u) == 1);
            }
        }
    }
}

/// Sorted entries with distinct file paths are strictly ascending.
proof fn lemma_strictly_sorted(s: Seq<(Seq<char>, Seq<char>, u64)>)
    requires
        sorted_by_file(s),
        distinct_files(s),
    ensures
        strictly_sorted_by_file(s),
{
    assert forall|i: int, j: int| 0 <= i < j < s.len() implies seq_less(
        #[trigger] s[i].1,
        #[trigger] s[j].1,
    ) by {
        lemma_seq_less_trichotomy(s[i].1, s[j].1);
    }
}

/// Two orders by file path of the same entries, with distinct paths, agree.
proof fn lemma_sorted_unique(x: Seq<(Seq<char>, Seq<char>, u64)>, y: Seq<(Seq<char>, Seq<char>, u64)>)
    requires
        sorted_by_file(x),
        sorted_by_file(y),
        distinct_files(x),
        x.to_multiset() == y.to_multiset(),
    ensures
        x == y,
    decreases x.len(),
{
    broadcast use vstd::seq_lib::group_to_multiset_ensures, vstd::seq_lib::lemma_multiset_commutative;

    if x.len() == 0 {
        vstd::seq_lib::to_multiset_len(y);
        vstd::seq_lib::to_multiset_len(x);
        assert(y =~= x);
    } else {
        vstd::seq_lib::to_multiset_len(y);
        vstd::seq_lib::to_multiset_len(x);
        assert(y.len() > 0);
        assert(x[0] == x[0]);
        vstd::seq_lib::to_multiset_contains(x, x[0]);
        vstd::seq_lib::to_multiset_contains(y, x[0]);
        vstd::seq_lib::to_multiset_contains(x, y[0]);
        vstd::seq_lib::to_multiset_contains(y, y[0]);
        assert(x.contains(x[0]));
        assert(y.contains(y[0]));
        assert(y.contains(x[0]));
        assert(x.contains(y[0]));
        let i = choose|i: int| 0 <= i < x.len() && x[i] == y[0];
        let k = choose|k: int| 0 <= k < y.len() && y[k] == x[0];
        // x[0] <= x[i] == y[0] <= y[k] == x[0], by file path
        if i != 0 {
            assert(!seq_less(x[i].1, x[0].1));
        }
        if k != 0 {
            assert(!seq_less(y[k].1, y[0].1));
        }
        lemma_seq_less_trichotomy(x[0].1, y[0].1);
        assert(x[0].1 == y[0].1);
        assert(i == 0);
        let x1 = x.drop_first();
        let y1 = y.drop_first();
        assert(x =~= seq![x[0]] + x1);
        assert(y =~= seq![y[0]] + y1);
        assert(x1.to_multiset() == y1.to_multiset()) by {
            assert(x.remove(0) =~= x1);
            assert(y.remove(0) =~= y1);
            vstd::seq_lib::to_multiset_remove(x, 0);
            vstd::seq_lib::to_multiset_remove(y, 0);
        }
        assert(sorted_by_file(x1)) by {
            assert forall|a: int, b: int| 0 <= a < b < x1.len() implies !seq_less(
                #[trigger] x1[b].1,
                #[trigger] x1[a].1,
            ) by {
                assert(x1[a] == x[a + 1] && x1[b] == x[b + 1]);
            }
        }
        assert(sorted_by_file(y1)) by {
            assert forall|a: int, b: int| 0 <= a < b < y1.len() implies !seq_less(
                #[trigger] y1[b].1,
                #[trigger] y1[a].1,
            ) by {
                assert(y1[a] == y[a + 1] && y1[b] == y[b + 1]);
            }
        }
        assert(distinct_files(x1)) by {
            assert forall|a: int, b: int|
                0 <= a < x1.len() && 0 <= b < x1.len() && a != b implies #[trigger] x1[a].1
                != #[trigger] x1[b].1 by {
                assert(x1[a] == x[a + 1] && x1[b] == x[b + 1]);
            }
        }
        lemma_sorted_unique(x1, y1);
    }
}

/// The manifest does not depend on the order in which the output directory
/// was walked: when the same files are walked in any two orders and no two
/// of them give the same manifest path, every manifest with the entries of
/// the walk sorted by path (what `build_manifest` gives) is the same, and its
/// paths are strictly ascending.
pub proof fn law_manifest_is_determined(
    files1: Seq<(Seq<char>, u64)>,
    files2: Seq<(Seq<char>, u64)>,
    out1: Seq<(Seq<char>, Seq<char>, u64)>,
    out2: Seq<(Seq<char>, Seq<char>, u64)>,
    style: HostStyle,
)
    requires
        files1.to_multiset() == files2.to_multiset(),
        distinct_files(manifest_entries(files1, style)),
        sorted_by_file(out1),
        out1.to_multiset() == manifest_entries(files1, style).to_multiset(),
        sorted_by_file(out2),
        out2.to_multiset() == manifest_entries(files2, style).to_multiset(),
    ensures
        out1 == out2,
        strictly_sorted_by_file(out1),
{
    lemma_manifest_entries_permutation(files1, files2, style);
    lemma_distinct_files_permutation(manifest_entries(files1, style), out1);
    lemma_sorted_unique(out1, out2);
    lemma_strictly_sorted(out1);
}

} // verus!
