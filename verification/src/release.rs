//! The order of a release: prepare the output, build each selected
//! platform, collect, then write checksums and the manifest as configured.
use vstd::prelude::*;

use crate::context::{platform_names, selected_spec, str_views, BuildContext};
use crate::error::ReleaseError;

verus! {

/// One stage of a release.
#[derive(Debug, Clone, Copy)]
pub enum ReleaseStage {
    /// Clean (when configured) and create the output and cache directories.
    PrepareOutput,
    /// Build one platform.
    Build { platform: &'static str },
    /// Check that every built platform produced artifacts.
    NormalizeArtifacts,
    /// Write a SHA-256 file beside each artifact.
    Checksums,
    /// Write the release manifest file.
    Manifest,
}

/// The view of a stage: its kind, and the platform of a build.
pub open spec fn stage_view(s: ReleaseStage) -> (int, Seq<char>) {
    match s {
        ReleaseStage::PrepareOutput => (0, Seq::empty()),
        ReleaseStage::Build { platform } => (1, platform@),
        ReleaseStage::NormalizeArtifacts => (2, Seq::empty()),
        ReleaseStage::Checksums => (3, Seq::empty()),
        ReleaseStage::Manifest => (4, Seq::empty()),
    }
}

/// The stages of a release of the given platforms.
pub open spec fn stages_spec(names: Seq<Seq<char>>, sha256: bool, manifest: bool) -> Seq<(int, Seq<char>)> {
    seq![(0int, Seq::<char>::empty())] + names.map_values(|n: Seq<char>| (1int, n)) + seq![
        (2int, Seq::<char>::empty()),
    ] + (if sha256 {
        seq![(3int, Seq::<char>::empty())]
    } else {
        Seq::empty()
    }) + (if manifest {
        seq![(4int, Seq::<char>::empty())]
    } else {
        Seq::empty()
    })
}

/// The stages of this release, in order; refused when no platform is
/// selected.
pub fn plan_release(ctx: &BuildContext) -> (r: Result<Vec<ReleaseStage>, ReleaseError>)
    ensures
        (r is Err) == (platform_names(selected_spec(ctx.args, ctx.config)).len() == 0),
        r matches Err(e) ==> e is NoTargetSelected,
        r matches Ok(stages) ==> stages@.map_values(|s: ReleaseStage| stage_view(s)) == stages_spec(
            platform_names(selected_spec(ctx.args, ctx.config)),
            ctx.config.output.sha256,
            ctx.config.output.manifest,
        ),
{
    let names = ctx.selected_platform_names();
    if names.len() == 0 {
        return Err(ReleaseError::NoTargetSelected);
    }
    let mut stages: Vec<ReleaseStage> = Vec::new();
    stages.push(ReleaseStage::PrepareOutput);
    let n = names.len();
    let mut i: usize = 0;
    while i < n
        invariant
            n == names@.len(),
            i <= n,
            stages@.map_values(|s: ReleaseStage| stage_view(s)) == seq![(0int, Seq::<char>::empty())]
                + str_views(names@).take(i as int).map_values(|x: Seq<char>| (1int, x)),
        decreases n - i,
    {
        let ghost before = stages@;
        stages.push(ReleaseStage::Build { platform: names[i] });
        proof {
            assert(stages@.map_values(|s: ReleaseStage| stage_view(s)) =~= before.map_values(
                |s: ReleaseStage| stage_view(s),
            ).push((1int, names@[i as int]@)));
            assert(str_views(names@).take(i + 1).map_values(|x: Seq<char>| (1int, x)) =~= str_views(
                names@,
            ).take(i as int).map_values(|x: Seq<char>| (1int, x)).push((1int, names@[i as int]@)));
        }
        i = i + 1;
    }
    assert(str_views(names@).take(n as int) =~= str_views(names@));
    let ghost s1 = stages@;
    stages.push(ReleaseStage::NormalizeArtifacts);
    let ghost s2 = stages@;
    if ctx.config.output.sha256 {
        stages.push(ReleaseStage::Checksums);
    }
    let ghost s3 = stages@;
    if ctx.config.output.manifest {
        stages.push(ReleaseStage::Manifest);
    }
    proof {
        let v = |s: ReleaseStage| stage_view(s);
        assert(s2.map_values(v) =~= s1.map_values(v).push((2int, Seq::<char>::empty())));
        assert(s3.map_values(v) =~= s2.map_values(v) + (if ctx.config.output.sha256 {
            seq![(3int, Seq::<char>::empty())]
        } else {
            Seq::empty()
        }));
        assert(stages@.map_values(v) =~= s3.map_values(v) + (if ctx.config.output.manifest {
            seq![(4int, Seq::<char>::empty())]
        } else {
            Seq::empty()
        }));
        assert(stages@.map_values(v) =~= stages_spec(
            platform_names(selected_spec(ctx.args, ctx.config)),
            ctx.config.output.sha256,
            ctx.config.output.manifest,
        ));
    }
    Ok(stages)
}

} // verus!
