//! Joining the source and output catalogs into the work of one run.
use vstd::prelude::*;
use crate::catalog::{file_names, has_file_name, Emote};
use crate::staleness::{is_stale, staleness, ArtifactProbe, StaleError};

verus! {

/// The work of one run: the assets to generate, those whose artifact stands,
/// the artifacts to remove, and the source catalog the index describes.
#[derive(Debug)]
pub struct SyncPlan {
    pub regenerate: Vec<Emote>,
    pub keep: Vec<Emote>,
    pub delete: Vec<Emote>,
    pub source: Vec<Emote>,
}

/// Why no plan was made.
#[derive(Debug, Clone, Copy, PartialEq, Eq, Structural)]
pub enum PlanError {
    /// The modification times of the source asset at `index`, or of its
    /// artifact, could not be read.
    MtimeUnreadable { index: usize },
}

/// The catalog `c` holds an entry with the file name of `e`.
pub open spec fn holds(c: Seq<Emote>, e: Emote) -> bool {
    file_names(c).contains(e.file_name@)
}

/// The staleness of the source asset `e`, given its probe.
pub open spec fn verdict(e: Emote, output: Seq<Emote>, p: ArtifactProbe, target: u32) -> Result<bool, StaleError> {
    staleness(holds(output, e), p, target)
}

/// The source assets, in order, whose verdict is `Ok(v)`.
pub open spec fn with_verdict(
    source: Seq<Emote>,
    output: Seq<Emote>,
    probes: Seq<ArtifactProbe>,
    target: u32,
    v: bool,
) -> Seq<Emote>
    decreases source.len(),
{
    if source.len() == 0 {
        Seq::empty()
    } else {
        let prev = with_verdict(source.drop_last(), output, probes.drop_last(), target, v);
        if verdict(source.last(), output, probes.last(), target) == Ok::<bool, StaleError>(v) {
            prev.push(source.last())
        } else {
            prev
        }
    }
}

/// The assets to generate again.
pub open spec fn regenerate_of(source: Seq<Emote>, output: Seq<Emote>, probes: Seq<ArtifactProbe>, target: u32) -> Seq<Emote> {
    with_verdict(source, output, probes, target, true)
}

/// The assets whose artifact stands.
pub open spec fn keep_of(source: Seq<Emote>, output: Seq<Emote>, probes: Seq<ArtifactProbe>, target: u32) -> Seq<Emote> {
    with_verdict(source, output, probes, target, false)
}

/// The entries of `output`, in order, that no entry of `source` matches.
pub open spec fn orphans_of(output: Seq<Emote>, source: Seq<Emote>) -> Seq<Emote>
    decreases output.len(),
{
    if output.len() == 0 {
        Seq::empty()
    } else {
        let prev = orphans_of(output.drop_last(), source);
        if holds(source, output.last()) {
            prev
        } else {
            prev.push(output.last())
        }
    }
}

/// Some source asset cannot be compared with its artifact.
pub open spec fn plan_fails(source: Seq<Emote>, output: Seq<Emote>, probes: Seq<ArtifactProbe>, target: u32) -> bool {
    exists|i: int| 0 <= i < source.len() && (#[trigger] verdict(source[i], output, probes[i], target)) is Err
}

/// The artifacts that no source asset matches, in the output catalog's order.
pub fn orphans(output: &Vec<Emote>, source: &Vec<Emote>) -> (r: Vec<Emote>)
    ensures
        r@ == orphans_of(output@, source@),
{
    let mut r: Vec<Emote> = Vec::new();
    let mut i: usize = 0;
    while i < output.len()
        invariant
            i <= output@.len(),
            r@ == orphans_of(output@.subrange(0, i as int), source@),
        decreases output@.len() - i,
    {
        proof {
            assert(output@.subrange(0, i as int + 1).drop_last() =~= output@.subrange(0, i as int));
        }
        if !has_file_name(source, &output[i].file_name) {
            r.push(output[i].duplicate());
        }
        i = i + 1;
    }
    proof {
        assert(output@.subrange(0, i as int) =~= output@);
    }
    r
}

/// Plans one run. Each source asset is generated again when the output
/// catalog lacks it or its artifact is stale, and kept otherwise; each
/// output entry that no source asset matches by file name is removed.
/// `probes[i]` holds what was observed of `source[i]` and its artifact.
/// The plan fails, naming the first such asset, when a present artifact's
/// modification times cannot be compared.
pub fn plan(source: &Vec<Emote>, output: &Vec<Emote>, probes: &Vec<ArtifactProbe>, target: u32) -> (r: Result<SyncPlan, PlanError>)
    requires
        probes@.len() == source@.len(),
    ensures
        r is Err <==> plan_fails(source@, output@, probes@, target),
        match r {
            Ok(p) => {
                &&& p.regenerate@ == regenerate_of(source@, output@, probes@, target)
                &&& p.keep@ == keep_of(source@, output@, probes@, target)
                &&& p.delete@ == orphans_of(output@, source@)
                &&& p.source@ == source@
            },
            Err(PlanError::MtimeUnreadable { index }) => {
                &&& index < source@.len()
                &&& verdict(source@[index as int], output@, probes@[index as int], target) is Err
                &&& forall|j: int| 0 <= j < index ==> (#[trigger] verdict(source@[j], output@, probes@[j], target)) is Ok
            },
        },
{
    let mut regenerate: Vec<Emote> = Vec::new();
    let mut keep: Vec<Emote> = Vec::new();
    let mut copy: Vec<Emote> = Vec::new();
    let mut i: usize = 0;
    while i < source.len()
        invariant
            i <= source@.len(),
            probes@.len() == source@.len(),
            regenerate@ == regenerate_of(source@.subrange(0, i as int), output@, probes@.subrange(0, i as int), target),
            keep@ == keep_of(source@.subrange(0, i as int), output@, probes@.subrange(0, i as int), target),
            copy@ == source@.subrange(0, i as int),
            forall|j: int| 0 <= j < i ==> (#[trigger] verdict(source@[j], output@, probes@[j], target)) is Ok,
        decreases source@.len() - i,
    {
        proof {
            assert(source@.subrange(0, i as int + 1).drop_last() =~= source@.subrange(0, i as int));
            assert(probes@.subrange(0, i as int + 1).drop_last() =~= probes@.subrange(0, i as int));
        }
        let present = has_file_name(output, &source[i].file_name);
        match is_stale(present, &probes[i], target) {
            Ok(true) => regenerate.push(source[i].duplicate()),
            Ok(false) => keep.push(source[i].duplicate()),
            Err(_) => return Err(PlanError::MtimeUnreadable { index: i }),
        }
        copy.push(source[i].duplicate());
        proof {
            assert(copy@ =~= source@.subrange(0, i as int + 1));
        }
        i = i + 1;
    }
    proof {
        assert(source@.subrange(0, i as int) =~= source@);
        assert(probes@.subrange(0, i as int) =~= probes@);
    }
    let delete = orphans(output, source);
    Ok(SyncPlan { regenerate, keep, delete, source: copy })
}

} // verus!
