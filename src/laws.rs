//! What a run guarantees, stated over the planner's and the index's models.
use vstd::prelude::*;
use crate::catalog::{file_names, Emote};
use crate::json::indexjson::{entries_of, entry_of};
use crate::plan::{holds, orphans_of, plan_fails, regenerate_of, verdict, with_verdict};
use crate::staleness::{staleness, ArtifactProbe, Dimensions, StaleError};

verus! {

/// The file names of a catalog, as a set.
pub open spec fn name_set(c: Seq<Emote>) -> Set<Seq<char>> {
    Set::new(|f: Seq<char>| file_names(c).contains(f))
}

/// The file names in the output directory once a plan has been carried out
/// in full: the orphans are gone and every regenerated asset is there.
pub open spec fn names_after(output: Seq<Emote>, regenerate: Seq<Emote>, delete: Seq<Emote>) -> Set<Seq<char>> {
    name_set(output).difference(name_set(delete)).union(name_set(regenerate))
}

/// An artifact that a completed generation leaves behind: both times are
/// readable, the artifact is no older than its source, and a side of it
/// has the target length.
pub open spec fn fresh(p: ArtifactProbe, target: u32) -> bool {
    &&& p.source_mtime is Some
    &&& p.output_mtime is Some
    &&& p.output_mtime->Some_0 >= p.source_mtime->Some_0
    &&& p.output_size matches Some(d) && (d.width == target as usize || d.height == target as usize)
}

proof fn lemma_file_names_contains(c: Seq<Emote>, e: Emote)
    requires
        c.contains(e),
    ensures
        file_names(c).contains(e.file_name@),
{
    let i = choose|i: int| 0 <= i < c.len() && c[i] == e;
    assert(file_names(c)[i] == e.file_name@);
}

proof fn lemma_with_verdict_members(
    source: Seq<Emote>,
    output: Seq<Emote>,
    probes: Seq<ArtifactProbe>,
    target: u32,
    v: bool,
)
    requires
        probes.len() == source.len(),
    ensures
        forall|e: Emote| #[trigger]
            with_verdict(source, output, probes, target, v).contains(e) ==> exists|i: int|
                0 <= i < source.len() && source[i] == e && verdict(e, output, probes[i], target) == Ok::<
                    bool,
                    StaleError,
                >(v),
        forall|i: int|
            0 <= i < source.len() && #[trigger] verdict(source[i], output, probes[i], target) == Ok::<
                bool,
                StaleError,
            >(v) ==> with_verdict(source, output, probes, target, v).contains(source[i]),
    decreases source.len(),
{
    let w = with_verdict(source, output, probes, target, v);
    if source.len() > 0 {
        let s1 = source.drop_last();
        let p1 = probes.drop_last();
        lemma_with_verdict_members(s1, output, p1, target, v);
        let w1 = with_verdict(s1, output, p1, target, v);
        assert forall|e: Emote| #[trigger] w.contains(e) implies exists|i: int|
            0 <= i < source.len() && source[i] == e && verdict(e, output, probes[i], target) == Ok::<
                bool,
                StaleError,
            >(v) by {
            if w1.contains(e) {
                let i = choose|i: int|
                    0 <= i < s1.len() && s1[i] == e && verdict(e, output, p1[i], target) == Ok::<
                        bool,
                        StaleError,
                    >(v);
                assert(source[i] == e && probes[i] == p1[i]);
            } else {
                let k = choose|k: int| 0 <= k < w.len() && w[k] == e;
                assert(k == w.len() - 1);
                assert(source[source.len() - 1] == e);
            }
        }
        assert forall|i: int|
            0 <= i < source.len() && #[trigger] verdict(source[i], output, probes[i], target) == Ok::<
                bool,
                StaleError,
            >(v) implies w.contains(source[i]) by {
            if i < source.len() - 1 {
                assert(s1[i] == source[i] && p1[i] == probes[i]);
                assert(verdict(s1[i], output, p1[i], target) == Ok::<bool, StaleError>(v));
                let k = choose|k: int| 0 <= k < w1.len() && w1[k] == source[i];
                assert(w[k] == source[i]);
            } else {
                assert(w.last() == source[i]);
                assert(w[w.len() - 1] == source[i]);
            }
        }
    }
}

proof fn lemma_orphans_members(output: Seq<Emote>, source: Seq<Emote>)
    ensures
        forall|e: Emote| #[trigger]
            orphans_of(output, source).contains(e) <==> output.contains(e) && !holds(source, e),
    decreases output.len(),
{
    let o = orphans_of(output, source);
    if output.len() > 0 {
        let out1 = output.drop_last();
        lemma_orphans_members(out1, source);
        let o1 = orphans_of(out1, source);
        assert forall|e: Emote| #[trigger] o.contains(e) implies output.contains(e) && !holds(source, e) by {
            if o1.contains(e) {
                let k = choose|k: int| 0 <= k < out1.len() && out1[k] == e;
                assert(output[k] == e);
            } else {
                let k = choose|k: int| 0 <= k < o.len() && o[k] == e;
                assert(k == o.len() - 1);
                assert(output[output.len() - 1] == e);
            }
        }
        assert forall|e: Emote| output.contains(e) && !holds(source, e) implies #[trigger] o.contains(e) by {
            let k = choose|k: int| 0 <= k < output.len() && output[k] == e;
            if k < output.len() - 1 {
                assert(out1[k] == e);
                assert(out1.contains(e));
                assert(o1.contains(e));
                let j = choose|j: int| 0 <= j < o1.len() && o1[j] == e;
                assert(o[j] == e);
            } else {
                assert(o[o.len() - 1] == e);
            }
        }
    }
}

proof fn lemma_name_of(c: Seq<Emote>, f: Seq<char>) -> (i: int)
    requires
        name_set(c).contains(f),
    ensures
        0 <= i < c.len(),
        c[i].file_name@ == f,
{
    let i = choose|i: int| 0 <= i < file_names(c).len() && file_names(c)[i] == f;
    i
}

/// One run mirrors the source directory by file name. Every output entry
/// that no source asset matches is removed, and only those; every source
/// asset that the output lacks is generated; once the plan is carried out
/// in full, the output holds exactly the source's file names.
pub proof fn lemma_run_mirrors_source(
    source: Seq<Emote>,
    output: Seq<Emote>,
    probes: Seq<ArtifactProbe>,
    target: u32,
)
    requires
        probes.len() == source.len(),
    ensures
        forall|f: Seq<char>|
            name_set(output).contains(f) && !name_set(source).contains(f) ==> #[trigger] name_set(
                orphans_of(output, source),
            ).contains(f),
        forall|f: Seq<char>|
            #[trigger] name_set(orphans_of(output, source)).contains(f) ==> !name_set(source).contains(f),
        forall|f: Seq<char>|
            name_set(source).contains(f) && !name_set(output).contains(f) ==> #[trigger] name_set(
                regenerate_of(source, output, probes, target),
            ).contains(f),
        names_after(output, regenerate_of(source, output, probes, target), orphans_of(output, source))
            == name_set(source),
{
    let regen = regenerate_of(source, output, probes, target);
    let del = orphans_of(output, source);
    lemma_orphans_members(output, source);
    lemma_with_verdict_members(source, output, probes, target, true);
    assert forall|f: Seq<char>|
        name_set(output).contains(f) && !name_set(source).contains(f) implies #[trigger] name_set(
            del,
        ).contains(f) by {
        let j = lemma_name_of(output, f);
        assert(output.contains(output[j]));
        assert(del.contains(output[j]));
        lemma_file_names_contains(del, output[j]);
    }
    assert forall|f: Seq<char>| #[trigger] name_set(del).contains(f) implies !name_set(source).contains(f) by {
        let j = lemma_name_of(del, f);
        assert(del.contains(del[j]));
    }
    assert forall|f: Seq<char>|
        name_set(source).contains(f) && !name_set(output).contains(f) implies #[trigger] name_set(
            regen,
        ).contains(f) by {
        let i = lemma_name_of(source, f);
        assert(!holds(output, source[i]));
        assert(verdict(source[i], output, probes[i], target) == Ok::<bool, StaleError>(true));
        lemma_file_names_contains(regen, source[i]);
    }
    assert forall|f: Seq<char>| #[trigger] names_after(output, regen, del).contains(f) <==> name_set(source).contains(f) by {
        if name_set(regen).contains(f) {
            let j = lemma_name_of(regen, f);
            assert(regen.contains(regen[j]));
            let i = choose|i: int|
                0 <= i < source.len() && source[i] == regen[j] && verdict(regen[j], output, probes[i], target) == Ok::<
                    bool,
                    StaleError,
                >(true);
            assert(file_names(source)[i] == f);
        }
        if name_set(source).contains(f) && name_set(output).contains(f) {
            if name_set(del).contains(f) {
                let j = lemma_name_of(del, f);
                assert(del.contains(del[j]));
            }
        }
        if name_set(source).contains(f) && !name_set(output).contains(f) {
            let i = lemma_name_of(source, f);
            assert(!holds(output, source[i]));
            assert(verdict(source[i], output, probes[i], target) == Ok::<bool, StaleError>(true));
            lemma_file_names_contains(regen, source[i]);
        }
    }
    assert(names_after(output, regen, del) =~= name_set(source));
}

proof fn lemma_nothing_stale(source: Seq<Emote>, output: Seq<Emote>, probes: Seq<ArtifactProbe>, target: u32)
    requires
        probes.len() == source.len(),
        forall|i: int| 0 <= i < source.len() ==> #[trigger] verdict(source[i], output, probes[i], target) == Ok::<
            bool,
            StaleError,
        >(false),
    ensures
        regenerate_of(source, output, probes, target) == Seq::<Emote>::empty(),
    decreases source.len(),
{
    if source.len() > 0 {
        let s1 = source.drop_last();
        let p1 = probes.drop_last();
        assert forall|i: int| 0 <= i < s1.len() implies #[trigger] verdict(s1[i], output, p1[i], target) == Ok::<
            bool,
            StaleError,
        >(false) by {
            assert(s1[i] == source[i] && p1[i] == probes[i]);
            assert(verdict(source[i], output, probes[i], target) == Ok::<bool, StaleError>(false));
        }
        lemma_nothing_stale(s1, output, p1, target);
        assert(verdict(source[source.len() - 1], output, probes[source.len() - 1], target) == Ok::<bool, StaleError>(false));
    }
}

/// Running twice with nothing changed between the runs: once the first run
/// has left the output holding exactly the source's file names, each
/// artifact no older than its source and of the target size, the second
/// plan succeeds and has nothing to generate and nothing to remove.
pub proof fn lemma_second_run_is_idle(
    source: Seq<Emote>,
    output: Seq<Emote>,
    probes: Seq<ArtifactProbe>,
    target: u32,
)
    requires
        probes.len() == source.len(),
        name_set(output) == name_set(source),
        forall|i: int| 0 <= i < probes.len() ==> fresh(#[trigger] probes[i], target),
    ensures
        !plan_fails(source, output, probes, target),
        regenerate_of(source, output, probes, target) == Seq::<Emote>::empty(),
        orphans_of(output, source) == Seq::<Emote>::empty(),
{
    assert forall|i: int| 0 <= i < source.len() implies #[trigger] verdict(source[i], output, probes[i], target) == Ok::<
        bool,
        StaleError,
    >(false) by {
        assert(fresh(probes[i], target));
        assert(file_names(source)[i] == source[i].file_name@);
        assert(name_set(source).contains(source[i].file_name@));
        assert(name_set(output).contains(source[i].file_name@));
    }
    lemma_nothing_stale(source, output, probes, target);
    lemma_orphans_members(output, source);
    let o = orphans_of(output, source);
    if o.len() > 0 {
        assert(o.contains(o[0]));
        let j = choose|j: int| 0 <= j < output.len() && output[j] == o[0];
        assert(file_names(output)[j] == o[0].file_name@);
        assert(name_set(output).contains(o[0].file_name@));
        assert(name_set(source).contains(o[0].file_name@));
    }
}

/// The staleness oracle: an artifact older than its source is stale; an
/// artifact no older than its source, of the target size on both sides, is
/// not.
pub proof fn lemma_staleness_oracle(p: ArtifactProbe, target: u32)
    requires
        p.source_mtime is Some,
        p.output_mtime is Some,
    ensures
        p.output_mtime->Some_0 < p.source_mtime->Some_0 ==> staleness(true, p, target) == Ok::<bool, StaleError>(true),
        p.output_mtime->Some_0 >= p.source_mtime->Some_0 && p.output_size == Some(
            Dimensions { width: target as usize, height: target as usize },
        ) ==> staleness(true, p, target) == Ok::<bool, StaleError>(false),
{
}

/// The index has one entry per source asset, in the catalog's order,
/// whatever became of the artifacts.
pub proof fn lemma_index_counts_source(catalog: Seq<Emote>)
    ensures
        entries_of(catalog).len() == catalog.len(),
        forall|i: int| 0 <= i < catalog.len() ==> #[trigger] entries_of(catalog)[i] == entry_of(catalog[i]),
{
}

} // verus!
