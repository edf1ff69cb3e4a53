//! The whole batch as one pure function: absorb every source into the
//! registry, then resolve every currency definition in order, collecting
//! the write instructions. Any duplicate source identifier or dangling
//! source reference aborts the batch with the corresponding fatal error;
//! no instructions are produced in that case.

use vstd::prelude::*;

use crate::engine::{WriteInstruction, WriteInstructionV, fanout_spec, instructions_view,
    resolve_currency, def_resolved_upto};
use crate::model::{CurrencyDefinition, CurrencyDefinitionV, Source, SourceV};
use crate::registry::SourceRegistry;

verus! {

/// A fatal error of the batch: either two sources shared an identifier, or
/// a currency definition referenced an unregistered source key.
#[derive(Debug)]
pub enum PipelineError {
    DuplicateSource { source_id: String },
    UnresolvedSourceReference { currency_id: String, source_key: String },
}

/// Mathematical view of a pipeline result.
pub ghost enum PipelineOutcome {
    Instructions { writes: Seq<WriteInstructionV> },
    DuplicateSource { source_id: Seq<char> },
    Unresolved { currency_id: Seq<char>, source_key: Seq<char> },
}

/// The views of a sequence of sources.
pub open spec fn sources_view(ss: Seq<Source>) -> Seq<SourceV> {
    ss.map_values(|s: Source| s@)
}

/// The views of a sequence of currency definitions.
pub open spec fn defs_view(ds: Seq<CurrencyDefinition>) -> Seq<CurrencyDefinitionV> {
    ds.map_values(|d: CurrencyDefinition| d@)
}

/// Whether some source in the sequence has the given identifier.
pub open spec fn seq_contains_id(ss: Seq<SourceV>, id: Seq<char>) -> bool {
    exists|i: int| 0 <= i < ss.len() && ss[i].id == id
}

/// No two sources in the sequence share an identifier.
pub open spec fn ids_distinct(ss: Seq<SourceV>) -> bool {
    forall|i: int, j: int| 0 <= i < j < ss.len() ==> ss[i].id != ss[j].id
}

/// The first `k` entries of the definition's source mapping all have their
/// key among the given sources.
pub open spec fn resolved_against_upto(def: CurrencyDefinitionV, ss: Seq<SourceV>, k: int) -> bool {
    forall|i: int| 0 <= i < k ==> seq_contains_id(ss, #[trigger] def.sources[i].source_key)
}

/// Every entry of the definition's source mapping has its key among the
/// given sources.
pub open spec fn resolved_against(def: CurrencyDefinitionV, ss: Seq<SourceV>) -> bool {
    resolved_against_upto(def, ss, def.sources.len() as int)
}

/// The concatenated fan-outs of the definitions, in definition order.
pub open spec fn all_instructions(defs: Seq<CurrencyDefinitionV>) -> Seq<WriteInstructionV>
    decreases defs.len(),
{
    if defs.len() == 0 {
        Seq::empty()
    } else {
        all_instructions(defs.drop_last()) + fanout_spec(defs.last())
    }
}

/// What the pipeline owes for a given input: instructions exactly when the
/// source identifiers are distinct and every definition resolves, and then
/// exactly the concatenated fan-outs; otherwise the error of the first
/// duplicate source (in load order) or of the first dangling reference (in
/// definition order, then entry order).
pub open spec fn outcome_matches(
    sources: Seq<SourceV>,
    defs: Seq<CurrencyDefinitionV>,
    o: PipelineOutcome,
) -> bool {
    match o {
        PipelineOutcome::Instructions { writes } => ids_distinct(sources) && (forall|d: int|
            0 <= d < defs.len() ==> resolved_against(#[trigger] defs[d], sources)) && writes
            == all_instructions(defs),
        PipelineOutcome::DuplicateSource { source_id } => exists|j: int|
            #![auto]
            0 <= j < sources.len() && source_id == sources[j].id && seq_contains_id(
                sources.take(j),
                sources[j].id,
            ) && ids_distinct(sources.take(j)),
        PipelineOutcome::Unresolved { currency_id, source_key } => ids_distinct(sources)
            && exists|d: int|
            #![auto]
            0 <= d < defs.len() && currency_id == defs[d].id && (forall|d2: int|
                0 <= d2 < d ==> resolved_against(#[trigger] defs[d2], sources)) && (exists|i: int|
                #![auto]
                0 <= i < defs[d].sources.len() && source_key == defs[d].sources[i].source_key
                    && !seq_contains_id(sources, defs[d].sources[i].source_key)
                    && resolved_against_upto(defs[d], sources, i)),
    }
}

/// The view of an executable pipeline result.
pub open spec fn result_outcome(r: Result<Vec<WriteInstruction>, PipelineError>)
    -> PipelineOutcome {
    match r {
        Ok(out) => PipelineOutcome::Instructions { writes: instructions_view(out@) },
        Err(PipelineError::DuplicateSource { source_id }) => (PipelineOutcome::DuplicateSource {
            source_id: source_id@,
        }),
        Err(
            PipelineError::UnresolvedSourceReference { currency_id, source_key },
        ) => (PipelineOutcome::Unresolved {
            currency_id: currency_id@,
            source_key: source_key@,
        }),
    }
}

proof fn lemma_contains_agree(reg: SourceRegistry, ss: Seq<SourceV>, id: Seq<char>)
    requires
        reg.sources_seq() == ss,
    ensures
        reg.contains_id(id) <==> seq_contains_id(ss, id),
{
    if reg.contains_id(id) {
        let i = choose|i: int|
            0 <= i < reg.sources_seq().len() && reg.sources_seq()[i].id == id;
        assert(ss[i].id == id);
    }
    if seq_contains_id(ss, id) {
        let i = choose|i: int| 0 <= i < ss.len() && ss[i].id == id;
        assert(reg.sources_seq()[i].id == id);
    }
}

/// Law: the pipeline's outcome is a function of its input alone. Any two
/// results that satisfy the pipeline's contract for the same sources and
/// definitions are equal — so two runs over unchanged input emit the same
/// write instructions (or the same fatal error), and since destination
/// paths and JSON bodies are themselves functions of the instructions, the
/// persisted artifacts are byte-identical across the runs.
pub proof fn lemma_pipeline_deterministic(
    sources: Seq<SourceV>,
    defs: Seq<CurrencyDefinitionV>,
    o1: PipelineOutcome,
    o2: PipelineOutcome,
)
    requires
        outcome_matches(sources, defs, o1),
        outcome_matches(sources, defs, o2),
    ensures
        o1 == o2,
{
    match (o1, o2) {
        (
            PipelineOutcome::Instructions { writes: w1 },
            PipelineOutcome::Instructions { writes: w2 },
        ) => {
            assert(w1 == all_instructions(defs) && w2 == all_instructions(defs));
        },
        (
            PipelineOutcome::DuplicateSource { source_id: id1 },
            PipelineOutcome::DuplicateSource { source_id: id2 },
        ) => {
            let j1 = lemma_first_duplicate(sources, id1);
            let j2 = lemma_first_duplicate(sources, id2);
            if j1 < j2 {
                let i1 = choose|i: int| 0 <= i < j1 && sources.take(j1)[i].id == sources[j1].id;
                assert(sources.take(j2)[i1].id == sources.take(j2)[j1].id);
                assert(false);
            }
            if j2 < j1 {
                let i2 = choose|i: int| 0 <= i < j2 && sources.take(j2)[i].id == sources[j2].id;
                assert(sources.take(j1)[i2].id == sources.take(j1)[j2].id);
                assert(false);
            }
            assert(j1 == j2);
        },
        (
            PipelineOutcome::Unresolved { currency_id: c1, source_key: k1 },
            PipelineOutcome::Unresolved { currency_id: c2, source_key: k2 },
        ) => {
            let (d1, i1) = lemma_first_unresolved(sources, defs, c1, k1);
            let (d2, i2) = lemma_first_unresolved(sources, defs, c2, k2);
            if d1 < d2 {
                assert(resolved_against(defs[d1], sources));
                assert(seq_contains_id(sources, defs[d1].sources[i1].source_key));
                assert(false);
            }
            if d2 < d1 {
                assert(resolved_against(defs[d2], sources));
                assert(seq_contains_id(sources, defs[d2].sources[i2].source_key));
                assert(false);
            }
            assert(d1 == d2);
            if i1 < i2 {
                assert(seq_contains_id(sources, defs[d1].sources[i1].source_key));
                assert(false);
            }
            if i2 < i1 {
                assert(seq_contains_id(sources, defs[d2].sources[i2].source_key));
                assert(false);
            }
            assert(i1 == i2);
        },
        (PipelineOutcome::Instructions { .. }, PipelineOutcome::DuplicateSource { source_id }) => {
            lemma_duplicate_not_distinct(sources, source_id);
        },
        (PipelineOutcome::DuplicateSource { source_id }, PipelineOutcome::Instructions { .. }) => {
            lemma_duplicate_not_distinct(sources, source_id);
        },
        (
            PipelineOutcome::Instructions { .. },
            PipelineOutcome::Unresolved { currency_id, source_key },
        ) => {
            let (d, i) = lemma_first_unresolved(sources, defs, currency_id, source_key);
            assert(resolved_against(defs[d], sources));
            assert(seq_contains_id(sources, defs[d].sources[i].source_key));
        },
        (
            PipelineOutcome::Unresolved { currency_id, source_key },
            PipelineOutcome::Instructions { .. },
        ) => {
            let (d, i) = lemma_first_unresolved(sources, defs, currency_id, source_key);
            assert(resolved_against(defs[d], sources));
            assert(seq_contains_id(sources, defs[d].sources[i].source_key));
        },
        (PipelineOutcome::DuplicateSource { source_id }, PipelineOutcome::Unresolved { .. }) => {
            lemma_duplicate_not_distinct(sources, source_id);
        },
        (PipelineOutcome::Unresolved { .. }, PipelineOutcome::DuplicateSource { source_id }) => {
            lemma_duplicate_not_distinct(sources, source_id);
        },
    }
}

/// Extracts the witness behind a duplicate-source outcome: the index of
/// the first source whose identifier repeats an earlier one.
proof fn lemma_first_duplicate(sources: Seq<SourceV>, source_id: Seq<char>) -> (j: int)
    requires
        outcome_matches(sources, Seq::empty(), PipelineOutcome::DuplicateSource { source_id }),
    ensures
        0 <= j < sources.len(),
        source_id == sources[j].id,
        seq_contains_id(sources.take(j), sources[j].id),
        ids_distinct(sources.take(j)),
{
    let j = choose|j: int|
        #![auto]
        0 <= j < sources.len() && source_id == sources[j].id && seq_contains_id(
            sources.take(j),
            sources[j].id,
        ) && ids_distinct(sources.take(j));
    j
}

/// A duplicate-source outcome contradicts distinctness of the source
/// identifiers.
proof fn lemma_duplicate_not_distinct(sources: Seq<SourceV>, source_id: Seq<char>)
    requires
        outcome_matches(sources, Seq::empty(), PipelineOutcome::DuplicateSource { source_id }),
    ensures
        !ids_distinct(sources),
{
    let j = lemma_first_duplicate(sources, source_id);
    let i = choose|i: int| 0 <= i < j && sources.take(j)[i].id == sources[j].id;
    assert(sources[i].id == sources[j].id);
}

/// Extracts the witness behind an unresolved-reference outcome: the index
/// of the first definition with a dangling entry, and of that entry.
proof fn lemma_first_unresolved(
    sources: Seq<SourceV>,
    defs: Seq<CurrencyDefinitionV>,
    currency_id: Seq<char>,
    source_key: Seq<char>,
) -> (r: (int, int))
    requires
        outcome_matches(sources, defs, PipelineOutcome::Unresolved { currency_id, source_key }),
    ensures
        0 <= r.0 < defs.len(),
        currency_id == defs[r.0].id,
        forall|d2: int| 0 <= d2 < r.0 ==> resolved_against(#[trigger] defs[d2], sources),
        0 <= r.1 < defs[r.0].sources.len(),
        source_key == defs[r.0].sources[r.1].source_key,
        !seq_contains_id(sources, defs[r.0].sources[r.1].source_key),
        resolved_against_upto(defs[r.0], sources, r.1),
{
    let d = choose|d: int|
        #![auto]
        0 <= d < defs.len() && currency_id == defs[d].id && (forall|d2: int|
            0 <= d2 < d ==> resolved_against(#[trigger] defs[d2], sources)) && (exists|i: int|
            #![auto]
            0 <= i < defs[d].sources.len() && source_key == defs[d].sources[i].source_key
                && !seq_contains_id(sources, defs[d].sources[i].source_key)
                && resolved_against_upto(defs[d], sources, i));
    let i = choose|i: int|
        #![auto]
        0 <= i < defs[d].sources.len() && source_key == defs[d].sources[i].source_key
            && !seq_contains_id(sources, defs[d].sources[i].source_key) && resolved_against_upto(
            defs[d],
            sources,
            i,
        );
    (d, i)
}

/// Runs the full batch: registers every source (rejecting duplicates),
/// then resolves every definition in order, concatenating the fan-outs.
pub fn run_pipeline(sources: Vec<Source>, definitions: &Vec<CurrencyDefinition>) -> (r: Result<
    Vec<WriteInstruction>,
    PipelineError,
>)
    ensures
        outcome_matches(sources_view(sources@), defs_view(definitions@), result_outcome(r)),
{
    let ghost srcv = sources_view(sources@);
    let ghost dsv = defs_view(definitions@);
    let mut reg = SourceRegistry::new();
    let ns = sources.len();
    let mut i: usize = 0;
    proof {
        assert(reg.sources_seq() =~= srcv.take(0));
    }
    while i < ns
        invariant
            ns == sources.len(),
            i <= ns,
            srcv == sources_view(sources@),
            srcv.len() == ns,
            reg.wf(),
            reg.sources_seq() == srcv.take(i as int),
        decreases ns - i,
    {
        proof {
            assert(srcv[i as int] == sources@[i as int]@);
        }
        let s = sources[i].duplicate();
        let ghost reg0 = reg;
        match reg.add_new(s) {
            Err(e) => {
                proof {
                    lemma_contains_agree(reg0, srcv.take(i as int), srcv[i as int].id);
                    assert(ids_distinct(srcv.take(i as int)));
                }
                return Err(PipelineError::DuplicateSource { source_id: e.source_id });
            },
            Ok(()) => {
                proof {
                    assert(reg.sources_seq() =~= srcv.take(i as int + 1));
                }
            },
        }
        i += 1;
    }
    proof {
        assert(srcv.take(ns as int) =~= srcv);
        assert(ids_distinct(srcv));
    }
    let mut out: Vec<WriteInstruction> = Vec::new();
    let nd = definitions.len();
    let mut d: usize = 0;
    proof {
        assert(instructions_view(out@) =~= all_instructions(dsv.take(0)));
    }
    while d < nd
        invariant
            nd == definitions.len(),
            d <= nd,
            dsv == defs_view(definitions@),
            dsv.len() == nd,
            srcv == sources_view(sources@),
            reg.wf(),
            reg.sources_seq() == srcv,
            ids_distinct(srcv),
            forall|d2: int| 0 <= d2 < d ==> resolved_against(#[trigger] dsv[d2], srcv),
            instructions_view(out@) == all_instructions(dsv.take(d as int)),
        decreases nd - d,
    {
        proof {
            assert(dsv[d as int] == definitions@[d as int]@);
        }
        match resolve_currency(&definitions[d], &reg) {
            Err(e) => {
                proof {
                    let def = dsv[d as int];
                    let i = choose|i: int|
                        #![auto]
                        0 <= i < def.sources.len() && e.source_key@ == def.sources[i].source_key
                            && !reg.contains_id(def.sources[i].source_key) && def_resolved_upto(
                            def,
                            reg,
                            i,
                        );
                    lemma_contains_agree(reg, srcv, def.sources[i].source_key);
                    assert forall|k: int| 0 <= k < i implies seq_contains_id(
                        srcv,
                        #[trigger] def.sources[k].source_key,
                    ) by {
                        lemma_contains_agree(reg, srcv, def.sources[k].source_key);
                    }
                    assert(resolved_against_upto(def, srcv, i));
                    assert(outcome_matches(
                        srcv,
                        dsv,
                        PipelineOutcome::Unresolved {
                            currency_id: e.currency_id@,
                            source_key: e.source_key@,
                        },
                    ));
                }
                return Err(
                    PipelineError::UnresolvedSourceReference {
                        currency_id: e.currency_id,
                        source_key: e.source_key,
                    },
                );
            },
            Ok(mut v) => {
                let ghost out0 = out@;
                let ghost v0 = v@;
                out.append(&mut v);
                proof {
                    let def = dsv[d as int];
                    assert forall|k: int|
                        0 <= k < def.sources.len() implies seq_contains_id(
                        srcv,
                        #[trigger] def.sources[k].source_key,
                    ) by {
                        lemma_contains_agree(reg, srcv, def.sources[k].source_key);
                    }
                    assert(resolved_against(def, srcv));
                    assert(dsv.take(d as int + 1).drop_last() =~= dsv.take(d as int));
                    assert(instructions_view(out@) =~= instructions_view(out0)
                        + instructions_view(v0));
                    assert(instructions_view(out@) == all_instructions(dsv.take(d as int + 1)));
                }
            },
        }
        d += 1;
    }
    proof {
        assert(dsv.take(nd as int) =~= dsv);
    }
    Ok(out)
}

} // verus!
