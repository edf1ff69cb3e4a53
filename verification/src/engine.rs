//! The resolution and fan-out engine: for each currency definition, checks
//! every referenced source against the registry and emits the ordered list
//! of write instructions — one canonical instruction, plus one source-scoped
//! instruction per entry of the definition's source mapping. The engine
//! performs no I/O.

use vstd::prelude::*;

use crate::model::{CurrencyDefinition, CurrencyDefinitionV, Currency, CurrencyV, SourceEntryV,
    project_spec};
use crate::registry::SourceRegistry;

verus! {

/// Mathematical view of a [`DestKey`].
pub ghost enum DestKeyV {
    Canonical { currency_id: Seq<char> },
    SourceScoped { source_id: Seq<char>, local_id: Seq<char> },
}

/// Where one artifact is to be persisted: either the canonical artifact of
/// a currency, or the copy scoped under one of the sources that track it.
pub enum DestKey {
    Canonical { currency_id: String },
    SourceScoped { source_id: String, local_id: String },
}

impl View for DestKey {
    type V = DestKeyV;

    open spec fn view(&self) -> DestKeyV {
        match self {
            DestKey::Canonical { currency_id } => (DestKeyV::Canonical {
                currency_id: currency_id@,
            }),
            DestKey::SourceScoped { source_id, local_id } => (DestKeyV::SourceScoped {
                source_id: source_id@,
                local_id: local_id@,
            }),
        }
    }
}

/// Mathematical view of a [`WriteInstruction`].
pub ghost struct WriteInstructionV {
    pub key: DestKeyV,
    pub value: CurrencyV,
}

/// One pending write: the destination and the projected currency to be
/// serialized there.
pub struct WriteInstruction {
    pub key: DestKey,
    pub value: Currency,
}

impl View for WriteInstruction {
    type V = WriteInstructionV;

    open spec fn view(&self) -> WriteInstructionV {
        WriteInstructionV { key: self.key@, value: self.value@ }
    }
}

/// A currency definition referenced a source identifier that is absent from
/// the registry: a fatal integrity error naming the currency and the
/// missing key.
#[derive(Debug)]
pub struct UnresolvedSourceReference {
    pub currency_id: String,
    pub source_key: String,
}

/// The canonical write instruction of a definition: its projection, keyed
/// by the currency's identifier.
pub open spec fn canonical_instruction(def: CurrencyDefinitionV) -> WriteInstructionV {
    WriteInstructionV {
        key: DestKeyV::Canonical { currency_id: def.id },
        value: project_spec(def),
    }
}

/// The source-scoped write instruction for one entry of a definition's
/// source mapping: the same projection, keyed by the source identifier and
/// the source-local identifier of the currency.
pub open spec fn source_instruction(def: CurrencyDefinitionV, entry: SourceEntryV)
    -> WriteInstructionV {
    WriteInstructionV {
        key: DestKeyV::SourceScoped { source_id: entry.source_key, local_id: entry.info.id },
        value: project_spec(def),
    }
}

/// The source-scoped instructions of a definition, in entry order.
pub open spec fn source_instructions(def: CurrencyDefinitionV) -> Seq<WriteInstructionV> {
    Seq::new(def.sources.len(), |i: int| source_instruction(def, def.sources[i]))
}

/// The full fan-out of one definition: the canonical instruction followed
/// by one source-scoped instruction per entry, in entry order.
pub open spec fn fanout_spec(def: CurrencyDefinitionV) -> Seq<WriteInstructionV> {
    seq![canonical_instruction(def)] + source_instructions(def)
}

/// The views of a sequence of write instructions.
pub open spec fn instructions_view(v: Seq<WriteInstruction>) -> Seq<WriteInstructionV> {
    v.map_values(|w: WriteInstruction| w@)
}

/// The first `k` entries of the definition's source mapping all resolve
/// against the registry.
pub open spec fn def_resolved_upto(def: CurrencyDefinitionV, reg: SourceRegistry, k: int) -> bool {
    forall|i: int| 0 <= i < k ==> reg.contains_id(#[trigger] def.sources[i].source_key)
}

/// Every entry of the definition's source mapping resolves against the
/// registry.
pub open spec fn def_resolved(def: CurrencyDefinitionV, reg: SourceRegistry) -> bool {
    def_resolved_upto(def, reg, def.sources.len() as int)
}

/// Resolves one currency definition against the registry and produces its
/// write instructions: succeeds with the full fan-out exactly when every
/// referenced source key is registered; otherwise fails, producing no
/// instructions, on the first entry (in order) whose key is unregistered,
/// naming the currency and that key.
pub fn resolve_currency(def: &CurrencyDefinition, reg: &SourceRegistry) -> (r: Result<
    Vec<WriteInstruction>,
    UnresolvedSourceReference,
>)
    requires
        reg.wf(),
    ensures
        r is Ok <==> def_resolved(def@, *reg),
        (r matches Ok(out) ==> instructions_view(out@) == fanout_spec(def@)),
        (r matches Ok(out) ==> out@.len() == def@.sources.len() + 1),
        (r matches Err(e) ==> e.currency_id@ == def@.id && exists|i: int|
            #![auto]
            0 <= i < def@.sources.len() && e.source_key@ == def@.sources[i].source_key
                && !reg.contains_id(def@.sources[i].source_key) && def_resolved_upto(
                def@,
                *reg,
                i,
            )),
{
    let mut out: Vec<WriteInstruction> = Vec::new();
    out.push(
        WriteInstruction {
            key: DestKey::Canonical { currency_id: def.id.clone() },
            value: def.to_currency(),
        },
    );
    let n = def.sources.len();
    let mut k: usize = 0;
    while k < n
        invariant
            reg.wf(),
            n == def.sources.len(),
            k <= n,
            def@.sources.len() == n,
            def_resolved_upto(def@, *reg, k as int),
            out@.len() == k + 1,
            out@[0]@ == canonical_instruction(def@),
            forall|j: int| 0 <= j < k ==> out@[j + 1]@ == source_instruction(
                def@,
                #[trigger] def@.sources[j],
            ),
        decreases n - k,
    {
        let entry = &def.sources[k];
        proof {
            assert(def@.sources[k as int] == def.sources@[k as int]@);
        }
        match reg.get_by_source_id(&entry.source_key) {
            None => {
                proof {
                    assert(!reg.contains_id(def@.sources[k as int].source_key));
                    assert(!def_resolved(def@, *reg));
                }
                return Err(
                    UnresolvedSourceReference {
                        currency_id: def.id.clone(),
                        source_key: entry.source_key.clone(),
                    },
                );
            },
            Some(src) => {
                out.push(
                    WriteInstruction {
                        key: DestKey::SourceScoped {
                            source_id: src.id.clone(),
                            local_id: entry.info.id.clone(),
                        },
                        value: def.to_currency(),
                    },
                );
            },
        }
        k += 1;
    }
    proof {
        assert(instructions_view(out@) =~= fanout_spec(def@));
    }
    Ok(out)
}

} // verus!
