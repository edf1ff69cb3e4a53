//! The data model: sources, currency definitions, and the canonical
//! currency projection, together with their mathematical views.

use vstd::prelude::*;

verus! {

/// Mathematical view of a [`Source`].
pub ghost struct SourceV {
    pub id: Seq<char>,
    pub name: Seq<char>,
    pub homepage: Seq<char>,
}

/// An external data provider: a stable string identifier, a display name,
/// and a homepage reference. Immutable once loaded.
pub struct Source {
    pub id: String,
    pub name: String,
    pub homepage: String,
}

impl View for Source {
    type V = SourceV;

    open spec fn view(&self) -> SourceV {
        SourceV { id: self.id@, name: self.name@, homepage: self.homepage@ }
    }
}

impl Source {
    /// A field-for-field copy with the same view.
    pub fn duplicate(&self) -> (s: Source)
        ensures
            s@ == self@,
    {
        Source { id: self.id.clone(), name: self.name.clone(), homepage: self.homepage.clone() }
    }
}

/// Mathematical view of a [`CurrencySourceInfo`].
pub ghost struct CurrencySourceInfoV {
    pub id: Seq<char>,
}

/// What one source knows a currency as: the identifier (ticker, code)
/// that source uses for it.
pub struct CurrencySourceInfo {
    pub id: String,
}

impl View for CurrencySourceInfo {
    type V = CurrencySourceInfoV;

    open spec fn view(&self) -> CurrencySourceInfoV {
        CurrencySourceInfoV { id: self.id@ }
    }
}

/// Mathematical view of a [`SourceEntry`].
pub ghost struct SourceEntryV {
    pub source_key: Seq<char>,
    pub info: CurrencySourceInfoV,
}

/// One entry of a currency definition's source mapping: the key of the
/// referenced source, and the source-local identifier of the currency.
pub struct SourceEntry {
    pub source_key: String,
    pub info: CurrencySourceInfo,
}

impl View for SourceEntry {
    type V = SourceEntryV;

    open spec fn view(&self) -> SourceEntryV {
        SourceEntryV { source_key: self.source_key@, info: self.info@ }
    }
}

/// Mathematical view of a [`CurrencyDefinition`].
pub ghost struct CurrencyDefinitionV {
    pub id: Seq<char>,
    pub name: Seq<char>,
    pub sources: Seq<SourceEntryV>,
}

/// The raw, internally rich record describing a currency: its identifier
/// (the canonical text form of its UUID), its display name, and which
/// sources track it, under what source-local identifier. The entries are
/// kept in the order they were encountered; no ordering guarantee is
/// promised to consumers.
pub struct CurrencyDefinition {
    pub id: String,
    pub name: String,
    pub sources: Vec<SourceEntry>,
}

impl View for CurrencyDefinition {
    type V = CurrencyDefinitionV;

    open spec fn view(&self) -> CurrencyDefinitionV {
        CurrencyDefinitionV {
            id: self.id@,
            name: self.name@,
            sources: self.sources@.map_values(|e: SourceEntry| e@),
        }
    }
}

/// Mathematical view of a [`Currency`].
pub ghost struct CurrencyV {
    pub id: Seq<char>,
    pub name: Seq<char>,
}

/// The canonical public projection of a currency: identifier and display
/// name only. The source mapping of the definition is deliberately absent
/// from this shape.
pub struct Currency {
    pub id: String,
    pub name: String,
}

impl View for Currency {
    type V = CurrencyV;

    open spec fn view(&self) -> CurrencyV {
        CurrencyV { id: self.id@, name: self.name@ }
    }
}

/// What projecting a definition yields: its identifier and name, and
/// nothing else. The `sources` mapping of the definition does not occur
/// in the result, whatever it holds.
pub open spec fn project_spec(def: CurrencyDefinitionV) -> CurrencyV {
    CurrencyV { id: def.id, name: def.name }
}

impl CurrencyDefinition {
    /// The canonical projection: copies identifier and name, discarding
    /// the source mapping. Pure and total.
    pub fn to_currency(&self) -> (c: Currency)
        ensures
            c@ == project_spec(self@),
    {
        Currency { id: self.id.clone(), name: self.name.clone() }
    }
}

} // verus!
