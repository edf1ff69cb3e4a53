//! The source registry: an in-memory, append-only mapping from source
//! identifier to source record, enforcing uniqueness of identifiers.

use vstd::prelude::*;

use crate::model::{Source, SourceV};

verus! {

/// A second source arrived under an identifier that is already registered:
/// a fatal configuration error (ambiguous provenance).
#[derive(Debug)]
pub struct DuplicateSourceError {
    pub source_id: String,
}

/// Owns every source for the run's lifetime. Built once (insert-only,
/// duplicates rejected), queried read-only thereafter.
pub struct SourceRegistry {
    data: Vec<Source>,
}

impl SourceRegistry {
    /// The registered sources, in insertion order.
    pub closed spec fn sources_seq(self) -> Seq<SourceV> {
        self.data@.map_values(|s: Source| s@)
    }

    /// No two registered sources share an identifier.
    pub open spec fn wf(self) -> bool {
        forall|i: int, j: int|
            0 <= i < j < self.sources_seq().len() ==> self.sources_seq()[i].id
                != self.sources_seq()[j].id
    }

    /// Whether some registered source has the given identifier.
    pub open spec fn contains_id(self, id: Seq<char>) -> bool {
        exists|i: int| 0 <= i < self.sources_seq().len() && self.sources_seq()[i].id == id
    }

    /// The registered source with the given identifier; meaningful only
    /// when `contains_id(id)` holds (and then, under `wf`, unique).
    pub open spec fn spec_lookup(self, id: Seq<char>) -> SourceV {
        self.sources_seq()[choose|i: int|
            0 <= i < self.sources_seq().len() && self.sources_seq()[i].id == id]
    }

    /// An empty registry.
    pub fn new() -> (r: SourceRegistry)
        ensures
            r.sources_seq() == Seq::<SourceV>::empty(),
            r.wf(),
    {
        let r = SourceRegistry { data: Vec::new() };
        proof {
            assert(r.sources_seq() =~= Seq::<SourceV>::empty());
        }
        r
    }

    /// Registers a source under its identifier. Fails, changing nothing,
    /// if that identifier is already present; otherwise appends it.
    pub fn add_new(&mut self, s: Source) -> (r: Result<(), DuplicateSourceError>)
        requires
            old(self).wf(),
        ensures
            final(self).wf(),
            old(self).contains_id(s@.id) ==> (r matches Err(e) && e.source_id@ == s@.id
                && *final(self) == *old(self)),
            !old(self).contains_id(s@.id) ==> (r is Ok && final(self).sources_seq() == old(
                self,
            ).sources_seq().push(s@)),
    {
        let n = self.data.len();
        let mut i: usize = 0;
        while i < n
            invariant
                n == self.data.len(),
                i <= n,
                *self == *old(self),
                old(self).wf(),
                forall|j: int| 0 <= j < i ==> self.sources_seq()[j].id != s@.id,
            decreases n - i,
        {
            assert(self.sources_seq()[i as int] == self.data@[i as int]@);
            if self.data[i].id == s.id {
                assert(self.contains_id(s@.id));
                return Err(DuplicateSourceError { source_id: s.id });
            }
            i += 1;
        }
        self.data.push(s);
        proof {
            assert(self.sources_seq() =~= old(self).sources_seq().push(s@));
        }
        Ok(())
    }

    /// Looks up a source by identifier; never mutates state. Returns the
    /// registered source, or `None` when the identifier is unknown.
    pub fn get_by_source_id(&self, sid: &String) -> (r: Option<&Source>)
        requires
            self.wf(),
        ensures
            r matches Some(src) ==> self.contains_id(sid@) && src@ == self.spec_lookup(sid@)
                && src@.id == sid@,
            r is None ==> !self.contains_id(sid@),
    {
        let n = self.data.len();
        let mut i: usize = 0;
        while i < n
            invariant
                n == self.data.len(),
                i <= n,
                self.wf(),
                forall|j: int| 0 <= j < i ==> self.sources_seq()[j].id != sid@,
            decreases n - i,
        {
            assert(self.sources_seq()[i as int] == self.data@[i as int]@);
            if self.data[i].id == *sid {
                let src = &self.data[i];
                proof {
                    assert(self.sources_seq()[i as int].id == sid@);
                    assert(self.contains_id(sid@));
                    let w = choose|k: int|
                        0 <= k < self.sources_seq().len() && self.sources_seq()[k].id == sid@;
                    assert(self.sources_seq()[w].id == sid@);
                    assert(w == i as int);
                }
                return Some(src);
            }
            i += 1;
        }
        None
    }
}

} // verus!
