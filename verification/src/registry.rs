//! The key registry: a mapping from function identifier to proving and
//! verifying key pair, with an atomic install-if-absent discipline. A pair
//! is installed for an identifier iff no pair for that identifier exists;
//! re-installation attempts are silently skipped, never overwritten, and
//! partial installation (only one of the two keys) is rejected.

use vstd::prelude::*;
use crate::errors::TransferError;
use crate::ids::FunctionId;

verus! {

/// A proving key in its stable interchange encoding.
#[derive(Clone, Debug)]
pub struct ProvingKey {
    pub bytes: Vec<u8>,
}

/// A verifying key in its stable interchange encoding.
#[derive(Clone, Debug)]
pub struct VerifyingKey {
    pub bytes: Vec<u8>,
}

/// A key pair bound to one function identifier.
#[derive(Clone, Debug)]
pub struct KeyPair {
    pub proving: ProvingKey,
    pub verifying: VerifyingKey,
}

/// The mathematical content of a key pair.
pub struct KeyPairV {
    pub proving: Seq<u8>,
    pub verifying: Seq<u8>,
}

impl KeyPair {
    /// The mathematical view of the pair.
    pub open spec fn view_v(self) -> KeyPairV {
        KeyPairV { proving: self.proving.bytes@, verifying: self.verifying.bytes@ }
    }
}

/// One installed entry of the registry.
#[derive(Clone, Debug)]
pub struct KeyEntry {
    pub id: FunctionId,
    pub pair: KeyPair,
}

/// The mapping a sequence of entries denotes, later entries winning;
/// well-formedness makes the order irrelevant.
pub open spec fn map_of(s: Seq<KeyEntry>) -> Map<FunctionId, KeyPairV>
    decreases s.len(),
{
    if s.len() == 0 {
        Map::empty()
    } else {
        map_of(s.drop_last()).insert(s.last().id, s.last().pair.view_v())
    }
}

/// Membership in the denoted mapping is membership among the entries.
proof fn lemma_map_of_contains(s: Seq<KeyEntry>, id: FunctionId)
    ensures
        map_of(s).dom().contains(id) <==> exists|i: int| 0 <= i < s.len() && s[i].id == id,
    decreases s.len(),
{
    if s.len() > 0 {
        lemma_map_of_contains(s.drop_last(), id);
        if s.last().id == id {
            assert(s[s.len() - 1].id == id);
        } else if map_of(s).dom().contains(id) {
            let i = choose|i: int| 0 <= i < s.drop_last().len() && s.drop_last()[i].id == id;
            assert(s[i].id == id);
        } else {
            if exists|i: int| 0 <= i < s.len() && s[i].id == id {
                let i = choose|i: int| 0 <= i < s.len() && s[i].id == id;
                assert(i < s.len() - 1);
                assert(s.drop_last()[i].id == id);
            }
        }
    }
}

/// The registry of key pairs, one per function identifier at most.
pub struct KeyRegistry {
    entries: Vec<KeyEntry>,
}

impl KeyRegistry {
    /// No two entries share an identifier.
    pub closed spec fn wf(self) -> bool {
        forall|i: int, j: int|
            0 <= i < j < self.entries@.len() ==> self.entries@[i].id != self.entries@[j].id
    }

    /// The mapping from identifier to installed pair.
    pub closed spec fn key_map(self) -> Map<FunctionId, KeyPairV> {
        map_of(self.entries@)
    }

    /// Creates an empty registry.
    pub fn new() -> (r: KeyRegistry)
        ensures
            r.wf(),
            r.key_map() == Map::<FunctionId, KeyPairV>::empty(),
    {
        KeyRegistry { entries: Vec::new() }
    }

    /// Whether a key pair is installed for the identifier.
    pub fn contains_key_pair(&self, id: FunctionId) -> (r: bool)
        ensures
            r == self.key_map().dom().contains(id),
    {
        let n = self.entries.len();
        let mut i: usize = 0;
        while i < n
            invariant
                n == self.entries@.len(),
                0 <= i <= n,
                forall|j: int| 0 <= j < i ==> self.entries@[j].id != id,
            decreases n - i,
        {
            if self.entries[i].id == id {
                proof {
                    lemma_map_of_contains(self.entries@, id);
                }
                return true;
            }
            i = i + 1;
        }
        proof {
            lemma_map_of_contains(self.entries@, id);
        }
        false
    }

    /// Installs a key pair for the identifier unless one is already
    /// present. Present: a silent no-op. Absent with both keys supplied:
    /// both are installed atomically. Absent with neither key: a no-op —
    /// a later stage that needs the pair fails with `MissingKey`. Absent
    /// with exactly one key: rejected, nothing is installed.
    pub fn ensure_key_pair(
        &mut self,
        id: FunctionId,
        proving: Option<ProvingKey>,
        verifying: Option<VerifyingKey>,
    ) -> (r: Result<(), TransferError>)
        requires
            old(self).wf(),
        ensures
            final(self).wf(),
            final(self).key_map() == spec_ensure(
                old(self).key_map(),
                id,
                spec_pair_of(proving, verifying),
            ),
            r == spec_ensure_result(old(self).key_map(), id, proving is Some, verifying is Some),
    {
        if self.contains_key_pair(id) {
            return Ok(());
        }
        match (proving, verifying) {
            (Some(p), Some(v)) => {
                let ghost pre = self.entries@;
                let entry = KeyEntry { id, pair: KeyPair { proving: p, verifying: v } };
                proof {
                    lemma_map_of_contains(pre, id);
                }
                self.entries.push(entry);
                proof {
                    assert(self.entries@.drop_last() =~= pre);
                    assert(self.entries@.last() == entry);
                    assert forall|i: int, j: int|
                        0 <= i < j < self.entries@.len() implies self.entries@[i].id
                        != self.entries@[j].id by {
                        if j == self.entries@.len() - 1 {
                            assert(self.entries@[i] == pre[i]);
                        }
                    }
                }
                Ok(())
            },
            (None, None) => Ok(()),
            _ => Err(TransferError::InvalidInputs),
        }
    }
}

/// The pair a caller supplied, when it supplied both halves.
pub open spec fn spec_pair_of(proving: Option<ProvingKey>, verifying: Option<VerifyingKey>) -> Option<
    KeyPairV,
> {
    match (proving, verifying) {
        (Some(p), Some(v)) => Some(KeyPairV { proving: p.bytes@, verifying: v.bytes@ }),
        _ => None,
    }
}

/// The install-if-absent transition on the registry's mapping.
pub open spec fn spec_ensure(
    m: Map<FunctionId, KeyPairV>,
    id: FunctionId,
    pair: Option<KeyPairV>,
) -> Map<FunctionId, KeyPairV> {
    if m.dom().contains(id) {
        m
    } else {
        match pair {
            Some(p) => m.insert(id, p),
            None => m,
        }
    }
}

/// The result of one install-if-absent step: rejected only when the
/// identifier is absent and exactly one of the two keys was supplied.
pub open spec fn spec_ensure_result(
    m: Map<FunctionId, KeyPairV>,
    id: FunctionId,
    has_proving: bool,
    has_verifying: bool,
) -> Result<(), TransferError> {
    if m.dom().contains(id) || has_proving == has_verifying {
        Ok(())
    } else {
        Err(TransferError::InvalidInputs)
    }
}

/// Installing a key pair is idempotent: ensuring the same identifier and
/// pair twice leaves the registry's mapping exactly as ensuring it once.
pub proof fn lemma_ensure_key_pair_idempotent(
    m: Map<FunctionId, KeyPairV>,
    id: FunctionId,
    pair: Option<KeyPairV>,
)
    ensures
        spec_ensure(spec_ensure(m, id, pair), id, pair) == spec_ensure(m, id, pair),
{
    let once = spec_ensure(m, id, pair);
    if !m.dom().contains(id) {
        match pair {
            Some(p) => {
                assert(once.dom().contains(id));
            },
            None => {},
        }
    }
}

} // verus!
