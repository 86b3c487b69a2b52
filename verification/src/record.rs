//! A model of a ledger record: a sequence of named, typed entries. The
//! pipeline reads exactly one thing from a record — its `microcredits`
//! field, which must be a private `u64` literal.

use vstd::prelude::*;
use crate::errors::TransferError;

verus! {

/// The name of one record entry. Only equality with the `microcredits`
/// name matters to this pipeline, so every other name is collapsed.
#[derive(PartialEq, Eq, Structural, Clone, Copy, Debug)]
pub enum EntryName {
    Microcredits,
    OtherName,
}

/// The visibility of one record entry.
#[derive(PartialEq, Eq, Structural, Clone, Copy, Debug)]
pub enum EntryKind {
    Private,
    Public,
    Constant,
}

/// The literal held by one record entry.
#[derive(PartialEq, Eq, Structural, Clone, Copy, Debug)]
pub enum LiteralValue {
    U64(u64),
    OtherLiteral,
}

/// One named, typed entry of a record.
#[derive(PartialEq, Eq, Structural, Clone, Copy, Debug)]
pub struct RecordEntry {
    pub name: EntryName,
    pub kind: EntryKind,
    pub value: LiteralValue,
}

/// A ledger record: immutable once read, only ever consumed as an input.
#[derive(Clone, Debug)]
pub struct Record {
    pub entries: Vec<RecordEntry>,
}

/// The index of the first entry named `microcredits`, or `None`.
pub open spec fn spec_find_microcredits(s: Seq<RecordEntry>) -> Option<int> {
    if exists|i: int| 0 <= i < s.len() && s[i].name == EntryName::Microcredits {
        Some(choose|i: int|
            0 <= i < s.len() && s[i].name == EntryName::Microcredits
                && forall|j: int|
                    0 <= j < i ==> s[j].name != EntryName::Microcredits)
    } else {
        None
    }
}

impl Record {
    /// The amount of microcredits the record holds, if its first
    /// `microcredits` entry is a private `u64` literal.
    pub open spec fn spec_microcredits(self) -> Option<u64> {
        match spec_find_microcredits(self.entries@) {
            Some(i) => {
                let e = self.entries@[i];
                if e.kind == EntryKind::Private {
                    match e.value {
                        LiteralValue::U64(v) => Some(v),
                        LiteralValue::OtherLiteral => None,
                    }
                } else {
                    None
                }
            },
            None => None,
        }
    }

    /// Reads the `microcredits` field: the first entry so named must exist
    /// and be a private `u64` literal, otherwise the record cannot fund
    /// anything and the call fails.
    pub fn microcredits(&self) -> (r: Result<u64, TransferError>)
        ensures
            match r {
                Ok(v) => self.spec_microcredits() == Some(v),
                Err(e) => self.spec_microcredits() is None && e == TransferError::InvalidInputs,
            },
    {
        let n = self.entries.len();
        let mut i: usize = 0;
        while i < n
            invariant
                n == self.entries.len(),
                0 <= i <= n,
                forall|j: int| 0 <= j < i ==> self.entries@[j].name != EntryName::Microcredits,
            decreases n - i,
        {
            let e = &self.entries[i];
            if e.name == EntryName::Microcredits {
                proof {
                    assert(spec_find_microcredits(self.entries@) == Some(i as int)) by {
                        let w = choose|w: int|
                            0 <= w < self.entries@.len()
                                && self.entries@[w].name == EntryName::Microcredits
                                && forall|j: int|
                                    0 <= j < w ==> self.entries@[j].name != EntryName::Microcredits;
                        assert(0 <= i < self.entries@.len()
                            && self.entries@[i as int].name == EntryName::Microcredits
                            && forall|j: int|
                                0 <= j < i ==> self.entries@[j].name != EntryName::Microcredits);
                        assert(!(w < i) && !(i < w));
                    }
                }
                if e.kind == EntryKind::Private {
                    match e.value {
                        LiteralValue::U64(v) => {
                            return Ok(v);
                        },
                        LiteralValue::OtherLiteral => {
                            return Err(TransferError::InvalidInputs);
                        },
                    }
                } else {
                    return Err(TransferError::InvalidInputs);
                }
            }
            i = i + 1;
        }
        Err(TransferError::InvalidInputs)
    }
}

} // verus!
