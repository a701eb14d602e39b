//! The static IP-to-geo lookup table.
//!
//! The table is loaded once at process start from entries decoded out of the
//! build-time data blob, validated here, and never mutated afterwards. Every
//! value of `GeoTable` satisfies the table invariant: it is non-empty, every
//! IP key and every geo label is non-empty, and the IP keys are unique.

use vstd::prelude::*;

use crate::region::Region;

verus! {

/// One row of the geo lookup table: an IP-address string mapped to a
/// geographic label and the region closest to it.
#[derive(Debug)]
pub struct GeoEntry {
    pub ip: String,
    pub geo: String,
    pub closest_region: Region,
}

/// Why a set of entries was rejected as a geo table. Each variant names the
/// first offending entry in the order given.
#[derive(Clone, Copy, Debug, PartialEq, Eq, Structural)]
pub enum GeoTableError {
    /// No entries at all: a loaded table must know at least one IP.
    Empty,
    /// The entry at `index` has an empty IP key.
    EmptyIp { index: usize },
    /// The entry at `index` has an empty geo label.
    EmptyGeo { index: usize },
    /// The entry at `index` repeats the IP key of an earlier entry.
    DuplicateIp { index: usize },
}

/// The flaw of the entry at position `i`, if any: an empty IP key, then an
/// empty geo label, then a duplicate of an earlier IP key, in that order of
/// precedence.
pub open spec fn entry_flaw(entries: Seq<GeoEntry>, i: int) -> Option<GeoTableError> {
    if entries[i].ip@.len() == 0 {
        Some(GeoTableError::EmptyIp { index: i as usize })
    } else if entries[i].geo@.len() == 0 {
        Some(GeoTableError::EmptyGeo { index: i as usize })
    } else if exists|j: int| 0 <= j < i && entries[j].ip@ == entries[i].ip@ {
        Some(GeoTableError::DuplicateIp { index: i as usize })
    } else {
        None
    }
}

/// The first flaw at position `i` or later, if any.
pub open spec fn first_flaw_from(entries: Seq<GeoEntry>, i: int) -> Option<GeoTableError>
    decreases entries.len() - i,
{
    if i < 0 || i >= entries.len() {
        None
    } else if entry_flaw(entries, i) is Some {
        entry_flaw(entries, i)
    } else {
        first_flaw_from(entries, i + 1)
    }
}

/// The verdict on a whole sequence of entries: `Empty` for no entries at all,
/// otherwise the first flaw of any entry, otherwise nothing.
pub open spec fn table_flaw(entries: Seq<GeoEntry>) -> Option<GeoTableError> {
    if entries.len() == 0 {
        Some(GeoTableError::Empty)
    } else {
        first_flaw_from(entries, 0)
    }
}

/// First-match lookup of an IP key among table entries. With unique keys the
/// first match is the only match.
pub open spec fn spec_lookup(entries: Seq<GeoEntry>, ip: Seq<char>) -> Option<GeoEntry>
    decreases entries.len(),
{
    if entries.len() == 0 {
        None
    } else if entries[0].ip@ == ip {
        Some(entries[0])
    } else {
        spec_lookup(entries.drop_first(), ip)
    }
}

proof fn lemma_flaw_skip(entries: Seq<GeoEntry>, i: int)
    requires
        0 <= i <= entries.len(),
        forall|k: int| 0 <= k < i ==> entry_flaw(entries, k) is None,
    ensures
        first_flaw_from(entries, 0) == first_flaw_from(entries, i),
    decreases i,
{
    if i > 0 {
        lemma_flaw_skip(entries, i - 1);
    }
}

proof fn lemma_no_flaw_at(entries: Seq<GeoEntry>, i: int, k: int)
    requires
        0 <= i <= k < entries.len(),
        first_flaw_from(entries, i) is None,
    ensures
        entry_flaw(entries, k) is None,
    decreases k - i,
{
    if i < k {
        lemma_no_flaw_at(entries, i + 1, k);
    }
}

/// The process-wide, immutable mapping from IP-address string to geo entry.
///
/// Its view is the validated sequence of rows; `spec_lookup` over that view
/// is the mapping the rows stand for.
#[derive(Debug)]
pub struct GeoTable {
    entries: Vec<GeoEntry>,
}

impl View for GeoTable {
    type V = Seq<GeoEntry>;

    closed spec fn view(&self) -> Seq<GeoEntry> {
        self.entries@
    }
}

impl GeoTable {
    #[verifier::type_invariant]
    spec fn wf(self) -> bool {
        table_flaw(self.entries@) is None
    }

    /// Validates decoded entries and seals them as the lookup table.
    ///
    /// Succeeds exactly when the entries are non-empty, every IP key and geo
    /// label is non-empty, and no IP key repeats; otherwise reports the first
    /// flaw in entry order. Unparseable or invalid embedded data is a
    /// build-time defect, so the caller at process start treats the error as
    /// fatal.
    pub fn from_entries(entries: Vec<GeoEntry>) -> (result: Result<GeoTable, GeoTableError>)
        ensures
            match result {
                Ok(table) => table_flaw(entries@) is None && table@ == entries@,
                Err(e) => table_flaw(entries@) == Some(e),
            },
    {
        let n = entries.len();
        if n == 0 {
            return Err(GeoTableError::Empty);
        }
        let mut i: usize = 0;
        while i < n
            invariant
                n == entries@.len(),
                i <= n,
                forall|k: int| 0 <= k < i ==> entry_flaw(entries@, k) is None,
            decreases n - i,
        {
            if entries[i].ip.as_str().is_empty() {
                proof {
                    lemma_flaw_skip(entries@, i as int);
                }
                return Err(GeoTableError::EmptyIp { index: i });
            }
            if entries[i].geo.as_str().is_empty() {
                proof {
                    lemma_flaw_skip(entries@, i as int);
                }
                return Err(GeoTableError::EmptyGeo { index: i });
            }
            let mut j: usize = 0;
            while j < i
                invariant
                    j <= i,
                    i < n,
                    n == entries@.len(),
                    entries@[i as int].ip@.len() > 0,
                    entries@[i as int].geo@.len() > 0,
                    forall|k: int| 0 <= k < i ==> entry_flaw(entries@, k) is None,
                    forall|k: int| 0 <= k < j ==> entries@[k].ip@ != entries@[i as int].ip@,
                decreases i - j,
            {
                if entries[j].ip == entries[i].ip {
                    proof {
                        lemma_flaw_skip(entries@, i as int);
                        assert(0 <= j < i && entries@[j as int].ip@ == entries@[i as int].ip@);
                        assert(entry_flaw(entries@, i as int) == Some(
                            GeoTableError::DuplicateIp { index: i },
                        ));
                    }
                    return Err(GeoTableError::DuplicateIp { index: i });
                }
                j = j + 1;
            }
            i = i + 1;
        }
        proof {
            lemma_flaw_skip(entries@, n as int);
        }
        Ok(GeoTable { entries })
    }

    /// Looks an IP string up in the table. Absence is not an error: a missing
    /// IP means "not found" and the caller falls back to the deterministic
    /// region choice.
    pub fn lookup(&self, ip: &String) -> (found: Option<&GeoEntry>)
        ensures
            match found {
                Some(entry) => spec_lookup(self@, ip@) == Some(*entry),
                None => spec_lookup(self@, ip@) is None,
            },
    {
        let n = self.entries.len();
        proof {
            assert(self@.skip(0) =~= self@);
        }
        let mut i: usize = 0;
        while i < n
            invariant
                n == self.entries@.len(),
                i <= n,
                self@ == self.entries@,
                spec_lookup(self@, ip@) == spec_lookup(self@.skip(i as int), ip@),
            decreases n - i,
        {
            proof {
                assert(self@.skip(i as int)[0] == self@[i as int]);
                assert(self@.skip(i as int).drop_first() =~= self@.skip(i + 1));
            }
            if self.entries[i].ip == *ip {
                return Some(&self.entries[i]);
            }
            i = i + 1;
        }
        proof {
            assert(self@.skip(n as int) =~= Seq::<GeoEntry>::empty());
        }
        None
    }

    /// Read-only access to the validated rows, in table order.
    pub fn rows(&self) -> (rows: &Vec<GeoEntry>)
        ensures
            rows@ == self@,
    {
        &self.entries
    }
}

/// With unique IP keys — which every loaded table has — first-match lookup
/// finds exactly the entry carrying the looked-up key, wherever it stands:
/// the table behaves as a mapping from IP string to entry.
pub proof fn lemma_lookup_unique(entries: Seq<GeoEntry>, ip: Seq<char>, i: int)
    requires
        forall|a: int, b: int| 0 <= a < b < entries.len() ==> entries[a].ip@ != entries[b].ip@,
        0 <= i < entries.len(),
        entries[i].ip@ == ip,
    ensures
        spec_lookup(entries, ip) == Some(entries[i]),
    decreases i,
{
    if i > 0 {
        let tail = entries.drop_first();
        assert(tail[i - 1] == entries[i]);
        assert forall|a: int, b: int| 0 <= a < b < tail.len() implies tail[a].ip@ != tail[b].ip@ by {
            assert(tail[a] == entries[a + 1]);
            assert(tail[b] == entries[b + 1]);
        }
        lemma_lookup_unique(tail, ip, i - 1);
    }
}

/// Once loaded, the geo lookup table is non-empty, every IP key is non-empty,
/// every geo label is non-empty, and no IP key repeats. The premise holds of
/// the view of every `GeoTable`, since `from_entries` accepts exactly the
/// entry sequences without a flaw and is the only way to construct one.
pub proof fn lemma_geo_table_loaded(entries: Seq<GeoEntry>)
    requires
        table_flaw(entries) is None,
    ensures
        entries.len() > 0,
        forall|i: int|
            0 <= i < entries.len() ==> entries[i].ip@.len() > 0 && entries[i].geo@.len() > 0,
        forall|i: int, j: int|
            0 <= i < j < entries.len() ==> entries[i].ip@ != entries[j].ip@,
{
    assert forall|i: int|
        0 <= i < entries.len() implies entries[i].ip@.len() > 0 && entries[i].geo@.len() > 0 by {
        lemma_no_flaw_at(entries, 0, i);
    }
    assert forall|i: int, j: int|
        0 <= i < j < entries.len() implies entries[i].ip@ != entries[j].ip@ by {
        lemma_no_flaw_at(entries, 0, j);
    }
}

} // verus!
