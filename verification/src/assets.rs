//! The static-asset table: an immutable, path-keyed store of precompiled
//! resources, built once at startup and then only read. Lookup is exact
//! string match on the full request path — no normalization, no prefix or
//! wildcard matching.

use vstd::prelude::*;

verus! {

/// One precompiled resource: served verbatim with its content type when a
/// request path equals `path` exactly.
pub struct StaticAsset {
    pub path: String,
    pub content_type: String,
    pub content: Vec<u8>,
}

/// The path-keyed table of static assets. Its invariant: no two entries
/// share a path, so exact-match lookup has at most one answer.
pub struct AssetTable {
    assets: Vec<StaticAsset>,
}

impl AssetTable {
    /// The stored assets, in registration order.
    pub closed spec fn entries(&self) -> Seq<StaticAsset> {
        self.assets@
    }

    /// The table's invariant: paths are pairwise distinct.
    pub open spec fn wf(&self) -> bool {
        forall|i: int, j: int|
            0 <= i < j < self.entries().len() ==> self.entries()[i].path@
                != self.entries()[j].path@
    }

    /// Some entry is stored under `p`.
    pub open spec fn has_path(&self, p: Seq<char>) -> bool {
        exists|i: int| 0 <= i < self.entries().len() && self.entries()[i].path@ == p
    }

    /// The entry stored under `p`, if any.
    pub open spec fn lookup(&self, p: Seq<char>) -> Option<StaticAsset> {
        if self.has_path(p) {
            Some(
                self.entries()[choose|i: int|
                    0 <= i < self.entries().len() && self.entries()[i].path@ == p],
            )
        } else {
            None
        }
    }

    /// An empty table.
    pub fn new() -> (r: AssetTable)
        ensures
            r.wf(),
            r.entries() == Seq::<StaticAsset>::empty(),
    {
        AssetTable { assets: Vec::new() }
    }

    /// In a well-formed table, any entry whose path is `p` is the one that
    /// `lookup` answers with.
    pub proof fn lemma_lookup_unique(&self, p: Seq<char>, i: int)
        requires
            self.wf(),
            0 <= i < self.entries().len(),
            self.entries()[i].path@ == p,
        ensures
            self.lookup(p) == Some(self.entries()[i]),
    {
        assert(self.has_path(p));
        let j = choose|j: int|
            0 <= j < self.entries().len() && self.entries()[j].path@ == p;
        if i < j {
            assert(self.entries()[i].path@ != self.entries()[j].path@);
        } else if j < i {
            assert(self.entries()[j].path@ != self.entries()[i].path@);
        }
    }

    /// Whether some asset is registered under the exact path `path`.
    pub fn contains(&self, path: &str) -> (r: bool)
        ensures
            r == self.has_path(path@),
    {
        let key = path.to_owned();
        let mut i: usize = 0;
        while i < self.assets.len()
            invariant
                i <= self.entries().len(),
                key@ == path@,
                forall|k: int| 0 <= k < i ==> self.entries()[k].path@ != path@,
            decreases self.entries().len() - i,
        {
            if self.assets[i].path == key {
                proof {
                    assert(self.entries()[i as int].path@ == path@);
                }
                return true;
            }
            i = i + 1;
        }
        false
    }

    /// Exact-match lookup: a hit returns the stored asset, a miss returns
    /// nothing; precisely the answer of `lookup`.
    pub fn resolve(&self, path: &str) -> (r: Option<&StaticAsset>)
        requires
            self.wf(),
        ensures
            match r {
                Some(a) => a.path@ == path@ && self.lookup(path@) == Some(*a),
                None => !self.has_path(path@),
            },
    {
        let key = path.to_owned();
        let mut i: usize = 0;
        while i < self.assets.len()
            invariant
                self.wf(),
                i <= self.entries().len(),
                key@ == path@,
                forall|k: int| 0 <= k < i ==> self.entries()[k].path@ != path@,
            decreases self.entries().len() - i,
        {
            if self.assets[i].path == key {
                proof {
                    assert(self.entries()[i as int].path@ == path@);
                    self.lemma_lookup_unique(path@, i as int);
                }
                return Some(&self.assets[i]);
            }
            i = i + 1;
        }
        None
    }

    /// Add an asset under a path not yet taken. A duplicate path is refused
    /// and leaves the table unchanged.
    pub fn register(&mut self, asset: StaticAsset) -> (r: bool)
        requires
            old(self).wf(),
        ensures
            final(self).wf(),
            r == !old(self).has_path(asset.path@),
            r ==> final(self).entries() == old(self).entries().push(asset),
            !r ==> final(self).entries() == old(self).entries(),
    {
        if self.contains(asset.path.as_str()) {
            return false;
        }
        let ghost ga = asset;
        let ghost olde = self.entries();
        self.assets.push(asset);
        proof {
            assert(self.entries() =~= olde.push(ga));
            assert forall|i: int, j: int| 0 <= i < j < self.entries().len() implies self.entries()[
                i
            ].path@ != self.entries()[j].path@ by {
                if j == self.entries().len() - 1 {
                    assert(self.entries()[i] == olde[i]);
                    if olde[i].path@ == ga.path@ {
                        assert(old(self).entries()[i].path@ == ga.path@);
                        assert(old(self).has_path(ga.path@));
                    }
                } else {
                    assert(self.entries()[i] == olde[i] && self.entries()[j] == olde[j]);
                    assert(old(self).entries()[i].path@ != old(self).entries()[j].path@);
                }
            }
        }
        true
    }
}

} // verus!
