//! The manifest: the authoritative record of what each local asset was
//! last uploaded as.
//!
//! A manifest maps asset names to their last-known uploaded identity and
//! content fingerprint. Keys are unique; an entry without an id has never
//! been uploaded successfully. The only mutation path for identities is
//! recording a successful upload.

use vstd::prelude::*;

use crate::text::str_eq;

verus! {

/// What is known about one asset: its last uploaded id, and the content
/// hash it had when that id was assigned. `None` for `id` means the asset
/// was never successfully uploaded.
#[derive(Clone, Debug)]
pub struct InputManifest {
    pub id: Option<u64>,
    pub hash: Option<String>,
}

/// A mapping from asset name to manifest entry, with unique keys.
#[derive(Clone, Debug)]
pub struct Manifest {
    pub inputs: Vec<(String, InputManifest)>,
}

impl Manifest {
    /// Keys are unique.
    pub open spec fn wf(&self) -> bool {
        forall|i: int, j: int|
            0 <= i < self.inputs@.len() && 0 <= j < self.inputs@.len() && i != j ==> (
            #[trigger] self.inputs@[i]).0@ != (#[trigger] self.inputs@[j]).0@
    }

    /// The index of the entry for `name`, if one exists.
    pub open spec fn spec_index_of(&self, name: Seq<char>) -> Option<int> {
        if exists|i: int| 0 <= i < self.inputs@.len() && (#[trigger] self.inputs@[i]).0@ == name {
            Some(choose|i: int| 0 <= i < self.inputs@.len() && (#[trigger] self.inputs@[i]).0@
                == name)
        } else {
            None
        }
    }

    /// Whether the manifest has an entry for `name`.
    pub open spec fn spec_has(&self, name: Seq<char>) -> bool {
        exists|i: int| 0 <= i < self.inputs@.len() && (#[trigger] self.inputs@[i]).0@ == name
    }

    /// An empty manifest.
    pub fn new() -> (m: Manifest)
        ensures
            m.wf(),
            m.inputs@.len() == 0,
    {
        Manifest { inputs: Vec::new() }
    }

    /// Looks up the entry for `name`.
    pub fn get(&self, name: &str) -> (r: Option<&InputManifest>)
        requires
            self.wf(),
        ensures
            r is Some <==> self.spec_has(name@),
            r matches Some(e) ==> exists|i: int|
                0 <= i < self.inputs@.len() && (#[trigger] self.inputs@[i]).0@ == name@
                    && self.inputs@[i].1 == *e,
    {
        let n = self.inputs.len();
        let mut i: usize = 0;
        while i < n
            invariant
                n == self.inputs@.len(),
                0 <= i <= n,
                forall|k: int| 0 <= k < i ==> (#[trigger] self.inputs@[k]).0@ != name@,
            decreases n - i,
        {
            if str_eq(self.inputs[i].0.as_str(), name) {
                return Some(&self.inputs[i].1);
            }
            i = i + 1;
        }
        None
    }

    /// Records the outcome of a successful upload: the entry for `name`
    /// takes the new id and hash; a missing entry is created. No other
    /// entry changes. This is the only mutation path for identities.
    pub fn record_upload(&mut self, name: &str, id: u64, hash: String)
        requires
            old(self).wf(),
        ensures
            final (self).wf(),
            final (self).spec_has(name@),
            // the entry for `name` now carries the new identity
            forall|i: int|
                0 <= i < final (self).inputs@.len() && (#[trigger] final (self).inputs@[i]).0@
                    == name@ ==> final (self).inputs@[i].1.id == Some(id) && (final (
                self).inputs@[i].1.hash matches Some(h) && h@ == hash@),
            // every other entry is exactly as it was
            forall|i: int|
                0 <= i < old(self).inputs@.len() && (#[trigger] old(self).inputs@[i]).0@ != name@
                    ==> final (self).inputs@[i] == old(self).inputs@[i],
            // names are preserved, with `name` appended if it was missing
            old(self).spec_has(name@) ==> final (self).inputs@.len() == old(self).inputs@.len(),
            !old(self).spec_has(name@) ==> final (self).inputs@.len() == old(self).inputs@.len()
                + 1 && final (self).inputs@.last().0@ == name@,
            forall|i: int|
                0 <= i < old(self).inputs@.len() ==> (#[trigger] final (self).inputs@[i]).0@ == old(
                    self,
                ).inputs@[i].0@,
    {
        let n = self.inputs.len();
        let mut i: usize = 0;
        while i < n
            invariant
                n == self.inputs@.len(),
                0 <= i <= n,
                *self == *old(self),
                old(self).wf(),
                forall|k: int| 0 <= k < i ==> (#[trigger] self.inputs@[k]).0@ != name@,
            decreases n - i,
        {
            if str_eq(self.inputs[i].0.as_str(), name) {
                let nm = self.inputs[i].0.clone();
                self.inputs.set(i, (nm, InputManifest { id: Some(id), hash: Some(hash) }));
                proof {
                    assert forall|k: int|
                        0 <= k < self.inputs@.len() implies (#[trigger] self.inputs@[k]).0@ == old(
                        self,
                    ).inputs@[k].0@ by {
                        assert(self.inputs@ == old(self).inputs@.update(
                            i as int,
                            self.inputs@[i as int],
                        ));
                    }
                    assert(self.inputs@[i as int].0@ == name@);
                    assert forall|k: int|
                        0 <= k < self.inputs@.len() && (#[trigger] self.inputs@[k]).0@ == name@
                        implies k == i as int by {
                        if k != i as int {
                            assert(old(self).inputs@[k].0@ == name@);
                            assert(old(self).inputs@[i as int].0@ == name@);
                            assert(old(self).inputs@[k].0@ != old(self).inputs@[i as int].0@);
                        }
                    }
                }
                return ;
            }
            i = i + 1;
        }
        let owned = copy_str(name);
        self.inputs.push((owned, InputManifest { id: Some(id), hash: Some(hash) }));
        proof {
            assert(self.inputs@[self.inputs@.len() - 1].0@ == name@);
        }
    }
}

/// A fresh owned copy of a string slice.
fn copy_str(s: &str) -> (r: String)
    ensures
        r@ == s@,
{
    let mut out = String::new();
    out.append(s);
    proof {
        assert(Seq::<char>::empty() + s@ =~= s@);
    }
    out
}

/// Whether an asset needs a fresh upload: it has never been uploaded, or
/// its content hash no longer matches the recorded one.
pub fn needs_upload(entry: &InputManifest, current_hash: &str) -> (r: bool)
    ensures
        r <==> (entry.id is None || match entry.hash {
            None => true,
            Some(h) => h@ != current_hash@,
        }),
{
    if entry.id.is_none() {
        return true;
    }
    match &entry.hash {
        None => true,
        Some(h) => !str_eq(h.as_str(), current_hash),
    }
}

} // verus!
