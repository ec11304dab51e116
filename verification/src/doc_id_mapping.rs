//! The document id mapping applied at serialization time: a table from new
//! document position to old document position, used to permute buffered
//! values without rewriting them.

use vstd::prelude::*;

verus! {

/// A mapping from new document ids to old document ids over `[0, N)`.
#[derive(Clone, Debug)]
pub struct DocIdMapping {
    pub new_doc_id_to_old: Vec<u32>,
}

impl DocIdMapping {
    /// Every stored old id points into a buffer of `n` documents.
    pub open spec fn points_into(self, n: int) -> bool {
        forall|i: int|
            0 <= i < self.new_doc_id_to_old@.len() ==> self.new_doc_id_to_old@[i] < n
    }

    /// A valid mapping over `[0, n)`: a table of length `n` whose entries
    /// point into `[0, n)` and repeat no old id, hence a bijection.
    pub open spec fn is_valid(self, n: int) -> bool {
        &&& self.new_doc_id_to_old@.len() == n
        &&& self.points_into(n)
        &&& (forall|i: int, j: int|
            0 <= i < n && 0 <= j < n && i != j ==> self.new_doc_id_to_old@[i]
                != self.new_doc_id_to_old@[j])
    }

    /// Wraps a new-to-old table.
    pub fn from_new_id_to_old_id(new_doc_id_to_old: Vec<u32>) -> (r: DocIdMapping)
        ensures
            r.new_doc_id_to_old@ == new_doc_id_to_old@,
    {
        DocIdMapping { new_doc_id_to_old }
    }

    /// The old document id that the given new document id maps to.
    pub fn get_old_doc_id(&self, new_doc_id: u32) -> (r: u32)
        requires
            new_doc_id < self.new_doc_id_to_old@.len(),
        ensures
            r == self.new_doc_id_to_old@[new_doc_id as int],
    {
        self.new_doc_id_to_old[new_doc_id as usize]
    }

    /// The old document ids in new document order.
    pub fn iter_old_doc_ids(&self) -> (r: &Vec<u32>)
        ensures
            r@ == self.new_doc_id_to_old@,
    {
        &self.new_doc_id_to_old
    }
}

/// A valid mapping visits every old id: each old id below `n` appears at
/// some position of the new-to-old table — at exactly one, since a valid
/// table repeats none. Reading a buffer through the mapping therefore
/// reads every buffered value exactly once.
pub proof fn lemma_valid_mapping_visits_every_old_id(m: DocIdMapping, n: int, old_id: int)
    requires
        m.is_valid(n),
        0 <= old_id < n,
    ensures
        exists|new_id: int|
            0 <= new_id < n && #[trigger] m.new_doc_id_to_old@[new_id] == old_id,
{
    let s = m.new_doc_id_to_old@;
    let si = s.map_values(|x: u32| x as int);
    assert forall|i: int, j: int| 0 <= i < si.len() && 0 <= j < si.len() && i != j implies si[i]
        != si[j] by {
        assert(s[i] != s[j]);
    }
    assert(si.no_duplicates());
    si.unique_seq_to_set();
    vstd::set_lib::lemma_int_range(0, n);
    assert forall|a: int| si.to_set().contains(a) implies vstd::set_lib::set_int_range(
        0,
        n,
    ).contains(a) by {
        let i = choose|i: int| 0 <= i < si.len() && si[i] == a;
        assert(s[i] < n);
    }
    if !si.to_set().contains(old_id) {
        let smaller = vstd::set_lib::set_int_range(0, n).remove(old_id);
        assert(si.to_set().subset_of(smaller));
        vstd::set_lib::lemma_len_subset(si.to_set(), smaller);
        assert(false);
    }
    assert(si.contains(old_id));
    let i = choose|i: int| 0 <= i < si.len() && si[i] == old_id;
    assert(s[i] == old_id);
}

} // verus!
