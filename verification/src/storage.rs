//! The storage contract: add/get/update/delete over a collection of
//! documents keyed by identifier, and its reference implementation by linear
//! scan over an insertion-ordered `Vec`.

use vstd::prelude::*;
use crate::document::Document;

verus! {

/// The position of the first document with the given identifier, or `-1`
/// when none matches. Lookup is first-match-wins in insertion order.
pub open spec fn find_index<T>(s: Seq<Document<T>>, id: usize) -> int
    decreases s.len(),
{
    if s.len() == 0 {
        -1
    } else if s[0].id == id {
        0
    } else if find_index(s.drop_first(), id) == -1 {
        -1
    } else {
        find_index(s.drop_first(), id) + 1
    }
}

/// `find_index` points at the first match: when it is not `-1` it is a valid
/// position holding the identifier, with no match anywhere before it; when it
/// is `-1` no document matches at all.
pub proof fn lemma_find_index_is_first_match<T>(s: Seq<Document<T>>, id: usize)
    ensures
        find_index(s, id) == -1 ==> forall|j: int| 0 <= j < s.len() ==> s[j].id != id,
        find_index(s, id) != -1 ==> 0 <= find_index(s, id) < s.len() && s[find_index(s, id)].id
            == id && forall|j: int| 0 <= j < find_index(s, id) ==> s[j].id != id,
    decreases s.len(),
{
    if s.len() > 0 && s[0].id != id {
        lemma_find_index_is_first_match(s.drop_first(), id);
        assert(forall|j: int| 1 <= j < s.len() ==> s[j] == s.drop_first()[j - 1]);
    }
}

/// A scan that saw no match in the first `i` positions settles `find_index`:
/// a match at `i` is the first one, and a fruitless scan of the whole
/// sequence means there is none.
proof fn lemma_find_index_after_scan<T>(s: Seq<Document<T>>, id: usize, i: int)
    requires
        0 <= i <= s.len(),
        forall|j: int| 0 <= j < i ==> s[j].id != id,
    ensures
        i < s.len() && s[i].id == id ==> find_index(s, id) == i,
        i == s.len() ==> find_index(s, id) == -1,
    decreases s.len(),
{
    if s.len() > 0 && i > 0 {
        let t = s.drop_first();
        assert(forall|j: int| 0 <= j < i - 1 ==> t[j] == s[j + 1]);
        lemma_find_index_after_scan(t, id, i - 1);
        if i < s.len() && s[i].id == id {
            assert(t[i - 1] == s[i]);
        }
    }
}

/// What `get` hands back, as a function of the stored sequence alone: the
/// first document with the given identifier, or nothing.
pub open spec fn get_result<T>(s: Seq<Document<T>>, id: usize) -> Option<Document<T>> {
    if find_index(s, id) == -1 {
        Option::None
    } else {
        Option::Some(s[find_index(s, id)])
    }
}

/// Reading is free of effect: `get` takes its storage by shared reference,
/// so it cannot change the stored state, and its contract pins the result as
/// `get_result`, a function of the stored sequence alone. Hence two reads of
/// an unchanged storage agree.
pub proof fn lemma_get_reads_agree<T>(s1: Seq<Document<T>>, s2: Seq<Document<T>>, id: usize)
    requires
        s1 == s2,
    ensures
        get_result(s1, id) == get_result(s2, id),
{
}

/// Deletion is single-use: when exactly one stored document carries the
/// identifier, `delete` finds it, and afterwards no document carries that
/// identifier any more, so every further `delete` on it fails.
pub proof fn lemma_delete_single_use<T>(s: Seq<Document<T>>, id: usize, i: int)
    requires
        0 <= i < s.len(),
        s[i].id == id,
        forall|j: int| 0 <= j < s.len() && j != i ==> s[j].id != id,
    ensures
        find_index(s, id) == i,
        find_index(s.remove(i), id) == -1,
{
    lemma_find_index_after_scan(s, id, i);
    let t = s.remove(i);
    s.remove_ensures(i);
    lemma_find_index_is_first_match(t, id);
    if find_index(t, id) != -1 {
        let k = find_index(t, id);
        assert(t[k] == if k < i {
            s[k]
        } else {
            s[k + 1]
        });
    }
}

/// A capability owning a collection of documents keyed by identifier. The
/// contract does not enforce identifier uniqueness: a conforming storage
/// retains duplicates, and lookup, update and deletion act on the first
/// match in traversal order.
pub trait Storage<T> {
    /// The stored documents, in traversal order.
    spec fn docs(&self) -> Seq<Document<T>>;

    /// Inserts the document at the end of the collection, unconditionally:
    /// no uniqueness check on its identifier is made.
    fn add(&mut self, document: Document<T>)
        ensures
            final(self).docs() == old(self).docs().push(document),
    ;

    /// Returns a read-only reference to the first document with the given
    /// identifier, or nothing when none matches. Taking `&self`, it cannot
    /// change the stored state.
    fn get(&self, id: usize) -> (r: Option<&Document<T>>)
        ensures
            (match r {
                Option::Some(d) => Option::Some(*d),
                Option::None => Option::None,
            }) == get_result(self.docs(), id),
    ;

    /// Replaces the first document with the given identifier by its updated
    /// value and reports success; on a missing identifier it changes nothing
    /// and reports failure.
    fn update(&mut self, id: usize, content: T, modified_at: u64) -> (r: bool)
        requires
            find_index(old(self).docs(), id) >= 0 ==> old(self).docs()[find_index(
                old(self).docs(),
                id,
            )].version < u32::MAX,
        ensures
            r == (find_index(old(self).docs(), id) >= 0),
            find_index(old(self).docs(), id) == -1 ==> final(self).docs() == old(self).docs(),
            find_index(old(self).docs(), id) >= 0 ==> final(self).docs() == old(
                self,
            ).docs().update(
                find_index(old(self).docs(), id),
                old(self).docs()[find_index(old(self).docs(), id)].spec_update(
                    content,
                    modified_at,
                ),
            ),
    ;

    /// Removes the first document with the given identifier, shifting the
    /// rest to keep their order, and reports success; on a missing
    /// identifier it changes nothing and reports failure.
    fn delete(&mut self, id: usize) -> (r: bool)
        ensures
            r == (find_index(old(self).docs(), id) >= 0),
            find_index(old(self).docs(), id) == -1 ==> final(self).docs() == old(self).docs(),
            find_index(old(self).docs(), id) >= 0 ==> final(self).docs() == old(
                self,
            ).docs().remove(find_index(old(self).docs(), id)),
    ;
}

/// The reference storage: linear scan over an insertion-ordered vector.
impl<T> Storage<T> for Vec<Document<T>> {
    open spec fn docs(&self) -> Seq<Document<T>> {
        self@
    }

    fn add(&mut self, document: Document<T>) {
        self.push(document);
    }

    fn get(&self, id: usize) -> (r: Option<&Document<T>>) {
        let mut i: usize = 0;
        while i < self.len()
            invariant
                i <= self@.len(),
                forall|j: int| 0 <= j < i ==> self@[j].id != id,
            decreases self@.len() - i,
        {
            if self[i].id == id {
                proof {
                    lemma_find_index_after_scan(self@, id, i as int);
                }
                return Option::Some(&self[i]);
            }
            i = i + 1;
        }
        proof {
            lemma_find_index_after_scan(self@, id, i as int);
        }
        Option::None
    }

    fn update(&mut self, id: usize, content: T, modified_at: u64) -> (r: bool) {
        let mut i: usize = 0;
        while i < self.len()
            invariant
                i <= self@.len(),
                self@ == old(self)@,
                forall|j: int| 0 <= j < i ==> self@[j].id != id,
                find_index(old(self)@, id) >= 0 ==> old(self)@[find_index(old(self)@, id)].version
                    < u32::MAX,
            decreases self@.len() - i,
        {
            if self[i].id == id {
                proof {
                    lemma_find_index_after_scan(self@, id, i as int);
                }
                let updated = self[i].update(content, modified_at);
                self[i] = updated;
                return true;
            }
            i = i + 1;
        }
        proof {
            lemma_find_index_after_scan(self@, id, i as int);
        }
        false
    }

    fn delete(&mut self, id: usize) -> (r: bool) {
        let mut i: usize = 0;
        while i < self.len()
            invariant
                i <= self@.len(),
                self@ == old(self)@,
                forall|j: int| 0 <= j < i ==> self@[j].id != id,
            decreases self@.len() - i,
        {
            if self[i].id == id {
                proof {
                    lemma_find_index_after_scan(self@, id, i as int);
                }
                self.remove(i);
                return true;
            }
            i = i + 1;
        }
        proof {
            lemma_find_index_after_scan(self@, id, i as int);
        }
        false
    }
}

} // verus!
