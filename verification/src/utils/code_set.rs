//! An ordered set of codes: strings kept in ascending order, each once.

use vstd::prelude::*;
use crate::utils::text::{compare_text, lemma_text_before_transitive, lemma_text_order_total, text_before, TextOrder};

verus! {

/// The characters of each string of `v`, in order.
pub open spec fn texts(v: Seq<String>) -> Seq<Seq<char>> {
    Seq::new(v.len(), |i: int| v[i]@)
}

/// Every entry comes strictly before all later ones, so none occurs twice.
pub open spec fn ascending(s: Seq<Seq<char>>) -> bool {
    forall|i: int, j: int| 0 <= i < j < s.len() ==> text_before(#[trigger] s[i], #[trigger] s[j])
}

/// An ascending sequence is fixed by the set of its entries.
pub proof fn lemma_ascending_unique(s: Seq<Seq<char>>, t: Seq<Seq<char>>)
    requires
        ascending(s),
        ascending(t),
        s.to_set() == t.to_set(),
    ensures
        s == t,
    decreases s.len(),
{
    if s.len() == 0 {
        if t.len() > 0 {
            assert(t.contains(t[0]));
            assert(t.to_set().contains(t[0]));
            assert(s.to_set().contains(t[0]));
            assert(s.contains(t[0]));
        }
        assert(s =~= t);
    } else {
        assert(s.contains(s[0]));
        assert(s.to_set().contains(s[0]));
        assert(t.to_set().contains(s[0]));
        assert(t.contains(s[0]));
        assert(t.len() > 0);
        assert(t.contains(t[0]));
        assert(t.to_set().contains(t[0]));
        assert(s.to_set().contains(t[0]));
        assert(s.contains(t[0]));
        let i = choose|i: int| 0 <= i < t.len() && t[i] == s[0];
        let j = choose|j: int| 0 <= j < s.len() && s[j] == t[0];
        lemma_text_order_total(s[0], t[0]);
        if i > 0 {
            assert(text_before(t[0], t[i]));
            if j > 0 {
                assert(text_before(s[0], s[j]));
            }
        }
        assert(s[0] == t[0]);
        let s1 = s.drop_first();
        let t1 = t.drop_first();
        assert(ascending(s1)) by {
            assert forall|a: int, b: int| 0 <= a < b < s1.len() implies text_before(
                #[trigger] s1[a],
                #[trigger] s1[b],
            ) by {
                assert(text_before(s[a + 1], s[b + 1]));
            }
        }
        assert(ascending(t1)) by {
            assert forall|a: int, b: int| 0 <= a < b < t1.len() implies text_before(
                #[trigger] t1[a],
                #[trigger] t1[b],
            ) by {
                assert(text_before(t[a + 1], t[b + 1]));
            }
        }
        assert(s1.to_set() =~= t1.to_set()) by {
            assert forall|c: Seq<char>| s1.to_set().contains(c) <==> t1.to_set().contains(c) by {
                lemma_tail_member(s, c);
                lemma_tail_member(t, c);
                assert(s.to_set().contains(c) <==> t.to_set().contains(c));
                assert(s.to_set().contains(c) <==> s.contains(c));
                assert(t.to_set().contains(c) <==> t.contains(c));
                assert(s1.to_set().contains(c) <==> s1.contains(c));
                assert(t1.to_set().contains(c) <==> t1.contains(c));
            }
        }
        lemma_ascending_unique(s1, t1);
        assert(s =~= seq![s[0]] + s1);
        assert(t =~= seq![t[0]] + t1);
    }
}

/// In an ascending sequence the tail holds exactly the entries other than
/// the first.
proof fn lemma_tail_member(s: Seq<Seq<char>>, c: Seq<char>)
    requires
        ascending(s),
        s.len() > 0,
    ensures
        s.drop_first().contains(c) <==> (s.contains(c) && c != s[0]),
{
    let s1 = s.drop_first();
    if s1.contains(c) {
        let k = choose|k: int| 0 <= k < s1.len() && s1[k] == c;
        assert(s[k + 1] == c);
        assert(text_before(s[0], s[k + 1]));
        lemma_text_order_total(s[0], c);
    }
    if s.contains(c) && c != s[0] {
        let k = choose|k: int| 0 <= k < s.len() && s[k] == c;
        assert(s1[k - 1] == c);
    }
}

/// A set of codes, held in ascending order.
pub struct CodeSet {
    items: Vec<String>,
}

impl View for CodeSet {
    type V = Seq<Seq<char>>;

    closed spec fn view(&self) -> Seq<Seq<char>> {
        texts(self.items@)
    }
}

impl CodeSet {
    /// The entries are in ascending order.
    pub open spec fn wf(&self) -> bool {
        ascending(self@)
    }

    /// The codes the set holds.
    pub open spec fn members(&self) -> Set<Seq<char>> {
        self@.to_set()
    }

    pub fn new() -> (r: CodeSet)
        ensures
            r.wf(),
            r@ == Seq::<Seq<char>>::empty(),
            r.members() == Set::<Seq<char>>::empty(),
    {
        let r = CodeSet { items: Vec::new() };
        assert(r@ =~= Seq::<Seq<char>>::empty());
        assert(r@.to_set() =~= Set::<Seq<char>>::empty());
        r
    }

    pub fn len(&self) -> (r: usize)
        ensures
            r == self@.len(),
    {
        self.items.len()
    }

    /// Index of the first entry that does not come before `code`, and
    /// whether that entry is `code` itself.
    fn locate(&self, code: &str) -> (r: (usize, bool))
        requires
            self.wf(),
        ensures
            r.0 <= self@.len(),
            forall|j: int| 0 <= j < r.0 ==> text_before(#[trigger] self@[j], code@),
            r.1 ==> r.0 < self@.len() && self@[r.0 as int] == code@,
            !r.1 ==> forall|j: int| r.0 <= j < self@.len() ==> text_before(code@, #[trigger] self@[j]),
    {
        let mut i: usize = 0;
        while i < self.items.len()
            invariant
                i <= self.items.len(),
                self.wf(),
                forall|j: int| 0 <= j < i ==> text_before(#[trigger] self@[j], code@),
            decreases self.items.len() - i,
        {
            assert(self@[i as int] == self.items@[i as int]@);
            match compare_text(self.items[i].as_str(), code) {
                TextOrder::Before => {
                    i = i + 1;
                },
                TextOrder::Same => {
                    return (i, true);
                },
                TextOrder::After => {
                    assert forall|j: int| i <= j < self@.len() implies text_before(
                        code@,
                        #[trigger] self@[j],
                    ) by {
                        if j > i {
                            assert(text_before(self@[i as int], self@[j]));
                            lemma_text_before_transitive(code@, self@[i as int], self@[j]);
                        }
                    }
                    return (i, false);
                },
            }
        }
        (i, false)
    }

    pub fn contains(&self, code: &str) -> (r: bool)
        requires
            self.wf(),
        ensures
            r == self.members().contains(code@),
    {
        let (i, found) = self.locate(code);
        proof {
            if !found && self@.contains(code@) {
                let k = choose|k: int| 0 <= k < self@.len() && self@[k] == code@;
                lemma_text_order_total(code@, code@);
            }
        }
        found
    }

    /// Adds `code`; the set is unchanged where it holds the code already.
    pub fn insert(&mut self, code: String)
        requires
            old(self).wf(),
        ensures
            final(self).wf(),
            final(self).members() == old(self).members().insert(code@),
    {
        let (i, found) = self.locate(code.as_str());
        if found {
            assert(self@.contains(code@));
            assert(self.members() =~= self.members().insert(code@));
        } else {
            let ghost before = self@;
            let ghost text = code@;
            self.items.insert(i, code);
            assert(self@ =~= before.insert(i as int, text));
            assert(ascending(self@)) by {
                assert forall|a: int, b: int| 0 <= a < b < self@.len() implies text_before(
                    #[trigger] self@[a],
                    #[trigger] self@[b],
                ) by {
                    if b < i {
                        assert(text_before(before[a], before[b]));
                    } else if b == i {
                        assert(text_before(before[a], text));
                    } else if a < i {
                        assert(text_before(before[a], before[b - 1]));
                    } else if a == i {
                        assert(text_before(text, before[b - 1]));
                    } else {
                        assert(text_before(before[a - 1], before[b - 1]));
                    }
                }
            }
            assert(self@.to_set() =~= before.to_set().insert(text)) by {
                assert forall|c: Seq<char>| #[trigger]
                    self@.to_set().contains(c) <==> before.to_set().insert(text).contains(c) by {
                    if self@.contains(c) {
                        let k = choose|k: int| 0 <= k < self@.len() && self@[k] == c;
                        if k < i {
                            assert(before[k] == c);
                        } else if k > i {
                            assert(before[k - 1] == c);
                        }
                    }
                    if before.contains(c) {
                        let k = choose|k: int| 0 <= k < before.len() && before[k] == c;
                        if k < i {
                            assert(self@[k] == c);
                        } else {
                            assert(self@[k + 1] == c);
                        }
                    }
                    if c == text {
                        assert(self@[i as int] == c);
                    }
                }
            }
        }
    }

    /// Takes `code` out; the set is unchanged where it does not hold it.
    pub fn remove(&mut self, code: &str)
        requires
            old(self).wf(),
        ensures
            final(self).wf(),
            final(self).members() == old(self).members().remove(code@),
    {
        let (i, found) = self.locate(code);
        if found {
            let ghost before = self@;
            let _gone = self.items.remove(i);
            assert(self@ =~= before.remove(i as int));
            assert(ascending(self@)) by {
                assert forall|a: int, b: int| 0 <= a < b < self@.len() implies text_before(
                    #[trigger] self@[a],
                    #[trigger] self@[b],
                ) by {
                    let a0 = if a < i { a } else { a + 1 };
                    let b0 = if b < i { b } else { b + 1 };
                    assert(text_before(before[a0], before[b0]));
                }
            }
            assert(self@.to_set() =~= before.to_set().remove(code@)) by {
                assert forall|c: Seq<char>| #[trigger]
                    self@.to_set().contains(c) <==> before.to_set().remove(code@).contains(c) by {
                    if self@.contains(c) {
                        let k = choose|k: int| 0 <= k < self@.len() && self@[k] == c;
                        let k0 = if k < i { k } else { k + 1 };
                        assert(before[k0] == c);
                        if k0 < i {
                            assert(text_before(before[k0], before[i as int]));
                        } else {
                            assert(text_before(before[i as int], before[k0]));
                        }
                        lemma_text_order_total(c, code@);
                    }
                    if before.contains(c) && c != code@ {
                        let k = choose|k: int| 0 <= k < before.len() && before[k] == c;
                        if k < i {
                            assert(self@[k] == c);
                        } else {
                            assert(self@[k - 1] == c);
                        }
                    }
                }
            }
        } else {
            proof {
                if self@.contains(code@) {
                    let k = choose|k: int| 0 <= k < self@.len() && self@[k] == code@;
                    lemma_text_order_total(code@, code@);
                }
            }
            assert(self.members() =~= self.members().remove(code@));
        }
    }

    /// The codes in ascending order.
    pub fn into_vec(self) -> (r: Vec<String>)
        ensures
            texts(r@) == self@,
    {
        self.items
    }
}

} // verus!
