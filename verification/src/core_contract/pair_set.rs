use vstd::prelude::*;

verus! {

/// A finite set of string pairs.
pub struct PairSet {
    items: Vec<(String, String)>,
    pairs: Ghost<Set<(Seq<char>, Seq<char>)>>,
}

pub open spec fn pair_key(p: (String, String)) -> (Seq<char>, Seq<char>) {
    (p.0@, p.1@)
}

impl PairSet {
    /// The pairs held, by their text.
    pub closed spec fn view(self) -> Set<(Seq<char>, Seq<char>)> {
        self.pairs@
    }

    pub closed spec fn wf(self) -> bool {
        &&& forall|i: int, j: int|
            0 <= i < j < self.items@.len() ==> pair_key(#[trigger] self.items@[i]) != pair_key(#[trigger] self.items@[j])
        &&& forall|i: int| 0 <= i < self.items@.len() ==> self.pairs@.contains(pair_key(#[trigger] self.items@[i]))
        &&& forall|k: (Seq<char>, Seq<char>)|
            #[trigger] self.pairs@.contains(k) ==> exists|i: int| 0 <= i < self.items@.len() && pair_key(#[trigger] self.items@[i]) == k
    }

    pub fn new() -> (s: PairSet)
        ensures
            s.wf(),
            s.view() == Set::<(Seq<char>, Seq<char>)>::empty(),
    {
        PairSet { items: Vec::new(), pairs: Ghost(Set::empty()) }
    }

    fn find(&self, a: &String, b: &String) -> (r: Option<usize>)
        requires
            self.wf(),
        ensures
            match r {
                Some(i) => i < self.items@.len() && pair_key(self.items@[i as int]) == (a@, b@),
                None => !self.view().contains((a@, b@)),
            },
    {
        let mut i: usize = 0;
        while i < self.items.len()
            invariant
                self.wf(),
                i <= self.items@.len(),
                forall|j: int| 0 <= j < i ==> pair_key(#[trigger] self.items@[j]) != (a@, b@),
            decreases self.items@.len() - i,
        {
            if self.items[i].0 == *a && self.items[i].1 == *b {
                return Some(i);
            }
            i = i + 1;
        }
        None
    }

    pub fn contains(&self, a: &String, b: &String) -> (r: bool)
        requires
            self.wf(),
        ensures
            r == self.view().contains((a@, b@)),
    {
        self.find(a, b).is_some()
    }

    pub fn insert(&mut self, a: String, b: String)
        requires
            old(self).wf(),
        ensures
            final(self).wf(),
            final(self).view() == old(self).view().insert((a@, b@)),
    {
        let ghost k = (a@, b@);
        match self.find(&a, &b) {
            Some(_) => {
                assert(self.pairs@.insert(k) =~= self.pairs@);
            },
            None => {
                self.items.push((a, b));
                self.pairs = Ghost(self.pairs@.insert(k));
                proof {
                    assert forall|x: (Seq<char>, Seq<char>)| #[trigger] self.pairs@.contains(x) implies exists|i: int|
                        0 <= i < self.items@.len() && pair_key(#[trigger] self.items@[i]) == x by {
                        if x == k {
                            let w = (self.items@.len() - 1) as int;
                            assert(pair_key(self.items@[w]) == x);
                        } else {
                            let w = choose|i: int| 0 <= i < old(self).items@.len() && pair_key(old(self).items@[i]) == x;
                            assert(pair_key(self.items@[w]) == x);
                        }
                    }
                }
            },
        }
    }

    pub fn remove(&mut self, a: &String, b: &String)
        requires
            old(self).wf(),
        ensures
            final(self).wf(),
            final(self).view() == old(self).view().remove((a@, b@)),
    {
        let ghost k = (a@, b@);
        match self.find(a, b) {
            Some(i) => {
                let ghost old_items = self.items@;
                self.items.remove(i);
                self.pairs = Ghost(self.pairs@.remove(k));
                proof {
                    assert forall|x: int, y: int|
                        0 <= x < y < self.items@.len() implies pair_key(#[trigger] self.items@[x]) != pair_key(#[trigger] self.items@[y]) by {
                        let x0 = if x < i { x } else { x + 1 };
                        let y0 = if y < i { y } else { y + 1 };
                        assert(self.items@[x] == old_items[x0]);
                        assert(self.items@[y] == old_items[y0]);
                    }
                    assert forall|x: int| 0 <= x < self.items@.len() implies self.pairs@.contains(pair_key(#[trigger] self.items@[x])) by {
                        let x0 = if x < i { x } else { x + 1 };
                        assert(self.items@[x] == old_items[x0]);
                    }
                    assert forall|z: (Seq<char>, Seq<char>)| #[trigger] self.pairs@.contains(z) implies exists|x: int|
                        0 <= x < self.items@.len() && pair_key(#[trigger] self.items@[x]) == z by {
                        let w = choose|x: int| 0 <= x < old_items.len() && pair_key(old_items[x]) == z;
                        assert(w != i);
                        let w1 = if w < i { w } else { w - 1 };
                        assert(self.items@[w1] == old_items[w]);
                    }
                }
            },
            None => {
                assert(self.pairs@.remove(k) =~= self.pairs@);
            },
        }
    }
}

} // verus!
