//! The in-memory registry of in-flight jobs: at most one attempt per key.

use vstd::prelude::*;
use crate::text::{decimal, decimal_string, lemma_decimal_injective};

verus! {

/// The registry key of a pull request: `<full name>#<number>`.
pub open spec fn job_key_spec(full_name: Seq<char>, pr_number: int) -> Seq<char> {
    full_name + seq!['#'] + decimal(pr_number)
}

/// Builds the registry key of pull request `pr_number` of `full_name`.
pub fn job_key(full_name: &str, pr_number: i32) -> (r: String)
    ensures
        r@ == job_key_spec(full_name@, pr_number as int),
{
    proof { reveal_strlit("#"); }
    let number = decimal_string(pr_number as i64);
    let r = String::from_str(full_name).concat("#").concat(number.as_str());
    assert(r@ =~= full_name@ + seq!['#'] + decimal(pr_number as int));
    r
}

/// Set of keys whose slot is taken. Acquiring and releasing are single
/// calls on `&mut self`, so a caller that shares the registry behind one
/// lock gets the check and the insertion as one atomic step.
#[derive(Debug)]
pub struct JobRegistry {
    keys: Vec<String>,
}

impl View for JobRegistry {
    type V = Set<Seq<char>>;

    closed spec fn view(&self) -> Set<Seq<char>> {
        Set::new(|k: Seq<char>| exists|i: int| 0 <= i < self.keys@.len() && self.keys@[i]@ == k)
    }
}

impl JobRegistry {
    /// No key is held twice.
    pub closed spec fn wf(&self) -> bool {
        forall|i: int, j: int|
            0 <= i < j < self.keys@.len() ==> self.keys@[i]@ != self.keys@[j]@
    }

    /// An empty registry: every slot is free.
    pub fn new() -> (r: JobRegistry)
        ensures
            r.wf(),
            r@ == Set::<Seq<char>>::empty(),
    {
        let r = JobRegistry { keys: Vec::new() };
        assert(r@ =~= Set::<Seq<char>>::empty());
        r
    }

    fn position(&self, key: &str) -> (r: Option<usize>)
        ensures
            r matches Some(i) ==> i < self.keys@.len() && self.keys@[i as int]@ == key@,
            r is None ==> !self@.contains(key@),
    {
        let target = String::from_str(key);
        let mut i: usize = 0;
        while i < self.keys.len()
            invariant
                i <= self.keys@.len(),
                target@ == key@,
                forall|j: int| 0 <= j < i ==> self.keys@[j]@ != key@,
            decreases self.keys@.len() - i,
        {
            if self.keys[i] == target {
                return Some(i);
            }
            i = i + 1;
        }
        None
    }

    /// Whether the slot of `key` is taken.
    pub fn contains(&self, key: &str) -> (r: bool)
        ensures
            r == self@.contains(key@),
    {
        self.position(key).is_some()
    }

    /// Takes the slot of `key` if it is free and returns `true`; returns
    /// `false` and changes nothing if it is already taken.
    pub fn try_acquire(&mut self, key: &str) -> (r: bool)
        requires
            old(self).wf(),
        ensures
            final(self).wf(),
            r == !old(self)@.contains(key@),
            final(self)@ == old(self)@.insert(key@),
    {
        match self.position(key) {
            Some(_) => {
                assert(self@ =~= self@.insert(key@));
                false
            },
            None => {
                let ghost before = self@;
                let ghost old_keys = self.keys@;
                assert forall|i: int| 0 <= i < old_keys.len() implies old_keys[i]@ != key@ by {
                    if old_keys[i]@ == key@ {
                        assert(before.contains(key@));
                    }
                }
                self.keys.push(String::from_str(key));
                assert(self@ =~= before.insert(key@)) by {
                    let n = self.keys@.len() - 1;
                    assert(self.keys@[n]@ == key@);
                    assert forall|k: Seq<char>| before.contains(k) implies #[trigger] self@.contains(k) by {
                        let i = choose|i: int| 0 <= i < old_keys.len() && old_keys[i]@ == k;
                        assert(self.keys@[i]@ == k);
                    }
                    assert forall|k: Seq<char>| #[trigger] self@.contains(k) implies before.insert(key@).contains(k) by {
                        let i = choose|i: int| 0 <= i < self.keys@.len() && self.keys@[i]@ == k;
                        if i < n {
                            assert(old_keys[i]@ == k);
                        }
                    }
                }
                true
            },
        }
    }

    /// Frees the slot of `key`, whether or not it was taken.
    pub fn release(&mut self, key: &str)
        requires
            old(self).wf(),
        ensures
            final(self).wf(),
            final(self)@ == old(self)@.remove(key@),
    {
        match self.position(key) {
            Some(p) => {
                let ghost old_keys = self.keys@;
                let ghost before = self@;
                self.keys.remove(p);
                assert(self@ =~= before.remove(key@)) by {
                    assert forall|k: Seq<char>| #[trigger] self@.contains(k) implies before.remove(key@).contains(k) by {
                        let i = choose|i: int| 0 <= i < self.keys@.len() && self.keys@[i]@ == k;
                        if i < p {
                            assert(old_keys[i]@ == k);
                        } else {
                            assert(old_keys[i + 1]@ == k);
                        }
                    }
                    assert forall|k: Seq<char>| before.remove(key@).contains(k) implies #[trigger] self@.contains(k) by {
                        let i = choose|i: int| 0 <= i < old_keys.len() && old_keys[i]@ == k;
                        if i < p {
                            assert(self.keys@[i]@ == k);
                        } else {
                            assert(i != p);
                            assert(self.keys@[i - 1]@ == k);
                        }
                    }
                }
            },
            None => {
                assert(self@ =~= self@.remove(key@));
            },
        }
    }
}

proof fn lemma_split_at_last_hash(x: Seq<char>, d1: Seq<char>, y: Seq<char>, d2: Seq<char>)
    requires
        x + seq!['#'] + d1 == y + seq!['#'] + d2,
        forall|i: int| 0 <= i < d1.len() ==> #[trigger] d1[i] != '#',
        forall|i: int| 0 <= i < d2.len() ==> #[trigger] d2[i] != '#',
    ensures
        x == y,
        d1 == d2,
{
    let s = x + seq!['#'] + d1;
    let n = s.len();
    if d1.len() < d2.len() {
        let k = n - d1.len() - 1;
        assert(s[k] == '#');
        assert((y + seq!['#'] + d2)[k] == d2[k - (n - d2.len())]);
    } else if d2.len() < d1.len() {
        let k = n - d2.len() - 1;
        assert((y + seq!['#'] + d2)[k] == '#');
        assert(s[k] == d1[k - (n - d1.len())]);
    } else {
        assert(d1 =~= s.subrange(n - d1.len(), n as int));
        assert(d2 =~= (y + seq!['#'] + d2).subrange(n - d2.len(), n as int));
        assert(x =~= s.subrange(0, x.len() as int));
        assert(y =~= (y + seq!['#'] + d2).subrange(0, y.len() as int));
    }
}

/// Distinct pull requests have distinct registry keys.
pub proof fn lemma_job_key_injective(name1: Seq<char>, pr1: int, name2: Seq<char>, pr2: int)
    requires
        job_key_spec(name1, pr1) == job_key_spec(name2, pr2),
    ensures
        name1 == name2,
        pr1 == pr2,
{
    lemma_decimal_injective(pr1, pr2);
    lemma_decimal_injective(pr2, pr1);
    lemma_split_at_last_hash(name1, decimal(pr1), name2, decimal(pr2));
}

} // verus!
