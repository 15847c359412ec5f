use vstd::prelude::*;

verus! {

/// A validator's identity.
pub type Author = u64;

/// One member of the validator set with its voting power.
#[derive(Clone, Copy, PartialEq, Eq, Structural, Debug)]
pub struct ValidatorInfo {
    pub author: Author,
    pub voting_power: u64,
}

/// The validator set of an epoch and its voting-power quorum threshold.
pub struct ValidatorVerifier {
    pub validators: Vec<ValidatorInfo>,
    pub quorum_voting_power: u128,
}

/// Voting power of `a` in `vs` (its first entry), or `None` for a stranger.
pub open spec fn power_of(vs: Seq<ValidatorInfo>, a: Author) -> Option<nat>
    decreases vs.len(),
{
    if vs.len() == 0 {
        None
    } else if vs[0].author == a {
        Some(vs[0].voting_power as nat)
    } else {
        power_of(vs.drop_first(), a)
    }
}

/// Combined voting power of `authors` (each occurrence counted), or `None`
/// when one of them is not a validator.
pub open spec fn sum_power(vs: Seq<ValidatorInfo>, authors: Seq<Author>) -> Option<nat>
    decreases authors.len(),
{
    if authors.len() == 0 {
        Some(0)
    } else {
        match (sum_power(vs, authors.drop_last()), power_of(vs, authors.last())) {
            (Some(s), Some(p)) => Some(s + p),
            _ => None,
        }
    }
}

/// `authors` are all validators and together hold at least `quorum` voting power.
pub open spec fn has_quorum(vs: Seq<ValidatorInfo>, quorum: nat, authors: Seq<Author>) -> bool {
    match sum_power(vs, authors) {
        Some(s) => s >= quorum,
        None => false,
    }
}

proof fn lemma_sum_none_extends(vs: Seq<ValidatorInfo>, authors: Seq<Author>, i: int)
    requires
        0 <= i <= authors.len(),
        sum_power(vs, authors.subrange(0, i)) is None,
    ensures
        sum_power(vs, authors) is None,
    decreases authors.len() - i,
{
    if i == authors.len() {
        assert(authors.subrange(0, i) =~= authors);
    } else {
        assert(authors.drop_last().subrange(0, i) =~= authors.subrange(0, i));
        lemma_sum_none_extends(vs, authors.drop_last(), i);
    }
}

/// Where `a` first occurs in `v`.
pub fn position_of(v: &Vec<Author>, a: Author) -> (r: Option<usize>)
    ensures
        r matches Some(i) ==> i < v@.len() && v@[i as int] == a,
        r is None ==> !v@.contains(a),
{
    let mut i: usize = 0;
    while i < v.len()
        invariant
            i <= v@.len(),
            forall|j: int| 0 <= j < i ==> v@[j] != a,
        decreases v@.len() - i,
    {
        if v[i] == a {
            return Some(i);
        }
        i += 1;
    }
    None
}

/// `s` with every repeat of an author dropped, first occurrences kept in order.
pub open spec fn distinct(s: Seq<Author>) -> Seq<Author>
    decreases s.len(),
{
    if s.len() == 0 {
        seq![]
    } else if distinct(s.drop_last()).contains(s.last()) {
        distinct(s.drop_last())
    } else {
        distinct(s.drop_last()).push(s.last())
    }
}

/// `distinct(s)` holds each author of `s` exactly once.
pub proof fn lemma_distinct(s: Seq<Author>)
    ensures
        distinct(s).no_duplicates(),
        distinct(s).to_set() == s.to_set(),
    decreases s.len(),
{
    if s.len() > 0 {
        let d = distinct(s.drop_last());
        lemma_distinct(s.drop_last());
        assert(s =~= s.drop_last().push(s.last()));
        assert(s.to_set() =~= s.drop_last().to_set().insert(s.last())) by {
            assert forall|a: Author| s.to_set().contains(a) <==> s.drop_last().to_set().insert(s.last()).contains(a) by {
                if s.contains(a) && a != s.last() {
                    let k = choose|k: int| 0 <= k < s.len() && s[k] == a;
                    assert(s.drop_last()[k] == a);
                }
            }
        }
        if d.contains(s.last()) {
            assert(d.to_set().contains(s.last()));
            assert(d.to_set() =~= d.to_set().insert(s.last()));
        } else {
            assert(d.push(s.last()).to_set() =~= d.to_set().insert(s.last())) by {
                assert forall|a: Author| d.push(s.last()).to_set().contains(a) <==> d.to_set().insert(s.last()).contains(a) by {
                    if d.push(s.last()).contains(a) && a != s.last() {
                        let k = choose|k: int| 0 <= k < d.push(s.last()).len() && d.push(s.last())[k] == a;
                        assert(d[k] == a);
                    }
                    if d.contains(a) {
                        let k = choose|k: int| 0 <= k < d.len() && d[k] == a;
                        assert(d.push(s.last())[k] == a);
                    }
                    assert(d.push(s.last())[d.len() as int] == s.last());
                }
            }
            assert(d.push(s.last()).no_duplicates()) by {
                assert forall|i: int, j: int| 0 <= i < j < d.len() + 1 implies d.push(s.last())[i] != d.push(s.last())[j] by {
                    if j == d.len() {
                        assert(d[i] == d.push(s.last())[i]);
                    }
                }
            }
        }
    }
}

/// The authors of `v` without repeats, first occurrences kept in order.
pub fn distinct_authors(v: &Vec<Author>) -> (r: Vec<Author>)
    ensures
        r@ == distinct(v@),
{
    let mut r: Vec<Author> = Vec::new();
    let mut i: usize = 0;
    while i < v.len()
        invariant
            i <= v@.len(),
            r@ == distinct(v@.subrange(0, i as int)),
        decreases v@.len() - i,
    {
        let ghost prefix = v@.subrange(0, i as int + 1);
        assert(prefix.drop_last() =~= v@.subrange(0, i as int));
        if position_of(&r, v[i]).is_none() {
            r.push(v[i]);
        }
        i += 1;
    }
    assert(v@.subrange(0, i as int) =~= v@);
    r
}

impl ValidatorVerifier {
    pub fn new(validators: Vec<ValidatorInfo>, quorum_voting_power: u128) -> (r: ValidatorVerifier)
        ensures
            r.validators@ == validators@,
            r.quorum_voting_power == quorum_voting_power,
    {
        ValidatorVerifier { validators, quorum_voting_power }
    }

    pub open spec fn quorum_of(&self, authors: Seq<Author>) -> bool {
        has_quorum(self.validators@, self.quorum_voting_power as nat, authors)
    }

    /// Number of validators in the set.
    pub fn len(&self) -> (r: usize)
        ensures
            r == self.validators@.len(),
    {
        self.validators.len()
    }

    /// Voting power of `author`, `None` if it is not a validator.
    pub fn get_voting_power(&self, author: Author) -> (r: Option<u64>)
        ensures
            r matches Some(p) ==> power_of(self.validators@, author) == Some(p as nat),
            r is None ==> power_of(self.validators@, author) is None,
    {
        let mut i: usize = 0;
        assert(self.validators@.subrange(0, self.validators@.len() as int) =~= self.validators@);
        while i < self.validators.len()
            invariant
                i <= self.validators@.len(),
                power_of(self.validators@, author) == power_of(
                    self.validators@.subrange(i as int, self.validators@.len() as int),
                    author,
                ),
            decreases self.validators@.len() - i,
        {
            let ghost rest = self.validators@.subrange(i as int, self.validators@.len() as int);
            assert(rest.drop_first() =~= self.validators@.subrange(
                i as int + 1,
                self.validators@.len() as int,
            ));
            if self.validators[i].author == author {
                return Some(self.validators[i].voting_power);
            }
            i += 1;
        }
        None
    }

    /// Whether `authors` together satisfy the quorum voting power.
    pub fn check_voting_power(&self, authors: &Vec<Author>) -> (r: bool)
        ensures
            r == self.quorum_of(authors@),
    {
        let mut total: u128 = 0;
        let mut i: usize = 0;
        while i < authors.len()
            invariant
                i <= authors@.len(),
                sum_power(self.validators@, authors@.subrange(0, i as int)) == Some(total as nat),
                total <= i * 0x1_0000_0000_0000_0000,
            decreases authors@.len() - i,
        {
            let ghost prefix = authors@.subrange(0, i as int + 1);
            assert(prefix.drop_last() =~= authors@.subrange(0, i as int));
            match self.get_voting_power(authors[i]) {
                Some(p) => {
                    total = total + p as u128;
                    i += 1;
                },
                None => {
                    proof {
                        lemma_sum_none_extends(self.validators@, authors@, i + 1);
                    }
                    return false;
                },
            }
        }
        assert(authors@.subrange(0, i as int) =~= authors@);
        total >= self.quorum_voting_power
    }
}

} // verus!
