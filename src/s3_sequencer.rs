//! Per-object ordering tokens and their zero-padded comparison.
use std::cmp::Ordering;
use vstd::prelude::*;

verus! {

/// An ordering token for one object, identified by its bucket and key.
#[derive(Debug, Clone)]
pub struct S3Sequencer {
    pub bucket_name: String,
    pub object_key: String,
    pub sequencer: String,
}

/// The character at position `i` of `s`, with `'0'` past its end.
pub open spec fn padded_char(s: Seq<char>, i: int) -> char {
    if 0 <= i < s.len() {
        s[i]
    } else {
        '0'
    }
}

/// The number of characters both tokens are compared over.
pub open spec fn padded_len(a: Seq<char>, b: Seq<char>) -> nat {
    if a.len() >= b.len() {
        a.len()
    } else {
        b.len()
    }
}

/// Lexicographic comparison by character code of the padded tokens, from
/// position `i` up to `n`.
pub open spec fn padded_cmp_from(a: Seq<char>, b: Seq<char>, i: int, n: int) -> Ordering
    decreases n - i,
{
    if i >= n {
        Ordering::Equal
    } else if (padded_char(a, i) as u32) < (padded_char(b, i) as u32) {
        Ordering::Less
    } else if (padded_char(a, i) as u32) > (padded_char(b, i) as u32) {
        Ordering::Greater
    } else {
        padded_cmp_from(a, b, i + 1, n)
    }
}

/// Both tokens are right-padded with `'0'` to the longer length, then
/// compared lexicographically by character code.
pub open spec fn padded_cmp(a: Seq<char>, b: Seq<char>) -> Ordering {
    padded_cmp_from(a, b, 0, padded_len(a, b) as int)
}

/// Tokens of one object compare by their padded values; tokens of two
/// different objects are incomparable.
pub open spec fn sequencer_cmp(a: S3Sequencer, b: S3Sequencer) -> Option<Ordering> {
    if a.bucket_name@ != b.bucket_name@ || a.object_key@ != b.object_key@ {
        None
    } else {
        Some(padded_cmp(a.sequencer@, b.sequencer@))
    }
}

/// The reverse of an ordering.
pub open spec fn flipped(o: Ordering) -> Ordering {
    match o {
        Ordering::Less => Ordering::Greater,
        Ordering::Equal => Ordering::Equal,
        Ordering::Greater => Ordering::Less,
    }
}

proof fn lemma_cmp_from_flip(a: Seq<char>, b: Seq<char>, i: int, n: int)
    ensures
        padded_cmp_from(b, a, i, n) == flipped(padded_cmp_from(a, b, i, n)),
    decreases n - i,
{
    if i < n {
        lemma_cmp_from_flip(a, b, i + 1, n);
    }
}

proof fn lemma_cmp_from_equal_iff(a: Seq<char>, b: Seq<char>, i: int, n: int)
    ensures
        padded_cmp_from(a, b, i, n) == Ordering::Equal <==> forall|j: int|
            i <= j < n ==> padded_char(a, j) == padded_char(b, j),
    decreases n - i,
{
    if i < n {
        lemma_cmp_from_equal_iff(a, b, i + 1, n);
        if padded_char(a, i) != padded_char(b, i) {
            assert((padded_char(a, i) as u32) != (padded_char(b, i) as u32));
        }
    }
}

proof fn lemma_cmp_from_trans(a: Seq<char>, b: Seq<char>, c: Seq<char>, i: int, n: int)
    requires
        padded_cmp_from(a, b, i, n) != Ordering::Greater,
        padded_cmp_from(b, c, i, n) != Ordering::Greater,
    ensures
        padded_cmp_from(a, c, i, n) != Ordering::Greater,
        padded_cmp_from(a, b, i, n) == Ordering::Less || padded_cmp_from(b, c, i, n)
            == Ordering::Less ==> padded_cmp_from(a, c, i, n) == Ordering::Less,
    decreases n - i,
{
    if i < n {
        if padded_char(a, i) == padded_char(b, i) && padded_char(b, i) == padded_char(c, i) {
            lemma_cmp_from_trans(a, b, c, i + 1, n);
        }
    }
}

/// Comparing over more positions than the longer token changes nothing:
/// every added position holds `'0'` on both sides.
proof fn lemma_cmp_from_extend(a: Seq<char>, b: Seq<char>, i: int, n: int)
    requires
        0 <= i <= padded_len(a, b) <= n,
    ensures
        padded_cmp_from(a, b, i, n) == padded_cmp_from(a, b, i, padded_len(a, b) as int),
    decreases padded_len(a, b) - i,
{
    let l = padded_len(a, b) as int;
    if i < l {
        lemma_cmp_from_extend(a, b, i + 1, n);
    } else {
        lemma_cmp_from_equal_iff(a, b, i, n);
    }
}

/// The comparison over any common length at least as long as each token.
proof fn lemma_padded_cmp_over(a: Seq<char>, b: Seq<char>, n: int)
    requires
        a.len() <= n,
        b.len() <= n,
    ensures
        padded_cmp(a, b) == padded_cmp_from(a, b, 0, n),
{
    lemma_cmp_from_extend(a, b, 0, n);
}

/// Tokens of one object are totally ordered by the padded comparison:
/// each equals itself, swapping the two reverses the result, and the order
/// is transitive, strictly so where one of the steps is strict.
pub proof fn lemma_padded_cmp_total_order(a: Seq<char>, b: Seq<char>, c: Seq<char>)
    ensures
        padded_cmp(a, a) == Ordering::Equal,
        padded_cmp(b, a) == flipped(padded_cmp(a, b)),
        padded_cmp(a, b) != Ordering::Greater && padded_cmp(b, c) != Ordering::Greater
            ==> padded_cmp(a, c) != Ordering::Greater,
        padded_cmp(a, b) == Ordering::Less && padded_cmp(b, c) != Ordering::Greater
            ==> padded_cmp(a, c) == Ordering::Less,
        padded_cmp(a, b) != Ordering::Greater && padded_cmp(b, c) == Ordering::Less
            ==> padded_cmp(a, c) == Ordering::Less,
{
    lemma_cmp_from_equal_iff(a, a, 0, a.len() as int);
    lemma_cmp_from_flip(a, b, 0, padded_len(a, b) as int);
    assert(padded_len(b, a) == padded_len(a, b));
    let n = (padded_len(a, b) + c.len()) as int;
    lemma_padded_cmp_over(a, b, n);
    lemma_padded_cmp_over(b, c, n);
    lemma_padded_cmp_over(a, c, n);
    if padded_cmp(a, b) != Ordering::Greater && padded_cmp(b, c) != Ordering::Greater {
        lemma_cmp_from_trans(a, b, c, 0, n);
    }
}

/// Two tokens compare equal exactly when they agree at every position once
/// padded with `'0'`: appending zeros to a token keeps it equal to itself.
pub proof fn lemma_padded_cmp_equal_iff(a: Seq<char>, b: Seq<char>)
    ensures
        padded_cmp(a, b) == Ordering::Equal <==> forall|j: int|
            0 <= j ==> #[trigger] padded_char(a, j) == padded_char(b, j),
        padded_cmp(a, a + seq!['0']) == Ordering::Equal,
{
    let n = padded_len(a, b) as int;
    lemma_cmp_from_equal_iff(a, b, 0, n);
    let a0 = a + seq!['0'];
    lemma_cmp_from_equal_iff(a, a0, 0, padded_len(a, a0) as int);
    assert forall|j: int| 0 <= j < padded_len(a, a0) implies padded_char(a, j) == padded_char(
        a0,
        j,
    ) by {
        if j < a.len() {
            assert(a0[j] == a[j]);
        }
    }
}

/// Tokens of two different objects are never comparable, hence never equal.
pub proof fn lemma_scope_mismatch_incomparable(a: S3Sequencer, b: S3Sequencer)
    requires
        a.bucket_name@ != b.bucket_name@ || a.object_key@ != b.object_key@,
    ensures
        sequencer_cmp(a, b).is_none(),
        sequencer_cmp(b, a).is_none(),
{
}

/// Within one object, the token comparison is the padded comparison of the
/// token values.
pub proof fn lemma_same_scope_comparable(a: S3Sequencer, b: S3Sequencer)
    requires
        a.bucket_name@ == b.bucket_name@,
        a.object_key@ == b.object_key@,
    ensures
        sequencer_cmp(a, b) == Some(padded_cmp(a.sequencer@, b.sequencer@)),
        sequencer_cmp(b, a) == Some(flipped(padded_cmp(a.sequencer@, b.sequencer@))),
{
    lemma_padded_cmp_total_order(a.sequencer@, b.sequencer@, b.sequencer@);
}

/// Reads position `i` of `s`, giving `'0'` past its end.
fn padded_char_at(s: &str, len: usize, i: usize) -> (c: char)
    requires
        len == s@.len(),
    ensures
        c == padded_char(s@, i as int),
{
    if i < len {
        s.get_char(i)
    } else {
        '0'
    }
}

/// Compares two token values by the zero-padding rule.
pub fn compare_padded(a: &str, b: &str) -> (r: Ordering)
    ensures
        r == padded_cmp(a@, b@),
{
    let la = a.unicode_len();
    let lb = b.unicode_len();
    let n: usize = if la >= lb { la } else { lb };
    let mut i: usize = 0;
    while i < n
        invariant
            la == a@.len(),
            lb == b@.len(),
            n == padded_len(a@, b@),
            i <= n,
            padded_cmp(a@, b@) == padded_cmp_from(a@, b@, i as int, n as int),
        decreases n - i,
    {
        let ca = padded_char_at(a, la, i);
        let cb = padded_char_at(b, lb, i);
        if (ca as u32) < (cb as u32) {
            return Ordering::Less;
        } else if (ca as u32) > (cb as u32) {
            return Ordering::Greater;
        }
        i = i + 1;
    }
    Ordering::Equal
}

impl S3Sequencer {
    /// A token for the object `object_key` of `bucket_name`.
    pub fn new(bucket_name: &str, object_key: &str, sequencer: &str) -> (r: Self)
        ensures
            r.bucket_name@ == bucket_name@,
            r.object_key@ == object_key@,
            r.sequencer@ == sequencer@,
    {
        S3Sequencer {
            bucket_name: bucket_name.to_owned(),
            object_key: object_key.to_owned(),
            sequencer: sequencer.to_owned(),
        }
    }

    /// Whether both tokens order the same object.
    pub fn same_scope(&self, other: &Self) -> (r: bool)
        ensures
            r == (self.bucket_name@ == other.bucket_name@ && self.object_key@ == other.object_key@),
    {
        self.bucket_name == other.bucket_name && self.object_key == other.object_key
    }
}

impl PartialEq for S3Sequencer {
    fn eq(&self, other: &Self) -> (r: bool) {
        match self.partial_cmp(other) {
            Some(Ordering::Equal) => true,
            _ => false,
        }
    }
}

impl vstd::std_specs::cmp::PartialEqSpecImpl for S3Sequencer {
    open spec fn obeys_eq_spec() -> bool {
        true
    }

    open spec fn eq_spec(&self, other: &S3Sequencer) -> bool {
        sequencer_cmp(*self, *other) == Some(Ordering::Equal)
    }
}

impl PartialOrd for S3Sequencer {
    fn partial_cmp(&self, other: &Self) -> (r: Option<Ordering>) {
        if !self.same_scope(other) {
            return None;
        }
        Some(compare_padded(self.sequencer.as_str(), other.sequencer.as_str()))
    }
}

impl vstd::std_specs::cmp::PartialOrdSpecImpl for S3Sequencer {
    open spec fn obeys_partial_cmp_spec() -> bool {
        true
    }

    open spec fn partial_cmp_spec(&self, other: &S3Sequencer) -> Option<Ordering> {
        sequencer_cmp(*self, *other)
    }
}

} // verus!
