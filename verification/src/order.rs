//! The order of strings that `Ord` for `String` gives (character by character), and
//! sorting lists of strings by it.

use vstd::prelude::*;

verus! {

/// Whether `a` comes strictly before `b`, comparing character by character; a proper
/// prefix comes first.
pub open spec fn text_lt(a: Seq<char>, b: Seq<char>) -> bool
    decreases a.len(),
{
    if a.len() == 0 {
        b.len() > 0
    } else if b.len() == 0 {
        false
    } else if a[0] != b[0] {
        a[0] < b[0]
    } else {
        text_lt(a.drop_first(), b.drop_first())
    }
}

/// Whether `a` comes no later than `b`.
pub open spec fn text_le(a: Seq<char>, b: Seq<char>) -> bool {
    a == b || text_lt(a, b)
}

/// Whether a list of texts is in order.
pub open spec fn sorted(s: Seq<Seq<char>>) -> bool {
    forall|i: int, j: int| 0 <= i < j < s.len() ==> text_le(#[trigger] s[i], #[trigger] s[j])
}

/// Whether a list of texts is in strict order, so without repeats.
pub open spec fn strictly_sorted(s: Seq<Seq<char>>) -> bool {
    forall|i: int, j: int| 0 <= i < j < s.len() ==> text_lt(#[trigger] s[i], #[trigger] s[j])
}

/// The texts of a list of strings.
pub open spec fn texts(v: Seq<String>) -> Seq<Seq<char>> {
    v.map_values(|s: String| s@)
}

pub proof fn lemma_text_lt_irreflexive(a: Seq<char>)
    ensures
        !text_lt(a, a),
    decreases a.len(),
{
    if a.len() > 0 {
        assert(a.drop_first() == a.drop_first());
        lemma_text_lt_irreflexive(a.drop_first());
    }
}

pub proof fn lemma_text_lt_trans(a: Seq<char>, b: Seq<char>, c: Seq<char>)
    requires
        text_lt(a, b),
        text_lt(b, c),
    ensures
        text_lt(a, c),
    decreases a.len(),
{
    if a.len() > 0 && b.len() > 0 && c.len() > 0 && a[0] == b[0] && b[0] == c[0] {
        lemma_text_lt_trans(a.drop_first(), b.drop_first(), c.drop_first());
    }
}

pub proof fn lemma_text_lt_total(a: Seq<char>, b: Seq<char>)
    ensures
        a == b || text_lt(a, b) || text_lt(b, a),
    decreases a.len(),
{
    if a.len() > 0 && b.len() > 0 && a[0] == b[0] {
        lemma_text_lt_total(a.drop_first(), b.drop_first());
        if a.drop_first() == b.drop_first() {
            assert(a =~= seq![a[0]] + a.drop_first());
            assert(b =~= seq![b[0]] + b.drop_first());
        }
    } else if a.len() == 0 && b.len() == 0 {
        assert(a =~= b);
    }
}

pub proof fn lemma_text_lt_asymmetric(a: Seq<char>, b: Seq<char>)
    requires
        text_lt(a, b),
    ensures
        !text_lt(b, a),
        a != b,
{
    if text_lt(b, a) {
        lemma_text_lt_trans(a, b, a);
        lemma_text_lt_irreflexive(a);
    }
    if a == b {
        lemma_text_lt_irreflexive(a);
    }
}

/// Whether `a` comes strictly before `b`.
pub fn str_lt(a: &str, b: &str) -> (r: bool)
    ensures
        r == text_lt(a@, b@),
{
    let n = a.unicode_len();
    let m = b.unicode_len();
    let mut i: usize = 0;
    assert(a@.skip(0) =~= a@);
    assert(b@.skip(0) =~= b@);
    while i < n && i < m
        invariant
            n == a@.len(),
            m == b@.len(),
            0 <= i <= n,
            i <= m,
            text_lt(a@, b@) == text_lt(a@.skip(i as int), b@.skip(i as int)),
        decreases n - i,
    {
        let x = a.get_char(i);
        let y = b.get_char(i);
        assert(a@.skip(i as int)[0] == x);
        assert(b@.skip(i as int)[0] == y);
        if x != y {
            return x < y;
        }
        assert(a@.skip(i as int).drop_first() =~= a@.skip(i + 1));
        assert(b@.skip(i as int).drop_first() =~= b@.skip(i + 1));
        i = i + 1;
    }
    i < m
}

/// Inserting an item adds it to the contents.
pub proof fn lemma_insert_multiset<A>(s: Seq<A>, k: int, x: A)
    requires
        0 <= k <= s.len(),
    ensures
        s.insert(k, x).to_multiset() =~= s.to_multiset().insert(x),
{
    broadcast use vstd::seq_lib::group_to_multiset_ensures;
    broadcast use vstd::multiset::group_multiset_axioms;

    let t = s.insert(k, x);
    assert(t.remove(k) =~= s);
    assert(t[k] == x);
    assert(t.contains(x));
    assert(t.to_multiset().count(x) > 0);
    assert(t.to_multiset() =~= t.to_multiset().remove(x).insert(x));
}

/// The strings of `v` in order.
pub fn sort_strings(v: Vec<String>) -> (r: Vec<String>)
    ensures
        sorted(texts(r@)),
        texts(r@).to_multiset() == texts(v@).to_multiset(),
{
    let mut out: Vec<String> = Vec::new();
    let n = v.len();
    let mut i: usize = 0;
    assert(texts(v@).take(0) =~= Seq::<Seq<char>>::empty());
    assert(texts(out@) =~= Seq::<Seq<char>>::empty());
    while i < n
        invariant
            n == v@.len(),
            0 <= i <= n,
            sorted(texts(out@)),
            texts(out@).to_multiset() == texts(v@).take(i as int).to_multiset(),
        decreases n - i,
    {
        let x = v[i].clone();
        let ghost xs = x@;
        let ghost before = texts(out@);
        let m = out.len();
        let mut k: usize = 0;
        while k < m && !str_lt(x.as_str(), out[k].as_str())
            invariant
                m == out@.len(),
                before == texts(out@),
                xs == x@,
                0 <= k <= m,
                forall|j: int| 0 <= j < k ==> !text_lt(xs, #[trigger] before[j]),
            decreases m - k,
        {
            k = k + 1;
        }
        out.insert(k, x);
        proof {
            let after = texts(out@);
            assert(after =~= before.insert(k as int, xs));
            assert forall|a: int, b: int| 0 <= a < b < after.len() implies text_le(#[trigger] after[a], #[trigger] after[b]) by {
                if a < k && b < k {
                    assert(after[a] == before[a] && after[b] == before[b]);
                } else if a < k && b == k {
                    lemma_text_lt_total(xs, before[a]);
                } else if a < k && b > k {
                    lemma_text_lt_total(xs, before[a]);
                    assert(after[b] == before[b - 1]);
                    if b - 1 > a {
                        assert(text_le(before[a], before[b - 1]));
                    }
                    if text_lt(before[a], xs) && k < m {
                        assert(text_lt(xs, before[k as int]));
                        if k as int <= b - 1 {
                            if k as int == b - 1 {
                            } else {
                                assert(text_le(before[k as int], before[b - 1]));
                            }
                        }
                        if text_lt(xs, before[k as int]) && text_lt(before[k as int], before[b - 1]) {
                            lemma_text_lt_trans(xs, before[k as int], before[b - 1]);
                        }
                        lemma_text_lt_trans(before[a], xs, before[b - 1]);
                    }
                } else if a == k {
                    assert(after[b] == before[b - 1]);
                    assert(text_lt(xs, before[k as int]));
                    if k as int != b - 1 {
                        assert(text_le(before[k as int], before[b - 1]));
                        if text_lt(before[k as int], before[b - 1]) {
                            lemma_text_lt_trans(xs, before[k as int], before[b - 1]);
                        }
                    }
                } else {
                    assert(after[a] == before[a - 1] && after[b] == before[b - 1]);
                }
            }
            lemma_insert_multiset(before, k as int, xs);
            assert(texts(v@).take(i + 1) =~= texts(v@).take(i as int).push(xs));
            vstd::seq_lib::lemma_multiset_commutative(texts(v@).take(i as int), seq![xs]);
            assert(texts(v@).take(i as int).push(xs) =~= texts(v@).take(i as int) + seq![xs]);
            broadcast use vstd::seq_lib::group_to_multiset_ensures;
        }
        i = i + 1;
    }
    assert(texts(v@).take(n as int) =~= texts(v@));
    out
}

} // verus!

verus! {

/// Two lists in order with the same contents are the same list.
pub proof fn lemma_sorted_unique(a: Seq<Seq<char>>, b: Seq<Seq<char>>)
    requires
        sorted(a),
        sorted(b),
        a.to_multiset() == b.to_multiset(),
    ensures
        a == b,
    decreases a.len(),
{
    broadcast use vstd::seq_lib::group_to_multiset_ensures;

    assert(a.to_multiset().len() == a.len());
    assert(b.to_multiset().len() == b.len());
    assert(a.len() == b.len());
    if a.len() > 0 {
        assert(a.contains(a[0]));
        assert(b.to_multiset().count(a[0]) > 0);
        assert(b.contains(a[0]));
        let j = choose|j: int| 0 <= j < b.len() && b[j] == a[0];
        assert(b.contains(b[0]));
        assert(a.to_multiset().count(b[0]) > 0);
        assert(a.contains(b[0]));
        let i = choose|i: int| 0 <= i < a.len() && a[i] == b[0];
        if i > 0 {
            assert(text_le(a[0], a[i]));
        }
        if j > 0 {
            assert(text_le(b[0], b[j]));
        }
        if a[0] != b[0] {
            lemma_text_lt_asymmetric(a[0], b[0]);
        }
        assert(a[0] == b[0]);
        assert(a.remove(0) =~= a.drop_first());
        assert(b.remove(0) =~= b.drop_first());
        assert(a.drop_first().to_multiset() =~= a.to_multiset().remove(a[0]));
        assert(b.drop_first().to_multiset() =~= b.to_multiset().remove(b[0]));
        assert forall|x: int, y: int| 0 <= x < y < a.drop_first().len() implies text_le(
            #[trigger] a.drop_first()[x],
            #[trigger] a.drop_first()[y],
        ) by {
            assert(a.drop_first()[x] == a[x + 1] && a.drop_first()[y] == a[y + 1]);
        }
        assert forall|x: int, y: int| 0 <= x < y < b.drop_first().len() implies text_le(
            #[trigger] b.drop_first()[x],
            #[trigger] b.drop_first()[y],
        ) by {
            assert(b.drop_first()[x] == b[x + 1] && b.drop_first()[y] == b[y + 1]);
        }
        lemma_sorted_unique(a.drop_first(), b.drop_first());
        assert forall|k: int| 0 <= k < a.len() implies a[k] == b[k] by {
            if k > 0 {
                assert(a[k] == a.drop_first()[k - 1]);
                assert(b[k] == b.drop_first()[k - 1]);
            }
        }
        assert(a =~= b);
    } else {
        assert(a =~= b);
    }
}

/// Whether a list of strings holds `text`.
pub fn contains_text(v: &Vec<String>, text: &str) -> (r: bool)
    ensures
        r == texts(v@).contains(text@),
{
    let n = v.len();
    let mut i: usize = 0;
    while i < n
        invariant
            n == v@.len(),
            0 <= i <= n,
            forall|j: int| 0 <= j < i ==> #[trigger] texts(v@)[j] != text@,
        decreases n - i,
    {
        if crate::text::str_eq(v[i].as_str(), text) {
            assert(texts(v@)[i as int] == text@);
            return true;
        }
        i = i + 1;
    }
    false
}

/// Adds `s` to a list kept in strict order, as a set of strings does.
pub fn insert_sorted(v: &mut Vec<String>, s: String)
    requires
        strictly_sorted(texts(old(v)@)),
    ensures
        strictly_sorted(texts(final(v)@)),
        texts(final(v)@).to_set() == texts(old(v)@).to_set().insert(s@),
{
    let ghost before = texts(v@);
    let ghost x = s@;
    let m = v.len();
    let mut k: usize = 0;
    while k < m && str_lt(v[k].as_str(), s.as_str())
        invariant
            m == v@.len(),
            before == texts(v@),
            x == s@,
            0 <= k <= m,
            forall|j: int| 0 <= j < k ==> text_lt(#[trigger] before[j], x),
        decreases m - k,
    {
        k = k + 1;
    }
    if k < m && crate::text::str_eq(v[k].as_str(), s.as_str()) {
        assert(before.to_set().insert(x) =~= before.to_set()) by {
            assert(before[k as int] == x);
        }
        return;
    }
    v.insert(k, s);
    proof {
        let after = texts(v@);
        assert(after =~= before.insert(k as int, x));
        if k < m {
            lemma_text_lt_total(before[k as int], x);
            assert(text_lt(x, before[k as int]));
        }
        assert forall|a: int, b: int| 0 <= a < b < after.len() implies text_lt(#[trigger] after[a], #[trigger] after[b]) by {
            if a < k && b < k {
            } else if a < k && b == k {
            } else if a < k && b > k {
                assert(after[b] == before[b - 1]);
                if b - 1 == k as int {
                    lemma_text_lt_trans(before[a], x, before[k as int]);
                } else {
                    lemma_text_lt_trans(before[a], x, before[k as int]);
                    lemma_text_lt_trans(before[a], before[k as int], before[b - 1]);
                }
            } else if a == k {
                assert(after[b] == before[b - 1]);
                if b - 1 != k as int {
                    lemma_text_lt_trans(x, before[k as int], before[b - 1]);
                }
            } else {
                assert(after[a] == before[a - 1] && after[b] == before[b - 1]);
            }
        }
        assert forall|t: Seq<char>| after.to_set().contains(t) <==> before.to_set().insert(x).contains(t) by {
            if after.contains(t) {
                let j = choose|j: int| 0 <= j < after.len() && after[j] == t;
                if j < k {
                    assert(before[j] == t);
                } else if j > k {
                    assert(before[j - 1] == t);
                }
            }
            if before.contains(t) {
                let j = choose|j: int| 0 <= j < before.len() && before[j] == t;
                if j < k {
                    assert(after[j] == t);
                } else {
                    assert(after[j + 1] == t);
                }
            }
            if t == x {
                assert(after[k as int] == t);
            }
        }
        assert(after.to_set() =~= before.to_set().insert(x));
    }
}

} // verus!
