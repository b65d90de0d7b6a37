//! The order of strings that `Ord` gives `String` (lexicographic, character by
//! character; UTF-8 keeps the order of code points), and a sort by it.
use vstd::prelude::*;
use vstd::relations::{sorted_by, total_ordering};

use crate::text::{chars_of, strings_view};

verus! {

broadcast use vstd::string::group_string_axioms;

/// `a` comes before `b` or equals it, comparing characters from the left and a
/// prefix before any longer string.
pub open spec fn str_le(a: Seq<char>, b: Seq<char>) -> bool
    decreases a.len(),
{
    if a.len() == 0 {
        true
    } else if b.len() == 0 {
        false
    } else if a[0] != b[0] {
        (a[0] as int) < (b[0] as int)
    } else {
        str_le(a.drop_first(), b.drop_first())
    }
}

/// The order as a relation.
pub open spec fn str_order() -> spec_fn(Seq<char>, Seq<char>) -> bool {
    |a: Seq<char>, b: Seq<char>| str_le(a, b)
}

proof fn lemma_str_le_total(a: Seq<char>, b: Seq<char>)
    ensures
        str_le(a, b) || str_le(b, a),
    decreases a.len(),
{
    if a.len() > 0 && b.len() > 0 {
        if a[0] == b[0] {
            lemma_str_le_total(a.drop_first(), b.drop_first());
        } else {
            assert((a[0] as int) != (b[0] as int));
        }
    }
}

proof fn lemma_str_le_antisymmetric(a: Seq<char>, b: Seq<char>)
    requires
        str_le(a, b),
        str_le(b, a),
    ensures
        a == b,
    decreases a.len(),
{
    if a.len() > 0 && b.len() > 0 {
        lemma_str_le_antisymmetric(a.drop_first(), b.drop_first());
        assert(a =~= seq![a[0]] + a.drop_first());
        assert(b =~= seq![b[0]] + b.drop_first());
    } else {
        assert(a.len() == 0 && b.len() == 0);
        assert(a =~= b);
    }
}

proof fn lemma_str_le_transitive(a: Seq<char>, b: Seq<char>, c: Seq<char>)
    requires
        str_le(a, b),
        str_le(b, c),
    ensures
        str_le(a, c),
    decreases a.len(),
{
    if a.len() > 0 && b.len() > 0 && c.len() > 0 && a[0] == b[0] && b[0] == c[0] {
        lemma_str_le_transitive(a.drop_first(), b.drop_first(), c.drop_first());
    }
}

proof fn lemma_str_le_reflexive(a: Seq<char>)
    ensures
        str_le(a, a),
    decreases a.len(),
{
    if a.len() > 0 {
        lemma_str_le_reflexive(a.drop_first());
    }
}

/// The order is total.
pub proof fn lemma_str_order_total()
    ensures
        total_ordering(str_order()),
{
    assert forall|a: Seq<char>| #[trigger] str_order()(a, a) by {
        lemma_str_le_reflexive(a);
    }
    assert forall|a: Seq<char>, b: Seq<char>|
        #[trigger] str_order()(a, b) && #[trigger] str_order()(b, a) implies a == b by {
        lemma_str_le_antisymmetric(a, b);
    }
    assert forall|a: Seq<char>, b: Seq<char>, c: Seq<char>|
        #[trigger] str_order()(a, b) && #[trigger] str_order()(b, c) implies str_order()(
        a,
        c,
    ) by {
        lemma_str_le_transitive(a, b, c);
    }
    assert forall|a: Seq<char>, b: Seq<char>|
        #[trigger] str_order()(a, b) || #[trigger] str_order()(b, a) by {
        lemma_str_le_total(a, b);
    }
}

/// Whether `a` comes before `b` or equals it.
pub fn str_le_exec(a: &[char], b: &[char]) -> (r: bool)
    ensures
        r == str_le(a@, b@),
{
    let mut i: usize = 0;
    assert(a@.skip(0) =~= a@);
    assert(b@.skip(0) =~= b@);
    assert(a@.take(0) =~= b@.take(0));
    while i < a.len() && i < b.len() && a[i] == b[i]
        invariant
            i <= a@.len(),
            i <= b@.len(),
            a@.take(i as int) == b@.take(i as int),
            str_le(a@, b@) == str_le(a@.skip(i as int), b@.skip(i as int)),
        decreases a@.len() - i,
    {
        proof {
            let x = a@.skip(i as int);
            let y = b@.skip(i as int);
            assert(x.drop_first() =~= a@.skip(i + 1));
            assert(y.drop_first() =~= b@.skip(i + 1));
            assert(a@.take(i + 1) =~= a@.take(i as int).push(a@[i as int]));
            assert(b@.take(i + 1) =~= b@.take(i as int).push(b@[i as int]));
        }
        i = i + 1;
    }
    if i == a.len() {
        return true;
    }
    if i == b.len() {
        return false;
    }
    assert(a@.skip(i as int)[0] == a@[i as int]);
    assert(b@.skip(i as int)[0] == b@[i as int]);
    a[i] < b[i]
}

/// The strings in order (`sort` on a list of `String`s): sorted, with the same
/// strings as before.
pub fn sort_strings(v: Vec<String>) -> (r: Vec<String>)
    ensures
        sorted_by(strings_view(r@), str_order()),
        strings_view(r@).to_multiset() == strings_view(v@).to_multiset(),
        r@.len() == v@.len(),
{
    broadcast use vstd::seq_lib::group_to_multiset_ensures;

    proof {
        lemma_str_order_total();
    }
    let ghost input = strings_view(v@);
    let mut out: Vec<String> = Vec::new();
    let mut keys: Vec<Vec<char>> = Vec::new();
    let mut i: usize = 0;
    assert(input.take(0) =~= Seq::<Seq<char>>::empty());
    assert(strings_view(out@) =~= Seq::<Seq<char>>::empty());
    while i < v.len()
        invariant
            i <= v@.len(),
            input == strings_view(v@),
            total_ordering(str_order()),
            out@.len() == keys@.len(),
            forall|k: int| 0 <= k < keys@.len() ==> (#[trigger] keys@[k])@ == out@[k]@,
            sorted_by(strings_view(out@), str_order()),
            strings_view(out@).to_multiset() == input.take(i as int).to_multiset(),
            out@.len() == i,
        decreases v@.len() - i,
    {
        let x = chars_of(v[i].as_str());
        let ghost sv = strings_view(out@);
        let mut p: usize = 0;
        while p < out.len() && str_le_exec(keys[p].as_slice(), x.as_slice())
            invariant
                p <= out@.len(),
                out@.len() == keys@.len(),
                sv == strings_view(out@),
                forall|k: int| 0 <= k < keys@.len() ==> (#[trigger] keys@[k])@ == out@[k]@,
                forall|k: int| 0 <= k < p ==> str_le(#[trigger] sv[k], x@),
            decreases out@.len() - p,
        {
            p = p + 1;
        }
        proof {
            assert(forall|k: int| 0 <= k < p ==> str_le(#[trigger] sv[k], x@));
            if p < out@.len() {
                assert(!str_le(sv[p as int], x@));
                assert forall|k: int| p <= k < sv.len() implies str_le(x@, #[trigger] sv[k]) by {
                    lemma_str_le_total(sv[k], x@);
                    if !str_le(x@, sv[k]) {
                        assert(str_le(sv[k], x@));
                        if k == p {
                            lemma_str_le_reflexive(sv[k]);
                        } else {
                            assert(str_order()(sv[p as int], sv[k]));
                        }
                        assert(str_le(sv[p as int], sv[k]));
                        lemma_str_le_transitive(sv[p as int], sv[k], x@);
                    }
                }
            }
        }
        let ghost item = v@[i as int];
        out.insert(p, crate::text::copy_string(v[i].as_str()));
        keys.insert(p, x);
        proof {
            let nv = strings_view(out@);
            assert(nv =~= sv.insert(p as int, x@));
            vstd::seq_lib::to_multiset_insert(sv, p as int, x@);
            assert(input.take(i + 1) =~= input.take(i as int).push(input[i as int]));
            vstd::seq_lib::to_multiset_build(input.take(i as int), input[i as int]);
            assert(input[i as int] == x@);
            assert forall|a: int, b: int| 0 <= a < b < nv.len() implies str_order()(
                #[trigger] nv[a],
                #[trigger] nv[b],
            ) by {
                if b < p {
                } else if b == p {
                    assert(nv[a] == sv[a]);
                } else if a == p {
                    assert(nv[b] == sv[b - 1]);
                } else if a < p {
                    assert(nv[a] == sv[a] && nv[b] == sv[b - 1]);
                    assert(str_le(sv[a], x@));
                    assert(str_le(x@, sv[b - 1]));
                    lemma_str_le_transitive(sv[a], x@, sv[b - 1]);
                } else {
                    assert(nv[a] == sv[a - 1] && nv[b] == sv[b - 1]);
                }
            }
            assert forall|k: int| 0 <= k < keys@.len() implies (#[trigger] keys@[k])@
                == out@[k]@ by {
                if k < p {
                } else if k == p {
                } else {
                }
            }
        }
        i = i + 1;
    }
    assert(input.take(v@.len() as int) =~= input);
    out
}

} // verus!
