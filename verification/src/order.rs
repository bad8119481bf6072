//! The order of texts, and lists put in that order.

use vstd::prelude::*;
use vstd::relations::{sorted_by, total_ordering};

use crate::text::{chars, group_views, views};

verus! {

/// Whether `a` comes before `b` or is `b`, compared character by character.
pub open spec fn at_most(a: Seq<char>, b: Seq<char>) -> bool
    decreases a.len(),
{
    if a.len() == 0 {
        true
    } else if b.len() == 0 {
        false
    } else if a[0] == b[0] {
        at_most(a.skip(1), b.skip(1))
    } else {
        a[0] < b[0]
    }
}

/// Whether `a` comes before `b` and is not `b`.
pub open spec fn before(a: Seq<char>, b: Seq<char>) -> bool {
    at_most(a, b) && a != b
}

/// Every text is at most itself.
pub proof fn at_most_reflexive(a: Seq<char>)
    ensures
        at_most(a, a),
    decreases a.len(),
{
    if a.len() > 0 {
        at_most_reflexive(a.skip(1));
    }
}

/// Two texts that are each at most the other are one text.
pub proof fn at_most_antisymmetric(a: Seq<char>, b: Seq<char>)
    requires
        at_most(a, b),
        at_most(b, a),
    ensures
        a == b,
    decreases a.len(),
{
    if a.len() > 0 && b.len() > 0 {
        at_most_antisymmetric(a.skip(1), b.skip(1));
        assert(a =~= seq![a[0]] + a.skip(1));
        assert(b =~= seq![b[0]] + b.skip(1));
    } else {
        assert(a =~= b);
    }
}

/// The order carries over.
pub proof fn at_most_transitive(a: Seq<char>, b: Seq<char>, c: Seq<char>)
    requires
        at_most(a, b),
        at_most(b, c),
    ensures
        at_most(a, c),
    decreases a.len(),
{
    if a.len() > 0 && b.len() > 0 && c.len() > 0 && a[0] == b[0] && b[0] == c[0] {
        at_most_transitive(a.skip(1), b.skip(1), c.skip(1));
    }
}

/// Of two texts one is at most the other.
pub proof fn at_most_total(a: Seq<char>, b: Seq<char>)
    ensures
        at_most(a, b) || at_most(b, a),
    decreases a.len(),
{
    if a.len() > 0 && b.len() > 0 && a[0] == b[0] {
        at_most_total(a.skip(1), b.skip(1));
    }
}

/// Whether `a` comes before `b` or is `b`.
pub fn no_later(a: &str, b: &str) -> (r: bool)
    ensures
        r == at_most(a@, b@),
{
    let left: Vec<char> = chars(a);
    let right: Vec<char> = chars(b);
    let mut i: usize = 0;
    assert(left@.skip(0) =~= left@);
    assert(right@.skip(0) =~= right@);
    while i < left.len() && i < right.len()
        invariant
            i <= left.len(),
            i <= right.len(),
            left@ == a@,
            right@ == b@,
            at_most(a@, b@) == at_most(left@.skip(i as int), right@.skip(i as int)),
        decreases left.len() - i,
    {
        if left[i] != right[i] {
            return left[i] < right[i];
        }
        assert(left@.skip(i as int).skip(1) =~= left@.skip(i + 1));
        assert(right@.skip(i as int).skip(1) =~= right@.skip(i + 1));
        i = i + 1;
    }
    i >= left.len()
}

// --- sorted lists of texts ------------------------------------------------------------------------

/// Texts in order, none before one it comes after.
pub open spec fn sorted(texts: Seq<Seq<char>>) -> bool {
    forall|i: int, j: int| 0 <= i < j < texts.len() ==> at_most(texts[i], texts[j])
}

/// Texts in order, each of them once.
pub open spec fn strictly_sorted(texts: Seq<Seq<char>>) -> bool {
    forall|i: int, j: int| 0 <= i < j < texts.len() ==> before(texts[i], texts[j])
}

/// The same texts in order.
pub open spec fn arranged(texts: Seq<Seq<char>>) -> Seq<Seq<char>> {
    texts.sort_by(|a: Seq<char>, b: Seq<char>| at_most(a, b))
}

/// The order of texts is a total one.
proof fn order_is_total()
    ensures
        total_ordering(|a: Seq<char>, b: Seq<char>| at_most(a, b)),
{
    let leq = |a: Seq<char>, b: Seq<char>| at_most(a, b);
    assert forall|a: Seq<char>| #[trigger] leq(a, a) by {
        at_most_reflexive(a);
    }
    assert forall|a: Seq<char>, b: Seq<char>| #[trigger] leq(a, b) && #[trigger] leq(b, a) implies a
        == b by {
        at_most_antisymmetric(a, b);
    }
    assert forall|a: Seq<char>, b: Seq<char>, c: Seq<char>| #[trigger]
        leq(a, b) && #[trigger] leq(b, c) implies leq(a, c) by {
        at_most_transitive(a, b, c);
    }
    assert forall|a: Seq<char>, b: Seq<char>| #[trigger] leq(a, b) || leq(b, a) by {
        at_most_total(a, b);
    }
}

/// Putting texts in order keeps every one of them, as often as it was there, and orders them.
pub proof fn arranging_keeps(texts: Seq<Seq<char>>)
    ensures
        sorted(arranged(texts)),
        arranged(texts).to_multiset() == texts.to_multiset(),
{
    order_is_total();
    texts.lemma_sort_by_ensures(|a: Seq<char>, b: Seq<char>| at_most(a, b));
    let leq = |a: Seq<char>, b: Seq<char>| at_most(a, b);
    let out = arranged(texts);
    assert forall|i: int, j: int| 0 <= i < j < out.len() implies at_most(out[i], out[j]) by {
        assert(leq(out[i], out[j]));
    }
}

/// There is one way of putting given texts in order.
pub proof fn arranged_is(texts: Seq<Seq<char>>, out: Seq<Seq<char>>)
    requires
        sorted(out),
        out.to_multiset() == texts.to_multiset(),
    ensures
        out == arranged(texts),
{
    order_is_total();
    let leq = |a: Seq<char>, b: Seq<char>| at_most(a, b);
    texts.lemma_sort_by_ensures(leq);
    assert(sorted_by(out, leq));
    vstd::seq_lib::lemma_sorted_unique(out, arranged(texts), leq);
}

/// The same texts in order, each of them once.
pub open spec fn ascending(texts: Set<Seq<char>>) -> Seq<Seq<char>> {
    choose|out: Seq<Seq<char>>| strictly_sorted(out) && #[trigger] out.to_set() == texts
}

/// There is one way of putting the texts of a set in order.
pub proof fn ascending_is(out: Seq<Seq<char>>)
    requires
        strictly_sorted(out),
    ensures
        ascending(out.to_set()) == out,
{
    let other = ascending(out.to_set());
    assert(strictly_sorted(out) && out.to_set() == out.to_set());
    assert(strictly_sorted(other) && other.to_set() == out.to_set());
    once_each(out);
    once_each(other);
    out.lemma_multiset_has_no_duplicates();
    other.lemma_multiset_has_no_duplicates();
    assert forall|t: Seq<char>| out.to_multiset().count(t) == other.to_multiset().count(t) by {
        out.to_multiset_ensures();
        other.to_multiset_ensures();
        assert(out.to_set().contains(t) == other.to_set().contains(t));
        assert(out.contains(t) == other.contains(t));
        assert(out.contains(t) <==> out.to_multiset().count(t) > 0);
        assert(other.contains(t) <==> other.to_multiset().count(t) > 0);
        assert(out.to_multiset().contains(t) ==> out.to_multiset().count(t) == 1);
        assert(other.to_multiset().contains(t) ==> other.to_multiset().count(t) == 1);
    }
    assert(out.to_multiset() =~= other.to_multiset());
    arranged_is(out, out);
    arranged_is(out, other);
}

/// Texts that ascend hold none of them twice.
proof fn once_each(texts: Seq<Seq<char>>)
    requires
        strictly_sorted(texts),
    ensures
        texts.no_duplicates(),
        sorted(texts),
{
    assert forall|i: int, j: int| 0 <= i < texts.len() && 0 <= j < texts.len() && i != j implies
        texts[i] != texts[j] by {
        if i < j {
            assert(before(texts[i], texts[j]));
        } else {
            assert(before(texts[j], texts[i]));
        }
    }
    assert forall|i: int, j: int| 0 <= i < j < texts.len() implies at_most(texts[i], texts[j]) by {
        assert(before(texts[i], texts[j]));
    }
}

/// The same texts in order.
pub fn sort(texts: &Vec<String>) -> (r: Vec<String>)
    ensures
        views(r@) == arranged(views(texts@)),
        sorted(views(r@)),
        views(r@).to_multiset() == views(texts@).to_multiset(),
{
    broadcast use group_views;

    let mut out: Vec<String> = Vec::new();
    let mut i: usize = 0;
    assert(views(texts@).take(0) =~= views(out@));
    while i < texts.len()
        invariant
            i <= texts.len(),
            sorted(views(out@)),
            views(out@).to_multiset() == views(texts@).take(i as int).to_multiset(),
        decreases texts.len() - i,
    {
        let ghost whole = views(texts@);
        insert_sorted(&mut out, &texts[i]);
        i = i + 1;
        proof {
            assert(whole.take(i as int) =~= whole.take(i - 1).push(whole[i - 1]));
            whole.take(i - 1).to_multiset_ensures();
        }
    }
    assert(views(texts@).take(i as int) =~= views(texts@));
    proof {
        arranged_is(views(texts@), views(out@));
    }
    out
}

/// Puts one more text where it belongs among texts in order.
fn insert_sorted(out: &mut Vec<String>, text: &String)
    requires
        sorted(views(old(out)@)),
    ensures
        sorted(views(final(out)@)),
        views(final(out)@).to_multiset() == views(old(out)@).to_multiset().insert(text@),
{
    let ghost held = views(out@);
    let mut at: usize = 0;
    while at < out.len() && no_later(out[at].as_str(), text.as_str())
        invariant
            at <= out.len(),
            views(out@) == held,
            forall|j: int| 0 <= j < at ==> at_most(held[j], text@),
        decreases out.len() - at,
    {
        at = at + 1;
    }
    let ghost place = at as int;
    proof {
        if place < held.len() {
            at_most_total(held[place], text@);
        }
        assert forall|j: int| place <= j < held.len() implies at_most(text@, held[j]) by {
            if j > place {
                at_most_transitive(text@, held[place], held[j]);
            }
        }
    }
    out.insert(at, text.clone());
    proof {
        let now = views(out@);
        assert(now =~= held.insert(place, text@));
        held.to_multiset_ensures();
        held.insert(place, text@).to_multiset_ensures();
        lemma_insert_multiset(held, place, text@);
        assert forall|i: int, j: int| 0 <= i < j < now.len() implies at_most(now[i], now[j]) by {
            let a = if i < place { i } else { i - 1 };
            let b = if j < place { j } else { j - 1 };
            assert(i == place || now[i] == held[a]);
            assert(j == place || now[j] == held[b]);
        }
    }
}

/// Inserting anywhere adds exactly the one text.
proof fn lemma_insert_multiset(texts: Seq<Seq<char>>, at: int, text: Seq<char>)
    requires
        0 <= at <= texts.len(),
    ensures
        texts.insert(at, text).to_multiset() == texts.to_multiset().insert(text),
{
    let left = texts.take(at);
    let right = texts.skip(at);
    assert(texts =~= left + right);
    assert(texts.insert(at, text) =~= (left.push(text)) + right);
    vstd::seq_lib::lemma_multiset_commutative(left, right);
    vstd::seq_lib::lemma_multiset_commutative(left.push(text), right);
    left.to_multiset_ensures();
    assert(texts.insert(at, text).to_multiset() =~= texts.to_multiset().insert(text));
}

/// The same texts in order, each of them once.
pub fn sort_once(texts: &Vec<String>) -> (r: Vec<String>)
    ensures
        views(r@) == ascending(views(texts@).to_set()),
        strictly_sorted(views(r@)),
        views(r@).to_set() == views(texts@).to_set(),
{
    broadcast use group_views;

    let arranged: Vec<String> = sort(texts);
    let ghost all = views(arranged@);
    let mut out: Vec<String> = Vec::new();
    let mut i: usize = 0;
    while i < arranged.len()
        invariant
            i <= arranged.len(),
            all == views(arranged@),
            sorted(all),
            strictly_sorted(views(out@)),
            views(out@).len() == out.len(),
            forall|t: Seq<char>| #[trigger]
                views(out@).contains(t) <==> all.take(i as int).contains(t),
            out.len() == 0 <==> i == 0,
            i > 0 ==> views(out@).last() == all[i - 1],
        decreases arranged.len() - i,
    {
        let fresh: bool = if out.len() == 0 {
            true
        } else {
            !crate::text::same(out[out.len() - 1].as_str(), arranged[i].as_str())
        };
        let ghost held = views(out@);
        let ghost text = all[i as int];
        if fresh {
            proof {
                assert forall|j: int| 0 <= j < held.len() implies before(held[j], text) by {
                    assert(held.contains(held[j]));
                    let k = choose|k: int| 0 <= k < i && all.take(i as int)[k] == held[j];
                    assert(at_most(all[k], text));
                    if held[j] == text {
                        assert(at_most(all[k], all[i - 1]) || k == i - 1);
                        assert(at_most(all[i - 1], text));
                        if k < i - 1 {
                            at_most_antisymmetric(all[i - 1], text);
                        }
                    }
                }
            }
            out.push(arranged[i].clone());
            proof {
                let now = views(out@);
                assert(now == held.push(text));
                assert forall|a: int, b: int| 0 <= a < b < now.len() implies before(
                    now[a],
                    now[b],
                ) by {
                    assert(now[a] == held[a]);
                    if b < held.len() {
                        assert(now[b] == held[b]);
                    }
                }
            }
        }
        i = i + 1;
        proof {
            assert(all.take(i as int) =~= all.take(i - 1).push(text));
            assert forall|t: Seq<char>| #[trigger]
                views(out@).contains(t) <==> all.take(i as int).contains(t) by {
                let seen = all.take(i - 1);
                if fresh {
                    assert(views(out@) == held.push(text));
                    if held.push(text).contains(t) {
                        let k = choose|k: int| 0 <= k < held.push(text).len() && held.push(text)[k] == t;
                        if k < held.len() {
                            assert(held[k] == t);
                            assert(held.contains(t));
                            let m = choose|m: int| 0 <= m < seen.len() && seen[m] == t;
                            assert(seen.push(text)[m] == t);
                        } else {
                            assert(seen.push(text)[i - 1] == t);
                        }
                    }
                    if seen.push(text).contains(t) {
                        let k = choose|k: int| 0 <= k < seen.push(text).len() && seen.push(text)[k] == t;
                        if k < seen.len() {
                            assert(seen[k] == t);
                            assert(held.contains(t));
                            let m = choose|m: int| 0 <= m < held.len() && held[m] == t;
                            assert(held.push(text)[m] == t);
                        } else {
                            assert(held.push(text)[held.len() as int] == t);
                        }
                    }
                } else {
                    assert(held.last() == text);
                    assert(held.contains(text));
                    if seen.push(text).contains(t) {
                        let k = choose|k: int| 0 <= k < seen.push(text).len() && seen.push(text)[k] == t;
                        if k < seen.len() {
                            assert(seen[k] == t);
                        }
                    }
                    if held.contains(t) {
                        let m = choose|m: int| 0 <= m < seen.len() && seen[m] == t;
                        assert(seen.push(text)[m] == t);
                    }
                }
            }
        }
    }
    proof {
        assert(all.take(i as int) =~= all);
        all.to_multiset_ensures();
        views(texts@).to_multiset_ensures();
        assert(views(out@).to_set() =~= views(texts@).to_set()) by {
            assert forall|t: Seq<char>| views(out@).contains(t) == views(texts@).contains(t) by {
                assert(all.contains(t) <==> all.to_multiset().contains(t));
                assert(views(texts@).contains(t) <==> views(texts@).to_multiset().contains(t));
            }
        }
    }
    proof {
        ascending_is(views(out@));
    }
    out
}

/// Where two texts of one length are in order, so are they with anything behind them.
pub proof fn order_is_settled_in_front(a: Seq<char>, b: Seq<char>, x: Seq<char>, y: Seq<char>)
    requires
        a.len() == b.len(),
        before(a, b),
    ensures
        before(a + x, b + y),
    decreases a.len(),
{
    assert((a + x).take(a.len() as int) =~= a);
    assert((b + y).take(a.len() as int) =~= b);
    if a.len() == 0 {
        assert(a =~= b);
    } else if a[0] == b[0] {
        let (p, q) = (a.skip(1), b.skip(1));
        if p == q {
            assert(a =~= seq![a[0]] + p);
            assert(b =~= seq![b[0]] + q);
        }
        order_is_settled_in_front(p, q, x, y);
        assert((a + x).skip(1) =~= p + x);
        assert((b + y).skip(1) =~= q + y);
    }
}

/// Two texts in order stay in order behind one and the same text.
pub proof fn order_is_kept_behind(a: Seq<char>, x: Seq<char>, y: Seq<char>)
    requires
        before(x, y),
    ensures
        before(a + x, a + y),
    decreases a.len(),
{
    assert((a + x).skip(a.len() as int) =~= x);
    assert((a + y).skip(a.len() as int) =~= y);
    if a.len() == 0 {
        assert(a + x =~= x);
        assert(a + y =~= y);
    } else {
        order_is_kept_behind(a.skip(1), x, y);
        assert((a + x).skip(1) =~= a.skip(1) + x);
        assert((a + y).skip(1) =~= a.skip(1) + y);
    }
}

}
