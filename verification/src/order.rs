//! Lexicographic orders on text and sorted, duplicate-free collections ordered by them.

use vstd::prelude::*;

verus! {

/// `lt` is a strict total order
pub open spec fn strict_total_order<T>(lt: spec_fn(T, T) -> bool) -> bool {
    &&& forall|a: T| !#[trigger] lt(a, a)
    &&& forall|a: T, b: T, c: T| #[trigger] lt(a, b) && #[trigger] lt(b, c) ==> lt(a, c)
    &&& forall|a: T, b: T| a != b ==> #[trigger] lt(a, b) || #[trigger] lt(b, a)
}

/// Lexicographic order on sequences: a proper prefix comes first
pub open spec fn lex_lt<T>(a: Seq<T>, b: Seq<T>, lt: spec_fn(T, T) -> bool) -> bool
    decreases a.len(),
{
    if a.len() == 0 {
        b.len() > 0
    } else if b.len() == 0 {
        false
    } else if lt(a[0], b[0]) {
        true
    } else if a[0] == b[0] {
        lex_lt(a.drop_first(), b.drop_first(), lt)
    } else {
        false
    }
}

/// Characters ordered by their code point (as `char` and, through UTF-8, `str` order them)
pub open spec fn char_lt(a: char, b: char) -> bool {
    (a as int) < (b as int)
}

/// Text ordered as `String` orders it
pub open spec fn text_lt(a: Seq<char>, b: Seq<char>) -> bool {
    lex_lt(a, b, |x: char, y: char| char_lt(x, y))
}

/// Lists of texts ordered as `Vec<String>` orders them
pub open spec fn texts_lt(a: Seq<Seq<char>>, b: Seq<Seq<char>>) -> bool {
    lex_lt(a, b, |x: Seq<char>, y: Seq<char>| text_lt(x, y))
}

proof fn lemma_lex_irreflexive<T>(a: Seq<T>, lt: spec_fn(T, T) -> bool)
    requires
        strict_total_order(lt),
    ensures
        !lex_lt(a, a, lt),
    decreases a.len(),
{
    if a.len() > 0 {
        assert(!lt(a[0], a[0]));
        lemma_lex_irreflexive(a.drop_first(), lt);
    }
}

proof fn lemma_lex_transitive<T>(a: Seq<T>, b: Seq<T>, c: Seq<T>, lt: spec_fn(T, T) -> bool)
    requires
        strict_total_order(lt),
        lex_lt(a, b, lt),
        lex_lt(b, c, lt),
    ensures
        lex_lt(a, c, lt),
    decreases a.len(),
{
    if a.len() > 0 && b.len() > 0 && c.len() > 0 {
        if lt(a[0], b[0]) && lt(b[0], c[0]) {
            assert(lt(a[0], c[0]));
        } else if lt(a[0], b[0]) {
            assert(b[0] == c[0]);
        } else if lt(b[0], c[0]) {
            assert(a[0] == b[0]);
        } else {
            assert(a[0] == b[0] && b[0] == c[0]);
            lemma_lex_transitive(a.drop_first(), b.drop_first(), c.drop_first(), lt);
        }
    }
}

proof fn lemma_lex_total<T>(a: Seq<T>, b: Seq<T>, lt: spec_fn(T, T) -> bool)
    requires
        strict_total_order(lt),
        a != b,
    ensures
        lex_lt(a, b, lt) || lex_lt(b, a, lt),
    decreases a.len(),
{
    if a.len() == 0 {
        assert(b.len() > 0) by {
            if b.len() == 0 {
                assert(a =~= b);
            }
        }
    } else if b.len() > 0 {
        if a[0] == b[0] {
            assert(a.drop_first() != b.drop_first()) by {
                if a.drop_first() == b.drop_first() {
                    assert(a =~= seq![a[0]] + a.drop_first());
                    assert(b =~= seq![b[0]] + b.drop_first());
                }
            }
            lemma_lex_total(a.drop_first(), b.drop_first(), lt);
        }
    }
}

/// The lexicographic order built on a strict total order is a strict total order
pub proof fn lemma_lex_strict_total_order<T>(lt: spec_fn(T, T) -> bool)
    requires
        strict_total_order(lt),
    ensures
        strict_total_order(|a: Seq<T>, b: Seq<T>| lex_lt(a, b, lt)),
{
    let l = |a: Seq<T>, b: Seq<T>| lex_lt(a, b, lt);
    assert forall|a: Seq<T>| !#[trigger] l(a, a) by {
        lemma_lex_irreflexive(a, lt);
    }
    assert forall|a: Seq<T>, b: Seq<T>, c: Seq<T>| #[trigger] l(a, b) && #[trigger] l(b, c) implies l(
        a,
        c,
    ) by {
        lemma_lex_transitive(a, b, c, lt);
    }
    assert forall|a: Seq<T>, b: Seq<T>| a != b implies #[trigger] l(a, b) || #[trigger] l(b, a) by {
        lemma_lex_total(a, b, lt);
    }
}

pub proof fn lemma_text_order()
    ensures
        strict_total_order(|a: Seq<char>, b: Seq<char>| text_lt(a, b)),
        strict_total_order(|a: Seq<Seq<char>>, b: Seq<Seq<char>>| texts_lt(a, b)),
{
    let c = |x: char, y: char| char_lt(x, y);
    assert(strict_total_order(c)) by {
        assert forall|a: char, b: char| a != b implies #[trigger] c(a, b) || #[trigger] c(b, a) by {
            assert((a as int) != (b as int));
        }
    }
    lemma_lex_strict_total_order(c);
    let t = |x: Seq<char>, y: Seq<char>| text_lt(x, y);
    assert(t =~= (|a: Seq<char>, b: Seq<char>| lex_lt(a, b, c)));
    lemma_lex_strict_total_order(t);
    assert((|a: Seq<Seq<char>>, b: Seq<Seq<char>>| texts_lt(a, b)) =~= (|a: Seq<Seq<char>>, b: Seq<Seq<char>>| lex_lt(a, b, t)));
}

/// Three-way comparison of two texts: negative, zero or positive as `a` is before, equal to
/// or after `b`
pub fn compare_text(a: &[char], b: &[char]) -> (r: i8)
    ensures
        r < 0 <==> text_lt(a@, b@),
        r == 0 <==> a@ == b@,
        r > 0 <==> text_lt(b@, a@),
{
    proof {
        lemma_text_order();
    }
    let mut i: usize = 0;
    assert(a@.subrange(0, a@.len() as int) =~= a@);
    assert(b@.subrange(0, b@.len() as int) =~= b@);
    while i < a.len() && i < b.len()
        invariant
            i <= a@.len(),
            i <= b@.len(),
            a@.subrange(0, i as int) == b@.subrange(0, i as int),
            text_lt(a@, b@) == text_lt(a@.subrange(i as int, a@.len() as int), b@.subrange(i as int, b@.len() as int)),
            text_lt(b@, a@) == text_lt(b@.subrange(i as int, b@.len() as int), a@.subrange(i as int, a@.len() as int)),
        decreases a@.len() - i,
    {
        let ghost ra = a@.subrange(i as int, a@.len() as int);
        let ghost rb = b@.subrange(i as int, b@.len() as int);
        assert(ra[0] == a@[i as int] && rb[0] == b@[i as int]);
        if a[i] < b[i] {
            proof {
                assert(text_lt(ra, rb));
                assert(!text_lt(rb, ra));
            }
            return -1;
        }
        if b[i] < a[i] {
            proof {
                assert(text_lt(rb, ra));
                assert(!text_lt(ra, rb));
            }
            return 1;
        }
        proof {
            assert(a@[i as int] == b@[i as int]);
            assert(ra.drop_first() =~= a@.subrange(i + 1, a@.len() as int));
            assert(rb.drop_first() =~= b@.subrange(i + 1, b@.len() as int));
            assert(a@.subrange(0, i + 1) =~= a@.subrange(0, i as int).push(a@[i as int]));
            assert(b@.subrange(0, i + 1) =~= b@.subrange(0, i as int).push(b@[i as int]));
        }
        i = i + 1;
    }
    let ghost ra = a@.subrange(i as int, a@.len() as int);
    let ghost rb = b@.subrange(i as int, b@.len() as int);
    if a.len() == b.len() {
        proof {
            assert(a@ =~= a@.subrange(0, i as int));
            assert(b@ =~= b@.subrange(0, i as int));
        }
        0
    } else if a.len() < b.len() {
        proof {
            assert(ra.len() == 0 && rb.len() > 0);
            assert(a@ != b@);
        }
        -1
    } else {
        proof {
            assert(rb.len() == 0 && ra.len() > 0);
            assert(a@ != b@) by {
                assert(a@.len() != b@.len());
            }
        }
        1
    }
}

} // verus!

verus! {

/// Values with a strict total order on their views and an executable three-way comparison
pub trait TotallyOrdered: Sized {
    type V;

    spec fn order_view(&self) -> Self::V;

    spec fn view_lt(a: Self::V, b: Self::V) -> bool;

    proof fn lemma_view_order()
        ensures
            strict_total_order(|a: Self::V, b: Self::V| Self::view_lt(a, b)),
    ;

    fn compare_to(&self, other: &Self) -> (r: i8)
        ensures
            r < 0 <==> Self::view_lt(self.order_view(), other.order_view()),
            r == 0 <==> self.order_view() == other.order_view(),
            r > 0 <==> Self::view_lt(other.order_view(), self.order_view()),
    ;
}

/// The views of a sequence of ordered values
pub open spec fn order_views<T: TotallyOrdered>(s: Seq<T>) -> Seq<T::V> {
    s.map_values(|x: T| x.order_view())
}

/// Strictly increasing: sorted and without duplicates
pub open spec fn strictly_sorted<T: TotallyOrdered>(s: Seq<T>) -> bool {
    forall|i: int, j: int|
        0 <= i < j < s.len() ==> T::view_lt(#[trigger] s[i].order_view(), #[trigger] s[j].order_view())
}

/// A duplicate-free collection kept in increasing order
pub struct SortedSet<T> {
    items: Vec<T>,
}

impl<T: TotallyOrdered> SortedSet<T> {
    pub closed spec fn items(&self) -> Seq<T> {
        self.items@
    }

    pub open spec fn wf(&self) -> bool {
        strictly_sorted(self.items())
    }

    /// The views of the elements, in increasing order
    pub open spec fn view(&self) -> Seq<T::V> {
        order_views(self.items())
    }

    pub fn new() -> (r: Self)
        ensures
            r.wf(),
            r.items().len() == 0,
    {
        SortedSet { items: Vec::new() }
    }

    pub fn len(&self) -> (r: usize)
        ensures
            r == self.items().len(),
    {
        self.items.len()
    }

    pub fn as_slice(&self) -> (r: &[T])
        ensures
            r@ == self.items(),
    {
        self.items.as_slice()
    }

    /// Adds `x` unless an element with the same view is present
    pub fn insert(&mut self, x: T)
        requires
            old(self).wf(),
        ensures
            final(self).wf(),
            final(self).view().to_set() == old(self).view().to_set().insert(x.order_view()),
    {
        proof {
            T::lemma_view_order();
        }
        let ghost lt = |a: T::V, b: T::V| T::view_lt(a, b);
        let ghost old_items = self.items();
        let mut p: usize = 0;
        while p < self.items.len() && self.items[p].compare_to(&x) < 0
            invariant
                p <= self.items@.len(),
                self.items@ == old_items,
                forall|i: int| 0 <= i < p ==> T::view_lt(#[trigger] self.items@[i].order_view(), x.order_view()),
            decreases self.items@.len() - p,
        {
            p = p + 1;
        }
        if p < self.items.len() && self.items[p].compare_to(&x) == 0 {
            proof {
                assert(self.view().to_set() =~= old(self).view().to_set().insert(x.order_view())) by {
                    assert(self.view()[p as int] == x.order_view());
                }
            }
            return;
        }
        let ghost xv = x.order_view();
        self.items.insert(p, x);
        proof {
            let s = self.items();
            assert(s == old_items.insert(p as int, s[p as int]));
            assert(forall|i: int| 0 <= i < p ==> s[i] == old_items[i]);
            assert(forall|i: int| p < i < s.len() ==> s[i] == old_items[i - 1]);
            if p < old_items.len() {
                assert(!T::view_lt(old_items[p as int].order_view(), xv));
                assert(old_items[p as int].order_view() != xv);
                assert(lt(xv, old_items[p as int].order_view()));
            }
            assert forall|i: int, j: int| 0 <= i < j < s.len() implies T::view_lt(
                #[trigger] s[i].order_view(),
                #[trigger] s[j].order_view(),
            ) by {
                if j < p {
                } else if j == p {
                    assert(s[i] == old_items[i]);
                } else if i == p {
                    assert(s[j] == old_items[j - 1]);
                    if j - 1 > p {
                        assert(lt(old_items[p as int].order_view(), old_items[j - 1].order_view()));
                    }
                } else if i < p {
                    assert(s[i] == old_items[i]);
                    assert(s[j] == old_items[j - 1]);
                } else {
                    assert(s[i] == old_items[i - 1]);
                    assert(s[j] == old_items[j - 1]);
                }
            }
            assert(self.view() =~= order_views(old_items).insert(p as int, xv));
            assert(self.view().to_set() =~= old(self).view().to_set().insert(xv)) by {
                assert forall|v: T::V| #[trigger] self.view().to_set().contains(v) implies old(
                    self,
                ).view().to_set().insert(xv).contains(v) by {
                    let k = choose|k: int| 0 <= k < self.view().len() && self.view()[k] == v;
                    if k < p {
                        assert(old(self).view()[k] == v);
                    } else if k > p {
                        assert(old(self).view()[k - 1] == v);
                    }
                }
                assert forall|v: T::V| old(self).view().to_set().insert(xv).contains(v) implies #[trigger] self.view().to_set().contains(v) by {
                    if v == xv {
                        assert(self.view()[p as int] == v);
                    } else {
                        let k = choose|k: int| 0 <= k < old(self).view().len() && old(self).view()[k] == v;
                        if k < p {
                            assert(self.view()[k] == v);
                        } else {
                            assert(self.view()[k + 1] == v);
                        }
                    }
                }
            }
        }
    }

    /// A set holding the elements of `v`, without duplicates and in increasing order
    pub fn from_vec(v: Vec<T>) -> (r: Self)
        ensures
            r.wf(),
            r.view().to_set() == order_views(v@).to_set(),
    {
        let mut r = SortedSet::new();
        let mut v = v;
        let ghost all = v@;
        // consume from the back so that ownership moves out of the vector
        while v.len() > 0
            invariant
                r.wf(),
                v@ == all.subrange(0, v@.len() as int),
                r.view().to_set() == order_views(all.subrange(v@.len() as int, all.len() as int)).to_set(),
                v@.len() <= all.len(),
            decreases v@.len(),
        {
            let ghost before = r.view().to_set();
            let ghost n = v@.len();
            let x = v.pop().unwrap();
            proof {
                assert(x == all[n - 1]);
            }
            r.insert(x);
            proof {
                assert(order_views(all.subrange(n - 1, all.len() as int)) =~= seq![x.order_view()]
                    + order_views(all.subrange(n as int, all.len() as int)));
                assert(order_views(all.subrange(n - 1, all.len() as int)).to_set() =~= before.insert(
                    x.order_view(),
                )) by {
                    let a = order_views(all.subrange(n - 1, all.len() as int));
                    let b = order_views(all.subrange(n as int, all.len() as int));
                    assert forall|q: T::V| #[trigger] a.to_set().contains(q) implies before.insert(
                        x.order_view(),
                    ).contains(q) by {
                        let k = choose|k: int| 0 <= k < a.len() && a[k] == q;
                        if k > 0 {
                            assert(b[k - 1] == q);
                        }
                    }
                    assert forall|q: T::V| before.insert(x.order_view()).contains(q) implies #[trigger] a.to_set().contains(
                        q,
                    ) by {
                        if q == x.order_view() {
                            assert(a[0] == q);
                        } else {
                            let k = choose|k: int| 0 <= k < b.len() && b[k] == q;
                            assert(a[k + 1] == q);
                        }
                    }
                }
                assert(v@ =~= all.subrange(0, v@.len() as int));
            }
        }
        proof {
            assert(all.subrange(0, all.len() as int) =~= all);
        }
        r
    }
}

} // verus!

verus! {

/// Pairs ordered by their first component, then by their second
pub open spec fn pair_lt<A, B>(
    a: (A, B),
    b: (A, B),
    lta: spec_fn(A, A) -> bool,
    ltb: spec_fn(B, B) -> bool,
) -> bool {
    lta(a.0, b.0) || (a.0 == b.0 && ltb(a.1, b.1))
}

pub proof fn lemma_pair_order<A, B>(lta: spec_fn(A, A) -> bool, ltb: spec_fn(B, B) -> bool)
    requires
        strict_total_order(lta),
        strict_total_order(ltb),
    ensures
        strict_total_order(|a: (A, B), b: (A, B)| pair_lt(a, b, lta, ltb)),
{
    let l = |a: (A, B), b: (A, B)| pair_lt(a, b, lta, ltb);
    assert forall|a: (A, B), b: (A, B), c: (A, B)| #[trigger] l(a, b) && #[trigger] l(b, c) implies l(
        a,
        c,
    ) by {
        if lta(a.0, b.0) && lta(b.0, c.0) {
            assert(lta(a.0, c.0));
        } else if lta(a.0, b.0) {
        } else if lta(b.0, c.0) {
        } else {
            assert(ltb(a.1, c.1));
        }
    }
    assert forall|a: (A, B), b: (A, B)| a != b implies #[trigger] l(a, b) || #[trigger] l(b, a) by {
        if a.0 == b.0 {
            assert(a.1 != b.1);
        }
    }
}

/// Lists of texts: three-way comparison in `texts_lt` order
pub fn compare_texts(a: &[String], b: &[String]) -> (r: i8)
    ensures
        r < 0 <==> texts_lt(a@.map_values(|s: String| s@), b@.map_values(|s: String| s@)),
        r == 0 <==> a@.map_values(|s: String| s@) == b@.map_values(|s: String| s@),
        r > 0 <==> texts_lt(b@.map_values(|s: String| s@), a@.map_values(|s: String| s@)),
{
    proof {
        lemma_text_order();
    }
    let ghost av = a@.map_values(|s: String| s@);
    let ghost bv = b@.map_values(|s: String| s@);
    let mut i: usize = 0;
    assert(av.subrange(0, av.len() as int) =~= av);
    assert(bv.subrange(0, bv.len() as int) =~= bv);
    while i < a.len() && i < b.len()
        invariant
            av == a@.map_values(|s: String| s@),
            bv == b@.map_values(|s: String| s@),
            i <= a@.len(),
            i <= b@.len(),
            av.subrange(0, i as int) == bv.subrange(0, i as int),
            texts_lt(av, bv) == texts_lt(av.subrange(i as int, av.len() as int), bv.subrange(i as int, bv.len() as int)),
            texts_lt(bv, av) == texts_lt(bv.subrange(i as int, bv.len() as int), av.subrange(i as int, av.len() as int)),
        decreases a@.len() - i,
    {
        let ghost ra = av.subrange(i as int, av.len() as int);
        let ghost rb = bv.subrange(i as int, bv.len() as int);
        assert(ra[0] == av[i as int] && rb[0] == bv[i as int]);
        let ca = crate::text::chars_of(a[i].as_str());
        let cb = crate::text::chars_of(b[i].as_str());
        let c = compare_text(ca.as_slice(), cb.as_slice());
        if c < 0 {
            proof {
                assert(text_lt(ra[0], rb[0]));
                assert(texts_lt(ra, rb));
                assert(!text_lt(rb[0], ra[0]));
                assert(!texts_lt(rb, ra));
            }
            return -1;
        }
        if c > 0 {
            proof {
                assert(texts_lt(rb, ra));
                assert(!text_lt(ra[0], rb[0]));
                assert(!texts_lt(ra, rb));
            }
            return 1;
        }
        proof {
            assert(ra.drop_first() =~= av.subrange(i + 1, av.len() as int));
            assert(rb.drop_first() =~= bv.subrange(i + 1, bv.len() as int));
            assert(av.subrange(0, i + 1) =~= av.subrange(0, i as int).push(av[i as int]));
            assert(bv.subrange(0, i + 1) =~= bv.subrange(0, i as int).push(bv[i as int]));
        }
        i = i + 1;
    }
    if a.len() == b.len() {
        proof {
            assert(av =~= av.subrange(0, i as int));
            assert(bv =~= bv.subrange(0, i as int));
        }
        0
    } else if a.len() < b.len() {
        proof {
            assert(av != bv) by {
                assert(av.len() != bv.len());
            }
        }
        -1
    } else {
        proof {
            assert(av != bv) by {
                assert(av.len() != bv.len());
            }
        }
        1
    }
}

} // verus!
