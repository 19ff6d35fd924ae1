//! Templates: text in which `%name%` stands for the value of a field.
//!
//! Every `%` switches between copying and reading a placeholder, so the `%`
//! of a template cut it into pieces of which the first, third, fifth... are
//! copied and the second, fourth... are placeholders. `%%` is the empty
//! placeholder, which stands for a single `%`. A template in which a last `%`
//! opens a placeholder that nothing closes is not terminated.

use crate::failure::{Failure, FailureView};
use crate::text::{owned, texts, to_chars};
use vstd::hash_map::StringHashMap;
use vstd::prelude::*;
use vstd::string::*;

verus! {

/// Where the first `%` of `t` stands; `t.len()` where `t` has none.
pub open spec fn first_percent(t: Seq<char>) -> int
    decreases t.len(),
{
    if t.len() == 0 || t[0] == '%' {
        0
    } else {
        1 + first_percent(t.skip(1))
    }
}

/// `first_percent` is within the text, points at a `%` unless it is the
/// length, and no `%` stands before it.
pub proof fn lemma_first_percent(t: Seq<char>)
    ensures
        0 <= first_percent(t) <= t.len(),
        first_percent(t) < t.len() ==> t[first_percent(t)] == '%',
        forall|j: int| 0 <= j < first_percent(t) ==> t[j] != '%',
    decreases t.len(),
{
    if !(t.len() == 0 || t[0] == '%') {
        let rest = t.skip(1);
        lemma_first_percent(rest);
        assert forall|j: int| 0 <= j < first_percent(t) implies t[j] != '%' by {
            if j > 0 {
                assert(t[j] == rest[j - 1]);
            }
        }
    }
}

/// The position that no `%` precedes and that holds one, or the length, is
/// `first_percent`.
pub proof fn lemma_first_percent_at(t: Seq<char>, k: int)
    requires
        0 <= k <= t.len(),
        forall|j: int| 0 <= j < k ==> t[j] != '%',
        k < t.len() ==> t[k] == '%',
    ensures
        first_percent(t) == k,
{
    lemma_first_percent(t);
}

/// The pieces into which the `%` of `t` cut it, in order: one more than `t`
/// has `%`.
pub open spec fn pieces(t: Seq<char>) -> Seq<Seq<char>>
    decreases t.len(),
    via pieces_decreases
{
    let i = first_percent(t);
    if i >= t.len() {
        seq![t]
    } else {
        seq![t.take(i)] + pieces(t.skip(i + 1))
    }
}

#[via_fn]
proof fn pieces_decreases(t: Seq<char>) {
    lemma_first_percent(t);
}

/// Whether every placeholder of `t` is closed: `t` has an even number of `%`.
pub open spec fn terminated(t: Seq<char>) -> bool {
    pieces(t).len() % 2 == 1
}

/// The texts of the placeholders of `t`, in order, each as often as it occurs.
pub open spec fn placeholders(t: Seq<char>) -> Seq<Seq<char>> {
    Seq::new(pieces(t).len() / 2, |i: int| pieces(t)[2 * i + 1])
}

/// The pieces `p` put together again: the first, third... as they are, the
/// second, fourth... replaced by what `ctx` holds for them.
pub open spec fn woven(p: Seq<Seq<char>>, ctx: Map<Seq<char>, Seq<char>>) -> Seq<char>
    decreases p.len(),
{
    if p.len() == 0 {
        Seq::empty()
    } else if p.len() % 2 == 1 {
        woven(p.drop_last(), ctx) + p.last()
    } else {
        woven(p.drop_last(), ctx) + ctx[p.last()]
    }
}

/// The template `t` with every placeholder replaced by what `ctx` holds for
/// its text, and everything else copied.
pub open spec fn rendered(t: Seq<char>, ctx: Map<Seq<char>, Seq<char>>) -> Seq<char> {
    woven(pieces(t), ctx)
}

/// Whether `ctx` holds a value for every placeholder of `t`.
pub open spec fn covers(ctx: Map<Seq<char>, Seq<char>>, t: Seq<char>) -> bool {
    forall|i: int|
        0 <= i < placeholders(t).len() ==> ctx.contains_key(#[trigger] placeholders(t)[i])
}

/// A `%` between two texts separates their pieces.
pub proof fn lemma_pieces_concat(a: Seq<char>, b: Seq<char>)
    ensures
        pieces(a + seq!['%'] + b) == pieces(a) + pieces(b),
    decreases a.len(),
{
    let t = a + seq!['%'] + b;
    lemma_first_percent(a);
    let i = first_percent(a);
    assert forall|j: int| 0 <= j < i implies t[j] != '%' by {
        assert(t[j] == a[j]);
    }
    lemma_first_percent_at(t, i);
    if i >= a.len() {
        assert(t.take(i) =~= a);
        assert(t.skip(i + 1) =~= b);
    } else {
        let rest = a.skip(i + 1);
        assert(t.take(i) =~= a.take(i));
        assert(t.skip(i + 1) =~= rest + seq!['%'] + b);
        lemma_pieces_concat(rest, b);
    }
}

/// After an even number of pieces the weaving starts afresh.
pub proof fn lemma_woven_concat(
    x: Seq<Seq<char>>,
    y: Seq<Seq<char>>,
    ctx: Map<Seq<char>, Seq<char>>,
)
    requires
        x.len() % 2 == 0,
    ensures
        woven(x + y, ctx) == woven(x, ctx) + woven(y, ctx),
    decreases y.len(),
{
    if y.len() > 0 {
        assert((x + y).drop_last() =~= x + y.drop_last());
        lemma_woven_concat(x, y.drop_last(), ctx);
    }
}

/// A text without `%` is one piece: a terminated template without
/// placeholders that renders as itself.
pub proof fn lemma_literal_template(t: Seq<char>, ctx: Map<Seq<char>, Seq<char>>)
    requires
        !t.contains('%'),
    ensures
        pieces(t) == seq![t],
        terminated(t),
        placeholders(t).len() == 0,
        rendered(t, ctx) == t,
{
    lemma_first_percent(t);
    assert(woven(pieces(t).drop_last(), ctx) =~= Seq::<char>::empty());
}

/// After a terminated template `a`, `%%` is a placeholder of its own: the
/// empty one. With `b` behind it the whole renders as `a`, then what `ctx`
/// holds for the empty text, then `b`; and it is terminated exactly if `b` is.
pub proof fn lemma_double_percent(a: Seq<char>, b: Seq<char>, ctx: Map<Seq<char>, Seq<char>>)
    requires
        terminated(a),
    ensures
        rendered(a + seq!['%', '%'] + b, ctx) == rendered(a, ctx) + ctx[Seq::<char>::empty()]
            + rendered(b, ctx),
        terminated(a + seq!['%', '%'] + b) == terminated(b),
        placeholders(a + seq!['%', '%'] + b) == placeholders(a) + seq![Seq::<char>::empty()]
            + placeholders(b),
{
    let empty = Seq::<char>::empty();
    let t = a + seq!['%', '%'] + b;
    assert(t =~= a + seq!['%'] + (empty + seq!['%'] + b));
    lemma_pieces_concat(a, empty + seq!['%'] + b);
    lemma_pieces_concat(empty, b);
    lemma_first_percent(empty);
    let x = pieces(a) + seq![empty];
    assert(pieces(t) =~= x + pieces(b));
    lemma_woven_concat(x, pieces(b), ctx);
    assert(x.drop_last() =~= pieces(a));
    assert(placeholders(t) =~= placeholders(a) + seq![empty] + placeholders(b)) by {
        let pa = pieces(a);
        let pb = pieces(b);
        let pt = pieces(t);
        assert forall|i: int| 0 <= i < placeholders(t).len() implies placeholders(t)[i] == (
        placeholders(a) + seq![empty] + placeholders(b))[i] by {
            if i < pa.len() / 2 {
                assert(pt[2 * i + 1] == pa[2 * i + 1]);
            } else if i > pa.len() / 2 {
                let k = i - pa.len() / 2 - 1;
                assert(pt[2 * i + 1] == pb[2 * k + 1]);
            }
        }
    }
}

/// Two contexts that hold the same for every placeholder among the pieces
/// weave them alike.
pub proof fn lemma_woven_agree(
    p: Seq<Seq<char>>,
    c1: Map<Seq<char>, Seq<char>>,
    c2: Map<Seq<char>, Seq<char>>,
)
    requires
        forall|j: int| 0 <= j < p.len() && j % 2 == 1 ==> c1[#[trigger] p[j]] == c2[p[j]],
    ensures
        woven(p, c1) == woven(p, c2),
    decreases p.len(),
{
    if p.len() > 0 {
        let init = p.drop_last();
        assert forall|j: int| 0 <= j < init.len() && j % 2 == 1 implies c1[#[trigger] init[j]]
            == c2[init[j]] by {
            assert(init[j] == p[j]);
        }
        lemma_woven_agree(init, c1, c2);
    }
}

/// Two contexts that hold the same for every placeholder of `t` render `t`
/// alike.
pub proof fn lemma_rendered_agree(
    t: Seq<char>,
    c1: Map<Seq<char>, Seq<char>>,
    c2: Map<Seq<char>, Seq<char>>,
)
    requires
        forall|i: int|
            0 <= i < placeholders(t).len() ==> c1[#[trigger] placeholders(t)[i]]
                == c2[placeholders(t)[i]],
    ensures
        rendered(t, c1) == rendered(t, c2),
{
    let p = pieces(t);
    assert forall|j: int| 0 <= j < p.len() && j % 2 == 1 implies c1[#[trigger] p[j]]
        == c2[p[j]] by {
        let i = j / 2;
        assert(placeholders(t)[i] == p[2 * i + 1]);
    }
    lemma_woven_agree(p, c1, c2);
}

/// The texts of `specs` that are not empty, each once, in the order in which
/// they first occur.
pub open spec fn unique_specs(specs: Seq<Seq<char>>) -> Seq<Seq<char>>
    decreases specs.len(),
{
    if specs.len() == 0 {
        Seq::empty()
    } else {
        let before = unique_specs(specs.drop_last());
        let s = specs.last();
        if s.len() == 0 || before.contains(s) {
            before
        } else {
            before.push(s)
        }
    }
}

/// `unique_specs` holds every text of `specs` that is not empty, holds
/// nothing else, and holds nothing twice.
pub proof fn lemma_unique_specs(specs: Seq<Seq<char>>)
    ensures
        unique_specs(specs).no_duplicates(),
        unique_specs(specs).len() <= specs.len(),
        forall|k: Seq<char>| #[trigger]
            unique_specs(specs).contains(k) <==> specs.contains(k) && k.len() > 0,
    decreases specs.len(),
{
    if specs.len() > 0 {
        let init = specs.drop_last();
        let s = specs.last();
        let before = unique_specs(init);
        lemma_unique_specs(init);
        assert forall|k: Seq<char>| #[trigger]
            unique_specs(specs).contains(k) <==> specs.contains(k) && k.len() > 0 by {
            if specs.contains(k) {
                let i = choose|i: int| 0 <= i < specs.len() && specs[i] == k;
                if i < init.len() {
                    assert(init[i] == k);
                }
            }
            if init.contains(k) {
                let i = choose|i: int| 0 <= i < init.len() && init[i] == k;
                assert(specs[i] == k);
            }
            if !(s.len() == 0 || before.contains(s)) {
                let after = before.push(s);
                assert(after[before.len() as int] == s);
                if before.contains(k) {
                    let i = choose|i: int| 0 <= i < before.len() && before[i] == k;
                    assert(after[i] == k);
                }
            }
        }
    }
}

/// However often one placeholder is repeated in a template, it is resolved
/// once.
pub proof fn lemma_repeated_spec_resolved_once(x: Seq<char>, n: nat)
    requires
        x.len() > 0,
        n >= 1,
    ensures
        unique_specs(Seq::new(n, |i: int| x)) == seq![x],
    decreases n,
{
    let specs = Seq::new(n, |i: int| x);
    let init = Seq::new((n - 1) as nat, |i: int| x);
    assert(specs.drop_last() =~= init);
    if n == 1 {
        assert(unique_specs(init) =~= Seq::<Seq<char>>::empty());
    } else {
        lemma_repeated_spec_resolved_once(x, (n - 1) as nat);
        assert(seq![x][0] == x);
    }
}

/// Cuts `fmt` at every `%`.
pub fn split(fmt: &str) -> (r: Vec<String>)
    ensures
        texts(r@) == pieces(fmt@),
{
    let chars = to_chars(fmt);
    let n = chars.len();
    let mut out: Vec<String> = Vec::new();
    let mut start: usize = 0;
    let mut i: usize = 0;
    proof {
        assert(fmt@.skip(0) =~= fmt@);
    }
    while i < n
        invariant
            chars@ == fmt@,
            n == chars.len(),
            start <= i <= n,
            forall|j: int| start <= j < i ==> chars@[j] != '%',
            pieces(fmt@) == texts(out@) + pieces(fmt@.skip(start as int)),
        decreases n - i,
    {
        if chars[i] == '%' {
            let ghost before = out@;
            let piece = owned(fmt.substring_char(start, i));
            out.push(piece);
            proof {
                let rest = fmt@.skip(start as int);
                lemma_first_percent_at(rest, i - start);
                assert(rest.take(i - start) =~= fmt@.subrange(start as int, i as int));
                assert(rest.skip(i - start + 1) =~= fmt@.skip(i + 1));
            }
            start = i + 1;
        }
        i += 1;
    }
    let ghost before = out@;
    let piece = owned(fmt.substring_char(start, n));
    out.push(piece);
    proof {
        let rest = fmt@.skip(start as int);
        lemma_first_percent_at(rest, rest.len() as int);
    }
    out
}

/// The texts of the placeholders of `fmt`, in order and with repetitions. A
/// template that is not terminated has none to give.
pub fn specifiers(fmt: &str) -> (r: Result<Vec<String>, Failure>)
    ensures
        match r {
            Ok(specs) => terminated(fmt@) && texts(specs@) == placeholders(fmt@),
            Err(e) => !terminated(fmt@) && e@ == FailureView::UnterminatedPlaceholder,
        },
{
    let p = split(fmt);
    if p.len() % 2 == 0 {
        return Err(Failure::UnterminatedPlaceholder);
    }
    let mut specs: Vec<String> = Vec::new();
    let mut i: usize = 1;
    while i < p.len()
        invariant
            p.len() % 2 == 1,
            i % 2 == 1,
            i <= p.len() + 1,
            specs.len() == i / 2,
            forall|j: int| 0 <= j < specs.len() ==> specs@[j]@ == p@[2 * j + 1]@,
        decreases p.len() + 1 - i,
    {
        specs.push(p[i].clone());
        i += 2;
    }
    assert(texts(specs@) =~= placeholders(fmt@));
    Ok(specs)
}

/// Whether `s` is one of `v`.
fn holds(v: &Vec<String>, s: &String) -> (r: bool)
    ensures
        r == texts(v@).contains(s@),
{
    let mut i: usize = 0;
    while i < v.len()
        invariant
            i <= v.len(),
            forall|j: int| 0 <= j < i ==> texts(v@)[j] != s@,
        decreases v.len() - i,
    {
        if v[i] == *s {
            assert(texts(v@)[i as int] == s@);
            return true;
        }
        i += 1;
    }
    false
}

/// The placeholder texts that are to be resolved: those of `specs` that are
/// not empty, each once, in the order in which they first occur.
pub fn unique(specs: &Vec<String>) -> (r: Vec<String>)
    ensures
        texts(r@) == unique_specs(texts(specs@)),
{
    let mut r: Vec<String> = Vec::new();
    let mut i: usize = 0;
    while i < specs.len()
        invariant
            i <= specs.len(),
            texts(r@) == unique_specs(texts(specs@).take(i as int)),
        decreases specs.len() - i,
    {
        let ghost before = r@;
        let ghost t = texts(specs@);
        proof {
            assert(t.take(i + 1).drop_last() =~= t.take(i as int));
        }
        if !specs[i].as_str().is_empty() && !holds(&r, &specs[i]) {
            r.push(specs[i].clone());
        }
        i += 1;
    }
    assert(texts(specs@).take(specs.len() as int) =~= texts(specs@));
    r
}

/// What stands for each placeholder text when a template is rendered.
pub struct FmtContext {
    map: StringHashMap<String>,
}

impl View for FmtContext {
    type V = Map<Seq<char>, Seq<char>>;

    closed spec fn view(&self) -> Map<Seq<char>, Seq<char>> {
        Map::new(|k: Seq<char>| self.map@.contains_key(k), |k: Seq<char>| self.map@[k]@)
    }
}

impl FmtContext {
    /// The context that every template needs: the empty placeholder stands
    /// for `%`.
    pub fn new() -> (r: Self)
        ensures
            r@ == Map::<Seq<char>, Seq<char>>::empty().insert(Seq::empty(), seq!['%']),
    {
        proof {
            reveal_strlit("%");
        }
        let mut map: StringHashMap<String> = StringHashMap::new();
        let percent = owned("%");
        assert(percent@ =~= seq!['%']);
        map.insert(String::new(), percent);
        FmtContext { map }
    }

    /// Lets `value` stand for `key`, in place of what stood for it before.
    pub fn insert(&mut self, key: String, value: String)
        ensures
            final(self)@ == old(self)@.insert(key@, value@),
    {
        self.map.insert(key, value);
    }

    /// What stands for `key`, if anything does.
    pub fn get(&self, key: &str) -> (r: Option<&String>)
        ensures
            match r {
                Some(value) => self@.contains_key(key@) && value@ == self@[key@],
                None => !self@.contains_key(key@),
            },
    {
        self.map.get(key)
    }
}

/// Renders `fmt`: copies its text and puts in place of each placeholder what
/// `ctx` holds for it.
pub fn substitute(fmt: &str, ctx: &FmtContext) -> (r: String)
    requires
        terminated(fmt@),
        covers(ctx@, fmt@),
    ensures
        r@ == rendered(fmt@, ctx@),
{
    let p = split(fmt);
    let mut r = String::new();
    let mut i: usize = 0;
    while i < p.len()
        invariant
            i <= p.len(),
            texts(p@) == pieces(fmt@),
            covers(ctx@, fmt@),
            r@ == woven(texts(p@).take(i as int), ctx@),
        decreases p.len() - i,
    {
        proof {
            let t = texts(p@);
            assert(t.take(i + 1).drop_last() =~= t.take(i as int));
        }
        if i % 2 == 0 {
            r.append(p[i].as_str());
        } else {
            proof {
                let k = (i as int) / 2;
                assert(ctx@.contains_key(placeholders(fmt@)[k]));
            }
            match ctx.get(p[i].as_str()) {
                Some(value) => r.append(value.as_str()),
                None => {},
            }
        }
        i += 1;
    }
    assert(texts(p@).take(p.len() as int) =~= texts(p@));
    r
}

} // verus!
