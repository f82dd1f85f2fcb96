//! The sandbox's combo panel: which cat combos the search and filters show, in which
//! order, which filter choices the combo table offers, and the double click that fills
//! the lineup from a combo.

use vstd::prelude::*;
use crate::orbs::{back_over, lemma_back_over, lemma_skip_white, skip_white};
use crate::sandbox::{click, spec_click};
use crate::text::{chars_of, push_str, same_text, string_of_range};

verus! {

/// A combo effect type offered in the combo filter; `None` stands for every type.
#[derive(Clone, Debug, PartialEq, Eq)]
pub struct Kind {
    pub effect: Option<i32>,
    pub label: String,
}

/// A combo strength offered in the combo filter.
#[derive(Clone, Debug, PartialEq, Eq)]
pub enum Strength {
    Any,
    Active,
    Inactive,
    Band(i32, String),
}

impl Strength {
    /// The label of a strength.
    pub fn label(&self) -> (s: String)
        ensures
            s@ == (match *self {
                Strength::Any => "Any Strength"@,
                Strength::Active => "Active"@,
                Strength::Inactive => "Inactive"@,
                Strength::Band(_, label) => label@,
            }),
    {
        let mut s = String::new();
        match self {
            Strength::Any => push_str(&mut s, "Any Strength"),
            Strength::Active => push_str(&mut s, "Active"),
            Strength::Inactive => push_str(&mut s, "Inactive"),
            Strength::Band(_, label) => push_str(&mut s, label.as_str()),
        }
        s
    }
}

/// What `str::to_lowercase` makes of a text: its characters mapped to lower case as
/// Unicode defines it (which a few characters change in length).
pub uninterp spec fn lowercase_of(s: Seq<char>) -> Seq<char>;

/// `str::to_lowercase` from the standard library: the text in lower case.
#[verifier::external_body]
pub(crate) fn lowercase(s: &str) -> (r: String)
    ensures
        r@ == lowercase_of(s@),
{
    s.to_lowercase()
}

/// A text without the white space that leads or trails it.
pub open spec fn spec_trim(s: Seq<char>) -> Seq<char> {
    let a = skip_white(s, 0, s.len() as int);
    let b = back_over(s, a, s.len() as int, false);
    s.subrange(a, b)
}

/// A text without the white space that leads or trails it.
pub fn trim(s: &str) -> (r: String)
    ensures
        r@ == spec_trim(s@),
{
    let v = chars_of(s);
    let n = v.len();
    let mut a: usize = 0;
    while a < n && crate::orbs::is_white(v[a])
        invariant
            a <= n,
            n == v@.len(),
            skip_white(v@, 0, n as int) == skip_white(v@, a as int, n as int),
        decreases n - a,
    {
        a = a + 1;
    }
    proof { lemma_skip_white(v@, 0, n as int); }
    let mut b: usize = n;
    while b > a && crate::orbs::is_white(v[b - 1])
        invariant
            a <= b <= n,
            n == v@.len(),
            back_over(v@, a as int, n as int, false) == back_over(v@, a as int, b as int, false),
        decreases b,
    {
        b = b - 1;
    }
    proof { lemma_back_over(v@, a as int, n as int, false); }
    string_of_range(&v, a, b)
}

/// The search text as combos are matched against it: trimmed, in lower case.
pub fn fold_query(query: &str) -> (r: String)
    ensures
        r@ == lowercase_of(spec_trim(query@)),
{
    let t = trim(query);
    lowercase(t.as_str())
}

/// Whether `needle` occurs in `hay`.
pub open spec fn spec_contains(hay: Seq<char>, needle: Seq<char>) -> bool {
    exists|k: int| 0 <= k && k + needle.len() <= hay.len() && #[trigger] hay.subrange(k, k + needle.len()) == needle
}

fn occurs_at(hay: &Vec<char>, needle: &Vec<char>, k: usize) -> (b: bool)
    requires
        k + needle@.len() <= hay@.len(),
    ensures
        b == (hay@.subrange(k as int, k + needle@.len()) == needle@),
{
    let hl = hay.len();
    let mut i: usize = 0;
    while i < needle.len()
        invariant
            i <= needle@.len(),
            hl == hay@.len(),
            k + needle@.len() <= hay@.len(),
            forall|j: int| 0 <= j < i ==> hay@[k + j] == needle@[j],
        decreases needle.len() - i,
    {
        assert(k + i < hl);
        if hay[k + i] != needle[i] {
            assert(hay@.subrange(k as int, k + needle@.len())[i as int] != needle@[i as int]);
            return false;
        }
        i = i + 1;
    }
    assert(hay@.subrange(k as int, k + needle@.len()) =~= needle@);
    true
}

/// Whether `needle` occurs in `hay`.
pub fn contains_text(hay: &str, needle: &str) -> (b: bool)
    ensures
        b == spec_contains(hay@, needle@),
{
    let h = chars_of(hay);
    let n = chars_of(needle);
    if n.len() == 0 {
        assert(h@.subrange(0, 0 + n@.len() as int) =~= n@);
        assert(spec_contains(hay@, needle@));
        return true;
    }
    if n.len() > h.len() {
        return false;
    }
    let bound = h.len() - n.len() + 1;
    let mut k: usize = 0;
    while k < bound
        invariant
            h@ == hay@,
            n@ == needle@,
            bound == h@.len() - n@.len() + 1,
            k <= bound,
            forall|j: int| 0 <= j < k ==> #[trigger] h@.subrange(j, j + n@.len()) != n@,
        decreases bound - k,
    {
        if occurs_at(&h, &n, k) {
            return true;
        }
        k = k + 1;
    }
    false
}

/// A cat in a combo: the unit (if known) and the form it needs at least.
#[derive(Debug, Clone, Copy, PartialEq, Eq, Structural)]
pub struct Member {
    pub id: Option<u32>,
    pub form: usize,
}

/// A combo as the panel lists it.
#[derive(Debug, Clone)]
pub struct Card {
    pub effect_type: i32,
    pub effect_level: i32,
    pub name: String,
    /// The name of the effect type.
    pub kind: String,
    /// The name of the effect's strength band; empty where the combo has none.
    pub band: String,
    /// The name in lower case, as searches match it.
    pub folded: String,
    pub members: Vec<Member>,
    /// The lineup fulfils the combo.
    pub active: bool,
    /// The stage forbids the combo's effect.
    pub banned: bool,
}

impl Card {
    /// A card for a combo as the table lists it, neither fulfilled nor banned yet.
    pub fn new(effect_type: i32, effect_level: i32, name: String, kind: String, band: String, members: Vec<Member>) -> (c: Card)
        ensures
            c.effect_type == effect_type,
            c.effect_level == effect_level,
            c.name@ == name@,
            c.kind@ == kind@,
            c.band@ == band@,
            c.members@ == members@,
            c.folded@ == lowercase_of(name@),
            !c.active,
            !c.banned,
    {
        let folded = lowercase(name.as_str());
        Card { effect_type, effect_level, name, kind, band, folded, members, active: false, banned: false }
    }
}

/// Whether a card passes the filters: the chosen strength, the focused unit (some member
/// is that unit at a form it has reached), the chosen effect type, and the search text.
pub open spec fn spec_passes(c: Card, query: Seq<char>, strength: Strength, kind: Option<i32>, focus: Option<(u32, usize)>) -> bool {
    let strong = match strength {
        Strength::Any => true,
        Strength::Active => c.active,
        Strength::Inactive => !c.active,
        Strength::Band(level, _) => c.effect_level == level,
    };
    let joined = match focus {
        None => true,
        Some((unit, form)) => exists|m: int| 0 <= m < c.members@.len()
            && (#[trigger] c.members@[m]).id == Some(unit) && c.members@[m].form <= form,
    };
    let typed = match kind {
        None => true,
        Some(effect) => c.effect_type == effect,
    };
    joined && strong && typed && spec_contains(c.folded@, query)
}

/// Lexicographic order of texts by code point (the order of their UTF-8 bytes).
pub open spec fn lex_lt(a: Seq<char>, b: Seq<char>) -> bool
    decreases a.len(),
{
    if b.len() == 0 {
        false
    } else if a.len() == 0 {
        true
    } else if a[0] != b[0] {
        a[0] < b[0]
    } else {
        lex_lt(a.drop_first(), b.drop_first())
    }
}

proof fn lemma_lex_trans(a: Seq<char>, b: Seq<char>, c: Seq<char>)
    requires
        lex_lt(a, b),
        lex_lt(b, c),
    ensures
        lex_lt(a, c),
    decreases a.len(),
{
    if a.len() > 0 && b.len() > 0 && c.len() > 0 && a[0] == b[0] && b[0] == c[0] {
        lemma_lex_trans(a.drop_first(), b.drop_first(), c.drop_first());
    }
}

proof fn lemma_lex_total(a: Seq<char>, b: Seq<char>)
    requires
        a != b,
    ensures
        lex_lt(a, b) || lex_lt(b, a),
    decreases a.len(),
{
    if a.len() > 0 && b.len() > 0 && a[0] == b[0] {
        if a.drop_first() == b.drop_first() {
            assert(a =~= seq![a[0]] + a.drop_first());
            assert(b =~= seq![b[0]] + b.drop_first());
        }
        lemma_lex_total(a.drop_first(), b.drop_first());
    } else if a.len() > 0 && b.len() > 0 {
    } else if a.len() == 0 && b.len() == 0 {
        assert(a =~= b);
    }
}

proof fn lemma_lex_irrefl(a: Seq<char>)
    ensures
        !lex_lt(a, a),
    decreases a.len(),
{
    if a.len() > 0 {
        lemma_lex_irrefl(a.drop_first());
    }
}

proof fn lemma_lex_asym(a: Seq<char>, b: Seq<char>)
    requires
        lex_lt(a, b),
    ensures
        !lex_lt(b, a),
    decreases a.len(),
{
    if a.len() > 0 && b.len() > 0 && a[0] == b[0] {
        lemma_lex_asym(a.drop_first(), b.drop_first());
    }
}

/// The order in which the panel lists combos: the fulfilled ones first, then the allowed
/// ones; then by effect type, strongest effect first, by name; ties keep their order in
/// the combo table (`i` and `j` are the cards' positions there).
pub open spec fn spec_before(x: Card, i: int, y: Card, j: int) -> bool {
    if x.active != y.active {
        x.active
    } else if x.banned != y.banned {
        !x.banned
    } else if x.effect_type != y.effect_type {
        x.effect_type < y.effect_type
    } else if x.effect_level != y.effect_level {
        x.effect_level > y.effect_level
    } else if x.name@ != y.name@ {
        lex_lt(x.name@, y.name@)
    } else {
        i < j
    }
}

proof fn lemma_before_trans(x: Card, i: int, y: Card, j: int, z: Card, k: int)
    requires
        spec_before(x, i, y, j),
        spec_before(y, j, z, k),
    ensures
        spec_before(x, i, z, k),
{
    if x.active == y.active && y.active == z.active && x.banned == y.banned && y.banned == z.banned
        && x.effect_type == y.effect_type && y.effect_type == z.effect_type
        && x.effect_level == y.effect_level && y.effect_level == z.effect_level {
        if x.name@ != y.name@ && y.name@ != z.name@ {
            lemma_lex_trans(x.name@, y.name@, z.name@);
            if x.name@ == z.name@ {
                lemma_lex_asym(x.name@, y.name@);
            }
        }
    }
}

proof fn lemma_before_total(x: Card, i: int, y: Card, j: int)
    requires
        i != j,
    ensures
        spec_before(x, i, y, j) || spec_before(y, j, x, i),
        !(spec_before(x, i, y, j) && spec_before(y, j, x, i)),
{
    if x.name@ != y.name@ {
        lemma_lex_total(x.name@, y.name@);
        if lex_lt(x.name@, y.name@) {
            lemma_lex_asym(x.name@, y.name@);
        }
    }
}

fn lex_less(a: &Vec<char>, b: &Vec<char>) -> (r: bool)
    ensures
        r == lex_lt(a@, b@),
{
    let mut i: usize = 0;
    assert(a@.skip(0) =~= a@);
    assert(b@.skip(0) =~= b@);
    while i < a.len() && i < b.len() && a[i] == b[i]
        invariant
            i <= a@.len(),
            i <= b@.len(),
            lex_lt(a@, b@) == lex_lt(a@.skip(i as int), b@.skip(i as int)),
        decreases a.len() - i,
    {
        assert(a@.skip(i as int).drop_first() =~= a@.skip(i + 1));
        assert(b@.skip(i as int).drop_first() =~= b@.skip(i + 1));
        i = i + 1;
    }
    if i == b.len() {
        return false;
    }
    if i == a.len() {
        return true;
    }
    a[i] < b[i]
}

fn before(cards: &Vec<Card>, i: usize, j: usize) -> (r: bool)
    requires
        i < cards@.len(),
        j < cards@.len(),
    ensures
        r == spec_before(cards@[i as int], i as int, cards@[j as int], j as int),
{
    let x = &cards[i];
    let y = &cards[j];
    if x.active != y.active {
        return x.active;
    }
    if x.banned != y.banned {
        return !x.banned;
    }
    if x.effect_type != y.effect_type {
        return x.effect_type < y.effect_type;
    }
    if x.effect_level != y.effect_level {
        return x.effect_level > y.effect_level;
    }
    let a = chars_of(x.name.as_str());
    let b = chars_of(y.name.as_str());
    if !crate::text::same_chars(&a, &b) {
        return lex_less(&a, &b);
    }
    i < j
}

fn passes(c: &Card, query: &str, strength: &Strength, kind: Option<i32>, focus: Option<(u32, usize)>) -> (b: bool)
    ensures
        b == spec_passes(*c, query@, *strength, kind, focus),
{
    let strong = match strength {
        Strength::Any => true,
        Strength::Active => c.active,
        Strength::Inactive => !c.active,
        Strength::Band(level, _) => c.effect_level == *level,
    };
    let joined = match focus {
        None => true,
        Some((unit, form)) => {
            let mut found = false;
            let mut m: usize = 0;
            while m < c.members.len()
                invariant
                    m <= c.members@.len(),
                    found == exists|k: int| 0 <= k < m && (#[trigger] c.members@[k]).id == Some(unit) && c.members@[k].form <= form,
                decreases c.members.len() - m,
            {
                if c.members[m].id == Some(unit) && c.members[m].form <= form {
                    found = true;
                }
                m = m + 1;
            }
            found
        },
    };
    let typed = match kind {
        None => true,
        Some(effect) => c.effect_type == effect,
    };
    joined && strong && typed && contains_text(c.folded.as_str(), query)
}

/// The combos shown, in the panel's order: the positions of the cards that pass the
/// filters, each once, ordered by [`spec_before`]. `query` is the folded search text.
pub fn sift(cards: &Vec<Card>, query: &str, strength: &Strength, kind: Option<i32>, focus: Option<(u32, usize)>) -> (shown: Vec<usize>)
    ensures
        forall|i: int| 0 <= i < shown@.len() ==> #[trigger] shown@[i] < cards@.len(),
        forall|k: int| 0 <= k < cards@.len() ==> (shown@.contains(k as usize)
            <==> spec_passes(cards@[k], query@, *strength, kind, focus)),
        forall|a: int, b: int| 0 <= a < b < shown@.len() ==>
            spec_before(cards@[shown@[a] as int], shown@[a] as int, cards@[shown@[b] as int], shown@[b] as int),
{
    let mut shown: Vec<usize> = Vec::new();
    let mut k: usize = 0;
    while k < cards.len()
        invariant
            k <= cards@.len(),
            forall|i: int| 0 <= i < shown@.len() ==> #[trigger] shown@[i] < k,
            forall|j: int| 0 <= j < k ==> (shown@.contains(j as usize)
                <==> spec_passes(cards@[j], query@, *strength, kind, focus)),
            forall|a: int, b: int| 0 <= a < b < shown@.len() ==>
                spec_before(cards@[shown@[a] as int], shown@[a] as int, cards@[shown@[b] as int], shown@[b] as int),
        decreases cards.len() - k,
    {
        if passes(&cards[k], query, strength, kind, focus) {
            let mut p: usize = 0;
            while p < shown.len() && before(cards, shown[p], k)
                invariant
                    p <= shown@.len(),
                    k < cards@.len(),
                    forall|i: int| 0 <= i < shown@.len() ==> #[trigger] shown@[i] < k,
                    forall|i: int| 0 <= i < p ==> spec_before(cards@[shown@[i] as int], shown@[i] as int, cards@[k as int], k as int),
                decreases shown.len() - p,
            {
                p = p + 1;
            }
            let ghost old_shown = shown@;
            proof {
                if p < old_shown.len() {
                    lemma_before_total(cards@[old_shown[p as int] as int], old_shown[p as int] as int, cards@[k as int], k as int);
                }
            }
            shown.insert(p, k);
            proof {
                assert(shown@ =~= old_shown.take(p as int).push(k) + old_shown.skip(p as int));
                assert forall|a: int, b: int| 0 <= a < b < shown@.len() implies
                    spec_before(cards@[shown@[a] as int], shown@[a] as int, cards@[shown@[b] as int], shown@[b] as int) by {
                    if b < p {
                    } else if a < p && b == p {
                    } else if a < p {
                        assert(shown@[b] == old_shown[b - 1]);
                        assert(shown@[a] == old_shown[a]);
                    } else if a == p {
                        assert(shown@[b] == old_shown[b - 1]);
                        if b - 1 > p {
                            lemma_before_trans(cards@[k as int], k as int, cards@[old_shown[p as int] as int], old_shown[p as int] as int,
                                cards@[old_shown[b - 1] as int], old_shown[b - 1] as int);
                        }
                    } else {
                        assert(shown@[a] == old_shown[a - 1]);
                        assert(shown@[b] == old_shown[b - 1]);
                    }
                }
                assert forall|j: int| 0 <= j < k + 1 implies (#[trigger] shown@.contains(j as usize)
                    <==> spec_passes(cards@[j], query@, *strength, kind, focus)) by {
                    if shown@.contains(j as usize) {
                        let q = choose|q: int| 0 <= q < shown@.len() && shown@[q] == j as usize;
                        if q < p {
                            assert(old_shown[q] == j as usize);
                        } else if q > p {
                            assert(old_shown[q - 1] == j as usize);
                        }
                    }
                    if j < k && old_shown.contains(j as usize) {
                        let q = choose|q: int| 0 <= q < old_shown.len() && old_shown[q] == j as usize;
                        if q < p {
                            assert(shown@[q] == j as usize);
                        } else {
                            assert(shown@[q + 1] == j as usize);
                        }
                    }
                    if j == k {
                        assert(shown@[p as int] == k);
                    }
                }
                assert forall|i: int| 0 <= i < shown@.len() implies #[trigger] shown@[i] < k + 1 by {
                    if i < p {
                        assert(shown@[i] == old_shown[i]);
                    } else if i > p {
                        assert(shown@[i] == old_shown[i - 1]);
                    }
                }
            }
        } else {
            proof {
                if shown@.contains(k) {
                    let q = choose|q: int| 0 <= q < shown@.len() && shown@[q] == k;
                    assert(shown@[q] < k);
                }
            }
        }
        k = k + 1;
    }
    shown
}

/// The key a card is grouped by in a filter: its effect type, or for the strength
/// filter its effect level.
pub open spec fn key_of(c: Card, bands: bool) -> i32 {
    if bands { c.effect_level } else { c.effect_type }
}

/// The label a card gives its group in a filter.
pub open spec fn label_of(c: Card, bands: bool) -> Seq<char> {
    if bands { c.band@ } else { c.kind@ }
}

/// Whether a card has a group in a filter: every card has an effect type, only cards
/// with a named band have a strength band.
pub open spec fn grouped(c: Card, bands: bool) -> bool {
    !bands || c.band@.len() > 0
}

/// `j` is the first card with a group in the filter under `key`.
pub open spec fn first_of(cards: Seq<Card>, bands: bool, key: i32, j: int) -> bool {
    &&& 0 <= j < cards.len()
    &&& grouped(cards[j], bands)
    &&& key_of(cards[j], bands) == key
    &&& forall|i: int| 0 <= i < j && grouped(#[trigger] cards[i], bands) ==> key_of(cards[i], bands) != key
}

/// `label` is what the first card grouped under `key` calls its group.
pub open spec fn labelled(cards: Seq<Card>, bands: bool, key: i32, label: Seq<char>) -> bool {
    exists|j: int| #[trigger] first_of(cards, bands, key, j) && label == label_of(cards[j], bands)
}

/// Some group of `r` has the key `key`.
pub open spec fn has_key(r: Seq<(i32, String)>, key: i32) -> bool {
    exists|a: int| 0 <= a < r.len() && #[trigger] r[a].0 == key
}

/// The groups of a filter: one per key that some card has, ordered by key, each labelled
/// as its first card labels it.
pub open spec fn spec_groups(cards: Seq<Card>, bands: bool, r: Seq<(i32, String)>) -> bool {
    &&& forall|a: int, b: int| 0 <= a < b < r.len() ==> r[a].0 < r[b].0
    &&& forall|a: int| 0 <= a < r.len() ==> #[trigger] labelled(cards, bands, r[a].0, r[a].1@)
    &&& forall|j: int| 0 <= j < cards.len() && grouped(#[trigger] cards[j], bands) ==> has_key(r, key_of(cards[j], bands))
}

/// The groups of a filter, as [`spec_groups`] says.
pub fn groups(cards: &Vec<Card>, bands: bool) -> (r: Vec<(i32, String)>)
    ensures
        spec_groups(cards@, bands, r@),
{
    let mut r: Vec<(i32, String)> = Vec::new();
    let mut k: usize = 0;
    while k < cards.len()
        invariant
            k <= cards@.len(),
            forall|a: int, b: int| 0 <= a < b < r@.len() ==> r@[a].0 < r@[b].0,
            forall|a: int| 0 <= a < r@.len() ==> #[trigger] labelled(cards@, bands, r@[a].0, r@[a].1@),
            forall|j: int| 0 <= j < k && grouped(#[trigger] cards@[j], bands) ==> has_key(r@, key_of(cards@[j], bands)),
        decreases cards.len() - k,
    {
        let c = &cards[k];
        let eligible = !bands || c.band.as_str().unicode_len() > 0;
        if eligible {
            let key = if bands { c.effect_level } else { c.effect_type };
            let mut p: usize = 0;
            while p < r.len() && r[p].0 < key
                invariant
                    p <= r@.len(),
                    forall|a: int| 0 <= a < p ==> r@[a].0 < key,
                decreases r.len() - p,
            {
                p = p + 1;
            }
            if p < r.len() && r[p].0 == key {
                proof {
                    assert(r@[p as int].0 == key_of(cards@[k as int], bands));
                    assert(has_key(r@, key_of(cards@[k as int], bands)));
                }
            } else {
                let label = if bands { c.band.clone() } else { c.kind.clone() };
                let ghost old_r = r@;
                proof {
                    assert forall|a: int| 0 <= a < old_r.len() implies old_r[a].0 != key by {
                        if a >= p {
                            assert(old_r[a].0 >= old_r[p as int].0 || a == p);
                        }
                    }
                    assert forall|i: int| 0 <= i < k && grouped(#[trigger] cards@[i], bands) implies key_of(cards@[i], bands) != key by {
                        assert(has_key(old_r, key_of(cards@[i], bands)));
                        let a = choose|a: int| 0 <= a < old_r.len() && #[trigger] old_r[a].0 == key_of(cards@[i], bands);
                    }
                    assert(first_of(cards@, bands, key, k as int));
                    assert(labelled(cards@, bands, key, label@));
                }
                r.insert(p, (key, label));
                proof {
                    assert(r@ =~= old_r.take(p as int).push((key, label)) + old_r.skip(p as int));
                    assert forall|a: int, b: int| 0 <= a < b < r@.len() implies r@[a].0 < r@[b].0 by {
                        if b < p {
                        } else if b == p {
                        } else if a < p {
                            assert(r@[b] == old_r[b - 1]);
                        } else if a == p {
                            assert(r@[b] == old_r[b - 1]);
                            if b - 1 > p {
                                assert(old_r[p as int].0 < old_r[b - 1].0);
                            }
                        } else {
                            assert(r@[a] == old_r[a - 1]);
                            assert(r@[b] == old_r[b - 1]);
                        }
                    }
                    assert forall|a: int| 0 <= a < r@.len() implies #[trigger] labelled(cards@, bands, r@[a].0, r@[a].1@) by {
                        if a < p {
                            assert(r@[a] == old_r[a]);
                        } else if a == p {
                        } else {
                            assert(r@[a] == old_r[a - 1]);
                        }
                    }
                    assert forall|j: int| 0 <= j < k + 1 && grouped(#[trigger] cards@[j], bands) implies has_key(r@, key_of(cards@[j], bands)) by {
                        if j == k {
                            assert(r@[p as int].0 == key);
                        } else {
                            assert(has_key(old_r, key_of(cards@[j], bands)));
                            let a = choose|a: int| 0 <= a < old_r.len() && #[trigger] old_r[a].0 == key_of(cards@[j], bands);
                            if a < p {
                                assert(r@[a] == old_r[a]);
                            } else {
                                assert(r@[a + 1] == old_r[a]);
                            }
                        }
                    }
                }
            }
        }
        k = k + 1;
    }
    r
}

/// Marks each card banned or not, as `banned` says; a banned card is no longer fulfilled.
pub fn ban_cards(cards: &mut Vec<Card>, banned: &Vec<bool>)
    requires
        banned@.len() == old(cards)@.len(),
    ensures
        final(cards)@.len() == old(cards)@.len(),
        forall|i: int| 0 <= i < old(cards)@.len() ==> {
            let (was, now) = (#[trigger] old(cards)@[i], final(cards)@[i]);
            &&& now.banned == banned@[i]
            &&& now.active == (was.active && !banned@[i])
            &&& now == Card { banned: now.banned, active: now.active, ..was }
        },
{
    let mut i: usize = 0;
    while i < cards.len()
        invariant
            banned@.len() == old(cards)@.len(),
            cards@.len() == old(cards)@.len(),
            i <= cards@.len(),
            forall|j: int| 0 <= j < i ==> {
                let (was, now) = (#[trigger] old(cards)@[j], cards@[j]);
                &&& now.banned == banned@[j]
                &&& now.active == (was.active && !banned@[j])
                &&& now == Card { banned: now.banned, active: now.active, ..was }
            },
            forall|j: int| i <= j < cards@.len() ==> cards@[j] == old(cards)@[j],
        decreases cards@.len() - i,
    {
        let b = banned[i];
        cards[i].banned = b;
        let a = cards[i].active && !b;
        cards[i].active = a;
        i = i + 1;
    }
}

/// The label of the kind that stands for every effect type.
pub const EVERY_KIND: &'static str = "All Types";

/// Whether two strengths are the same choice.
pub open spec fn same_strength(a: Strength, b: Strength) -> bool {
    match (a, b) {
        (Strength::Any, Strength::Any) => true,
        (Strength::Active, Strength::Active) => true,
        (Strength::Inactive, Strength::Inactive) => true,
        (Strength::Band(x, l), Strength::Band(y, m)) => x == y && l@ == m@,
        _ => false,
    }
}

/// Whether two strengths are the same choice.
pub fn same_choice(a: &Strength, b: &Strength) -> (r: bool)
    ensures
        r == same_strength(*a, *b),
{
    match (a, b) {
        (Strength::Any, Strength::Any) => true,
        (Strength::Active, Strength::Active) => true,
        (Strength::Inactive, Strength::Inactive) => true,
        (Strength::Band(x, l), Strength::Band(y, m)) => *x == *y && same_text(l.as_str(), m.as_str()),
        _ => false,
    }
}

/// The shown positions are those [`sift`] gives for these cards and filters.
pub open spec fn spec_sifted(cards: Seq<Card>, query: Seq<char>, strength: Strength, kind: Option<i32>, focus: Option<(u32, usize)>, shown: Seq<usize>) -> bool {
    &&& forall|i: int| 0 <= i < shown.len() ==> #[trigger] shown[i] < cards.len()
    &&& forall|k: int| 0 <= k < cards.len() ==> (shown.contains(k as usize) <==> spec_passes(cards[k], query, strength, kind, focus))
    &&& in_panel_order(cards, shown)
}

/// The kinds the filter offers: every type first, then one per group.
pub open spec fn spec_kinds(groups: Seq<(i32, String)>, kinds: Seq<Kind>) -> bool {
    &&& kinds.len() == groups.len() + 1
    &&& kinds[0].effect == None::<i32>
    &&& kinds[0].label@ == EVERY_KIND@
    &&& forall|a: int| 0 <= a < groups.len() ==> (#[trigger] kinds[a + 1]).effect == Some(groups[a].0) && kinds[a + 1].label@ == groups[a].1@
}

/// The strengths the filter offers: any, fulfilled, unfulfilled, then one per band.
pub open spec fn spec_strengths(groups: Seq<(i32, String)>, strengths: Seq<Strength>) -> bool {
    &&& strengths.len() == groups.len() + 3
    &&& strengths[0] == Strength::Any
    &&& strengths[1] == Strength::Active
    &&& strengths[2] == Strength::Inactive
    &&& forall|a: int| 0 <= a < groups.len() ==> ((#[trigger] strengths[a + 3]) matches Strength::Band(level, label)
        && level == groups[a].0 && label@ == groups[a].1@)
}

/// The combo panel: the combo table as cards, the filters it offers, the chosen filters,
/// and the cards shown.
pub struct Panel {
    pub cards: Vec<Card>,
    /// The positions of the cards shown, in the panel's order.
    pub shown: Vec<usize>,
    pub kinds: Vec<Kind>,
    pub strengths: Vec<Strength>,
    /// The search text as typed.
    pub query: String,
    pub kind: Option<i32>,
    pub strength: Strength,
    /// The unit (and its form) being edited, whose combos alone are shown.
    pub focus: Option<(u32, usize)>,
    /// The last click on a combo: its table line and when (ms).
    pub clicked: Option<(usize, u64)>,
    /// The cards reflect the current combo table.
    pub built: bool,
}

impl Panel {
    /// The shown cards are those the chosen filters and search pass, in the panel's order.
    pub open spec fn sifted(self) -> bool {
        spec_sifted(self.cards@, lowercase_of(spec_trim(self.query@)), self.strength, self.kind, self.focus, self.shown@)
    }

    /// An empty panel that has not been built.
    pub fn new() -> (p: Panel)
        ensures
            p.sifted(),
            p.cards@.len() == 0,
            p.shown@.len() == 0,
            p.kinds@.len() == 0,
            p.strengths@.len() == 0,
            p.query@.len() == 0,
            p.kind is None,
            p.strength == Strength::Any,
            p.focus is None,
            p.clicked is None,
            !p.built,
    {
        Panel {
            cards: Vec::new(),
            shown: Vec::new(),
            kinds: Vec::new(),
            strengths: Vec::new(),
            query: String::new(),
            kind: None,
            strength: Strength::Any,
            focus: None,
            clicked: None,
            built: false,
        }
    }

    fn resift(&mut self)
        ensures
            final(self).sifted(),
            final(self).cards == old(self).cards,
            final(self).kinds == old(self).kinds,
            final(self).strengths == old(self).strengths,
            final(self).query == old(self).query,
            final(self).kind == old(self).kind,
            final(self).strength == old(self).strength,
            final(self).focus == old(self).focus,
            final(self).clicked == old(self).clicked,
            final(self).built == old(self).built,
    {
        let query = fold_query(self.query.as_str());
        self.shown = sift(&self.cards, query.as_str(), &self.strength, self.kind, self.focus);
    }

    /// Marks the combo table as changed: the next [`Panel::ensure`] rebuilds the cards.
    pub fn invalidate(&mut self)
        ensures
            !final(self).built,
            final(self).cards == old(self).cards,
            final(self).shown == old(self).shown,
            final(self).kinds == old(self).kinds,
            final(self).strengths == old(self).strengths,
            final(self).query == old(self).query,
            final(self).kind == old(self).kind,
            final(self).strength == old(self).strength,
            final(self).focus == old(self).focus,
            final(self).clicked == old(self).clicked,
    {
        self.built = false;
    }

    /// Builds the panel from the combo table unless it is built: the cards, the kinds and
    /// strengths they offer; a chosen kind or strength that is no longer offered falls
    /// back to every kind or any strength. Returns whether it built.
    pub fn ensure(&mut self, cards: Vec<Card>) -> (rebuilt: bool)
        ensures
            rebuilt == !old(self).built,
            final(self).built,
            old(self).built ==> *final(self) == *old(self),
            !old(self).built ==> {
                let p = *final(self);
                &&& p.sifted()
                &&& p.cards@ == cards@
                &&& exists|r: Seq<(i32, String)>| spec_groups(cards@, false, r) && #[trigger] spec_kinds(r, p.kinds@)
                &&& exists|r: Seq<(i32, String)>| spec_groups(cards@, true, r) && #[trigger] spec_strengths(r, p.strengths@)
                &&& p.kind == (match old(self).kind {
                        Some(e) => if exists|j: int| 0 <= j < cards@.len() && #[trigger] cards@[j].effect_type == e { Some(e) } else { None },
                        None => None,
                    })
                &&& p.strength == (if exists|i: int| 0 <= i < p.strengths@.len() && same_strength(#[trigger] p.strengths@[i], old(self).strength) {
                        old(self).strength
                    } else {
                        Strength::Any
                    })
                &&& p.query == old(self).query
                &&& p.focus == old(self).focus
                &&& p.clicked == old(self).clicked
            },
    {
        if self.built {
            return false;
        }
        let kinds_found = groups(&cards, false);
        let bands_found = groups(&cards, true);
        let mut kinds: Vec<Kind> = Vec::new();
        let mut every = String::new();
        push_str(&mut every, EVERY_KIND);
        kinds.push(Kind { effect: None, label: every });
        let mut a: usize = 0;
        while a < kinds_found.len()
            invariant
                a <= kinds_found@.len(),
                kinds@.len() == a + 1,
                kinds@[0].effect == None::<i32>,
                kinds@[0].label@ == EVERY_KIND@,
                forall|b: int| 0 <= b < a ==> (#[trigger] kinds@[b + 1]).effect == Some(kinds_found@[b].0) && kinds@[b + 1].label@ == kinds_found@[b].1@,
            decreases kinds_found.len() - a,
        {
            let label = kinds_found[a].1.clone();
            kinds.push(Kind { effect: Some(kinds_found[a].0), label });
            a = a + 1;
        }
        let mut strengths: Vec<Strength> = Vec::new();
        strengths.push(Strength::Any);
        strengths.push(Strength::Active);
        strengths.push(Strength::Inactive);
        let mut b: usize = 0;
        while b < bands_found.len()
            invariant
                b <= bands_found@.len(),
                strengths@.len() == b + 3,
                strengths@[0] == Strength::Any,
                strengths@[1] == Strength::Active,
                strengths@[2] == Strength::Inactive,
                forall|x: int| 0 <= x < b ==> ((#[trigger] strengths@[x + 3]) matches Strength::Band(level, label)
                    && level == bands_found@[x].0 && label@ == bands_found@[x].1@),
            decreases bands_found.len() - b,
        {
            let label = bands_found[b].1.clone();
            strengths.push(Strength::Band(bands_found[b].0, label));
            b = b + 1;
        }
        let kind = match self.kind {
            Some(e) => {
                let mut found = false;
                let mut i: usize = 0;
                while i < kinds_found.len()
                    invariant
                        i <= kinds_found@.len(),
                        found == exists|x: int| 0 <= x < i && #[trigger] kinds_found@[x].0 == e,
                    decreases kinds_found.len() - i,
                {
                    if kinds_found[i].0 == e {
                        found = true;
                    }
                    i = i + 1;
                }
                proof {
                    if found {
                        let x = choose|x: int| 0 <= x < kinds_found@.len() && #[trigger] kinds_found@[x].0 == e;
                        assert(labelled(cards@, false, kinds_found@[x].0, kinds_found@[x].1@));
                        let j = choose|j: int| #[trigger] first_of(cards@, false, e, j) && kinds_found@[x].1@ == label_of(cards@[j], false);
                        assert(cards@[j].effect_type == e);
                    } else {
                        assert forall|j: int| 0 <= j < cards@.len() implies #[trigger] cards@[j].effect_type != e by {
                            assert(grouped(cards@[j], false));
                            assert(has_key(kinds_found@, key_of(cards@[j], false)));
                            let x = choose|x: int| 0 <= x < kinds_found@.len() && #[trigger] kinds_found@[x].0 == key_of(cards@[j], false);
                        }
                    }
                }
                if found { Some(e) } else { None }
            },
            None => None,
        };
        let mut offered = false;
        let mut i: usize = 0;
        while i < strengths.len()
            invariant
                i <= strengths@.len(),
                offered == exists|x: int| 0 <= x < i && same_strength(#[trigger] strengths@[x], self.strength),
            decreases strengths.len() - i,
        {
            if same_choice(&strengths[i], &self.strength) {
                offered = true;
            }
            i = i + 1;
        }
        proof {
            assert(spec_kinds(kinds_found@, kinds@));
            assert(spec_strengths(bands_found@, strengths@));
        }
        self.cards = cards;
        self.kinds = kinds;
        self.strengths = strengths;
        self.kind = kind;
        if !offered {
            self.strength = Strength::Any;
        }
        self.built = true;
        self.resift();
        true
    }

    /// Marks the cards banned as `banned` says (a banned combo is not fulfilled) and
    /// refreshes what is shown.
    pub fn ban(&mut self, banned: &Vec<bool>)
        requires
            banned@.len() == old(self).cards@.len(),
        ensures
            final(self).sifted(),
            final(self).cards@.len() == old(self).cards@.len(),
            forall|i: int| 0 <= i < old(self).cards@.len() ==> {
                let (was, now) = (#[trigger] old(self).cards@[i], final(self).cards@[i]);
                &&& now.banned == banned@[i]
                &&& now.active == (was.active && !banned@[i])
                &&& now == Card { banned: now.banned, active: now.active, ..was }
            },
            final(self).query == old(self).query,
            final(self).kind == old(self).kind,
            final(self).strength == old(self).strength,
            final(self).focus == old(self).focus,
            final(self).clicked == old(self).clicked,
            final(self).built == old(self).built,
    {
        ban_cards(&mut self.cards, banned);
        self.resift();
    }

    /// Marks each card banned as `banned` says and fulfilled where it is not banned and
    /// the lineup fulfils it, then refreshes what is shown.
    pub fn refresh(&mut self, banned: &Vec<bool>, fulfilled: &Vec<bool>)
        requires
            banned@.len() == old(self).cards@.len(),
            fulfilled@.len() == old(self).cards@.len(),
        ensures
            final(self).sifted(),
            final(self).cards@.len() == old(self).cards@.len(),
            forall|i: int| 0 <= i < old(self).cards@.len() ==> {
                let (was, now) = (#[trigger] old(self).cards@[i], final(self).cards@[i]);
                &&& now.banned == banned@[i]
                &&& now.active == (!banned@[i] && fulfilled@[i])
                &&& now == Card { banned: now.banned, active: now.active, ..was }
            },
            final(self).query == old(self).query,
            final(self).kind == old(self).kind,
            final(self).strength == old(self).strength,
            final(self).focus == old(self).focus,
            final(self).clicked == old(self).clicked,
            final(self).built == old(self).built,
    {
        let mut i: usize = 0;
        while i < self.cards.len()
            invariant
                banned@.len() == old(self).cards@.len(),
                fulfilled@.len() == old(self).cards@.len(),
                self.cards@.len() == old(self).cards@.len(),
                i <= self.cards@.len(),
                forall|j: int| 0 <= j < i ==> {
                    let (was, now) = (#[trigger] old(self).cards@[j], self.cards@[j]);
                    &&& now.banned == banned@[j]
                    &&& now.active == (!banned@[j] && fulfilled@[j])
                    &&& now == Card { banned: now.banned, active: now.active, ..was }
                },
                forall|j: int| i <= j < self.cards@.len() ==> self.cards@[j] == old(self).cards@[j],
                self.query == old(self).query,
                self.kind == old(self).kind,
                self.strength == old(self).strength,
                self.focus == old(self).focus,
                self.clicked == old(self).clicked,
                self.built == old(self).built,
            decreases self.cards@.len() - i,
        {
            let b = banned[i];
            let f = fulfilled[i];
            self.cards[i].banned = b;
            self.cards[i].active = !b && f;
            i = i + 1;
        }
        self.resift();
    }

    /// Shows only the combos of `unit` (a unit and its form), or all with `None`; a
    /// focus already held changes nothing.
    pub fn focus(&mut self, unit: Option<(u32, usize)>)
        requires
            old(self).sifted(),
        ensures
            final(self).sifted(),
            final(self).focus == unit,
            old(self).focus == unit ==> *final(self) == *old(self),
            final(self).cards == old(self).cards,
            final(self).query == old(self).query,
            final(self).kind == old(self).kind,
            final(self).strength == old(self).strength,
            final(self).clicked == old(self).clicked,
            final(self).built == old(self).built,
    {
        if self.focus == unit {
            return;
        }
        self.focus = unit;
        self.resift();
    }

    /// Takes a new search text.
    pub fn search(&mut self, query: String)
        ensures
            final(self).sifted(),
            final(self).query@ == query@,
            final(self).cards == old(self).cards,
            final(self).kind == old(self).kind,
            final(self).strength == old(self).strength,
            final(self).focus == old(self).focus,
            final(self).clicked == old(self).clicked,
            final(self).built == old(self).built,
    {
        self.query = query;
        self.resift();
    }

    /// Takes the chosen effect type.
    pub fn choose_kind(&mut self, kind: &Kind)
        ensures
            final(self).sifted(),
            final(self).kind == kind.effect,
            final(self).cards == old(self).cards,
            final(self).query == old(self).query,
            final(self).strength == old(self).strength,
            final(self).focus == old(self).focus,
            final(self).clicked == old(self).clicked,
            final(self).built == old(self).built,
    {
        self.kind = kind.effect;
        self.resift();
    }

    /// Takes the chosen strength.
    pub fn choose_strength(&mut self, strength: Strength)
        ensures
            final(self).sifted(),
            final(self).strength == strength,
            final(self).cards == old(self).cards,
            final(self).query == old(self).query,
            final(self).kind == old(self).kind,
            final(self).focus == old(self).focus,
            final(self).clicked == old(self).clicked,
            final(self).built == old(self).built,
    {
        self.strength = strength;
        self.resift();
    }

    /// A click on the combo at table line `line` at `now` (ms): the line to fill the
    /// lineup from when it completes a double click.
    pub fn click(&mut self, line: usize, now: u64) -> (opened: Option<usize>)
        ensures
            (final(self).clicked, opened) == spec_click(old(self).clicked, line, now),
            *final(self) == (Panel { clicked: final(self).clicked, ..*old(self) }),
    {
        let (clicked, opened) = click(self.clicked, line, now);
        self.clicked = clicked;
        opened
    }
}

/// The positions in `s` are in the panel's order.
pub open spec fn in_panel_order(cards: Seq<Card>, s: Seq<usize>) -> bool {
    forall|a: int, b: int| 0 <= a < b < s.len() ==>
        spec_before(cards[s[a] as int], s[a] as int, cards[s[b] as int], s[b] as int)
}

proof fn lemma_ordered_distinct(cards: Seq<Card>, s: Seq<usize>, a: int, b: int)
    requires
        in_panel_order(cards, s),
        0 <= a < b < s.len(),
    ensures
        s[a] != s[b],
{
    if s[a] == s[b] {
        assert(spec_before(cards[s[a] as int], s[a] as int, cards[s[b] as int], s[b] as int));
    }
}

proof fn lemma_same_order(cards: Seq<Card>, s: Seq<usize>, t: Seq<usize>)
    requires
        in_panel_order(cards, s),
        in_panel_order(cards, t),
        forall|x: usize| s.contains(x) <==> t.contains(x),
    ensures
        s == t,
    decreases s.len(),
{
    if s.len() == 0 {
        if t.len() > 0 {
            assert(t.contains(t[0]));
        }
        assert(s =~= t);
    } else {
        assert(s.contains(s[0]));
        assert(t.contains(s[0]));
        let b = choose|b: int| 0 <= b < t.len() && t[b] == s[0];
        assert(t.contains(t[0]));
        let a = choose|a: int| 0 <= a < s.len() && s[a] == t[0];
        if s[0] != t[0] {
            assert(a > 0 && b > 0);
            assert(spec_before(cards[s[0] as int], s[0] as int, cards[s[a] as int], s[a] as int));
            assert(spec_before(cards[t[0] as int], t[0] as int, cards[t[b] as int], t[b] as int));
            lemma_before_total(cards[s[0] as int], s[0] as int, cards[t[0] as int], t[0] as int);
        }
        let s1 = s.drop_first();
        let t1 = t.drop_first();
        assert forall|x: usize| s1.contains(x) <==> t1.contains(x) by {
            if s1.contains(x) {
                let i = choose|i: int| 0 <= i < s1.len() && s1[i] == x;
                lemma_ordered_distinct(cards, s, 0, i + 1);
                assert(s.contains(x));
                let j = choose|j: int| 0 <= j < t.len() && t[j] == x;
                assert(j != 0);
                assert(t1[j - 1] == x);
            }
            if t1.contains(x) {
                let i = choose|i: int| 0 <= i < t1.len() && t1[i] == x;
                lemma_ordered_distinct(cards, t, 0, i + 1);
                assert(t.contains(x));
                let j = choose|j: int| 0 <= j < s.len() && s[j] == x;
                assert(j != 0);
                assert(s1[j - 1] == x);
            }
        }
        assert(in_panel_order(cards, s1)) by {
            assert forall|a: int, b: int| 0 <= a < b < s1.len() implies
                spec_before(cards[s1[a] as int], s1[a] as int, cards[s1[b] as int], s1[b] as int) by {
                assert(s1[a] == s[a + 1] && s1[b] == s[b + 1]);
            }
        }
        assert(in_panel_order(cards, t1)) by {
            assert forall|a: int, b: int| 0 <= a < b < t1.len() implies
                spec_before(cards[t1[a] as int], t1[a] as int, cards[t1[b] as int], t1[b] as int) by {
                assert(t1[a] == t[a + 1] && t1[b] == t[b + 1]);
            }
        }
        lemma_same_order(cards, s1, t1);
        assert(s[0] == t[0]);
        assert(s.len() == t.len());
        assert forall|i: int| 0 <= i < s.len() implies s[i] == t[i] by {
            if i > 0 {
                assert(s[i] == s1[i - 1]);
                assert(t[i] == t1[i - 1]);
            }
        }
        assert(s =~= t);
    }
}

/// The panel's contents are fully determined by the cards and the filters: two lists
/// that each show exactly the passing cards in the panel's order are the same list.
pub proof fn law_the_panel_order_is_determined(cards: Seq<Card>, query: Seq<char>, strength: Strength, kind: Option<i32>,
    focus: Option<(u32, usize)>, s: Seq<usize>, t: Seq<usize>)
    requires
        spec_sifted(cards, query, strength, kind, focus, s),
        spec_sifted(cards, query, strength, kind, focus, t),
    ensures
        s == t,
{
    assert forall|x: usize| s.contains(x) <==> t.contains(x) by {
        if s.contains(x) {
            let i = choose|i: int| 0 <= i < s.len() && s[i] == x;
            assert(s[i] < cards.len());
            assert(spec_passes(cards[x as int], query, strength, kind, focus));
        }
        if t.contains(x) {
            let i = choose|i: int| 0 <= i < t.len() && t[i] == x;
            assert(t[i] < cards.len());
            assert(spec_passes(cards[x as int], query, strength, kind, focus));
        }
    }
    lemma_same_order(cards, s, t);
}

} // verus!
