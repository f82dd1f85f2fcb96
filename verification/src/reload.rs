//! What a batch of changed files touches: the unit, enemy and item art to reload, and
//! whether stage art must be reloaded wholesale.

use vstd::prelude::*;
use crate::text::{chars_of, last_index, lemma_last_index_bounds};
use crate::watcher::{asset, spec_asset, Asset};

verus! {

/// A file name's extension: what follows its last '.', unless that '.' opens the name
/// (a hidden file has no extension).
pub open spec fn spec_extension(name: Seq<char>) -> Option<Seq<char>> {
    let d = last_index(name, '.', name.len() as int);
    if d <= 0 {
        None
    } else {
        Some(name.skip(d + 1))
    }
}

/// Whether a file name is a PNG image: its extension is "png" in any case.
pub open spec fn spec_is_png(name: Seq<char>) -> bool {
    match spec_extension(name) {
        None => false,
        Some(e) => e.len() == 3
            && (e[0] == 'p' || e[0] == 'P')
            && (e[1] == 'n' || e[1] == 'N')
            && (e[2] == 'g' || e[2] == 'G'),
    }
}

/// Whether a file name is a PNG image.
pub fn is_png(name: &str) -> (b: bool)
    ensures
        b == spec_is_png(name@),
{
    let v = chars_of(name);
    let n = v.len();
    let mut i: usize = n;
    while i > 0 && v[i - 1] != '.'
        invariant
            i <= n,
            n == v@.len(),
            v@ == name@,
            last_index(name@, '.', i as int) == last_index(name@, '.', n as int),
        decreases i,
    {
        i = i - 1;
    }
    proof {
        lemma_last_index_bounds(name@, '.', n as int);
    }
    if i <= 1 {
        assert(last_index(name@, '.', n as int) <= 0);
        return false;
    }
    let d = i - 1;
    assert(last_index(name@, '.', n as int) == d);
    if n - d - 1 != 3 {
        return false;
    }
    assert(name@.skip(d + 1).len() == 3);
    assert(name@.skip(d + 1)[0] == v@[d + 1]);
    assert(name@.skip(d + 1)[1] == v@[d + 2]);
    assert(name@.skip(d + 1)[2] == v@[d + 3]);
    let a = v[d + 1];
    let b = v[d + 2];
    let c = v[d + 3];
    (a == 'p' || a == 'P') && (b == 'n' || b == 'N') && (c == 'g' || c == 'G')
}

/// The ids of the art named in `names` that belongs to units (`kind` 0), enemies (1)
/// or items (2).
pub open spec fn art_id(kind: int, a: Option<Asset>) -> Option<u32> {
    match a {
        Some(Asset::Unit(id)) => if kind == 0 { Some(id) } else { None },
        Some(Asset::Enemy(id)) => if kind == 1 { Some(id) } else { None },
        Some(Asset::Item(id)) => if kind == 2 { Some(id) } else { None },
        None => None,
    }
}

/// Whether some name among the first `k` names is art of `kind` with this id.
pub open spec fn named(names: Seq<Seq<char>>, k: int, kind: int, id: u32) -> bool {
    exists|i: int| 0 <= i < k && art_id(kind, spec_asset(#[trigger] names[i])) == Some(id)
}

/// Whether some name among the first `k` names is an image that is no unit, enemy or
/// item art (so stage art may have changed).
pub open spec fn coarse_in(names: Seq<Seq<char>>, k: int) -> bool {
    exists|i: int| 0 <= i < k && spec_asset(#[trigger] names[i]) is None && spec_is_png(names[i])
}

/// What a batch of changed files touches. Each list holds an id at most once.
#[derive(Debug, Clone, PartialEq, Eq)]
pub struct Touched {
    pub units: Vec<u32>,
    pub enemies: Vec<u32>,
    pub items: Vec<u32>,
    /// An image that is no unit, enemy or item art changed: stage art is reloaded.
    pub coarse: bool,
}

/// Whether `t` is exactly what the first `k` names touch.
pub open spec fn touches(t: Touched, names: Seq<Seq<char>>, k: int) -> bool {
    &&& t.units@.no_duplicates()
    &&& t.enemies@.no_duplicates()
    &&& t.items@.no_duplicates()
    &&& forall|id: u32| t.units@.contains(id) <==> named(names, k, 0, id)
    &&& forall|id: u32| t.enemies@.contains(id) <==> named(names, k, 1, id)
    &&& forall|id: u32| t.items@.contains(id) <==> named(names, k, 2, id)
    &&& t.coarse == coarse_in(names, k)
}

fn add_unique(v: &mut Vec<u32>, id: u32)
    requires
        old(v)@.no_duplicates(),
    ensures
        final(v)@.no_duplicates(),
        forall|q: u32| final(v)@.contains(q) <==> (old(v)@.contains(q) || q == id),
{
    let mut i: usize = 0;
    while i < v.len()
        invariant
            i <= v.len(),
            v@ == old(v)@,
            old(v)@.no_duplicates(),
            forall|j: int| 0 <= j < i ==> v@[j] != id,
        decreases v.len() - i,
    {
        if v[i] == id {
            return;
        }
        i = i + 1;
    }
    proof {
        crate::seqs::lemma_push_unique(v@, id);
    }
    v.push(id);
}

/// Sorts the names of changed files into the art they touch.
pub fn sort_changes(names: &Vec<String>) -> (t: Touched)
    ensures
        touches(t, crate::watcher::names(names@), names@.len() as int),
{
    let ghost ns = crate::watcher::names(names@);
    let mut t = Touched { units: Vec::new(), enemies: Vec::new(), items: Vec::new(), coarse: false };
    let mut k: usize = 0;
    while k < names.len()
        invariant
            k <= names.len(),
            ns == crate::watcher::names(names@),
            ns.len() == names@.len(),
            touches(t, ns, k as int),
        decreases names.len() - k,
    {
        let name = names[k].as_str();
        assert(ns[k as int] == name@);
        let a = asset(name);
        let png = is_png(name);
        let ghost before = t;
        match a {
            Some(Asset::Unit(id)) => add_unique(&mut t.units, id),
            Some(Asset::Enemy(id)) => add_unique(&mut t.enemies, id),
            Some(Asset::Item(id)) => add_unique(&mut t.items, id),
            None => {
                if png {
                    t.coarse = true;
                }
            },
        }
        proof {
            let k1 = k as int + 1;
            assert forall|kind: int, id: u32| #![trigger named(ns, k1, kind, id)]
                named(ns, k1, kind, id) <==> (named(ns, k as int, kind, id) || art_id(kind, spec_asset(ns[k as int])) == Some(id)) by {
                if named(ns, k1, kind, id) {
                    let i = choose|i: int| 0 <= i < k1 && art_id(kind, spec_asset(#[trigger] ns[i])) == Some(id);
                    if i < k as int {
                        assert(named(ns, k as int, kind, id));
                    }
                }
                if named(ns, k as int, kind, id) {
                    let i = choose|i: int| 0 <= i < k as int && art_id(kind, spec_asset(#[trigger] ns[i])) == Some(id);
                    assert(0 <= i < k1);
                }
                if art_id(kind, spec_asset(ns[k as int])) == Some(id) {
                    assert(0 <= k as int && (k as int) < k1);
                }
            }
            assert(coarse_in(ns, k1) == (coarse_in(ns, k as int) || (spec_asset(ns[k as int]) is None && spec_is_png(ns[k as int])))) by {
                if coarse_in(ns, k1) {
                    let i = choose|i: int| 0 <= i < k1 && spec_asset(#[trigger] ns[i]) is None && spec_is_png(ns[i]);
                    if i < k as int {
                        assert(coarse_in(ns, k as int));
                    }
                }
                if coarse_in(ns, k as int) {
                    let i = choose|i: int| 0 <= i < k as int && spec_asset(#[trigger] ns[i]) is None && spec_is_png(ns[i]);
                    assert(0 <= i < k1);
                }
                if spec_asset(ns[k as int]) is None && spec_is_png(ns[k as int]) {
                    assert(0 <= k as int && (k as int) < k1);
                }
            }
            assert forall|id: u32| t.units@.contains(id) <==> named(ns, k1, 0, id) by {
                assert(named(ns, k1, 0, id) <==> (named(ns, k as int, 0, id) || art_id(0, spec_asset(ns[k as int])) == Some(id)));
            }
            assert forall|id: u32| t.enemies@.contains(id) <==> named(ns, k1, 1, id) by {
                assert(named(ns, k1, 1, id) <==> (named(ns, k as int, 1, id) || art_id(1, spec_asset(ns[k as int])) == Some(id)));
            }
            assert forall|id: u32| t.items@.contains(id) <==> named(ns, k1, 2, id) by {
                assert(named(ns, k1, 2, id) <==> (named(ns, k as int, 2, id) || art_id(2, spec_asset(ns[k as int])) == Some(id)));
            }
        }
        k = k + 1;
    }
    t
}

} // verus!
