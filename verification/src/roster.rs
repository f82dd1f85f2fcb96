//! The cat and enemy rosters: which entries a search matches, which banner a cat shows
//! for a chosen form, and what a cat's tooltip lists.

use vstd::prelude::*;
use crate::combos::{contains_text, lowercase, lowercase_of, spec_contains};
use crate::text::{chars_of, is_digit, push_str};

verus! {

/// The names of the four forms, in order.
pub const FORM_LABELS: [&'static str; 4] = ["Normal", "Evolved", "True", "Ultra"];

/// The label of a form, by position.
pub open spec fn spec_form_label(form: int) -> Seq<char> {
    if form == 0 {
        "Normal"@
    } else if form == 1 {
        "Evolved"@
    } else if form == 2 {
        "True"@
    } else {
        "Ultra"@
    }
}

/// Whether an enemy matches a search (`query` is already in lower case): by its name in
/// lower case, or, for a search that starts with a digit, by its ID text.
pub open spec fn spec_enemy_matches(id_text: Seq<char>, name: Seq<char>, query: Seq<char>) -> bool {
    (query.len() > 0 && is_digit(query[0]) && spec_contains(lowercase_of(id_text), query))
        || spec_contains(lowercase_of(name), query)
}

/// Whether an enemy matches a search (see [`spec_enemy_matches`]).
pub fn enemy_matches(id_text: &str, name: &str, query: &str) -> (b: bool)
    ensures
        b == spec_enemy_matches(id_text@, name@, query@),
{
    let q = chars_of(query);
    let by_id = q.len() > 0 && '0' <= q[0] && q[0] <= '9';
    if by_id {
        let id = lowercase(id_text);
        if contains_text(id.as_str(), query) {
            return true;
        }
    }
    let named = lowercase(name);
    contains_text(named.as_str(), query)
}

/// Whether a cat matches a search (`query` is already in lower case): by its ID text, or
/// by one of its form names in lower case.
pub open spec fn spec_cat_matches(id_text: Seq<char>, names: Seq<Option<String>>, query: Seq<char>) -> bool {
    spec_contains(id_text, query)
        || exists|i: int| 0 <= i < names.len() && ((#[trigger] names[i]) matches Some(n)
            && spec_contains(lowercase_of(n@), query))
}

/// Whether a cat matches a search (see [`spec_cat_matches`]).
pub fn cat_matches(id_text: &str, names: &Vec<Option<String>>, query: &str) -> (b: bool)
    ensures
        b == spec_cat_matches(id_text@, names@, query@),
{
    if contains_text(id_text, query) {
        return true;
    }
    let mut i: usize = 0;
    while i < names.len()
        invariant
            i <= names@.len(),
            !spec_contains(id_text@, query@),
            forall|j: int| 0 <= j < i ==> !((#[trigger] names@[j]) matches Some(n) && spec_contains(lowercase_of(n@), query@)),
        decreases names.len() - i,
    {
        match &names[i] {
            Some(n) => {
                let folded = lowercase(n.as_str());
                if contains_text(folded.as_str(), query) {
                    assert(names@[i as int] matches Some(m) && spec_contains(lowercase_of(m@), query@));
                    return true;
                }
            },
            None => {},
        }
        i = i + 1;
    }
    false
}

/// The form whose banner a cat shows when `preferred` is asked for: the highest form up
/// to the preferred one (or the last form) that has a banner, else the first form that
/// has one. `banners` says which forms have one; a cat has at least one form.
pub fn banner_form(banners: &Vec<bool>, preferred: usize) -> (r: Option<usize>)
    requires
        banners@.len() > 0,
    ensures
        r matches Some(f) ==> f < banners@.len() && banners@[f as int],
        r is None <==> forall|f: int| 0 <= f < banners@.len() ==> !banners@[f],
        ({
            let top = if preferred < banners@.len() - 1 { preferred as int } else { banners@.len() - 1 };
            &&& (exists|f: int| 0 <= f <= top && #[trigger] banners@[f]) ==> (r matches Some(f)
                && f <= top && forall|g: int| f < g <= top ==> !banners@[g])
            &&& !(exists|f: int| 0 <= f <= top && #[trigger] banners@[f]) ==> (r matches Some(f) ==>
                forall|g: int| 0 <= g < f ==> !banners@[g])
        }),
{
    let last = banners.len() - 1;
    let top = if preferred < last { preferred } else { last };
    assert(top == (if preferred < banners@.len() - 1 { preferred as int } else { banners@.len() - 1 }));
    let mut f: usize = top + 1;
    while f > 0
        invariant
            f <= top + 1,
            top < banners@.len(),
            top == (if preferred < banners@.len() - 1 { preferred as int } else { banners@.len() - 1 }),
            forall|g: int| f <= g <= top ==> !banners@[g],
        decreases f,
    {
        if banners[f - 1] {
            assert(banners@[f - 1]);
            return Some(f - 1);
        }
        f = f - 1;
    }
    let mut k: usize = 0;
    while k < banners.len()
        invariant
            k <= banners@.len(),
            top < banners@.len(),
            top == (if preferred < banners@.len() - 1 { preferred as int } else { banners@.len() - 1 }),
            forall|g: int| 0 <= g <= top ==> !banners@[g],
            forall|g: int| 0 <= g < k ==> !banners@[g],
        decreases banners.len() - k,
    {
        if banners[k] {
            assert(!(exists|g: int| 0 <= g <= top && #[trigger] banners@[g]));
            return Some(k);
        }
        k = k + 1;
    }
    None
}

/// The rows of a cat's tooltip: its ID, then the name of each form it has, labelled by
/// the form. `forms` says which of the four forms it has; `names` holds their names.
pub open spec fn spec_tooltip_rows(id_text: Seq<char>, forms: Seq<bool>, names: Seq<Seq<char>>) -> Seq<(Seq<char>, Seq<char>)>
    decreases forms.len(),
{
    if forms.len() == 0 {
        seq![("ID"@, id_text)]
    } else {
        let before = spec_tooltip_rows(id_text, forms.drop_last(), names);
        let f = forms.len() - 1;
        if forms.last() { before.push((spec_form_label(f), names[f])) } else { before }
    }
}

/// The rows of a cat's tooltip (see [`spec_tooltip_rows`]).
pub fn tooltip_rows(id_text: &str, forms: &[bool; 4], names: &Vec<String>) -> (rows: Vec<(String, String)>)
    requires
        names@.len() == 4,
    ensures
        rows@.map_values(|r: (String, String)| (r.0@, r.1@))
            == spec_tooltip_rows(id_text@, forms@, names@.map_values(|n: String| n@)),
{
    let ghost named = names@.map_values(|n: String| n@);
    let mut rows: Vec<(String, String)> = Vec::new();
    let mut label = String::new();
    push_str(&mut label, "ID");
    let mut value = String::new();
    push_str(&mut value, id_text);
    rows.push((label, value));
    proof {
        assert(forms@.take(0) =~= Seq::<bool>::empty());
        assert(rows@.map_values(|r: (String, String)| (r.0@, r.1@)) =~= spec_tooltip_rows(id_text@, forms@.take(0), named));
    }
    let mut i: usize = 0;
    while i < 4
        invariant
            i <= 4,
            forms@.len() == 4,
            names@.len() == 4,
            named == names@.map_values(|n: String| n@),
            rows@.map_values(|r: (String, String)| (r.0@, r.1@)) == spec_tooltip_rows(id_text@, forms@.take(i as int), named),
        decreases 4 - i,
    {
        let ghost before = rows@;
        if forms[i] {
            let mut label = String::new();
            push_str(&mut label, FORM_LABELS[i]);
            let value = names[i].clone();
            proof {
                reveal_strlit("Normal");
                reveal_strlit("Evolved");
                reveal_strlit("True");
                reveal_strlit("Ultra");
                assert(label@ == spec_form_label(i as int));
            }
            rows.push((label, value));
        }
        proof {
            assert(forms@.take(i + 1).drop_last() =~= forms@.take(i as int));
            assert(rows@.map_values(|r: (String, String)| (r.0@, r.1@)) =~= spec_tooltip_rows(id_text@, forms@.take(i + 1), named));
        }
        i = i + 1;
    }
    assert(forms@.take(4) =~= forms@);
    rows
}

} // verus!
