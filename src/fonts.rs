//! The font list offered in the settings: the system's families merged with
//! a fixed set of preferred monospace fonts, without duplicates, in
//! lexicographic order.
use vstd::prelude::*;

verus! {

/// Lexicographic order on names, character by character by code point,
/// a proper prefix coming first.
pub open spec fn name_less(a: Seq<char>, b: Seq<char>) -> bool
    decreases a.len(),
{
    if a.len() == 0 {
        b.len() > 0
    } else if b.len() == 0 {
        false
    } else if a[0] != b[0] {
        a[0] < b[0]
    } else {
        name_less(a.drop_first(), b.drop_first())
    }
}

/// Two different names are ordered one way or the other.
proof fn lemma_name_less_total(a: Seq<char>, b: Seq<char>)
    requires
        a != b,
        !name_less(b, a),
    ensures
        name_less(a, b),
    decreases a.len(),
{
    if a.len() > 0 && b.len() > 0 && a[0] == b[0] {
        if a.drop_first() == b.drop_first() {
            assert(a =~= seq![a[0]] + a.drop_first());
            assert(b =~= seq![b[0]] + b.drop_first());
        }
        lemma_name_less_total(a.drop_first(), b.drop_first());
    } else if a.len() == 0 && b.len() == 0 {
        assert(a =~= b);
    }
}

/// The order is transitive.
proof fn lemma_name_less_transitive(a: Seq<char>, b: Seq<char>, c: Seq<char>)
    requires
        name_less(a, b),
        name_less(b, c),
    ensures
        name_less(a, c),
    decreases a.len(),
{
    if a.len() > 0 && a[0] == b[0] && b[0] == c[0] {
        lemma_name_less_transitive(a.drop_first(), b.drop_first(), c.drop_first());
    }
}

/// In a sorted list, a name at position `i` comes before the one at `j > i`.
proof fn lemma_sorted_pair(v: Seq<String>, i: int, j: int)
    requires
        sorted(v),
        0 <= i < j < v.len(),
    ensures
        name_less(v[i]@, v[j]@),
    decreases j - i,
{
    if j > i + 1 {
        lemma_sorted_pair(v, i, j - 1);
        assert(name_less(v[j - 1]@, v[j]@));
        lemma_name_less_transitive(v[i]@, v[j - 1]@, v[j]@);
    }
}

/// A sorted list is in order throughout: every name comes before each
/// name after it, not only before the next one.
pub proof fn law_sorted_in_order(v: Seq<String>)
    requires
        sorted(v),
    ensures
        forall|i: int, j: int| 0 <= i < j < v.len() ==> name_less(#[trigger] v[i]@, #[trigger] v[j]@),
{
    assert forall|i: int, j: int| 0 <= i < j < v.len() implies name_less(#[trigger] v[i]@, #[trigger] v[j]@) by {
        lemma_sorted_pair(v, i, j);
    }
}

/// Whether `a` comes before `b`.
pub fn name_before(a: &str, b: &str) -> (r: bool)
    ensures
        r == name_less(a@, b@),
{
    let la = a.unicode_len();
    let lb = b.unicode_len();
    let mut i: usize = 0;
    assert(a@.skip(0) =~= a@);
    assert(b@.skip(0) =~= b@);
    while i < la && i < lb
        invariant
            la == a@.len(),
            lb == b@.len(),
            i <= la,
            i <= lb,
            name_less(a@, b@) == name_less(a@.skip(i as int), b@.skip(i as int)),
        decreases la - i,
    {
        let ca = a.get_char(i);
        let cb = b.get_char(i);
        assert(a@.skip(i as int)[0] == ca);
        assert(b@.skip(i as int)[0] == cb);
        if ca != cb {
            return ca < cb;
        }
        assert(a@.skip(i as int).drop_first() =~= a@.skip(i + 1));
        assert(b@.skip(i as int).drop_first() =~= b@.skip(i + 1));
        i = i + 1;
    }
    i < lb
}

/// Whether a name is one of `v`'s.
pub open spec fn holds(v: Seq<String>, x: Seq<char>) -> bool {
    exists|j: int| 0 <= j < v.len() && #[trigger] v[j]@ == x
}

/// Each name comes before the next.
pub open spec fn sorted(v: Seq<String>) -> bool {
    forall|i: int| 0 <= i < v.len() - 1 ==> name_less(#[trigger] v[i]@, v[i + 1]@)
}

/// No name occurs twice.
pub open spec fn distinct(v: Seq<String>) -> bool {
    forall|i: int, j: int| 0 <= i < j < v.len() ==> #[trigger] v[i]@ != #[trigger] v[j]@
}

/// Whether `s` is one of `v`'s names.
pub fn contains_name(v: &Vec<String>, s: &String) -> (r: bool)
    ensures
        r == holds(v@, s@),
{
    let mut i: usize = 0;
    while i < v.len()
        invariant
            i <= v@.len(),
            forall|j: int| 0 <= j < i ==> v@[j]@ != s@,
        decreases v@.len() - i,
    {
        if v[i] == *s {
            assert(v@[i as int]@ == s@);
            return true;
        }
        i = i + 1;
    }
    false
}

/// The number of names in `v` that come before `s`, for a sorted `v`: the
/// first of them all do.
pub fn insert_position(v: &Vec<String>, s: &String) -> (k: usize)
    ensures
        k <= v@.len(),
        forall|j: int| 0 <= j < k ==> name_less(#[trigger] v@[j]@, s@),
        k < v@.len() ==> !name_less(v@[k as int]@, s@),
{
    let mut k: usize = 0;
    while k < v.len() && name_before(v[k].as_str(), s.as_str())
        invariant
            k <= v@.len(),
            forall|j: int| 0 <= j < k ==> name_less(#[trigger] v@[j]@, s@),
        decreases v@.len() - k,
    {
        k = k + 1;
    }
    k
}

/// Adds `s` to a sorted list of distinct names, keeping it so; a name
/// already present is not added again.
pub fn insert_name(v: &mut Vec<String>, s: String)
    requires
        sorted(old(v)@),
        distinct(old(v)@),
    ensures
        sorted(final(v)@),
        distinct(final(v)@),
        forall|x: Seq<char>| #[trigger] holds(final(v)@, x) <==> (holds(old(v)@, x) || x == s@),
{
    if contains_name(v, &s) {
        return;
    }
    let k = insert_position(v, &s);
    let ghost before = v@;
    proof {
        if k < before.len() {
            assert(before[k as int]@ != s@);
            lemma_name_less_total(s@, before[k as int]@);
        }
    }
    v.insert(k, s);
    assert(v@ =~= before.insert(k as int, s));
    assert forall|x: Seq<char>| holds(v@, x) <==> (holds(before, x) || x == s@) by {
        if holds(before, x) {
            let j = choose|j: int| 0 <= j < before.len() && #[trigger] before[j]@ == x;
            if j < k {
                assert(v@[j]@ == x);
            } else {
                assert(v@[j + 1]@ == x);
            }
        }
        if x == s@ {
            assert(v@[k as int]@ == x);
        }
        if holds(v@, x) {
            let j = choose|j: int| 0 <= j < v@.len() && #[trigger] v@[j]@ == x;
            if j < k {
                assert(before[j]@ == x);
            } else if j > k {
                assert(before[j - 1]@ == x);
            }
        }
    }
    assert forall|i: int, j: int| 0 <= i < j < v@.len() implies #[trigger] v@[i]@ != #[trigger] v@[j]@ by {
        if j < k {
            assert(v@[i] == before[i] && v@[j] == before[j]);
        } else if j == k {
            assert(v@[i] == before[i]);
        } else if i < k {
            assert(v@[i] == before[i] && v@[j] == before[j - 1]);
        } else if i == k {
            assert(v@[j] == before[j - 1]);
        } else {
            assert(v@[i] == before[i - 1] && v@[j] == before[j - 1]);
        }
    }
    assert forall|i: int| 0 <= i < v@.len() - 1 implies name_less(#[trigger] v@[i]@, v@[i + 1]@) by {
        if i + 1 < k {
            assert(v@[i] == before[i] && v@[i + 1] == before[i + 1]);
        } else if i + 1 == k {
        } else if i == k {
        } else {
            assert(v@[i] == before[i - 1] && v@[i + 1] == before[i]);
        }
    }
}

/// The preferred monospace fonts, always offered.
pub open spec fn is_preferred(x: Seq<char>) -> bool {
    ||| x == "JetBrains Mono"@
    ||| x == "Monaco"@
    ||| x == "Menlo"@
    ||| x == "Consolas"@
    ||| x == "monospace"@
}

/// The font list: the preferred fonts together with the system's families
/// when the system could be asked, sorted, each name once.
pub fn merge_font_list(system: Option<Vec<String>>) -> (r: Vec<String>)
    ensures
        sorted(r@),
        distinct(r@),
        forall|x: Seq<char>| #[trigger] holds(r@, x) <==> (is_preferred(x) || (system matches Some(f) && holds(f@, x))),
{
    let mut r: Vec<String> = Vec::new();
    insert_name(&mut r, String::from_str("JetBrains Mono"));
    insert_name(&mut r, String::from_str("Monaco"));
    insert_name(&mut r, String::from_str("Menlo"));
    insert_name(&mut r, String::from_str("Consolas"));
    insert_name(&mut r, String::from_str("monospace"));
    assert(forall|x: Seq<char>| holds(r@, x) <==> is_preferred(x));
    match system {
        None => r,
        Some(fonts) => {
            let mut i: usize = 0;
            while i < fonts.len()
                invariant
                    i <= fonts@.len(),
                    sorted(r@),
                    distinct(r@),
                    forall|x: Seq<char>| #[trigger] holds(r@, x) <==> (is_preferred(x)
                        || exists|j: int| 0 <= j < i && #[trigger] fonts@[j]@ == x),
                decreases fonts@.len() - i,
            {
                let ghost prev = r@;
                insert_name(&mut r, fonts[i].clone());
                assert forall|x: Seq<char>| holds(r@, x) <==> (is_preferred(x)
                    || exists|j: int| 0 <= j < i + 1 && #[trigger] fonts@[j]@ == x) by {
                    if x == fonts@[i as int]@ {
                        assert(holds(r@, x));
                    }
                    if exists|j: int| 0 <= j < i + 1 && #[trigger] fonts@[j]@ == x {
                        let j = choose|j: int| 0 <= j < i + 1 && #[trigger] fonts@[j]@ == x;
                        if j < i {
                            assert(holds(prev, x));
                        }
                    }
                }
                i = i + 1;
            }
            r
        },
    }
}

/// Relies on font_kit's SystemSource::all_families: the names of the
/// families installed, or nothing when the system could not be asked. What
/// is installed depends on the machine, so nothing is promised of it.
#[verifier::external_body]
fn system_families() -> (r: Option<Vec<String>>) {
    font_kit::source::SystemSource::new().all_families().ok()
}

/// The fonts offered on this machine: sorted, each name once, the preferred
/// monospace fonts always among them, `monospace` included.
pub fn get_system_fonts() -> (r: Vec<String>)
    ensures
        sorted(r@),
        distinct(r@),
        forall|x: Seq<char>| is_preferred(x) ==> holds(r@, x),
        holds(r@, "monospace"@),
{
    let fonts = system_families();
    let r = merge_font_list(fonts);
    assert(is_preferred("monospace"@));
    r
}

} // verus!
