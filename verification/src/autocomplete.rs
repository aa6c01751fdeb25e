//! Autocomplete: a fixed catalog of candidate commands, matched against
//! the current line prefix in catalog order.
use vstd::prelude::*;
use crate::line::{all_printable, LINE_MAX};
use crate::text::chars_of;

verus! {

/// The fixed candidate catalog, in the order candidates are offered.
pub open spec fn spec_catalog() -> Seq<Seq<char>> {
    seq!["clear"@, "blink "@, "help"@, "help pinout"@]
}

/// `p` is a prefix of `s`.
pub open spec fn is_prefix_of(p: Seq<char>, s: Seq<char>) -> bool {
    p.len() <= s.len() && p == s.subrange(0, p.len() as int)
}

/// The catalog entries that `p` is a prefix of, in catalog order.
pub open spec fn spec_suggestions_of(cat: Seq<Seq<char>>, p: Seq<char>) -> Seq<Seq<char>>
    decreases cat.len(),
{
    if cat.len() == 0 {
        Seq::empty()
    } else {
        spec_suggestions_of(cat.drop_last(), p) + if is_prefix_of(p, cat.last()) {
            seq![cat.last()]
        } else {
            Seq::empty()
        }
    }
}

/// The candidates offered for the line prefix `p`.
pub open spec fn spec_suggestions(p: Seq<char>) -> Seq<Seq<char>> {
    spec_suggestions_of(spec_catalog(), p)
}

/// On the prefix `bl` the catalog offers exactly one candidate, the
/// blink command with its argument separator.
pub proof fn lemma_bl_completes_to_blink()
    ensures
        spec_suggestions("bl"@) =~= seq!["blink "@],
{
    reveal_strlit("bl");
    reveal_strlit("clear");
    reveal_strlit("blink ");
    reveal_strlit("help");
    reveal_strlit("help pinout");
    let cat = spec_catalog();
    let cat3 = seq!["clear"@, "blink "@, "help"@];
    let cat2 = seq!["clear"@, "blink "@];
    let cat1 = seq!["clear"@];
    assert(cat.drop_last() =~= cat3 && cat.last() == "help pinout"@);
    assert(cat3.drop_last() =~= cat2 && cat3.last() == "help"@);
    assert(cat2.drop_last() =~= cat1 && cat2.last() == "blink "@);
    assert(cat1.drop_last() =~= Seq::<Seq<char>>::empty() && cat1.last() == "clear"@);
    assert(!is_prefix_of("bl"@, "clear"@)) by {
        assert("clear"@.subrange(0, 2)[0] == 'c');
    }
    assert(is_prefix_of("bl"@, "blink "@)) by {
        assert("bl"@ =~= "blink "@.subrange(0, 2));
    }
    assert(!is_prefix_of("bl"@, "help"@)) by {
        assert("help"@.subrange(0, 2)[0] == 'h');
    }
    assert(!is_prefix_of("bl"@, "help pinout"@)) by {
        assert("help pinout"@.subrange(0, 2)[0] == 'h');
    }
    assert(spec_suggestions_of(Seq::<Seq<char>>::empty(), "bl"@) == Seq::<Seq<char>>::empty());
    assert(spec_suggestions_of(cat1, "bl"@) =~= Seq::<Seq<char>>::empty());
    assert(spec_suggestions_of(cat2, "bl"@) =~= seq!["blink "@]);
    assert(spec_suggestions_of(cat3, "bl"@) =~= seq!["blink "@]);
}

/// The catalog as executable vectors, in catalog order; every entry fits
/// the line buffer and is printable, so a suggestion can replace the line.
pub fn catalog() -> (r: Vec<Vec<char>>)
    ensures
        r@.map_values(|v: Vec<char>| v@) == spec_catalog(),
        forall|i: int|
            0 <= i < r@.len() ==> 1 <= (#[trigger] r@[i])@.len() <= LINE_MAX && all_printable(
                r@[i]@,
            ),
{
    let mut r: Vec<Vec<char>> = Vec::new();
    r.push(chars_of("clear"));
    r.push(chars_of("blink "));
    r.push(chars_of("help"));
    r.push(chars_of("help pinout"));
    proof {
        reveal_strlit("clear");
        reveal_strlit("blink ");
        reveal_strlit("help");
        reveal_strlit("help pinout");
        assert(r@.map_values(|v: Vec<char>| v@) =~= spec_catalog());
    }
    r
}

/// Whether `p` is a prefix of `s`.
pub fn starts_with(s: &Vec<char>, p: &Vec<char>) -> (r: bool)
    ensures
        r == is_prefix_of(p@, s@),
{
    if p.len() > s.len() {
        proof {
            assert(!is_prefix_of(p@, s@));
        }
        return false;
    }
    let mut i: usize = 0;
    while i < p.len()
        invariant
            i <= p@.len() <= s@.len(),
            forall|k: int| 0 <= k < i ==> p@[k] == s@[k],
        decreases p@.len() - i,
    {
        if p[i] != s[i] {
            proof {
                assert(p@ != s@.subrange(0, p@.len() as int));
            }
            return false;
        }
        i = i + 1;
    }
    proof {
        assert(p@ =~= s@.subrange(0, p@.len() as int));
    }
    true
}

/// The catalog entries the current line is a prefix of, in catalog order.
pub fn suggestions(prefix: &Vec<char>) -> (r: Vec<Vec<char>>)
    ensures
        r@.map_values(|v: Vec<char>| v@) == spec_suggestions(prefix@),
        forall|i: int|
            0 <= i < r@.len() ==> 1 <= (#[trigger] r@[i])@.len() <= LINE_MAX && all_printable(
                r@[i]@,
            ),
{
    let cat = catalog();
    let mut r: Vec<Vec<char>> = Vec::new();
    let mut i: usize = 0;
    let ghost cs = cat@.map_values(|v: Vec<char>| v@);
    while i < cat.len()
        invariant
            i <= cat@.len(),
            cs == cat@.map_values(|v: Vec<char>| v@),
            cs == spec_catalog(),
            r@.map_values(|v: Vec<char>| v@) == spec_suggestions_of(cs.take(i as int), prefix@),
            forall|k: int|
                0 <= k < cat@.len() ==> 1 <= (#[trigger] cat@[k])@.len() <= LINE_MAX
                    && all_printable(cat@[k]@),
            forall|k: int|
                0 <= k < r@.len() ==> 1 <= (#[trigger] r@[k])@.len() <= LINE_MAX && all_printable(
                    r@[k]@,
                ),
        decreases cat@.len() - i,
    {
        let ghost pre = r@.map_values(|v: Vec<char>| v@);
        let entry = cat[i].clone();
        if starts_with(&entry, prefix) {
            r.push(entry);
        }
        proof {
            assert(cs.take(i + 1).drop_last() =~= cs.take(i as int));
            assert(cs.take(i + 1).last() == cs[i as int]);
            if is_prefix_of(prefix@, cs[i as int]) {
                assert(r@.map_values(|v: Vec<char>| v@) =~= pre + seq![cs[i as int]]);
            } else {
                assert(r@.map_values(|v: Vec<char>| v@) =~= pre + Seq::<Seq<char>>::empty());
            }
        }
        i = i + 1;
    }
    proof {
        assert(cs.take(cat@.len() as int) =~= cs);
    }
    r
}

} // verus!
