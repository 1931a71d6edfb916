//! Keyword tables: lists of pairs of a keyword and the value it names, and
//! the one routine that looks a keyword up in them.

use vstd::prelude::*;

verus! {

/// The lower-case form of an ASCII capital; any other character unchanged.
pub open spec fn ascii_lower(c: char) -> char {
    if 'A' <= c && c <= 'Z' {
        ((c as int) + 32) as char
    } else {
        c
    }
}

/// Whether `a` and `b` are the same text up to the case of ASCII letters.
pub open spec fn eq_ignoring_case(a: Seq<char>, b: Seq<char>) -> bool {
    a.len() == b.len() && forall|i: int|
        0 <= i < a.len() ==> ascii_lower(#[trigger] a[i]) == ascii_lower(b[i])
}

/// `str::eq_ignore_ascii_case` compares two strings up to the case of ASCII
/// letters.
pub assume_specification[ str::eq_ignore_ascii_case ](a: &str, b: &str) -> (r: bool)
    ensures
        r == eq_ignoring_case(a@, b@),
;

/// The value of the first entry of `table` whose keyword is `ident` up to
/// ASCII case.
pub open spec fn spec_keyword<T>(table: Seq<(&'static str, T)>, ident: Seq<char>) -> Option<T>
    decreases table.len(),
{
    if table.len() == 0 {
        None
    } else if eq_ignoring_case(ident, table[0].0@) {
        Some(table[0].1)
    } else {
        spec_keyword(table.skip(1), ident)
    }
}

/// Looks `ident` up in `table`.
pub fn keyword<T: Copy>(table: &[(&'static str, T)], ident: &str) -> (r: Option<T>)
    ensures
        r == spec_keyword(table@, ident@),
{
    let mut i: usize = 0;
    proof {
        assert(table@.skip(0) =~= table@);
    }
    while i < table.len()
        invariant
            i <= table.len(),
            spec_keyword(table@, ident@) == spec_keyword(table@.skip(i as int), ident@),
        decreases table.len() - i,
    {
        proof {
            assert(table@.skip(i as int)[0] == table@[i as int]);
            assert(table@.skip(i as int).skip(1) =~= table@.skip(i + 1));
        }
        if ident.eq_ignore_ascii_case(table[i].0) {
            return Some(table[i].1);
        }
        i = i + 1;
    }
    None
}

/// A keyword finds the value of its own entry, if no entry before it has the
/// same keyword up to ASCII case.
pub proof fn lemma_keyword_found<T>(table: Seq<(&'static str, T)>, index: int)
    requires
        0 <= index < table.len(),
        forall|j: int| 0 <= j < index ==> !eq_ignoring_case(table[index].0@, #[trigger] table[j].0@),
    ensures
        spec_keyword(table, table[index].0@) == Some(table[index].1),
    decreases index,
{
    if index > 0 {
        let rest = table.skip(1);
        assert forall|j: int| 0 <= j < index - 1 implies !eq_ignoring_case(
            rest[index - 1].0@,
            #[trigger] rest[j].0@,
        ) by {
            assert(rest[j] == table[j + 1]);
        }
        lemma_keyword_found(rest, index - 1);
    }
}

} // verus!
