//! Closed vocabularies: enumerations spelled by short codes in a report.
use vstd::prelude::*;

use crate::text::{lit, lit_at, lift_pos, same_text};

verus! {

/// The spellings of a table as character sequences.
pub open spec fn table_view<E>(t: Seq<(&'static str, E)>) -> Seq<(Seq<char>, E)> {
    t.map_values(|x: (&'static str, E)| (x.0@, x.1))
}

/// The value of the first spelling in `table` that equals `t`.
pub open spec fn lookup<E>(table: Seq<(Seq<char>, E)>, t: Seq<char>) -> Option<E>
    decreases table.len(),
{
    if table.len() == 0 {
        None
    } else if table[0].0 == t {
        Some(table[0].1)
    } else {
        lookup(table.drop_first(), t)
    }
}

/// The value of the first spelling in `table` that the bytes at `p` start
/// with, and the position after it.
pub open spec fn lex_table<E>(table: Seq<(Seq<char>, E)>, s: Seq<u8>, p: int) -> Option<
    (E, int),
>
    decreases table.len(),
{
    if table.len() == 0 {
        None
    } else {
        match lit(s, p, table[0].0) {
            Some(e) => Some((table[0].1, e)),
            None => lex_table(table.drop_first(), s, p),
        }
    }
}

/// A text that is none of the spellings of a table is not recognised.
pub proof fn lookup_only_listed<E>(table: Seq<(Seq<char>, E)>, t: Seq<char>)
    ensures
        (forall|i: int| 0 <= i < table.len() ==> #[trigger] table[i].0 != t) ==> lookup(
            table,
            t,
        ) is None,
        lookup(table, t) matches Some(v) ==> exists|i: int|
            0 <= i < table.len() && #[trigger] table[i] == (t, v),
    decreases table.len(),
{
    if table.len() > 0 {
        lookup_only_listed(table.drop_first(), t);
        if table[0].0 != t {
            assert forall|i: int| 0 <= i < table.len() - 1 implies #[trigger] table.drop_first()[i]
                == table[i + 1] by {}
            if lookup(table, t) is Some {
                let v = lookup(table, t)->Some_0;
                let i = choose|i: int|
                    0 <= i < table.drop_first().len() && #[trigger] table.drop_first()[i] == (t, v);
                assert(table[i + 1] == (t, v));
            }
        }
    }
}

/// An enumeration written in a report as one of a few fixed codes.
pub trait Vocabulary: Sized + Copy {
    /// Every accepted spelling with its value, in the order a report
    /// parser tries them (a longer code before a code that is its prefix).
    spec fn spellings() -> Seq<(Seq<char>, Self)>;

    /// The canonical code of a value.
    spec fn spec_code(self) -> Seq<char>;

    fn spelling_table() -> (r: Vec<(&'static str, Self)>)
        ensures
            table_view(r@) == Self::spellings(),
    ;

    /// The canonical code of a value.
    fn code(self) -> (r: &'static str)
        ensures
            r@ == self.spec_code(),
    ;

    /// Reading back the canonical code of any value gives that value.
    proof fn code_round_trip(self)
        ensures
            lookup(Self::spellings(), self.spec_code()) == Some(self),
    ;

    /// Every listed spelling, canonical code or synonym, reads back as the
    /// value it is listed with.
    proof fn spellings_unambiguous()
        ensures
            forall|i: int|
                0 <= i < Self::spellings().len() ==> lookup(
                    Self::spellings(),
                    #[trigger] Self::spellings()[i].0,
                ) == Some(Self::spellings()[i].1),
    ;
}

/// The value spelled exactly by `t`, if any.
pub fn from_code<E: Vocabulary>(t: &str) -> (r: Option<E>)
    ensures
        r == lookup(E::spellings(), t@),
{
    let table = E::spelling_table();
    let ghost full = E::spellings();
    let mut i: usize = 0;
    assert(full.skip(0) =~= full);
    while i < table.len()
        invariant
            0 <= i <= table@.len(),
            table_view(table@) == full,
            full.len() == table@.len(),
            full == E::spellings(),
            lookup(full, t@) == lookup(full.skip(i as int), t@),
        decreases table@.len() - i,
    {
        let (code, value) = table[i];
        assert(full.skip(i as int).drop_first() =~= full.skip(i as int + 1));
        assert(full.skip(i as int)[0] == (code@, value));
        if same_text(code, t) {
            assert(lookup(full.skip(i as int), t@) == Some(value));
            return Some(value);
        }
        i += 1;
    }
    assert(full.skip(i as int).len() == 0);
    None
}

/// The value of the first spelling that the bytes at `p` start with.
pub fn lex_at<E: Vocabulary>(s: &[u8], p: usize) -> (r: Option<(E, usize)>)
    requires
        p <= s@.len(),
    ensures
        lift_pos(r) == lex_table(E::spellings(), s@, p as int),
        r matches Some((_, e)) ==> p <= e <= s@.len(),
{
    let table = E::spelling_table();
    let ghost full = E::spellings();
    let mut i: usize = 0;
    assert(full.skip(0) =~= full);
    while i < table.len()
        invariant
            0 <= i <= table@.len(),
            p <= s@.len(),
            table_view(table@) == full,
            full.len() == table@.len(),
            full == E::spellings(),
            lex_table(full, s@, p as int) == lex_table(full.skip(i as int), s@, p as int),
        decreases table@.len() - i,
    {
        let (code, value) = table[i];
        assert(full.skip(i as int).drop_first() =~= full.skip(i as int + 1));
        assert(full.skip(i as int)[0] == (code@, value));
        match lit_at(s, p, code) {
            Some(e) => {
                assert(lex_table(full.skip(i as int), s@, p as int) == Some((value, e as int)));
                return Some((value, e));
            },
            None => {},
        }
        i += 1;
    }
    assert(full.skip(i as int).len() == 0);
    None
}

} // verus!
