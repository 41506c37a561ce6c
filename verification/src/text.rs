//! Building blocks for generated source text: sequence joins, decimal
//! numerals and the case conversions of identifiers.
use vstd::prelude::*;
use convert_case::{Case, Casing};

verus! {

/// The concatenation of `f(x)` over the items, in order.
pub open spec fn concat_map<A>(items: Seq<A>, f: spec_fn(A) -> Seq<char>) -> Seq<char>
    decreases items.len(),
{
    if items.len() == 0 {
        Seq::empty()
    } else {
        concat_map(items.drop_last(), f) + f(items.last())
    }
}

/// `f(x)` over the items, with `sep` between two neighbours (empty for no items).
pub open spec fn join_map<A>(items: Seq<A>, f: spec_fn(A) -> Seq<char>, sep: Seq<char>) -> Seq<char>
    decreases items.len(),
{
    if items.len() == 0 {
        Seq::empty()
    } else if items.len() == 1 {
        f(items[0])
    } else {
        join_map(items.drop_last(), f, sep) + sep + f(items.last())
    }
}

/// The concatenation of `f(i, x)` over the items, `i` being the item's index.
pub open spec fn concat_mapi<A>(items: Seq<A>, f: spec_fn(int, A) -> Seq<char>) -> Seq<char>
    decreases items.len(),
{
    if items.len() == 0 {
        Seq::empty()
    } else {
        concat_mapi(items.drop_last(), f) + f(items.len() - 1, items.last())
    }
}

pub proof fn lemma_concat_mapi_step<A>(items: Seq<A>, i: int, f: spec_fn(int, A) -> Seq<char>)
    requires
        0 <= i < items.len(),
    ensures
        concat_mapi(items.take(i + 1), f) == concat_mapi(items.take(i), f) + f(i, items[i]),
{
    assert(items.take(i + 1).drop_last() =~= items.take(i));
}

/// `f(i, x)` over the items with `sep` between neighbours, `i` being the index.
pub open spec fn join_mapi<A>(items: Seq<A>, f: spec_fn(int, A) -> Seq<char>, sep: Seq<char>) -> Seq<char>
    decreases items.len(),
{
    if items.len() == 0 {
        Seq::empty()
    } else if items.len() == 1 {
        f(0, items[0])
    } else {
        join_mapi(items.drop_last(), f, sep) + sep + f(items.len() - 1, items.last())
    }
}

pub proof fn lemma_join_mapi_step<A>(
    items: Seq<A>,
    i: int,
    f: spec_fn(int, A) -> Seq<char>,
    sep: Seq<char>,
)
    requires
        0 <= i < items.len(),
    ensures
        join_mapi(items.take(i + 1), f, sep) == if i == 0 {
            f(0, items[0])
        } else {
            join_mapi(items.take(i), f, sep) + sep + f(i, items[i])
        },
{
    assert(items.take(i + 1).drop_last() =~= items.take(i));
}

pub proof fn lemma_take_all<A>(items: Seq<A>)
    ensures
        items.take(items.len() as int) == items,
{
    assert(items.take(items.len() as int) =~= items);
}

pub proof fn lemma_concat_map_step<A>(items: Seq<A>, i: int, f: spec_fn(A) -> Seq<char>)
    requires
        0 <= i < items.len(),
    ensures
        concat_map(items.take(i + 1), f) == concat_map(items.take(i), f) + f(items[i]),
{
    assert(items.take(i + 1).drop_last() =~= items.take(i));
}

pub proof fn lemma_join_map_step<A>(
    items: Seq<A>,
    i: int,
    f: spec_fn(A) -> Seq<char>,
    sep: Seq<char>,
)
    requires
        0 <= i < items.len(),
    ensures
        join_map(items.take(i + 1), f, sep) == if i == 0 {
            f(items[0])
        } else {
            join_map(items.take(i), f, sep) + sep + f(items[i])
        },
{
    assert(items.take(i + 1).drop_last() =~= items.take(i));
}

/// The decimal numeral of `n`, as `to_string` writes it.
pub open spec fn decimal(n: nat) -> Seq<char>
    decreases n,
{
    if n < 10 {
        seq![digit_char(n)]
    } else {
        decimal(n / 10).push(digit_char(n % 10))
    }
}

pub open spec fn digit_char(d: nat) -> char {
    if d == 0 {
        '0'
    } else if d == 1 {
        '1'
    } else if d == 2 {
        '2'
    } else if d == 3 {
        '3'
    } else if d == 4 {
        '4'
    } else if d == 5 {
        '5'
    } else if d == 6 {
        '6'
    } else if d == 7 {
        '7'
    } else if d == 8 {
        '8'
    } else {
        '9'
    }
}

fn digit(d: usize) -> (c: char)
    requires
        d < 10,
    ensures
        c == digit_char(d as nat),
{
    if d == 0 {
        '0'
    } else if d == 1 {
        '1'
    } else if d == 2 {
        '2'
    } else if d == 3 {
        '3'
    } else if d == 4 {
        '4'
    } else if d == 5 {
        '5'
    } else if d == 6 {
        '6'
    } else if d == 7 {
        '7'
    } else if d == 8 {
        '8'
    } else {
        '9'
    }
}

/// Writes `n` in decimal.
pub fn decimal_string(n: usize) -> (r: String)
    ensures
        r@ == decimal(n as nat),
    decreases n,
{
    if n < 10 {
        let mut s = String::new();
        push_char(&mut s, digit(n));
        assert(s@ =~= decimal(n as nat));
        s
    } else {
        let mut s = decimal_string(n / 10);
        push_char(&mut s, digit(n % 10));
        s
    }
}

/// Calls `String::push`; the contract claims that the text grows by exactly
/// the one character, at its end.
#[verifier::external_body]
fn push_char(s: &mut String, c: char)
    ensures
        final(s)@ == old(s)@.push(c),
{
    s.push(c);
}

/// The identifier styles that the generators write names in.
#[derive(Clone, Copy, PartialEq, Eq, Debug)]
pub enum CaseStyle {
    /// `snake_case`
    Snake,
    /// `SCREAMING_SNAKE_CASE`
    ScreamingSnake,
    /// `PascalCase`
    Pascal,
    /// `UpperCamelCase`
    UpperCamel,
}

/// What `convert_case`'s `Casing::to_case` returns for a text and a case.
pub uninterp spec fn case_converted(s: Seq<char>, style: CaseStyle) -> Seq<char>;

/// Calls `convert_case::Casing::to_case` on `s` with the case that `style`
/// names. The contract claims only that the result is a function of the text
/// and the case: word splitting and re-casing are left to the outside crate.
#[verifier::external_body]
pub(crate) fn to_case(s: &str, style: CaseStyle) -> (r: String)
    ensures
        r@ == case_converted(s@, style),
{
    let case = match style {
        CaseStyle::Snake => Case::Snake,
        CaseStyle::ScreamingSnake => Case::ScreamingSnake,
        CaseStyle::Pascal => Case::Pascal,
        CaseStyle::UpperCamel => Case::UpperCamel,
    };
    s.to_case(case)
}

/// What `str::to_uppercase` returns for a text.
pub uninterp spec fn uppercased(s: Seq<char>) -> Seq<char>;

/// Calls `str::to_uppercase`. The contract claims that the result is a
/// function of the text alone; the Unicode case mapping itself is not stated.
#[verifier::external_body]
pub(crate) fn to_uppercase(s: &str) -> (r: String)
    ensures
        r@ == uppercased(s@),
{
    s.to_uppercase()
}

} // verus!
