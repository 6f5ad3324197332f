//! Searching the company list: a search text is a regular expression when it
//! compiles as one, and plain text otherwise.
use vstd::prelude::*;
use crate::decimal::chars_of;
use crate::stock::StockResp;

verus! {

#[verifier::external_type_specification]
#[verifier::external_body]
pub struct ExRegex(regex::Regex);

/// Whether `regex::Regex::new` accepts a pattern.
pub uninterp spec fn regex_valid(pattern: Seq<char>) -> bool;

/// Whether the compiled `pattern` matches somewhere in `haystack`.
pub uninterp spec fn regex_found(pattern: Seq<char>, haystack: Seq<char>) -> bool;

/// A compiled regular expression together with the pattern it came from.
/// Only `compile_pattern` builds one.
pub struct Pattern {
    re: regex::Regex,
    source: String,
}

/// Relies on `regex::Regex::new`: it compiles a pattern or reports an error,
/// depending on the pattern alone.
#[verifier::external_body]
fn compile_pattern(pattern: &str) -> (r: Option<Pattern>)
    ensures
        r is Some <==> regex_valid(pattern@),
        r matches Some(p) ==> p.source@ == pattern@,
{
    match regex::Regex::new(pattern) {
        Ok(re) => Some(Pattern { re, source: pattern.to_string() }),
        Err(_) => None,
    }
}

/// Relies on `regex::Regex::is_match`: whether the regex matches anywhere in
/// the haystack.
#[verifier::external_body]
fn pattern_is_match(p: &Pattern, haystack: &str) -> (r: bool)
    ensures
        r == regex_found(p.source@, haystack@),
{
    p.re.is_match(haystack)
}

/// `needle` occurs in `hay`.
pub open spec fn text_contains(hay: Seq<char>, needle: Seq<char>) -> bool {
    exists|i: int| 0 <= i && i + needle.len() <= hay.len() && #[trigger] hay.subrange(i, i + needle.len()) == needle
}

/// A search text finds a field: by regular expression when the text is one,
/// else when the search text holds the field.
pub open spec fn field_found(search: Seq<char>, field: Seq<char>) -> bool {
    if regex_valid(search) {
        regex_found(search, field)
    } else {
        text_contains(search, field)
    }
}

/// A search text finds a company by its code, its symbol or its name.
pub open spec fn stock_found(search: Seq<char>, s: (Seq<char>, Seq<char>, Seq<char>)) -> bool {
    field_found(search, s.0) || field_found(search, s.1) || field_found(search, s.2)
}

/// The entries of `list` whose flag is set, in order.
pub open spec fn flagged<T>(list: Seq<T>, flags: Seq<bool>) -> Seq<T>
    decreases list.len(),
{
    if list.len() == 0 {
        Seq::empty()
    } else {
        let rest = flagged(list.drop_last(), flags);
        if list.len() - 1 < flags.len() && flags[list.len() - 1] {
            rest.push(list.last())
        } else {
            rest
        }
    }
}

/// The companies of `list` that `search` finds, in order.
pub open spec fn found_stocks(
    list: Seq<(Seq<char>, Seq<char>, Seq<char>)>,
    search: Seq<char>,
) -> Seq<(Seq<char>, Seq<char>, Seq<char>)> {
    flagged(list, Seq::new(list.len(), |i: int| stock_found(search, list[i])))
}

pub open spec fn views_of(list: Seq<StockResp>) -> Seq<(Seq<char>, Seq<char>, Seq<char>)> {
    list.map_values(|s: StockResp| s@)
}

/// Whether `needle` occurs in `hay`.
pub fn contains_text(hay: &str, needle: &str) -> (r: bool)
    ensures
        r == text_contains(hay@, needle@),
{
    let h = chars_of(hay);
    let n = chars_of(needle);
    if n.len() > h.len() {
        return false;
    }
    let mut i: usize = 0;
    while i <= h.len() - n.len()
        invariant
            h@ == hay@,
            n@ == needle@,
            n.len() <= h.len(),
            i <= h.len() - n.len() + 1,
            forall|k: int| 0 <= k < i ==> #[trigger] h@.subrange(k, k + n.len()) != n@,
        decreases h.len() - i,
    {
        let mut j: usize = 0;
        while j < n.len() && h[i + j] == n[j]
            invariant
                i + n.len() <= h.len(),
                j <= n.len(),
                forall|m: int| 0 <= m < j ==> h@[i + m] == n@[m],
            decreases n.len() - j,
        {
            j = j + 1;
        }
        if j == n.len() {
            assert(h@.subrange(i as int, i + n.len()) =~= n@);
            return true;
        }
        assert(h@.subrange(i as int, i + n.len())[j as int] != n@[j as int]);
        i = i + 1;
    }
    false
}

/// The entries of `list` whose flag is set, in order; entries past the end
/// of `flags` are left out.
pub fn select_flagged(list: &Vec<StockResp>, flags: &Vec<bool>) -> (r: Vec<StockResp>)
    ensures
        views_of(r@) == flagged(views_of(list@), flags@),
{
    let mut r: Vec<StockResp> = Vec::new();
    let mut i: usize = 0;
    while i < list.len()
        invariant
            i <= list.len(),
            views_of(r@) == flagged(views_of(list@.take(i as int)), flags@),
        decreases list.len() - i,
    {
        assert(views_of(list@.take(i + 1)).drop_last() =~= views_of(list@.take(i as int)));
        if i < flags.len() && flags[i] {
            r.push(list[i].clone());
        }
        i = i + 1;
        assert(views_of(r@) =~= flagged(views_of(list@.take(i as int)), flags@));
    }
    assert(list@.take(i as int) =~= list@);
    r
}

/// Whether `search` finds `stock`, given the search text compiled, when it
/// compiles.
fn stock_matches(pattern: &Option<Pattern>, search: &str, stock: &StockResp) -> (r: bool)
    requires
        pattern is Some <==> regex_valid(search@),
        pattern matches Some(p) ==> p.source@ == search@,
    ensures
        r == stock_found(search@, stock@),
{
    match pattern {
        Some(p) => pattern_is_match(p, stock.code.as_str()) || pattern_is_match(
            p,
            stock.symbol.as_str(),
        ) || pattern_is_match(p, stock.name.as_str()),
        None => contains_text(search, stock.code.as_str()) || contains_text(
            search,
            stock.symbol.as_str(),
        ) || contains_text(search, stock.name.as_str()),
    }
}

/// The companies of `list` that `search` finds by code, symbol or name, in
/// order.
pub fn filter_stocks(list: &Vec<StockResp>, search: &str) -> (r: Vec<StockResp>)
    ensures
        views_of(r@) == found_stocks(views_of(list@), search@),
{
    let pattern = compile_pattern(search);
    let mut flags: Vec<bool> = Vec::new();
    let mut i: usize = 0;
    while i < list.len()
        invariant
            pattern is Some <==> regex_valid(search@),
            pattern matches Some(p) ==> p.source@ == search@,
            i <= list.len(),
            flags@.len() == i,
            forall|k: int| 0 <= k < i ==> #[trigger] flags@[k] == stock_found(search@, list@[k]@),
        decreases list.len() - i,
    {
        let f = stock_matches(&pattern, search, &list[i]);
        flags.push(f);
        i = i + 1;
    }
    assert(flags@ =~= Seq::new(
        views_of(list@).len(),
        |k: int| stock_found(search@, views_of(list@)[k]),
    ));
    select_flagged(list, &flags)
}

} // verus!
