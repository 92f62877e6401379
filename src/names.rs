//! The naming convention that links foreign declarations to closure adapters.
use vstd::prelude::*;

verus! {

/// Suffix of a foreign function that calls a closure adapter: `<Name>_closure_call`.
pub open spec fn call_suffix() -> Seq<char> {
    "_closure_call"@
}

/// Suffix of a foreign hook that releases a value returned by a closure:
/// `<Name>_release_rust_return_value`.
pub open spec fn release_suffix() -> Seq<char> {
    "_release_rust_return_value"@
}

pub open spec fn ends_with(s: Seq<char>, suffix: Seq<char>) -> bool {
    suffix.len() <= s.len() && s.subrange(s.len() - suffix.len(), s.len() as int) == suffix
}

/// `s` with its last `n` characters removed.
pub open spec fn without_suffix(s: Seq<char>, n: nat) -> Seq<char> {
    s.subrange(0, s.len() - n)
}

/// Name of the adapter type for closure `name`: `<Name>Closure`.
pub open spec fn adapter_type_name(name: Seq<char>) -> Seq<char> {
    name + "Closure"@
}

/// Name of the foreign routine that releases an adapter: `<Name>_closure_release`.
pub open spec fn adapter_release_name(name: Seq<char>) -> Seq<char> {
    name + "_closure_release"@
}

/// Closure name carried by a foreign function name, if it follows the call convention.
pub open spec fn closure_name_of(fn_name: Seq<char>) -> Option<Seq<char>> {
    if ends_with(fn_name, call_suffix()) {
        Some(without_suffix(fn_name, call_suffix().len()))
    } else {
        None
    }
}

pub fn call_suffix_str() -> (r: &'static str)
    ensures
        r@ == call_suffix(),
        r@.len() == 13,
{
    proof {
        reveal_strlit("_closure_call");
    }
    "_closure_call"
}

pub fn release_suffix_str() -> (r: &'static str)
    ensures
        r@ == release_suffix(),
        r@.len() == 26,
{
    proof {
        reveal_strlit("_release_rust_return_value");
    }
    "_release_rust_return_value"
}

/// Whether `s` ends with `suffix`.
pub fn has_suffix(s: &str, suffix: &str) -> (r: bool)
    ensures
        r == ends_with(s@, suffix@),
{
    let n = s.unicode_len();
    let m = suffix.unicode_len();
    if m > n {
        return false;
    }
    let off = n - m;
    let mut i: usize = 0;
    while i < m
        invariant
            n == s@.len(),
            m == suffix@.len(),
            off == n - m,
            i <= m,
            forall|j: int| 0 <= j < i ==> s@[off + j] == suffix@[j],
        decreases m - i,
    {
        if s.get_char(off + i) != suffix.get_char(i) {
            assert(s@.subrange(off as int, n as int)[i as int] != suffix@[i as int]);
            return false;
        }
        i = i + 1;
    }
    assert(s@.subrange(off as int, n as int) =~= suffix@);
    true
}

/// The closure name carried by a foreign function name that ends in `_closure_call`.
pub fn closure_name(fn_name: &str) -> (r: Option<String>)
    ensures
        r is Some <==> closure_name_of(fn_name@) is Some,
        r is Some ==> r->Some_0@ == closure_name_of(fn_name@)->Some_0,
{
    let suffix = call_suffix_str();
    if has_suffix(fn_name, suffix) {
        let n = fn_name.unicode_len();
        let head = fn_name.substring_char(0, n - 13);
        Some(String::from_str(head))
    } else {
        None
    }
}

/// Whether a foreign function name follows the release-hook convention.
pub fn is_release_hook(fn_name: &str) -> (r: bool)
    ensures
        r == ends_with(fn_name@, release_suffix()),
{
    has_suffix(fn_name, release_suffix_str())
}

/// `<Name>Closure`.
pub fn adapter_type_name_of(name: &str) -> (r: String)
    ensures
        r@ == adapter_type_name(name@),
{
    String::from_str(name).concat("Closure")
}

/// `<Name>_closure_release`.
pub fn adapter_release_name_of(name: &str) -> (r: String)
    ensures
        r@ == adapter_release_name(name@),
{
    String::from_str(name).concat("_closure_release")
}

} // verus!
