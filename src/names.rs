use vstd::prelude::*;

verus! {

/// The ASCII upper-case form of one character: `a`..=`z` map to `A`..=`Z`,
/// every other character is kept.
pub open spec fn upper_char(c: char) -> char {
    if 'a' <= c && c <= 'z' {
        ((c as u32) - 32) as char
    } else {
        c
    }
}

/// The ASCII upper-case form of a name, character by character.
pub open spec fn ascii_upper(s: Seq<char>) -> Seq<char> {
    s.map_values(|c: char| upper_char(c))
}

/// Two names are equal when ASCII case is ignored.
pub open spec fn same_name(a: Seq<char>, b: Seq<char>) -> bool {
    ascii_upper(a) == ascii_upper(b)
}

/// Upper-casing a name twice changes nothing more than doing it once.
pub proof fn lemma_upper_idempotent(s: Seq<char>)
    ensures
        ascii_upper(ascii_upper(s)) == ascii_upper(s),
{
    assert(ascii_upper(ascii_upper(s)) =~= ascii_upper(s));
}

/// Relies on `str::to_ascii_uppercase`: ASCII letters `a` to `z` become `A` to `Z`
/// and every other character is unchanged.
#[verifier::external_body]
pub(crate) fn to_ascii_upper(s: &str) -> (r: String)
    ensures
        r@ == ascii_upper(s@),
{
    s.to_ascii_uppercase()
}

/// Compares two names with ASCII case ignored.
pub fn eq_ignore_case(a: &str, b: &str) -> (r: bool)
    ensures
        r == same_name(a@, b@),
{
    let ua = to_ascii_upper(a);
    let ub = to_ascii_upper(b);
    ua == ub
}

} // verus!
