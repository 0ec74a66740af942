//! Turning method names into type-style names.
use vstd::prelude::*;
use crate::text::{push_char, push_text};

verus! {

/// What `char::to_uppercase` gives for a character.
pub uninterp spec fn upper_of(c: char) -> Seq<char>;

/// Relies on `char::to_uppercase`: the upper-case form of a character, one
/// or more characters long.
#[verifier::external_body]
fn uppercase(c: char) -> (r: String)
    ensures
        r@ == upper_of(c),
{
    c.to_uppercase().collect()
}

/// The PascalCase form of the rest of a snake_case name: underscores are
/// dropped, and the first character after each is upper-cased, as is the
/// first character when `at_start` holds.
pub open spec fn pascal_from(s: Seq<char>, at_start: bool) -> Seq<char>
    decreases s.len(),
{
    if s.len() == 0 {
        Seq::empty()
    } else if s[0] == '_' {
        pascal_from(s.drop_first(), true)
    } else if at_start {
        upper_of(s[0]) + pascal_from(s.drop_first(), false)
    } else {
        seq![s[0]] + pascal_from(s.drop_first(), false)
    }
}

/// Converts a snake_case name to PascalCase: `get_counter` becomes
/// `GetCounter`.
pub fn snake_case_to_pascal_case(s: &str) -> (r: String)
    ensures
        r@ == pascal_from(s@, true),
{
    let n = s.unicode_len();
    let mut out = String::new();
    let mut at_start = true;
    let mut i: usize = 0;
    assert(s@.subrange(0, n as int) =~= s@);
    while i < n
        invariant
            n == s@.len(),
            0 <= i <= n,
            out@ + pascal_from(s@.subrange(i as int, n as int), at_start) == pascal_from(s@, true),
        decreases n - i,
    {
        let ghost rest = s@.subrange(i as int, n as int);
        assert(rest.drop_first() =~= s@.subrange(i as int + 1, n as int));
        let c = s.get_char(i);
        if c == '_' {
            at_start = true;
        } else if at_start {
            let u = uppercase(c);
            push_text(&mut out, u.as_str());
            at_start = false;
            assert(out@ + pascal_from(s@.subrange(i as int + 1, n as int), at_start) =~= pascal_from(s@, true));
        } else {
            push_char(&mut out, c);
            assert(out@ + pascal_from(s@.subrange(i as int + 1, n as int), at_start) =~= pascal_from(s@, true));
        }
        i = i + 1;
    }
    assert(s@.subrange(n as int, n as int) =~= Seq::<char>::empty());
    assert(out@ + Seq::<char>::empty() =~= out@);
    out
}

} // verus!
