//! Renderings of Rust identifiers as the kebab-case words under which the
//! command language knows variants and fields.

use vstd::prelude::*;

use vstd::string::StrSliceExecFns;

verus! {

/// The ASCII lowercase counterpart of a character: letters 'A' to 'Z' map to
/// 'a' to 'z', every other character stays as it is.
pub open spec fn spec_lower_char(c: char) -> char {
    if 'A' <= c && c <= 'Z' {
        ((c as int) + 32) as char
    } else {
        c
    }
}

/// Relies on char::to_ascii_lowercase: 'A' to 'Z' map to 'a' to 'z', any
/// other character is returned unchanged.
#[verifier::external_body]
fn lower_ascii(c: char) -> (r: char)
    ensures
        r == spec_lower_char(c),
{
    c.to_ascii_lowercase()
}

/// Relies on String::push: appends one character at the end of the string.
#[verifier::external_body]
fn push_char(s: &mut String, c: char)
    ensures
        final(s)@ == old(s)@.push(c),
{
    s.push(c);
}

/// The kebab-case rendering of a CamelCase variant name: every ASCII
/// uppercase letter is lowered, and each one after the first character gets
/// a dash in front of it.
pub open spec fn spec_variant_kebab(s: Seq<char>) -> Seq<char>
    decreases s.len(),
{
    if s.len() == 0 {
        Seq::empty()
    } else {
        let last = s.last();
        let rendered = if s.len() > 1 && last != spec_lower_char(last) {
            seq!['-', spec_lower_char(last)]
        } else {
            seq![spec_lower_char(last)]
        };
        spec_variant_kebab(s.drop_last()) + rendered
    }
}

/// The kebab-case rendering of a snake_case field name: every underscore
/// becomes a dash.
pub open spec fn spec_field_kebab(s: Seq<char>) -> Seq<char> {
    s.map_values(|c: char| if c == '_' { '-' } else { c })
}

/// Renders a CamelCase variant name in kebab-case, as in `TwoWords` to
/// `two-words`.
pub fn variant_to_kebab_case(ident: &str) -> (r: String)
    ensures
        r@ == spec_variant_kebab(ident@),
{
    let mut result = String::new();
    let n = ident.unicode_len();
    let mut i: usize = 0;
    while i < n
        invariant
            n == ident@.len(),
            i <= n,
            result@ == spec_variant_kebab(ident@.take(i as int)),
        decreases n - i,
    {
        let c = ident.get_char(i);
        let lower = lower_ascii(c);
        if i > 0 && c != lower {
            push_char(&mut result, '-');
        }
        push_char(&mut result, lower);
        proof {
            assert(ident@.take(i + 1).drop_last() =~= ident@.take(i as int));
            assert(ident@.take(i + 1).last() == ident@[i as int]);
            if i > 0 && c != spec_lower_char(c) {
                assert(result@ =~= spec_variant_kebab(ident@.take(i as int)) + seq![
                    '-',
                    spec_lower_char(c),
                ]);
            } else {
                assert(result@ =~= spec_variant_kebab(ident@.take(i as int)) + seq![
                    spec_lower_char(c),
                ]);
            }
        }
        i += 1;
    }
    proof {
        assert(ident@.take(n as int) =~= ident@);
    }
    result
}

/// Renders a snake_case field name in kebab-case, as in `two_words` to
/// `two-words`.
pub fn field_to_kebab_case(ident: &str) -> (r: String)
    ensures
        r@ == spec_field_kebab(ident@),
{
    let mut result = String::new();
    let n = ident.unicode_len();
    let mut i: usize = 0;
    while i < n
        invariant
            n == ident@.len(),
            i <= n,
            result@ == spec_field_kebab(ident@.take(i as int)),
        decreases n - i,
    {
        let c = ident.get_char(i);
        if c == '_' {
            push_char(&mut result, '-');
        } else {
            push_char(&mut result, c);
        }
        proof {
            assert(result@ =~= spec_field_kebab(ident@.take(i + 1)));
        }
        i += 1;
    }
    proof {
        assert(ident@.take(n as int) =~= ident@);
        assert(result@ =~= spec_field_kebab(ident@));
    }
    result
}

} // verus!
