//! Text decisions shared by the card surfaces.

use vstd::prelude::*;
use vstd::string::*;
use crate::text::chars_of;

verus! {

/// Whether `char::is_alphanumeric` holds of `c`: Unicode's `Alphabetic` or
/// `Numeric` property.
pub uninterp spec fn alphanumeric(c: char) -> bool;

/// What `char::to_uppercase` yields for `c`: Unicode's full uppercase
/// mapping.
pub uninterp spec fn uppercase(c: char) -> Seq<char>;

/// Whether `c` is an ASCII letter or digit.
pub open spec fn ascii_alphanumeric(c: char) -> bool {
    ('a' <= c && c <= 'z') || ('A' <= c && c <= 'Z') || ('0' <= c && c <= '9')
}

/// `char::is_alphanumeric`. Claims the result is the Unicode property named
/// by [`alphanumeric`], which on ASCII holds exactly of letters and digits.
#[verifier::external_body]
fn is_alphanumeric(c: char) -> (r: bool)
    ensures
        r == alphanumeric(c),
        (c as u32) < 128 ==> (r == ascii_alphanumeric(c)),
{
    c.is_alphanumeric()
}

/// `char::to_uppercase`, collected into a `String`. Claims the result is
/// the mapping named by [`uppercase`]: one or more characters; on ASCII a
/// lowercase letter gives its capital and every other character itself.
#[verifier::external_body]
fn to_uppercase(c: char) -> (r: String)
    ensures
        r@ == uppercase(c),
        r@.len() >= 1,
        ('a' <= c && c <= 'z') ==> (r@.len() == 1 && r@[0] as u32 == c as u32 - 32),
        ((c as u32) < 128 && !('a' <= c && c <= 'z')) ==> r@ == seq![c],
{
    c.to_uppercase().collect()
}

/// The badge initial of `s`: the uppercase form of its first alphanumeric
/// character, or a bullet when it has none.
pub open spec fn initial(s: Seq<char>) -> Seq<char>
    decreases s.len(),
{
    if s.len() == 0 {
        seq!['•']
    } else if alphanumeric(s[0]) {
        uppercase(s[0])
    } else {
        initial(s.drop_first())
    }
}

/// The initial a badge shows for `text`: its first alphanumeric character,
/// uppercased, or `•` when there is none.
pub fn initial_of(text: &str) -> (r: String)
    ensures
        r@ == initial(text@),
{
    let chars = chars_of(text);
    let mut i: usize = 0;
    proof {
        assert(chars@.subrange(0, chars@.len() as int) =~= text@);
    }
    while i < chars.len()
        invariant
            i <= chars.len(),
            chars@ == text@,
            initial(chars@.subrange(i as int, chars@.len() as int)) == initial(text@),
        decreases chars.len() - i,
    {
        let c = chars[i];
        proof {
            let rest = chars@.subrange(i as int, chars@.len() as int);
            assert(rest[0] == c);
            assert(rest.drop_first() =~= chars@.subrange(i + 1, chars@.len() as int));
        }
        if is_alphanumeric(c) {
            return to_uppercase(c);
        }
        i += 1;
    }
    proof {
        reveal_strlit("•");
        assert(chars@.subrange(i as int, chars@.len() as int) =~= Seq::<char>::empty());
        assert("•"@ =~= seq!['•']);
    }
    "•".to_owned()
}

} // verus!
