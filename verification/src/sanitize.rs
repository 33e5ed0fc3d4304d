//! Input sanitization: uppercase the string and remove all Unicode
//! whitespace, producing the canonical form every later stage works on.
//!
//! Uppercasing is the Unicode-aware mapping of std's `str::to_uppercase`,
//! called behind a trusted wrapper: on ASCII characters the mapping is
//! pinned down exactly (a-z to A-Z), while the full Unicode table is only
//! named, not written out. Whitespace removal is verified in full.

use vstd::prelude::*;

verus! {

/// The characters carrying the Unicode `White_Space` property.
pub open spec fn is_whitespace_char(c: char) -> bool {
    ||| c == '\u{0009}'
    ||| c == '\u{000A}'
    ||| c == '\u{000B}'
    ||| c == '\u{000C}'
    ||| c == '\u{000D}'
    ||| c == '\u{0020}'
    ||| c == '\u{0085}'
    ||| c == '\u{00A0}'
    ||| c == '\u{1680}'
    ||| c == '\u{2000}'
    ||| c == '\u{2001}'
    ||| c == '\u{2002}'
    ||| c == '\u{2003}'
    ||| c == '\u{2004}'
    ||| c == '\u{2005}'
    ||| c == '\u{2006}'
    ||| c == '\u{2007}'
    ||| c == '\u{2008}'
    ||| c == '\u{2009}'
    ||| c == '\u{200A}'
    ||| c == '\u{2028}'
    ||| c == '\u{2029}'
    ||| c == '\u{202F}'
    ||| c == '\u{205F}'
    ||| c == '\u{3000}'
}

pub open spec fn is_ascii_lowercase_char(c: char) -> bool {
    ('a' as u32) <= (c as u32) && (c as u32) <= ('z' as u32)
}

pub open spec fn is_ascii_char(c: char) -> bool {
    (c as u32) < 128
}

pub open spec fn ascii_seq(s: Seq<char>) -> bool {
    forall|i: int| 0 <= i < s.len() ==> is_ascii_char(#[trigger] s[i])
}

/// The uppercase form of an ASCII letter; any other character is unchanged.
pub open spec fn upper_char(c: char) -> char {
    match c {
        'a' => 'A',
        'b' => 'B',
        'c' => 'C',
        'd' => 'D',
        'e' => 'E',
        'f' => 'F',
        'g' => 'G',
        'h' => 'H',
        'i' => 'I',
        'j' => 'J',
        'k' => 'K',
        'l' => 'L',
        'm' => 'M',
        'n' => 'N',
        'o' => 'O',
        'p' => 'P',
        'q' => 'Q',
        'r' => 'R',
        's' => 'S',
        't' => 'T',
        'u' => 'U',
        'v' => 'V',
        'w' => 'W',
        'x' => 'X',
        'y' => 'Y',
        'z' => 'Z',
        _ => c,
    }
}

/// The per-character uppercase map across a sequence: the Unicode mapping
/// restricted to ASCII characters.
pub open spec fn ascii_upper_seq(s: Seq<char>) -> Seq<char> {
    Seq::new(s.len(), |i: int| upper_char(s[i]))
}

/// What `str::to_uppercase` returns on a string holding a non-ASCII
/// character: the Unicode uppercase mapping, a function of the characters
/// alone, whose table is too large to write out here.
pub uninterp spec fn unicode_upper_of(s: Seq<char>) -> Seq<char>;

/// The uppercase form of a character sequence: on ASCII input the exact
/// per-character a-z to A-Z map, otherwise the named Unicode mapping.
pub open spec fn upper_of(s: Seq<char>) -> Seq<char> {
    if ascii_seq(s) {
        ascii_upper_seq(s)
    } else {
        unicode_upper_of(s)
    }
}

/// The whitespace-stripping step: whitespace characters dropped, every
/// other character kept, in order.
pub open spec fn strip_ws(s: Seq<char>) -> Seq<char>
    decreases s.len(),
{
    if s.len() == 0 {
        Seq::<char>::empty()
    } else if is_whitespace_char(s.last()) {
        strip_ws(s.drop_last())
    } else {
        strip_ws(s.drop_last()).push(s.last())
    }
}

/// The sanitized form of a character sequence: its Unicode uppercase
/// mapping with all whitespace removed.
pub open spec fn spec_sanitise(s: Seq<char>) -> Seq<char> {
    strip_ws(upper_of(s))
}

/// Relies on str::to_uppercase: the Unicode uppercase mapping of the
/// string, a function of its characters alone; on ASCII characters it is
/// exactly the per-character a-z to A-Z map.
#[verifier::external_body]
fn to_unicode_uppercase(s: &str) -> (r: String)
    ensures
        r@ == upper_of(s@),
        !ascii_seq(s@) ==> r@ == unicode_upper_of(s@),
{
    s.to_uppercase()
}

/// Relies on String::push: appends exactly one character at the end.
#[verifier::external_body]
fn push_char(s: &mut String, c: char)
    ensures
        final(s)@ == old(s)@.push(c),
{
    s.push(c);
}

fn is_whitespace(c: char) -> (r: bool)
    ensures
        r == is_whitespace_char(c),
{
    c == '\u{0009}' || c == '\u{000A}' || c == '\u{000B}' || c == '\u{000C}' || c == '\u{000D}'
        || c == '\u{0020}' || c == '\u{0085}' || c == '\u{00A0}' || c == '\u{1680}'
        || c == '\u{2000}' || c == '\u{2001}' || c == '\u{2002}' || c == '\u{2003}'
        || c == '\u{2004}' || c == '\u{2005}' || c == '\u{2006}' || c == '\u{2007}'
        || c == '\u{2008}' || c == '\u{2009}' || c == '\u{200A}' || c == '\u{2028}'
        || c == '\u{2029}' || c == '\u{202F}' || c == '\u{205F}' || c == '\u{3000}'
}

/// Removes every whitespace character, keeping the rest in order.
fn remove_whitespace(s: &str) -> (r: String)
    ensures
        r@ == strip_ws(s@),
{
    let n = s.unicode_len();
    let mut out = String::new();
    let mut i: usize = 0;
    while i < n
        invariant
            n == s@.len(),
            i <= n,
            out@ == strip_ws(s@.take(i as int)),
        decreases n - i,
    {
        let c = s.get_char(i);
        if !is_whitespace(c) {
            push_char(&mut out, c);
        }
        proof {
            assert(s@.take(i + 1).drop_last() =~= s@.take(i as int));
            assert(s@.take(i + 1).last() == s@[i as int]);
        }
        i = i + 1;
    }
    proof {
        assert(s@.take(n as int) =~= s@);
    }
    out
}

/// Removes whitespaces, and uppercases the string.
pub fn sanitise_iban(iban: &str) -> (r: String)
    ensures
        r@ == spec_sanitise(iban@),
{
    let uppercased = to_unicode_uppercase(iban);
    remove_whitespace(uppercased.as_str())
}

/// Checks if the string is at least 15, and not more than 34 characters long.
pub fn validate_length(iban: &str) -> (r: bool)
    ensures
        r == (15 <= iban@.len() <= 34),
{
    let n = iban.unicode_len();
    if n > 34 || n < 15 {
        return false;
    }
    true
}

/// Stripping leaves no whitespace behind, and every kept character occurs
/// in the input.
proof fn lemma_strip_ws_chars(s: Seq<char>)
    ensures
        forall|i: int|
            0 <= i < strip_ws(s).len() ==> !is_whitespace_char(#[trigger] strip_ws(s)[i]),
        forall|i: int|
            0 <= i < strip_ws(s).len() ==> exists|j: int|
                0 <= j < s.len() && #[trigger] strip_ws(s)[i] == #[trigger] s[j],
    decreases s.len(),
{
    if s.len() > 0 {
        lemma_strip_ws_chars(s.drop_last());
        assert(forall|j: int| 0 <= j < s.len() - 1 ==> s.drop_last()[j] == #[trigger] s[j]);
        let r = strip_ws(s);
        let r0 = strip_ws(s.drop_last());
        assert forall|i: int| 0 <= i < r.len() implies exists|j: int|
            0 <= j < s.len() && #[trigger] r[i] == #[trigger] s[j] by {
            if i < r0.len() {
                let j0 = choose|j0: int| 0 <= j0 < s.len() - 1 && r0[i] == #[trigger] s.drop_last()[
                    j0
                ];
                assert(r[i] == s[j0]);
            } else {
                assert(r[i] == s[s.len() - 1]);
            }
        }
    }
}

/// Stripping changes nothing on a string without whitespace.
proof fn lemma_strip_ws_fixed(s: Seq<char>)
    requires
        forall|i: int| 0 <= i < s.len() ==> !is_whitespace_char(#[trigger] s[i]),
    ensures
        strip_ws(s) == s,
    decreases s.len(),
{
    if s.len() > 0 {
        assert(forall|i: int| 0 <= i < s.len() - 1 ==> s.drop_last()[i] == #[trigger] s[i]);
        lemma_strip_ws_fixed(s.drop_last());
        assert(strip_ws(s) == s.drop_last().push(s.last()));
        assert(s.drop_last().push(s.last()) =~= s);
    }
}

/// Stripping distributes over concatenation, so the kept characters keep
/// their relative order: nothing is moved across another.
proof fn lemma_strip_ws_append(a: Seq<char>, b: Seq<char>)
    ensures
        strip_ws(a + b) == strip_ws(a) + strip_ws(b),
    decreases b.len(),
{
    if b.len() == 0 {
        assert(a + b =~= a);
        assert(strip_ws(a) + strip_ws(b) =~= strip_ws(a));
    } else {
        lemma_strip_ws_append(a, b.drop_last());
        assert((a + b).drop_last() =~= a + b.drop_last());
        assert((a + b).last() == b.last());
        if !is_whitespace_char(b.last()) {
            assert((strip_ws(a) + strip_ws(b.drop_last())).push(b.last()) =~= strip_ws(a)
                + strip_ws(b.drop_last()).push(b.last()));
        }
    }
}

/// Sanitizing leaves no whitespace behind, whatever the input: the
/// stripping step removes every whitespace character the uppercase mapping
/// produced.
pub proof fn lemma_sanitise_no_whitespace(s: Seq<char>)
    ensures
        forall|i: int|
            0 <= i < spec_sanitise(s).len() ==> !is_whitespace_char(#[trigger] spec_sanitise(s)[i]),
{
    lemma_strip_ws_chars(upper_of(s));
}

/// Sanitized ASCII input contains no ASCII lowercase letter: every letter
/// is uppercased in place. For non-ASCII input the claim rests on the
/// Unicode mapping, which is only named here, not modeled.
pub proof fn lemma_sanitise_no_lowercase(s: Seq<char>)
    requires
        ascii_seq(s),
    ensures
        forall|i: int|
            0 <= i < spec_sanitise(s).len() ==> !is_ascii_lowercase_char(
                #[trigger] spec_sanitise(s)[i],
            ),
{
    let u = ascii_upper_seq(s);
    lemma_strip_ws_chars(u);
    assert forall|i: int| 0 <= i < spec_sanitise(s).len() implies !is_ascii_lowercase_char(
        #[trigger] spec_sanitise(s)[i],
    ) by {
        let j = choose|j: int| 0 <= j < u.len() && spec_sanitise(s)[i] == #[trigger] u[j];
        assert(u[j] == upper_char(s[j]));
        assert(!is_ascii_lowercase_char(upper_char(s[j])));
    }
}

/// Sanitization is idempotent: a second pass over an already sanitized
/// string changes nothing. Proved for ASCII input, where the uppercase
/// mapping is pinned down; of the full Unicode mapping std documents no
/// such law.
pub proof fn lemma_sanitise_idempotent(s: Seq<char>)
    requires
        ascii_seq(s),
    ensures
        spec_sanitise(spec_sanitise(s)) == spec_sanitise(s),
{
    let u = ascii_upper_seq(s);
    let t = strip_ws(u);
    lemma_strip_ws_chars(u);
    assert forall|i: int| 0 <= i < t.len() implies is_ascii_char(#[trigger] t[i]) && upper_char(
        t[i],
    ) == t[i] && !is_whitespace_char(t[i]) by {
        let j = choose|j: int| 0 <= j < u.len() && t[i] == #[trigger] u[j];
        assert(u[j] == upper_char(s[j]));
        assert(is_ascii_char(upper_char(s[j])) && upper_char(upper_char(s[j])) == upper_char(s[j]));
    }
    assert(upper_of(t) == ascii_upper_seq(t));
    assert(ascii_upper_seq(t) =~= t);
    lemma_strip_ws_fixed(t);
}

/// Sanitization distributes over concatenation of ASCII strings, so the
/// non-whitespace characters keep their relative order: each one is
/// uppercased in place and nothing is moved across another.
pub proof fn lemma_sanitise_append(a: Seq<char>, b: Seq<char>)
    requires
        ascii_seq(a),
        ascii_seq(b),
    ensures
        spec_sanitise(a + b) == spec_sanitise(a) + spec_sanitise(b),
{
    assert(ascii_seq(a + b)) by {
        assert(forall|i: int| 0 <= i < a.len() ==> (a + b)[i] == #[trigger] a[i]);
        assert(forall|i: int| 0 <= i < b.len() ==> (a + b)[a.len() + i] == #[trigger] b[i]);
        assert forall|i: int| 0 <= i < a.len() + b.len() implies is_ascii_char(
            #[trigger] (a + b)[i],
        ) by {
            if i < a.len() {
                assert((a + b)[i] == a[i]);
            } else {
                assert((a + b)[i] == b[i - a.len()]);
            }
        }
    }
    assert(ascii_upper_seq(a + b) =~= ascii_upper_seq(a) + ascii_upper_seq(b));
    lemma_strip_ws_append(ascii_upper_seq(a), ascii_upper_seq(b));
}

} // verus!
