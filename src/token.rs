//! Bearer tokens: a fixed number of characters drawn from `[A-Za-z0-9]`.
use vstd::prelude::*;

verus! {

/// Number of characters in every token.
pub const TOKEN_LEN: usize = 32;

/// `c` belongs to the 62-symbol alphanumeric alphabet.
pub open spec fn is_token_char(c: char) -> bool {
    ('A' <= c && c <= 'Z') || ('a' <= c && c <= 'z') || ('0' <= c && c <= '9')
}

/// `s` is a well-formed token: `TOKEN_LEN` characters of the alphabet.
pub open spec fn valid_token(s: Seq<char>) -> bool {
    &&& s.len() == TOKEN_LEN
    &&& forall|i: int| 0 <= i < s.len() ==> is_token_char(#[trigger] s[i])
}

/// Relies on rand's `thread_rng` (seeded from OS entropy) and its
/// `Alphanumeric` distribution, which always yields a byte of
/// `A-Z`, `a-z` or `0-9`; the byte is returned as a `char`.
#[verifier::external_body]
fn draw_token_char() -> (c: char)
    ensures
        is_token_char(c),
{
    char::from(rand::Rng::sample(&mut rand::thread_rng(), rand::distributions::Alphanumeric))
}

/// Relies on `String::push`: appends one character at the end.
#[verifier::external_body]
fn push_char(s: &mut String, c: char)
    ensures
        final(s)@ == old(s)@.push(c),
{
    s.push(c)
}

/// Mints a fresh random token. Every outcome is a well-formed token; which
/// one comes out depends on the random source alone.
pub fn generate_token() -> (t: String)
    ensures
        valid_token(t@),
{
    let mut t = String::new();
    let mut i: usize = 0;
    while i < TOKEN_LEN
        invariant
            i <= TOKEN_LEN,
            t@.len() == i,
            forall|j: int| 0 <= j < t@.len() ==> is_token_char(#[trigger] t@[j]),
        decreases TOKEN_LEN - i,
    {
        let c = draw_token_char();
        push_char(&mut t, c);
        i = i + 1;
    }
    t
}

/// Tells whether `s` is a well-formed token.
pub fn is_valid_token(s: &str) -> (r: bool)
    ensures
        r == valid_token(s@),
{
    let n = s.unicode_len();
    if n != TOKEN_LEN {
        return false;
    }
    let mut i: usize = 0;
    while i < n
        invariant
            n == s@.len(),
            i <= n,
            forall|j: int| 0 <= j < i ==> is_token_char(#[trigger] s@[j]),
        decreases n - i,
    {
        let c = s.get_char(i);
        if !(('A' <= c && c <= 'Z') || ('a' <= c && c <= 'z') || ('0' <= c && c <= '9')) {
            return false;
        }
        i = i + 1;
    }
    true
}

} // verus!
