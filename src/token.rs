//! Leaderboard handles as tokens.
//!
//! A handle minted by the native client crosses the boundary as a 64-bit
//! token, written in decimal where the caller hands it back. The registry
//! keeps the live handle behind each token it has issued, so a token is
//! redeemed for the very handle it was issued for, and a token that was
//! never issued, or text that is no token at all, is refused.

use std::collections::HashMap;
use vstd::prelude::*;

verus! {

broadcast use vstd::std_specs::hash::group_hash_axioms;

pub open spec fn is_decimal_digit(c: char) -> bool {
    '0' <= c && c <= '9'
}

/// The number that a string of decimal digits denotes.
pub open spec fn digits_value(s: Seq<char>) -> nat
    decreases s.len(),
{
    if s.len() == 0 {
        0
    } else {
        digits_value(s.drop_last()) * 10 + (s.last() as nat - '0' as nat) as nat
    }
}

/// The digits of a token's text: what follows an optional leading `+`.
pub open spec fn token_digits(s: Seq<char>) -> Seq<char> {
    if s.len() > 0 && s[0] == '+' {
        s.drop_first()
    } else {
        s
    }
}

/// The token that a text denotes: one or more decimal digits, optionally
/// preceded by `+`, whose value fits in 64 bits. Any other text, including
/// one with surrounding whitespace or a sign `-`, denotes none.
pub open spec fn token_of_text(s: Seq<char>) -> Option<u64> {
    let d = token_digits(s);
    if d.len() > 0 && (forall|i: int| 0 <= i < d.len() ==> is_decimal_digit(#[trigger] d[i]))
        && digits_value(d) <= u64::MAX {
        Some(digits_value(d) as u64)
    } else {
        None
    }
}

/// Relies on `str::parse::<u64>` (`u64::from_str`): it accepts exactly an
/// optional `+` followed by decimal digits whose value fits in a `u64`.
#[verifier::external_body]
fn parse_u64(text: &str) -> (r: Option<u64>)
    ensures
        r == token_of_text(text@),
{
    text.parse::<u64>().ok()
}

/// The handles issued so far, each under its token.
pub struct TokenRegistry<H> {
    handles: HashMap<u64, H>,
}

impl<H> View for TokenRegistry<H> {
    type V = Map<u64, H>;

    closed spec fn view(&self) -> Map<u64, H> {
        self.handles@
    }
}

impl<H> TokenRegistry<H> {
    pub fn new() -> (r: Self)
        ensures
            r@ == Map::<u64, H>::empty(),
    {
        TokenRegistry { handles: HashMap::new() }
    }

    /// Records `handle` under `token`, the value the native client gave for
    /// it, and hands the token back. A token issued again now stands for
    /// the newer handle.
    pub fn issue(&mut self, token: u64, handle: H) -> (r: u64)
        ensures
            r == token,
            final(self)@ == old(self)@.insert(token, handle),
    {
        self.handles.insert(token, handle);
        token
    }

    /// The handle issued under `token`, if any.
    pub fn lookup(&self, token: u64) -> (r: Option<&H>)
        ensures
            owned(r) == lookup_of(self@, token),
    {
        self.handles.get(&token)
    }

    /// The handle that the token written in `text` stands for: absent when
    /// the text is no token, or names a token that was never issued.
    pub fn redeem(&self, text: &str) -> (r: Option<&H>)
        ensures
            owned(r) == redeemed(self@, text@),
    {
        match parse_u64(text) {
            Some(token) => self.lookup(token),
            None => None,
        }
    }

    pub fn is_issued(&self, token: u64) -> (r: bool)
        ensures
            r == self@.contains_key(token),
    {
        self.handles.contains_key(&token)
    }
}

/// The handle that a borrowed result refers to.
pub open spec fn owned<H>(r: Option<&H>) -> Option<H> {
    match r {
        Some(h) => Some(*h),
        None => None,
    }
}

/// The handle issued under `token`, if any.
pub open spec fn lookup_of<H>(issued: Map<u64, H>, token: u64) -> Option<H> {
    if issued.contains_key(token) {
        Some(issued[token])
    } else {
        None
    }
}

/// What redeeming `text` against the issued handles `issued` yields.
pub open spec fn redeemed<H>(issued: Map<u64, H>, text: Seq<char>) -> Option<H> {
    match token_of_text(text) {
        Some(t) => lookup_of(issued, t),
        None => None,
    }
}

} // verus!

verus! {

/// The decimal digit character for `d`, which is below ten.
pub open spec fn digit_char(d: nat) -> char {
    ((('0' as nat) + d) as u32) as char
}

/// The decimal text of `n`, without sign or leading zeros.
pub open spec fn decimal_text(n: nat) -> Seq<char>
    decreases n,
{
    if n < 10 {
        seq![digit_char(n)]
    } else {
        decimal_text(n / 10).push(digit_char(n % 10))
    }
}

proof fn lemma_decimal_text_reads_back(n: nat)
    ensures
        decimal_text(n).len() > 0,
        decimal_text(n)[0] != '+',
        forall|i: int| 0 <= i < decimal_text(n).len() ==> is_decimal_digit(#[trigger] decimal_text(n)[i]),
        digits_value(decimal_text(n)) == n,
    decreases n,
{
    let d = n % 10;
    assert(digit_char(d) as nat == '0' as nat + d);
    if n >= 10 {
        lemma_decimal_text_reads_back(n / 10);
        assert(n == (n / 10) * 10 + n % 10);
        let prefix = decimal_text(n / 10);
        assert(decimal_text(n).drop_last() =~= prefix);
        assert(decimal_text(n).last() == digit_char(d));
        assert(digits_value(decimal_text(n)) == digits_value(prefix) * 10 + d);
        assert forall|i: int| 0 <= i < decimal_text(n).len() implies is_decimal_digit(#[trigger] decimal_text(n)[i]) by {
            if i < prefix.len() {
                assert(decimal_text(n)[i] == prefix[i]);
            }
        }
    } else {
        assert(seq![digit_char(n)].drop_last() =~= Seq::<char>::empty());
        assert(d == n);
        assert(digits_value(decimal_text(n)) == digits_value(Seq::<char>::empty()) * 10 + d);
    }
}

/// Issuing a handle and redeeming its token, by value or by its decimal
/// text, gives back that same handle, whatever was issued before.
pub proof fn lemma_token_round_trip<H>(issued: Map<u64, H>, token: u64, handle: H)
    ensures
        lookup_of(issued.insert(token, handle), token) == Some(handle),
        token_of_text(decimal_text(token as nat)) == Some(token),
        redeemed(issued.insert(token, handle), decimal_text(token as nat)) == Some(handle),
{
    lemma_decimal_text_reads_back(token as nat);
    assert(token_digits(decimal_text(token as nat)) == decimal_text(token as nat));
}

} // verus!
