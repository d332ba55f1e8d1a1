use vstd::prelude::*;
use vstd::string::*;
use rand::distr::SampleString;

verus! {

/// Number of characters in a subscription token.
pub const TOKEN_LENGTH: usize = 25;

/// `c` is an ASCII letter or digit.
pub open spec fn is_ascii_alphanumeric(c: char) -> bool {
    ||| '0' <= c <= '9'
    ||| 'A' <= c <= 'Z'
    ||| 'a' <= c <= 'z'
}

/// The text is a well-formed subscription token: exactly `TOKEN_LENGTH`
/// characters, each an ASCII letter or digit.
pub open spec fn is_valid_token(s: Seq<char>) -> bool {
    &&& s.len() == TOKEN_LENGTH
    &&& forall|i: int| 0 <= i < s.len() ==> is_ascii_alphanumeric(#[trigger] s[i])
}

/// The message with which `SubscriptionToken::parse` rejects a string.
pub open spec fn token_error_message() -> Seq<char> {
    "Token must be 25 alphanumeric characters."@
}

/// `rand::distr::Alphanumeric` sampled through `SampleString::sample_string`
/// with the thread-local generator `rand::rng()`. Its source takes `len`
/// samples of the distribution, each drawn from the 62 ASCII letters and
/// digits; which characters come out is left open. It panics only where the
/// operating system's random source fails, which nothing here can rule out.
#[verifier::external_body]
fn sample_alphanumeric(len: usize) -> (s: String)
    ensures
        s@.len() == len,
        forall|i: int| 0 <= i < s@.len() ==> is_ascii_alphanumeric(#[trigger] s@[i]),
{
    rand::distr::Alphanumeric.sample_string(&mut rand::rng(), len)
}

/// A token that links a confirmation request to a pending subscriber. Besides
/// its text it records whether it was drawn here at random or received from
/// outside.
#[derive(Debug)]
pub struct SubscriptionToken(String, bool);

impl View for SubscriptionToken {
    type V = Seq<char>;

    closed spec fn view(&self) -> Seq<char> {
        self.0@
    }
}

impl SubscriptionToken {
    #[verifier::type_invariant]
    spec fn well_formed(self) -> bool {
        is_valid_token(self.0@)
    }

    /// The token was drawn at random by `SubscriptionToken::new`, rather than
    /// parsed from text received from outside.
    pub closed spec fn is_drawn(self) -> bool {
        self.1
    }

    /// A fresh random token.
    pub fn new() -> (token: Self)
        ensures
            is_valid_token(token@),
            token.is_drawn(),
    {
        SubscriptionToken(sample_alphanumeric(TOKEN_LENGTH), true)
    }

    /// Accepts `s` as a token when it is exactly `TOKEN_LENGTH` ASCII letters
    /// and digits, and keeps it unchanged.
    pub fn parse(s: String) -> (res: Result<Self, String>)
        ensures
            res is Ok <==> is_valid_token(s@),
            res is Ok <==> (s@.len() == 25 && forall|i: int|
                0 <= i < s@.len() ==> ('0' <= #[trigger] s@[i] <= '9' || 'A' <= s@[i] <= 'Z' || 'a'
                    <= s@[i] <= 'z')),
            res matches Ok(token) ==> token@ == s@ && !token.is_drawn(),
            res matches Err(e) ==> e@ == token_error_message(),
            res matches Err(e) ==> e@ == "Token must be 25 alphanumeric characters."@,
    {
        let text = s.as_str();
        let mut accepted = text.is_ascii() && text.unicode_len() == TOKEN_LENGTH;
        proof {
            if is_valid_token(s@) {
                assert forall|i: int| 0 <= i < s@.len() implies '\0' <= #[trigger] s@[i] <= '\u{7f}' by {
                    assert(is_ascii_alphanumeric(s@[i]));
                }
            }
        }
        if accepted {
            let mut i: usize = 0;
            while i < TOKEN_LENGTH
                invariant_except_break
                    accepted,
                invariant
                    i <= TOKEN_LENGTH,
                    text@ == s@,
                    s@.len() == TOKEN_LENGTH,
                    forall|j: int| 0 <= j < i ==> is_ascii_alphanumeric(#[trigger] s@[j]),
                ensures
                    accepted <==> is_valid_token(s@),
                decreases TOKEN_LENGTH - i,
            {
                let c = text.get_char(i);
                if !(('0' <= c && c <= '9') || ('A' <= c && c <= 'Z') || ('a' <= c && c <= 'z')) {
                    accepted = false;
                    break;
                }
                i = i + 1;
            }
        }
        if accepted {
            Ok(SubscriptionToken(s, false))
        } else {
            Err(String::from_str("Token must be 25 alphanumeric characters."))
        }
    }

    /// The token's text.
    pub fn as_ref(&self) -> (text: &str)
        ensures
            text@ == self@,
            is_valid_token(text@),
    {
        proof {
            use_type_invariant(self);
        }
        self.0.as_str()
    }
}

impl Clone for SubscriptionToken {
    /// The same token.
    fn clone(&self) -> (token: Self)
        ensures
            token == *self,
    {
        proof {
            use_type_invariant(self);
        }
        SubscriptionToken(self.0.clone(), self.1)
    }
}

impl Default for SubscriptionToken {
    /// A fresh random token, as `SubscriptionToken::new` gives.
    fn default() -> (token: Self)
        ensures
            is_valid_token(token@),
            token.is_drawn(),
    {
        Self::new()
    }
}

} // verus!
