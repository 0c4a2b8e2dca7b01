//! Token challenges, and what goes into the header that carries one.

use crate::keys::TokenType;
use vstd::prelude::*;

verus! {

/// A challenge, apart from how it is stored.
pub struct TokenChallengeView {
    pub token_type: TokenType,
    pub issuer_name: Seq<char>,
    pub redemption_context: Option<Seq<u8>>,
    pub origin_info: Seq<Seq<char>>,
}

/// The texts of a list of strings.
pub open spec fn texts(strings: Seq<String>) -> Seq<Seq<char>> {
    Seq::new(strings.len(), |k: int| strings[k]@)
}

/// A challenge that an origin puts to a client: which kind of token, of
/// which issuer, for which origins, and in which context it may be redeemed.
/// A challenge does not change once it is made.
#[derive(Debug, PartialEq, Eq)]
pub struct TokenChallenge {
    token_type: TokenType,
    issuer_name: String,
    redemption_context: Option<[u8; 32]>,
    origin_info: Vec<String>,
}

impl View for TokenChallenge {
    type V = TokenChallengeView;

    closed spec fn view(&self) -> TokenChallengeView {
        TokenChallengeView {
            token_type: self.token_type,
            issuer_name: self.issuer_name@,
            redemption_context: match self.redemption_context {
                Some(context) => Some(context@),
                None => None,
            },
            origin_info: texts(self.origin_info@),
        }
    }
}

impl TokenChallenge {
    /// A challenge of the given parts. The origins keep their order.
    pub fn new(
        token_type: TokenType,
        issuer_name: &str,
        redemption_context: Option<[u8; 32]>,
        origin_info: &[String],
    ) -> (challenge: Self)
        ensures
            challenge@.token_type == token_type,
            challenge@.issuer_name == issuer_name@,
            challenge@.redemption_context == match redemption_context {
                Some(context) => Some(context@),
                None => None,
            },
            challenge@.origin_info == texts(origin_info@),
    {
        let mut origins: Vec<String> = Vec::new();
        let mut k: usize = 0;
        while k < origin_info.len()
            invariant
                k <= origin_info.len(),
                origins@ == origin_info@.take(k as int),
            decreases origin_info.len() - k,
        {
            origins.push(origin_info[k].clone());
            k += 1;
            assert(origins@ =~= origin_info@.take(k as int));
        }
        assert(origins@ =~= origin_info@);
        TokenChallenge {
            token_type,
            issuer_name: issuer_name.to_owned(),
            redemption_context,
            origin_info: origins,
        }
    }

    /// The kind of token that is asked for.
    pub fn token_type(&self) -> (token_type: TokenType)
        ensures
            token_type == self@.token_type,
    {
        self.token_type
    }

    /// The name of the issuer whose tokens are asked for.
    pub fn issuer_name(&self) -> (issuer_name: &str)
        ensures
            issuer_name@ == self@.issuer_name,
    {
        self.issuer_name.as_str()
    }

    /// The context that a token must be redeemed in, where there is one.
    pub fn redemption_context(&self) -> (context: Option<[u8; 32]>)
        ensures
            self@.redemption_context == match context {
                Some(context) => Some(context@),
                None => None,
            },
    {
        self.redemption_context
    }

    /// The origins that a token may be presented to, in their order.
    pub fn origin_info(&self) -> (origins: &[String])
        ensures
            texts(origins@) == self@.origin_info,
    {
        self.origin_info.as_slice()
    }
}

/// What a header that carries a challenge is built of.
#[derive(Debug, PartialEq, Eq)]
pub struct HeaderRequest {
    /// The challenge to put into the header; none where the caller holds the
    /// challenge in its text form.
    pub challenge: Option<TokenChallenge>,
    /// The bytes of the public key.
    pub token_key: Vec<u8>,
    /// For how many seconds the challenge may be kept, where that is limited.
    pub max_age: Option<u32>,
}

/// The limit that a number of seconds stands for: zero stands for none.
pub open spec fn max_age_of(seconds: u32) -> Option<u32> {
    if seconds == 0 {
        None
    } else {
        Some(seconds)
    }
}

/// The limit that a number of seconds stands for: zero stands for none.
pub fn header_max_age(seconds: u32) -> (max_age: Option<u32>)
    ensures
        max_age == max_age_of(seconds),
{
    if seconds == 0 {
        None
    } else {
        Some(seconds)
    }
}

/// The answer that the building of a header stands for: the header as it
/// was built, or, where building failed, the message that the challenge is
/// not valid.
pub fn header_answer<H>(built: Option<H>) -> (answer: Result<H, String>)
    ensures
        match answer {
            Ok(header) => built == Some(header),
            Err(message) => built is None && message@ == "invalid token challenge"@,
        },
{
    match built {
        Some(header) => Ok(header),
        None => Err("invalid token challenge".to_owned()),
    }
}

} // verus!
