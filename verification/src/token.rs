use vstd::prelude::*;

verus! {

/// The identity of a token: either the chain's native currency or a standard
/// token named by its identifier bytes (ticker, dash, six random characters).
#[derive(Debug, PartialEq, Eq)]
pub enum TokenId {
    Egld,
    Esdt(Vec<u8>),
}

/// Mathematical model of a token identity.
#[verifier::ext_equal]
pub enum TokenIdV {
    Egld,
    Esdt(Seq<u8>),
}

impl View for TokenId {
    type V = TokenIdV;

    open spec fn view(&self) -> TokenIdV {
        match self {
            TokenId::Egld => TokenIdV::Egld,
            TokenId::Esdt(b) => TokenIdV::Esdt(b@),
        }
    }
}

impl Clone for TokenId {
    fn clone(&self) -> (r: Self)
        ensures
            r@ == self@,
    {
        match self {
            TokenId::Egld => TokenId::Egld,
            TokenId::Esdt(b) => TokenId::Esdt(clone_bytes(b)),
        }
    }
}

/// Clones a byte vector; the copy holds exactly the same bytes.
pub fn clone_bytes(v: &Vec<u8>) -> (r: Vec<u8>)
    ensures
        r@ == v@,
{
    let r = v.clone();
    proof {
        assert(r@ =~= v@);
    }
    r
}

/// Compares two byte vectors for equality of contents.
pub fn bytes_eq(a: &Vec<u8>, b: &Vec<u8>) -> (r: bool)
    ensures
        r == (a@ == b@),
{
    if a.len() != b.len() {
        return false;
    }
    let mut i: usize = 0;
    while i < a.len()
        invariant
            0 <= i <= a@.len(),
            a@.len() == b@.len(),
            forall|j: int| 0 <= j < i ==> a@[j] == b@[j],
        decreases a@.len() - i,
    {
        if a[i] != b[i] {
            return false;
        }
        i += 1;
    }
    proof {
        assert(a@ =~= b@);
    }
    true
}

/// Compares two token identities.
pub fn token_eq(a: &TokenId, b: &TokenId) -> (r: bool)
    ensures
        r == (a@ == b@),
{
    match (a, b) {
        (TokenId::Egld, TokenId::Egld) => true,
        (TokenId::Esdt(x), TokenId::Esdt(y)) => bytes_eq(x, y),
        _ => false,
    }
}

/// A character allowed in the ticker part of a token identifier:
/// an uppercase letter or a digit.
pub open spec fn is_ticker_char(c: u8) -> bool {
    (65 <= c <= 90) || (48 <= c <= 57)
}

/// A character allowed in the random part of a token identifier:
/// a lowercase letter or a digit.
pub open spec fn is_random_char(c: u8) -> bool {
    (97 <= c <= 122) || (48 <= c <= 57)
}

/// A syntactically valid token identifier: a ticker of three to ten uppercase
/// alphanumeric characters, a dash, and six lowercase alphanumeric characters.
pub open spec fn spec_valid_esdt_bytes(s: Seq<u8>) -> bool {
    &&& 10 <= s.len() <= 17
    &&& (forall|j: int| 0 <= j < s.len() - 7 ==> is_ticker_char(#[trigger] s[j]))
    &&& s[s.len() - 7] == 45u8
    &&& (forall|j: int| s.len() - 6 <= j < s.len() ==> is_random_char(#[trigger] s[j]))
}

/// A token identity accepted as the gating token: the native currency or a
/// syntactically valid token identifier.
pub open spec fn spec_valid_gating_token(t: TokenIdV) -> bool {
    match t {
        TokenIdV::Egld => true,
        TokenIdV::Esdt(s) => spec_valid_esdt_bytes(s),
    }
}

/// Checks the token-identifier syntax on identifier bytes.
pub fn is_valid_esdt_identifier(bytes: &Vec<u8>) -> (r: bool)
    ensures
        r == spec_valid_esdt_bytes(bytes@),
{
    let n = bytes.len();
    if n < 10 || n > 17 {
        return false;
    }
    let ticker_len = n - 7;
    let mut i: usize = 0;
    while i < ticker_len
        invariant
            10 <= n <= 17,
            n == bytes@.len(),
            ticker_len == n - 7,
            0 <= i <= ticker_len,
            forall|j: int| 0 <= j < i ==> is_ticker_char(#[trigger] bytes@[j]),
        decreases ticker_len - i,
    {
        let c = bytes[i];
        if !((65 <= c && c <= 90) || (48 <= c && c <= 57)) {
            return false;
        }
        i += 1;
    }
    if bytes[ticker_len] != 45u8 {
        return false;
    }
    let mut k: usize = n - 6;
    while k < n
        invariant
            10 <= n <= 17,
            n == bytes@.len(),
            n - 6 <= k <= n,
            forall|j: int| n - 6 <= j < k ==> is_random_char(#[trigger] bytes@[j]),
        decreases n - k,
    {
        let c = bytes[k];
        if !((97 <= c && c <= 122) || (48 <= c && c <= 57)) {
            return false;
        }
        k += 1;
    }
    true
}

impl TokenId {
    /// True when this identity is the native currency.
    pub fn is_egld(&self) -> (r: bool)
        ensures
            r == (self@ is Egld),
    {
        match self {
            TokenId::Egld => true,
            TokenId::Esdt(_) => false,
        }
    }

    /// True when this identity may serve as the gating token.
    pub fn is_valid_gating_token(&self) -> (r: bool)
        ensures
            r == spec_valid_gating_token(self@),
    {
        match self {
            TokenId::Egld => true,
            TokenId::Esdt(b) => is_valid_esdt_identifier(b),
        }
    }
}

} // verus!
