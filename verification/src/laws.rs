use vstd::prelude::*;
use crate::digest::sha256_of;
use crate::model::{drip_allowed, initial_state, NftV, PriceV, StateV};
use crate::nft_module::buy_accepts;
use crate::token::TokenIdV;

verus! {

/// Hash integrity of a state: every minted instance stores exactly the
/// digest of its stored attribute payload.
pub open spec fn hash_integrity(m: StateV) -> bool {
    forall|i: int|
        0 <= i < m.nfts.len() ==> (#[trigger] m.nfts[i]).hash == sha256_of(m.nfts[i].attributes)
}

/// A freshly initialized ledger has hash integrity: it holds no instances.
pub proof fn lemma_initial_hash_integrity(gating: TokenIdV, owner: u64)
    ensures
        hash_integrity(initial_state(gating, owner)),
{
}

/// For all valid mints, the stored attribute hash equals the deterministic
/// digest of the stored attribute payload: the empty ledger has hash
/// integrity, and a mint — which appends an instance carrying the digest of
/// its own payload, as `create_nft` ensures — preserves it. No other
/// operation touches the instance store.
pub proof fn lemma_mint_preserves_hash_integrity(
    m: StateV,
    name: Seq<u8>,
    royalties: u64,
    attributes: Seq<u8>,
    uris: Seq<Seq<u8>>,
)
    requires
        hash_integrity(m),
    ensures
        hash_integrity(
            StateV {
                nfts: m.nfts.push(
                    NftV { name, royalties, hash: sha256_of(attributes), attributes, uris },
                ),
                ..m
            },
        ),
{
    let nft = NftV { name, royalties, hash: sha256_of(attributes), attributes, uris };
    let m2 = StateV { nfts: m.nfts.push(nft), ..m };
    assert forall|i: int| 0 <= i < m2.nfts.len() implies (#[trigger] m2.nfts[i]).hash
        == sha256_of(m2.nfts[i].attributes) by {
        if i < m.nfts.len() {
            assert(m2.nfts[i] == m.nfts[i]);
        } else {
            assert(m2.nfts[i] == nft);
        }
    }
}

/// At most one purchase ever succeeds per instance: a successful purchase —
/// which removes the price tag, as `buy_nft` ensures — leaves a state in
/// which no purchase attempt on that instance is accepted, whatever payment
/// it offers; by `buy_nft`'s contract the attempt is refused as not listed.
pub proof fn lemma_buy_at_most_once(
    m: StateV,
    nft_nonce: u64,
    token: TokenIdV,
    pay_nonce: u64,
    amount: u64,
    token2: TokenIdV,
    pay_nonce2: u64,
    amount2: u64,
)
    requires
        buy_accepts(m, nft_nonce, token, pay_nonce, amount),
    ensures
        !(StateV { prices: m.prices.remove(nft_nonce), ..m }).prices.contains_key(nft_nonce),
        !buy_accepts(
            StateV { prices: m.prices.remove(nft_nonce), ..m },
            nft_nonce,
            token2,
            pay_nonce2,
            amount2,
        ),
{
}

/// Faucet window: once a drip is paid at time `t1` — which records `t1` as
/// the caller's last drip, as `faucet_drip` ensures — a second drip less
/// than 86400 time units later is refused, and one 86400 or more units
/// later is owed.
pub proof fn lemma_faucet_window(m: StateV, caller: u64, t1: u64, t2: u64)
    ensures
        ({
            let after = StateV { drips: m.drips.insert(caller, t1), ..m };
            &&& (t2 - t1 < 86400 ==> !drip_allowed(after, caller, t2))
            &&& (t2 - t1 >= 86400 ==> drip_allowed(after, caller, t2))
        }),
{
}

/// Round trip of listing and settlement: after a listing is recorded with a
/// token, sub-unit index and amount, the price query reports exactly that
/// tag, and a purchase offering exactly that payment is accepted whenever
/// the collection is issued; after the purchase clears the tag, the query
/// reports the instance as not listed.
pub proof fn lemma_price_round_trip(
    m: StateV,
    nft_nonce: u64,
    token: TokenIdV,
    pay_nonce: u64,
    amount: u64,
)
    ensures
        ({
            let tag = PriceV { token, nonce: pay_nonce, amount };
            let listed = StateV { prices: m.prices.insert(nft_nonce, tag), ..m };
            let sold = StateV { prices: listed.prices.remove(nft_nonce), ..listed };
            &&& listed.prices.contains_key(nft_nonce)
            &&& listed.prices[nft_nonce] == tag
            &&& (buy_accepts(listed, nft_nonce, token, pay_nonce, amount) <==> listed.collection
                is Some)
            &&& !sold.prices.contains_key(nft_nonce)
        }),
{
}

} // verus!
