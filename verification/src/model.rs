use vstd::prelude::*;
use crate::token::TokenIdV;

verus! {

/// Model of one like, dislike or report: the actor who paid for it,
/// keyed by the content identifier.
#[verifier::ext_equal]
pub struct LikeRec {
    pub content: Seq<u8>,
    pub actor: u64,
}

/// Model of one tip: the amount paid, keyed by actor and content identifier.
#[verifier::ext_equal]
pub struct TipRec {
    pub actor: u64,
    pub content: Seq<u8>,
    pub amount: u64,
}

/// Model of one subscription event, keyed by channel address.
#[verifier::ext_equal]
pub struct SubRec {
    pub channel: u64,
    pub subscriber: Seq<u8>,
}

/// Model of a price tag: the exact payment that buys an instance.
#[verifier::ext_equal]
pub struct PriceV {
    pub token: TokenIdV,
    pub nonce: u64,
    pub amount: u64,
}

/// Model of one minted instance.
#[verifier::ext_equal]
pub struct NftV {
    pub name: Seq<u8>,
    pub royalties: u64,
    pub hash: Seq<u8>,
    pub attributes: Seq<u8>,
    pub uris: Seq<Seq<u8>>,
}

/// Model of one outstanding collection registration.
#[verifier::ext_equal]
pub struct PendingV {
    pub caller: u64,
    pub paid_token: TokenIdV,
    pub paid_amount: u64,
}

/// The whole ledger state of the contract, as mathematical values.
#[verifier::ext_equal]
pub struct StateV {
    /// The one token identity paid interactions must use.
    pub gating: TokenIdV,
    /// The platform owner; also the pool address for dislike and report payments.
    pub owner: u64,
    /// The collection identity, once the issuance workflow has committed it.
    pub collection: Option<TokenIdV>,
    /// Outstanding collection registrations, oldest first.
    pub pending: Seq<PendingV>,
    /// Minted instances; the instance with sub-unit index `n` sits at `n - 1`.
    pub nfts: Seq<NftV>,
    /// Live price tags, keyed by instance sub-unit index.
    pub prices: Map<u64, PriceV>,
    /// Append-only interaction logs.
    pub likes: Seq<LikeRec>,
    pub dislikes: Seq<LikeRec>,
    pub reports: Seq<LikeRec>,
    pub tips: Seq<TipRec>,
    /// Append-only subscription event logs.
    pub subs: Seq<SubRec>,
    pub unsubs: Seq<SubRec>,
    /// Collections curated per address.
    pub curated: Map<u64, Seq<TokenIdV>>,
    /// Account blob per address.
    pub accounts: Map<u64, Seq<u8>>,
    /// Last faucet drip time per address.
    pub drips: Map<u64, u64>,
    /// Deposited amounts per address.
    pub deposits: Map<u64, u64>,
    /// The amount one faucet drip pays.
    pub faucet: u64,
}

/// The actors recorded for a content identifier, in order of arrival.
pub open spec fn actors_for(log: Seq<LikeRec>, content: Seq<u8>) -> Seq<u64>
    decreases log.len(),
{
    if log.len() == 0 {
        Seq::empty()
    } else {
        let rest = actors_for(log.drop_last(), content);
        if log.last().content == content {
            rest.push(log.last().actor)
        } else {
            rest
        }
    }
}

/// The tip amounts recorded for an actor and a content identifier.
pub open spec fn tip_amounts_for(log: Seq<TipRec>, actor: u64, content: Seq<u8>) -> Seq<u64>
    decreases log.len(),
{
    if log.len() == 0 {
        Seq::empty()
    } else {
        let rest = tip_amounts_for(log.drop_last(), actor, content);
        if log.last().actor == actor && log.last().content == content {
            rest.push(log.last().amount)
        } else {
            rest
        }
    }
}

/// The subscriber identifiers recorded for a channel, in order of arrival.
pub open spec fn subscribers_for(log: Seq<SubRec>, channel: u64) -> Seq<Seq<u8>>
    decreases log.len(),
{
    if log.len() == 0 {
        Seq::empty()
    } else {
        let rest = subscribers_for(log.drop_last(), channel);
        if log.last().channel == channel {
            rest.push(log.last().subscriber)
        } else {
            rest
        }
    }
}

/// The value of a single-value entry with a numeric default: unset reads as zero.
pub open spec fn stored_u64(m: Map<u64, u64>, key: u64) -> u64 {
    if m.contains_key(key) {
        m[key]
    } else {
        0
    }
}

/// The state right after initialization: the gating token and owner are set,
/// nothing is issued, minted, listed or recorded, and the faucet pays zero.
pub open spec fn initial_state(gating: TokenIdV, owner: u64) -> StateV {
    StateV {
        gating,
        owner,
        collection: None,
        pending: Seq::empty(),
        nfts: Seq::empty(),
        prices: Map::empty(),
        likes: Seq::empty(),
        dislikes: Seq::empty(),
        reports: Seq::empty(),
        tips: Seq::empty(),
        subs: Seq::empty(),
        unsubs: Seq::empty(),
        curated: Map::empty(),
        accounts: Map::empty(),
        drips: Map::empty(),
        deposits: Map::empty(),
        faucet: 0,
    }
}

/// Whether a faucet drip is owed: at least 86400 time units have passed
/// since the caller's last drip (or since time zero when none was paid).
pub open spec fn drip_allowed(m: StateV, caller: u64, now: u64) -> bool {
    now - stored_u64(m.drips, caller) >= 86400
}

/// The value of a stored byte blob: unset reads as the empty blob.
pub open spec fn stored_bytes(m: Map<u64, Seq<u8>>, key: u64) -> Seq<u8> {
    if m.contains_key(key) {
        m[key]
    } else {
        Seq::empty()
    }
}

/// The value of a stored token list: unset reads as the empty list.
pub open spec fn stored_tokens(m: Map<u64, Seq<TokenIdV>>, key: u64) -> Seq<TokenIdV> {
    if m.contains_key(key) {
        m[key]
    } else {
        Seq::empty()
    }
}

/// Appending a record touches exactly the log of its own key.
pub proof fn lemma_actors_for_push(log: Seq<LikeRec>, r: LikeRec, content: Seq<u8>)
    ensures
        actors_for(log.push(r), content) == if r.content == content {
            actors_for(log, content).push(r.actor)
        } else {
            actors_for(log, content)
        },
{
    assert(log.push(r).drop_last() =~= log);
    assert(log.push(r).last() == r);
}

/// Appending a tip touches exactly the list of its own actor and key.
pub proof fn lemma_tip_amounts_for_push(log: Seq<TipRec>, r: TipRec, actor: u64, content: Seq<u8>)
    ensures
        tip_amounts_for(log.push(r), actor, content) == if r.actor == actor && r.content
            == content {
            tip_amounts_for(log, actor, content).push(r.amount)
        } else {
            tip_amounts_for(log, actor, content)
        },
{
    assert(log.push(r).drop_last() =~= log);
    assert(log.push(r).last() == r);
}

/// Appending a subscription event touches exactly the log of its own channel.
pub proof fn lemma_subscribers_for_push(log: Seq<SubRec>, r: SubRec, channel: u64)
    ensures
        subscribers_for(log.push(r), channel) == if r.channel == channel {
            subscribers_for(log, channel).push(r.subscriber)
        } else {
            subscribers_for(log, channel)
        },
{
    assert(log.push(r).drop_last() =~= log);
    assert(log.push(r).last() == r);
}

/// Mapping a function over a sequence commutes with appending.
pub proof fn lemma_seq_map_values_push<A, B>(s: Seq<A>, f: spec_fn(A) -> B, x: A)
    ensures
        s.push(x).map_values(f) =~= s.map_values(f).push(f(x)),
{
}

/// Mapping a function over a map's values commutes with inserting.
pub proof fn lemma_map_map_values_insert<K, A, B>(m: Map<K, A>, f: spec_fn(A) -> B, k: K, v: A)
    ensures
        m.insert(k, v).map_values(f) =~= m.map_values(f).insert(k, f(v)),
{
}

/// Mapping a function over a map's values commutes with removing.
pub proof fn lemma_map_map_values_remove<K, A, B>(m: Map<K, A>, f: spec_fn(A) -> B, k: K)
    ensures
        m.remove(k).map_values(f) =~= m.map_values(f).remove(k),
{
}

} // verus!
