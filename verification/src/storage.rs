use vstd::prelude::*;
use std::collections::HashMap;
use crate::model::{
    actors_for, stored_bytes, stored_u64, subscribers_for, tip_amounts_for, LikeRec, StateV,
    SubRec, TipRec,
};
use crate::nft_module::{NftData, PendingIssue, PriceTag};
use crate::token::{clone_bytes, bytes_eq, TokenId};

verus! {

/// One like, dislike or report entry: the paying actor, keyed by content identifier.
pub struct LikeEntry {
    pub content: Vec<u8>,
    pub actor: u64,
}

impl View for LikeEntry {
    type V = LikeRec;

    open spec fn view(&self) -> LikeRec {
        LikeRec { content: self.content@, actor: self.actor }
    }
}

/// One tip entry: the amount paid, keyed by actor and content identifier.
pub struct TipEntry {
    pub actor: u64,
    pub content: Vec<u8>,
    pub amount: u64,
}

impl View for TipEntry {
    type V = TipRec;

    open spec fn view(&self) -> TipRec {
        TipRec { actor: self.actor, content: self.content@, amount: self.amount }
    }
}

/// One subscription event, keyed by channel address.
pub struct SubEntry {
    pub channel: u64,
    pub subscriber: Vec<u8>,
}

impl View for SubEntry {
    type V = SubRec;

    open spec fn view(&self) -> SubRec {
        SubRec { channel: self.channel, subscriber: self.subscriber@ }
    }
}

/// The persistent ledger state of the contract, one field per stored entry.
pub struct Contract {
    pub gating: TokenId,
    pub owner_addr: u64,
    pub collection: Option<TokenId>,
    pub pending: Vec<PendingIssue>,
    pub nfts: Vec<NftData>,
    pub prices: HashMap<u64, PriceTag>,
    pub likes: Vec<LikeEntry>,
    pub dislikes: Vec<LikeEntry>,
    pub reports: Vec<LikeEntry>,
    pub tips: Vec<TipEntry>,
    pub subs: Vec<SubEntry>,
    pub unsubs: Vec<SubEntry>,
    pub curated: HashMap<u64, Vec<TokenId>>,
    pub accounts: HashMap<u64, Vec<u8>>,
    pub drips: HashMap<u64, u64>,
    pub deposits: HashMap<u64, u64>,
    pub faucet: u64,
}

/// Read access to every stored list and value of the ledger.
pub trait Storage: Sized {
    /// The mathematical model of the whole stored state.
    spec fn model(&self) -> StateV;

    /// The gating token all paid interactions must use.
    fn cf_token_name(&self) -> (r: &TokenId)
        ensures
            r@ == self.model().gating,
    ;

    /// The platform owner address, which also serves as the payment pool.
    fn contract_owner(&self) -> (r: u64)
        ensures
            r == self.model().owner,
    ;

    /// The actors who liked a content identifier, in order.
    fn submit_like(&self, identifier: &Vec<u8>) -> (r: Vec<u64>)
        ensures
            r@ == actors_for(self.model().likes, identifier@),
    ;

    /// The actors who disliked a content identifier, in order.
    fn submit_dislike(&self, identifier: &Vec<u8>) -> (r: Vec<u64>)
        ensures
            r@ == actors_for(self.model().dislikes, identifier@),
    ;

    /// The actors who reported a content identifier, in order.
    fn submit_report(&self, identifier: &Vec<u8>) -> (r: Vec<u64>)
        ensures
            r@ == actors_for(self.model().reports, identifier@),
    ;

    /// The tip amounts one actor paid for a content identifier, in order.
    fn send_tip(&self, address: u64, identifier: &Vec<u8>) -> (r: Vec<u64>)
        ensures
            r@ == tip_amounts_for(self.model().tips, address, identifier@),
    ;

    /// The subscription events recorded for a channel, in order.
    fn subscribe_list(&self, owner: u64) -> (r: Vec<Vec<u8>>)
        ensures
            r@.map_values(|v: Vec<u8>| v@) == subscribers_for(self.model().subs, owner),
    ;

    /// The unsubscription events recorded for a channel, in order.
    fn unsubscribe_list(&self, owner: u64) -> (r: Vec<Vec<u8>>)
        ensures
            r@.map_values(|v: Vec<u8>| v@) == subscribers_for(self.model().unsubs, owner),
    ;

    /// The time of the last faucet drip paid to a caller; zero when none was.
    fn last_drip(&self, caller: u64) -> (r: u64)
        ensures
            r == stored_u64(self.model().drips, caller),
    ;

    /// The amount a caller has deposited; zero when none was.
    fn deposit_tokens(&self, caller: u64) -> (r: u64)
        ensures
            r == stored_u64(self.model().deposits, caller),
    ;

    /// The amount one faucet drip pays.
    fn faucet_amount(&self) -> (r: u64)
        ensures
            r == self.model().faucet,
    ;

    /// The attribute blob registered for an address; empty when none was.
    fn new_account(&self, address: u64) -> (r: Vec<u8>)
        ensures
            r@ == stored_bytes(self.model().accounts, address),
    ;
}

/// Collects the actors recorded for one content identifier.
#[verifier::loop_isolation(false)]
fn collect_actors(log: &Vec<LikeEntry>, content: &Vec<u8>) -> (r: Vec<u64>)
    ensures
        r@ == actors_for(log@.map_values(|e: LikeEntry| e@), content@),
{
    let ghost f = |e: LikeEntry| e@;
    let mut r: Vec<u64> = Vec::new();
    let mut i: usize = 0;
    while i < log.len()
        invariant
            0 <= i <= log@.len(),
            r@ == actors_for(log@.take(i as int).map_values(f), content@),
        decreases log@.len() - i,
    {
        proof {
            assert(log@.take(i + 1).map_values(f) =~= log@.take(i as int).map_values(f).push(
                f(log@[i as int]),
            ));
            crate::model::lemma_actors_for_push(
                log@.take(i as int).map_values(f),
                f(log@[i as int]),
                content@,
            );
        }
        if bytes_eq(&log[i].content, content) {
            r.push(log[i].actor);
        }
        i += 1;
    }
    proof {
        assert(log@.take(log@.len() as int) =~= log@);
    }
    r
}

/// Collects the tip amounts recorded for one actor and content identifier.
#[verifier::loop_isolation(false)]
fn collect_tips(log: &Vec<TipEntry>, actor: u64, content: &Vec<u8>) -> (r: Vec<u64>)
    ensures
        r@ == tip_amounts_for(log@.map_values(|e: TipEntry| e@), actor, content@),
{
    let ghost f = |e: TipEntry| e@;
    let mut r: Vec<u64> = Vec::new();
    let mut i: usize = 0;
    while i < log.len()
        invariant
            0 <= i <= log@.len(),
            r@ == tip_amounts_for(log@.take(i as int).map_values(f), actor, content@),
        decreases log@.len() - i,
    {
        proof {
            assert(log@.take(i + 1).map_values(f) =~= log@.take(i as int).map_values(f).push(
                f(log@[i as int]),
            ));
            crate::model::lemma_tip_amounts_for_push(
                log@.take(i as int).map_values(f),
                f(log@[i as int]),
                actor,
                content@,
            );
        }
        if log[i].actor == actor && bytes_eq(&log[i].content, content) {
            r.push(log[i].amount);
        }
        i += 1;
    }
    proof {
        assert(log@.take(log@.len() as int) =~= log@);
    }
    r
}

/// Collects the subscription events recorded for one channel.
#[verifier::loop_isolation(false)]
fn collect_subscribers(log: &Vec<SubEntry>, channel: u64) -> (r: Vec<Vec<u8>>)
    ensures
        r@.map_values(|v: Vec<u8>| v@) == subscribers_for(
            log@.map_values(|e: SubEntry| e@),
            channel,
        ),
{
    let ghost f = |e: SubEntry| e@;
    let ghost g = |v: Vec<u8>| v@;
    let mut r: Vec<Vec<u8>> = Vec::new();
    let mut i: usize = 0;
    while i < log.len()
        invariant
            0 <= i <= log@.len(),
            r@.map_values(g) == subscribers_for(log@.take(i as int).map_values(f), channel),
        decreases log@.len() - i,
    {
        proof {
            assert(log@.take(i + 1).map_values(f) =~= log@.take(i as int).map_values(f).push(
                f(log@[i as int]),
            ));
            crate::model::lemma_subscribers_for_push(
                log@.take(i as int).map_values(f),
                f(log@[i as int]),
                channel,
            );
        }
        if log[i].channel == channel {
            let ghost before = r@;
            let copy = clone_bytes(&log[i].subscriber);
            r.push(copy);
            proof {
                assert(r@.map_values(g) =~= before.map_values(g).push(g(copy)));
            }
        }
        i += 1;
    }
    proof {
        assert(log@.take(log@.len() as int) =~= log@);
    }
    r
}

impl Storage for Contract {
    open spec fn model(&self) -> StateV {
        StateV {
            gating: self.gating@,
            owner: self.owner_addr,
            collection: match self.collection {
                Option::None => Option::<crate::token::TokenIdV>::None,
                Option::Some(t) => Option::Some(t@),
            },
            pending: self.pending@.map_values(|p: PendingIssue| p@),
            nfts: self.nfts@.map_values(|n: NftData| n@),
            prices: self.prices@.map_values(|p: PriceTag| p@),
            likes: self.likes@.map_values(|e: LikeEntry| e@),
            dislikes: self.dislikes@.map_values(|e: LikeEntry| e@),
            reports: self.reports@.map_values(|e: LikeEntry| e@),
            tips: self.tips@.map_values(|e: TipEntry| e@),
            subs: self.subs@.map_values(|e: SubEntry| e@),
            unsubs: self.unsubs@.map_values(|e: SubEntry| e@),
            curated: self.curated@.map_values(
                |v: Vec<TokenId>| v@.map_values(|t: TokenId| t@),
            ),
            accounts: self.accounts@.map_values(|v: Vec<u8>| v@),
            drips: self.drips@,
            deposits: self.deposits@,
            faucet: self.faucet,
        }
    }

    fn cf_token_name(&self) -> (r: &TokenId) {
        &self.gating
    }

    fn contract_owner(&self) -> (r: u64) {
        self.owner_addr
    }

    fn submit_like(&self, identifier: &Vec<u8>) -> (r: Vec<u64>) {
        collect_actors(&self.likes, identifier)
    }

    fn submit_dislike(&self, identifier: &Vec<u8>) -> (r: Vec<u64>) {
        collect_actors(&self.dislikes, identifier)
    }

    fn submit_report(&self, identifier: &Vec<u8>) -> (r: Vec<u64>) {
        collect_actors(&self.reports, identifier)
    }

    fn send_tip(&self, address: u64, identifier: &Vec<u8>) -> (r: Vec<u64>) {
        collect_tips(&self.tips, address, identifier)
    }

    fn subscribe_list(&self, owner: u64) -> (r: Vec<Vec<u8>>) {
        collect_subscribers(&self.subs, owner)
    }

    fn unsubscribe_list(&self, owner: u64) -> (r: Vec<Vec<u8>>) {
        collect_subscribers(&self.unsubs, owner)
    }

    fn last_drip(&self, caller: u64) -> (r: u64) {
        match self.drips.get(&caller) {
            Option::Some(v) => *v,
            Option::None => 0,
        }
    }

    fn deposit_tokens(&self, caller: u64) -> (r: u64) {
        match self.deposits.get(&caller) {
            Option::Some(v) => *v,
            Option::None => 0,
        }
    }

    fn faucet_amount(&self) -> (r: u64) {
        self.faucet
    }

    fn new_account(&self, address: u64) -> (r: Vec<u8>) {
        match self.accounts.get(&address) {
            Option::Some(v) => clone_bytes(v),
            Option::None => Vec::new(),
        }
    }
}

} // verus!
