use vstd::prelude::*;
use crate::actions::{HostCall, Transfer};
use crate::digest::{sha256_bytes, sha256_of};
use crate::model::{stored_tokens, NftV, PendingV, PriceV, StateV};
use crate::storage::{Contract, Storage};
use crate::token::{token_eq, TokenId, TokenIdV};
use crate::ContractError;

verus! {

/// The amount minted of every new instance: one unit.
pub const NFT_AMOUNT: u64 = 1;

/// The royalties bound: one hundred percent, in basis points.
pub const ROYALTIES_MAX: u64 = 10000;

/// The escrow record making one minted instance purchasable: the buyer must
/// pay exactly this token, sub-unit index and amount.
#[derive(Debug, PartialEq, Eq)]
pub struct PriceTag {
    pub token: TokenId,
    pub nonce: u64,
    pub amount: u64,
}

impl View for PriceTag {
    type V = PriceV;

    open spec fn view(&self) -> PriceV {
        PriceV { token: self.token@, nonce: self.nonce, amount: self.amount }
    }
}

/// One minted instance: its name, royalties, attribute digest, attribute
/// payload and content addresses.
pub struct NftData {
    pub name: Vec<u8>,
    pub royalties: u64,
    pub hash: Vec<u8>,
    pub attributes: Vec<u8>,
    pub uris: Vec<Vec<u8>>,
}

impl View for NftData {
    type V = NftV;

    open spec fn view(&self) -> NftV {
        NftV {
            name: self.name@,
            royalties: self.royalties,
            hash: self.hash@,
            attributes: self.attributes@,
            uris: self.uris@.map_values(|u: Vec<u8>| u@),
        }
    }
}

/// One outstanding collection registration: who started it and what was paid.
pub struct PendingIssue {
    pub caller: u64,
    pub paid_token: TokenId,
    pub paid_amount: u64,
}

impl View for PendingIssue {
    type V = PendingV;

    open spec fn view(&self) -> PendingV {
        PendingV {
            caller: self.caller,
            paid_token: self.paid_token@,
            paid_amount: self.paid_amount,
        }
    }
}

/// Whether a purchase attempt succeeds on a given state: the collection is
/// issued, a price tag is live for the instance, and the payment equals the
/// tag in token, sub-unit index and amount.
pub open spec fn buy_accepts(
    m: StateV,
    nft_nonce: u64,
    token: TokenIdV,
    pay_nonce: u64,
    amount: u64,
) -> bool {
    &&& m.collection is Some
    &&& m.prices.contains_key(nft_nonce)
    &&& m.prices[nft_nonce].token == token
    &&& m.prices[nft_nonce].nonce == pay_nonce
    &&& m.prices[nft_nonce].amount == amount
}

/// The issuance workflow and the mint-and-escrow engine.
pub trait NftModule: Storage {
    /// Starts the registration of the collection with the external registrar,
    /// remembering the upfront cost so that the callback can refund it. The
    /// registration result arrives later through `issue_callback`.
    fn issue_token(
        &mut self,
        caller: u64,
        paid_token: TokenId,
        issue_cost: u64,
        token_name: Vec<u8>,
        token_ticker: Vec<u8>,
    ) -> (r: HostCall)
        ensures
            final(self).model() == (StateV {
                pending: old(self).model().pending.push(
                    PendingV { caller, paid_token: paid_token@, paid_amount: issue_cost },
                ),
                ..old(self).model()
            }),
            r matches HostCall::RegisterCollection { cost, name, ticker } && cost == issue_cost
                && name@ == token_name@ && ticker@ == token_ticker@,
    ;

    /// Commits the registration result: on success the collection identity is
    /// stored; on failure nothing is committed and the upfront cost is
    /// refunded when it was paid in the native currency and is not zero.
    fn issue_callback(&mut self, result: Result<TokenId, ()>) -> (refund: Option<Transfer>)
        requires
            old(self).model().pending.len() > 0,
        ensures
            result matches Ok(tid) ==> final(self).model() == (StateV {
                collection: Some(tid@),
                pending: old(self).model().pending.drop_first(),
                ..old(self).model()
            }) && refund is None,
            result is Err ==> final(self).model() == (StateV {
                pending: old(self).model().pending.drop_first(),
                ..old(self).model()
            }),
            result is Err ==> ({
                let p = old(self).model().pending[0];
                if p.paid_token is Egld && p.paid_amount > 0 {
                    refund matches Some(t) && t.to == p.caller && t.token@ == TokenIdV::Egld
                        && t.nonce == 0 && t.amount == p.paid_amount
                } else {
                    refund is None
                }
            }),
    ;

    /// Asks the registrar to grant this contract mint and burn capability on
    /// a collection, and records the collection under the caller's curated
    /// list. The completion of the role grant is not tracked here.
    fn set_local_roles(&mut self, caller: u64, nft_token_id: TokenId) -> (r: HostCall)
        ensures
            final(self).model() == (StateV {
                curated: old(self).model().curated.insert(
                    caller,
                    stored_tokens(old(self).model().curated, caller).push(nft_token_id@),
                ),
                ..old(self).model()
            }),
            r matches HostCall::SetMintBurnRoles { collection } && collection@
                == nft_token_id@,
    ;

    /// The collections recorded under an address's curated list.
    fn set_collection(&self, address: u64) -> (r: Vec<TokenId>)
        ensures
            r@.map_values(|t: TokenId| t@) == stored_tokens(self.model().curated, address),
    ;

    /// Asks the registrar to hand ownership of a collection to the caller;
    /// no ledger state changes.
    fn transfer_owner(&self, caller: u64, token_ident: TokenId) -> (r: HostCall)
        ensures
            r matches HostCall::TransferCollectionOwnership { collection, new_owner }
                && collection@ == token_ident@ && new_owner == caller,
    ;

    /// Mints one unit of a new instance under the issued collection, with the
    /// digest of the attribute payload stored beside the payload, and hands
    /// the unit to the caller. Returns the new instance's sub-unit index.
    fn create_nft_with_attributes(
        &mut self,
        caller: u64,
        name: Vec<u8>,
        royalties: u64,
        attributes: Vec<u8>,
        uris: Vec<Vec<u8>>,
    ) -> (r: Result<(u64, Transfer), ContractError>)
        requires
            old(self).model().nfts.len() < usize::MAX,
        ensures
            r is Ok <==> old(self).model().collection is Some && royalties <= ROYALTIES_MAX,
            old(self).model().collection is None ==> r == Err::<(u64, Transfer), ContractError>(
                ContractError::NotIssued,
            ),
            old(self).model().collection is Some && royalties > ROYALTIES_MAX ==> r == Err::<
                (u64, Transfer),
                ContractError,
            >(ContractError::RoyaltiesExceeded),
            r is Err ==> *final(self) == *old(self),
            r matches Ok((nonce, t)) ==> ({
                let m = old(self).model();
                &&& nonce == m.nfts.len() + 1
                &&& final(self).model() == (StateV {
                    nfts: m.nfts.push(
                        NftV {
                            name: name@,
                            royalties,
                            hash: sha256_of(attributes@),
                            attributes: attributes@,
                            uris: uris@.map_values(|u: Vec<u8>| u@),
                        },
                    ),
                    ..m
                })
                &&& t.to == caller
                &&& (m.collection matches Some(c) && t.token@ == c)
                &&& t.nonce == nonce
                &&& t.amount == NFT_AMOUNT
            }),
    ;

    /// Records (or replaces) the price tag that makes an instance
    /// purchasable. Requires the collection to be issued.
    fn list_for_sale(
        &mut self,
        nft_nonce: u64,
        token: TokenId,
        payment_nonce: u64,
        amount: u64,
    ) -> (r: Result<(), ContractError>)
        ensures
            r is Ok <==> old(self).model().collection is Some,
            r is Err ==> r == Err::<(), ContractError>(ContractError::NotIssued) && *final(self)
                == *old(self),
            r is Ok ==> final(self).model() == (StateV {
                prices: old(self).model().prices.insert(
                    nft_nonce,
                    PriceV { token: token@, nonce: payment_nonce, amount },
                ),
                ..old(self).model()
            }),
    ;

    /// Settles a purchase: when the payment matches the live price tag
    /// exactly, the tag is cleared first, then one unit of the instance goes
    /// to the buyer and the payment goes to the platform owner. On any
    /// failure nothing changes.
    fn buy_nft(
        &mut self,
        caller: u64,
        nft_nonce: u64,
        payment_token: TokenId,
        payment_nonce: u64,
        payment_amount: u64,
    ) -> (r: Result<(Transfer, Transfer), ContractError>)
        ensures
            r is Ok <==> buy_accepts(
                old(self).model(),
                nft_nonce,
                payment_token@,
                payment_nonce,
                payment_amount,
            ),
            old(self).model().collection is None ==> r == Err::<
                (Transfer, Transfer),
                ContractError,
            >(ContractError::NotIssued),
            old(self).model().collection is Some && !old(self).model().prices.contains_key(
                nft_nonce,
            ) ==> r == Err::<(Transfer, Transfer), ContractError>(ContractError::NotListed),
            old(self).model().collection is Some && old(self).model().prices.contains_key(
                nft_nonce,
            ) && r is Err ==> r == Err::<(Transfer, Transfer), ContractError>(
                ContractError::PaymentMismatch,
            ),
            r is Err ==> *final(self) == *old(self),
            r matches Ok((nft_out, pay_out)) ==> ({
                let m = old(self).model();
                &&& final(self).model() == (StateV { prices: m.prices.remove(nft_nonce), ..m })
                &&& nft_out.to == caller
                &&& (m.collection matches Some(c) && nft_out.token@ == c)
                &&& nft_out.nonce == nft_nonce
                &&& nft_out.amount == NFT_AMOUNT
                &&& pay_out.to == m.owner
                &&& pay_out.token@ == payment_token@
                &&& pay_out.nonce == payment_nonce
                &&& pay_out.amount == payment_amount
            }),
    ;

    /// The live price tag of an instance, when one exists.
    fn get_nft_price(&self, nft_nonce: u64) -> (r: Option<&PriceTag>)
        ensures
            match r {
                Some(p) => self.model().prices.contains_key(nft_nonce) && p@
                    == self.model().prices[nft_nonce],
                None => !self.model().prices.contains_key(nft_nonce),
            },
    ;

    /// Checks that the collection has been issued.
    fn require_token_issued(&self) -> (r: Result<(), ContractError>)
        ensures
            r is Ok <==> self.model().collection is Some,
            r is Err ==> r == Err::<(), ContractError>(ContractError::NotIssued),
    ;

    /// The issued collection identity, when the workflow has committed one.
    fn nft_token_id(&self) -> (r: &Option<TokenId>)
        ensures
            match r {
                Some(t) => self.model().collection == Some(t@),
                None => self.model().collection is None,
            },
    ;
}

/// Clones a list of token identities; the copy holds the same identities.
#[verifier::loop_isolation(false)]
fn clone_tokens(v: &Vec<TokenId>) -> (r: Vec<TokenId>)
    ensures
        r@.map_values(|t: TokenId| t@) == v@.map_values(|t: TokenId| t@),
{
    let ghost f = |t: TokenId| t@;
    let mut r: Vec<TokenId> = Vec::new();
    let mut i: usize = 0;
    while i < v.len()
        invariant
            0 <= i <= v@.len(),
            r@.map_values(f) == v@.take(i as int).map_values(f),
        decreases v@.len() - i,
    {
        let ghost before = r@;
        let c = (&v[i]).clone();
        let ghost cg = c;
        r.push(c);
        proof {
            assert(r@.map_values(f) =~= before.map_values(f).push(f(cg)));
            assert(v@.take(i + 1).map_values(f) =~= v@.take(i as int).map_values(f).push(
                f(v@[i as int]),
            ));
        }
        i += 1;
    }
    proof {
        assert(v@.take(v@.len() as int) =~= v@);
    }
    r
}

impl NftModule for Contract {
    fn issue_token(
        &mut self,
        caller: u64,
        paid_token: TokenId,
        issue_cost: u64,
        token_name: Vec<u8>,
        token_ticker: Vec<u8>,
    ) -> (r: HostCall) {
        let entry = PendingIssue { caller, paid_token, paid_amount: issue_cost };
        let ghost entry_v = entry;
        self.pending.push(entry);
        proof {
            crate::model::lemma_seq_map_values_push(
                old(self).pending@,
                |p: PendingIssue| p@,
                entry_v,
            );
            assert(self.model() =~= (StateV {
                pending: old(self).model().pending.push(entry_v@),
                ..old(self).model()
            }));
        }
        HostCall::RegisterCollection { cost: issue_cost, name: token_name, ticker: token_ticker }
    }

    fn issue_callback(&mut self, result: Result<TokenId, ()>) -> (refund: Option<Transfer>) {
        let p = self.pending.remove(0);
        let ghost p_v = p;
        proof {
            assert(self.pending@.map_values(|q: PendingIssue| q@) =~= old(
                self,
            ).pending@.map_values(|q: PendingIssue| q@).drop_first());
        }
        match result {
            Result::Ok(tid) => {
                let ghost tid_v = tid;
                self.collection = Some(tid);
                proof {
                    assert(self.model() =~= (StateV {
                        collection: Some(tid_v@),
                        pending: old(self).model().pending.drop_first(),
                        ..old(self).model()
                    }));
                }
                None
            },
            Result::Err(_) => {
                proof {
                    assert(self.model() =~= (StateV {
                        pending: old(self).model().pending.drop_first(),
                        ..old(self).model()
                    }));
                    assert(p_v@ == old(self).model().pending[0]);
                }
                let refundable = p.paid_token.is_egld() && p.paid_amount > 0;
                if refundable {
                    Some(
                        Transfer {
                            to: p.caller,
                            token: p.paid_token,
                            nonce: 0,
                            amount: p.paid_amount,
                        },
                    )
                } else {
                    None
                }
            },
        }
    }

    fn set_local_roles(&mut self, caller: u64, nft_token_id: TokenId) -> (r: HostCall) {
        let collection_name = nft_token_id.clone();
        let mut list = match self.curated.remove(&caller) {
            Option::Some(v) => v,
            Option::None => Vec::new(),
        };
        let ghost list0 = list;
        let ghost cn = collection_name;
        list.push(collection_name);
        let ghost list1 = list;
        self.curated.insert(caller, list);
        proof {
            crate::model::lemma_seq_map_values_push(list0@, |t: TokenId| t@, cn);
            assert(list1@.map_values(|t: TokenId| t@) == list0@.map_values(
                |t: TokenId| t@,
            ).push(nft_token_id@));
            assert(self.curated@ =~= old(self).curated@.insert(caller, list1));
            crate::model::lemma_map_map_values_insert(
                old(self).curated@,
                |v: Vec<TokenId>| v@.map_values(|t: TokenId| t@),
                caller,
                list1,
            );
            if old(self).curated@.contains_key(caller) {
                assert(old(self).model().curated.contains_key(caller));
                assert(old(self).model().curated[caller] == old(self).curated@[caller]@.map_values(
                    |t: TokenId| t@,
                ));
                assert(list0 == old(self).curated@[caller]);
                assert(list0@.map_values(|t: TokenId| t@) == stored_tokens(
                    old(self).model().curated,
                    caller,
                ));
            } else {
                assert(!old(self).model().curated.contains_key(caller));
                assert(list0@.map_values(|t: TokenId| t@) =~= Seq::<TokenIdV>::empty());
                assert(list0@.map_values(|t: TokenId| t@) == stored_tokens(
                    old(self).model().curated,
                    caller,
                ));
            }
            assert(self.model() =~= (StateV {
                curated: old(self).model().curated.insert(
                    caller,
                    stored_tokens(old(self).model().curated, caller).push(nft_token_id@),
                ),
                ..old(self).model()
            }));
        }
        HostCall::SetMintBurnRoles { collection: nft_token_id }
    }

    fn set_collection(&self, address: u64) -> (r: Vec<TokenId>) {
        match self.curated.get(&address) {
            Option::Some(v) => clone_tokens(v),
            Option::None => Vec::new(),
        }
    }

    fn transfer_owner(&self, caller: u64, token_ident: TokenId) -> (r: HostCall) {
        HostCall::TransferCollectionOwnership { collection: token_ident, new_owner: caller }
    }

    fn create_nft_with_attributes(
        &mut self,
        caller: u64,
        name: Vec<u8>,
        royalties: u64,
        attributes: Vec<u8>,
        uris: Vec<Vec<u8>>,
    ) -> (r: Result<(u64, Transfer), ContractError>) {
        let coll = match &self.collection {
            Option::Some(c) => c.clone(),
            Option::None => {
                return Err(ContractError::NotIssued);
            },
        };
        if royalties > ROYALTIES_MAX {
            return Err(ContractError::RoyaltiesExceeded);
        }
        let hash = sha256_bytes(&attributes);
        let nft = NftData { name, royalties, hash, attributes, uris };
        let ghost nft_v = nft;
        self.nfts.push(nft);
        proof {
            crate::model::lemma_seq_map_values_push(old(self).nfts@, |n: NftData| n@, nft_v);
            assert(self.model() =~= (StateV {
                nfts: old(self).model().nfts.push(nft_v@),
                ..old(self).model()
            }));
        }
        let nft_nonce = self.nfts.len() as u64;
        Ok((nft_nonce, Transfer { to: caller, token: coll, nonce: nft_nonce, amount: NFT_AMOUNT }))
    }

    fn list_for_sale(
        &mut self,
        nft_nonce: u64,
        token: TokenId,
        payment_nonce: u64,
        amount: u64,
    ) -> (r: Result<(), ContractError>) {
        match &self.collection {
            Option::Some(_) => {},
            Option::None => {
                return Err(ContractError::NotIssued);
            },
        }
        let tag = PriceTag { token, nonce: payment_nonce, amount };
        let ghost tag_v = tag;
        self.prices.insert(nft_nonce, tag);
        proof {
            crate::model::lemma_map_map_values_insert(
                old(self).prices@,
                |p: PriceTag| p@,
                nft_nonce,
                tag_v,
            );
            assert(self.model() =~= (StateV {
                prices: old(self).model().prices.insert(nft_nonce, tag_v@),
                ..old(self).model()
            }));
        }
        Ok(())
    }

    fn buy_nft(
        &mut self,
        caller: u64,
        nft_nonce: u64,
        payment_token: TokenId,
        payment_nonce: u64,
        payment_amount: u64,
    ) -> (r: Result<(Transfer, Transfer), ContractError>) {
        let coll = match &self.collection {
            Option::Some(c) => c.clone(),
            Option::None => {
                return Err(ContractError::NotIssued);
            },
        };
        let tag_matches = match self.prices.get(&nft_nonce) {
            Option::None => {
                return Err(ContractError::NotListed);
            },
            Option::Some(tag) => token_eq(&payment_token, &tag.token) && payment_nonce
                == tag.nonce && payment_amount == tag.amount,
        };
        if !tag_matches {
            return Err(ContractError::PaymentMismatch);
        }
        self.prices.remove(&nft_nonce);
        proof {
            crate::model::lemma_map_map_values_remove(
                old(self).prices@,
                |p: PriceTag| p@,
                nft_nonce,
            );
            assert(self.model() =~= (StateV {
                prices: old(self).model().prices.remove(nft_nonce),
                ..old(self).model()
            }));
        }
        let owner = self.owner_addr;
        Ok(
            (
                Transfer { to: caller, token: coll, nonce: nft_nonce, amount: NFT_AMOUNT },
                Transfer {
                    to: owner,
                    token: payment_token,
                    nonce: payment_nonce,
                    amount: payment_amount,
                },
            ),
        )
    }

    fn get_nft_price(&self, nft_nonce: u64) -> (r: Option<&PriceTag>) {
        self.prices.get(&nft_nonce)
    }

    fn require_token_issued(&self) -> (r: Result<(), ContractError>) {
        match &self.collection {
            Option::Some(_) => Ok(()),
            Option::None => Err(ContractError::NotIssued),
        }
    }

    fn nft_token_id(&self) -> (r: &Option<TokenId>) {
        &self.collection
    }
}

} // verus!
