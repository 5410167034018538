use vstd::prelude::*;
use crate::actions::{HostCall, Transfer};
use crate::model::{drip_allowed, stored_u64, LikeRec, StateV, SubRec, TipRec};
use crate::storage::{Contract, LikeEntry, Storage, SubEntry, TipEntry};
use crate::token::{token_eq, TokenId};
use crate::ContractError;

verus! {

/// The interaction endpoints: account registration, paid interactions with
/// their routing policy, the subscription event logs, the faucet and the
/// owner-only deposit accumulator.
pub trait Functions: Storage {
    /// Registers (or replaces) the account blob of the caller.
    fn create_account(&mut self, caller: u64, account: Vec<u8>)
        ensures
            final(self).model() == (StateV {
                accounts: old(self).model().accounts.insert(caller, account@),
                ..old(self).model()
            }),
    ;

    /// Records a like and forwards the full payment to the declared content
    /// owner. Any payment token other than the gating token is rejected
    /// before any state changes.
    fn create_like(
        &mut self,
        caller: u64,
        identifier: Vec<u8>,
        owner: u64,
        token: TokenId,
        payment: u64,
    ) -> (r: Result<Transfer, ContractError>)
        ensures
            r is Ok <==> token@ == old(self).model().gating,
            r is Err ==> r == Err::<Transfer, ContractError>(ContractError::WrongToken)
                && *final(self) == *old(self),
            r matches Ok(t) ==> final(self).model() == (StateV {
                likes: old(self).model().likes.push(
                    LikeRec { content: identifier@, actor: caller },
                ),
                ..old(self).model()
            }) && t.to == owner && t.token@ == token@ && t.nonce == 0 && t.amount == payment,
    ;

    /// Records a dislike and forwards the full payment to the platform pool
    /// address, ignoring the supplied owner address for routing.
    fn create_dislike(
        &mut self,
        caller: u64,
        identifier: Vec<u8>,
        owner: u64,
        token: TokenId,
        payment: u64,
    ) -> (r: Result<Transfer, ContractError>)
        ensures
            r is Ok <==> token@ == old(self).model().gating,
            r is Err ==> r == Err::<Transfer, ContractError>(ContractError::WrongToken)
                && *final(self) == *old(self),
            r matches Ok(t) ==> final(self).model() == (StateV {
                dislikes: old(self).model().dislikes.push(
                    LikeRec { content: identifier@, actor: caller },
                ),
                ..old(self).model()
            }) && t.to == old(self).model().owner && t.token@ == token@ && t.nonce == 0
                && t.amount == payment,
    ;

    /// Records a report and forwards the full payment to the platform pool
    /// address, ignoring the supplied owner address for routing.
    fn report_nft(
        &mut self,
        caller: u64,
        identifier: Vec<u8>,
        owner: u64,
        token: TokenId,
        payment: u64,
    ) -> (r: Result<Transfer, ContractError>)
        ensures
            r is Ok <==> token@ == old(self).model().gating,
            r is Err ==> r == Err::<Transfer, ContractError>(ContractError::WrongToken)
                && *final(self) == *old(self),
            r matches Ok(t) ==> final(self).model() == (StateV {
                reports: old(self).model().reports.push(
                    LikeRec { content: identifier@, actor: caller },
                ),
                ..old(self).model()
            }) && t.to == old(self).model().owner && t.token@ == token@ && t.nonce == 0
                && t.amount == payment,
    ;

    /// Records the tipped amount under the caller and content identifier and
    /// forwards the full payment to the declared content owner.
    fn send_tips(
        &mut self,
        caller: u64,
        identifier: Vec<u8>,
        owner: u64,
        token: TokenId,
        payment: u64,
    ) -> (r: Result<Transfer, ContractError>)
        ensures
            r is Ok <==> token@ == old(self).model().gating,
            r is Err ==> r == Err::<Transfer, ContractError>(ContractError::WrongToken)
                && *final(self) == *old(self),
            r matches Ok(t) ==> final(self).model() == (StateV {
                tips: old(self).model().tips.push(
                    TipRec { actor: caller, content: identifier@, amount: payment },
                ),
                ..old(self).model()
            }) && t.to == owner && t.token@ == token@ && t.nonce == 0 && t.amount == payment,
    ;

    /// Appends one subscription event to the channel's log.
    fn subscribe_channel(&mut self, channel: u64, caller: Vec<u8>)
        ensures
            final(self).model() == (StateV {
                subs: old(self).model().subs.push(
                    SubRec { channel, subscriber: caller@ },
                ),
                ..old(self).model()
            }),
    ;

    /// Appends one unsubscription event to the channel's log; the
    /// subscription log is left as it is.
    fn unsubscribe_channel(&mut self, channel: u64, caller: Vec<u8>)
        ensures
            final(self).model() == (StateV {
                unsubs: old(self).model().unsubs.push(
                    SubRec { channel, subscriber: caller@ },
                ),
                ..old(self).model()
            }),
    ;

    /// Asks the host to burn the attached payment; no ledger state changes.
    fn local_burn(&self, token_identifier: TokenId, amount: u64, nonce: u64) -> (r: HostCall)
        ensures
            r matches HostCall::Burn { token, nonce: n, amount: a } && token@
                == token_identifier@ && n == nonce && a == amount,
    ;

    /// Pays the configured faucet amount in the gating token to the caller,
    /// at most once per window of 86400 time units measured from the
    /// caller's last drip.
    fn faucet_drip(&mut self, caller: u64, now: u64) -> (r: Result<Transfer, ContractError>)
        ensures
            r is Ok <==> drip_allowed(old(self).model(), caller, now),
            r is Err ==> r == Err::<Transfer, ContractError>(ContractError::RateLimited)
                && *final(self) == *old(self),
            r matches Ok(t) ==> final(self).model() == (StateV {
                drips: old(self).model().drips.insert(caller, now),
                ..old(self).model()
            }) && t.to == caller && t.token@ == old(self).model().gating && t.nonce == 0
                && t.amount == old(self).model().faucet,
    ;

    /// Adds the attached amount of the gating token to the owner's deposit
    /// pool. Only the owner may deposit, and only in the gating token.
    fn deposit(&mut self, caller: u64, token_identifier: TokenId, amount: u64) -> (r: Result<
        (),
        ContractError,
    >)
        requires
            stored_u64(old(self).model().deposits, caller) + amount <= u64::MAX,
        ensures
            r is Ok <==> caller == old(self).model().owner
                && token_identifier@ == old(self).model().gating,
            caller != old(self).model().owner ==> r == Err::<(), ContractError>(
                ContractError::Unauthorized,
            ),
            caller == old(self).model().owner && token_identifier@ != old(self).model().gating
                ==> r == Err::<(), ContractError>(ContractError::WrongToken),
            r is Err ==> *final(self) == *old(self),
            r is Ok ==> final(self).model() == (StateV {
                deposits: old(self).model().deposits.insert(
                    caller,
                    (stored_u64(old(self).model().deposits, caller) + amount) as u64,
                ),
                ..old(self).model()
            }),
    ;

    /// Sets the amount one faucet drip pays. Only the owner may set it.
    fn set_faucet(&mut self, caller: u64, amount: u64) -> (r: Result<(), ContractError>)
        ensures
            r is Ok <==> caller == old(self).model().owner,
            r is Err ==> r == Err::<(), ContractError>(ContractError::Unauthorized) && *final(self) == *old(self),
            r is Ok ==> final(self).model() == (StateV {
                faucet: amount,
                ..old(self).model()
            }),
    ;
}

impl Functions for Contract {
    fn create_account(&mut self, caller: u64, account: Vec<u8>) {
        let ghost acc_vec = account;
        self.accounts.insert(caller, account);
        proof {
            crate::model::lemma_map_map_values_insert(
                old(self).accounts@,
                |v: Vec<u8>| v@,
                caller,
                acc_vec,
            );
            assert(self.model() =~= (StateV {
                accounts: old(self).model().accounts.insert(caller, acc_vec@),
                ..old(self).model()
            }));
        }
    }

    fn create_like(
        &mut self,
        caller: u64,
        identifier: Vec<u8>,
        owner: u64,
        token: TokenId,
        payment: u64,
    ) -> (r: Result<Transfer, ContractError>) {
        if !token_eq(&token, &self.gating) {
            return Err(ContractError::WrongToken);
        }
        let entry = LikeEntry { content: identifier, actor: caller };
        let ghost entry_v = entry;
        self.likes.push(entry);
        proof {
            crate::model::lemma_seq_map_values_push(
                old(self).likes@,
                |e: LikeEntry| e@,
                entry_v,
            );
            assert(self.model() =~= (StateV {
                likes: old(self).model().likes.push(entry_v@),
                ..old(self).model()
            }));
        }
        Ok(Transfer { to: owner, token, nonce: 0, amount: payment })
    }

    fn create_dislike(
        &mut self,
        caller: u64,
        identifier: Vec<u8>,
        owner: u64,
        token: TokenId,
        payment: u64,
    ) -> (r: Result<Transfer, ContractError>) {
        if !token_eq(&token, &self.gating) {
            return Err(ContractError::WrongToken);
        }
        let _hold = owner;
        let pool = self.owner_addr;
        let entry = LikeEntry { content: identifier, actor: caller };
        let ghost entry_v = entry;
        self.dislikes.push(entry);
        proof {
            crate::model::lemma_seq_map_values_push(
                old(self).dislikes@,
                |e: LikeEntry| e@,
                entry_v,
            );
            assert(self.model() =~= (StateV {
                dislikes: old(self).model().dislikes.push(entry_v@),
                ..old(self).model()
            }));
        }
        Ok(Transfer { to: pool, token, nonce: 0, amount: payment })
    }

    fn report_nft(
        &mut self,
        caller: u64,
        identifier: Vec<u8>,
        owner: u64,
        token: TokenId,
        payment: u64,
    ) -> (r: Result<Transfer, ContractError>) {
        if !token_eq(&token, &self.gating) {
            return Err(ContractError::WrongToken);
        }
        let _hold = owner;
        let pool = self.owner_addr;
        let entry = LikeEntry { content: identifier, actor: caller };
        let ghost entry_v = entry;
        self.reports.push(entry);
        proof {
            crate::model::lemma_seq_map_values_push(
                old(self).reports@,
                |e: LikeEntry| e@,
                entry_v,
            );
            assert(self.model() =~= (StateV {
                reports: old(self).model().reports.push(entry_v@),
                ..old(self).model()
            }));
        }
        Ok(Transfer { to: pool, token, nonce: 0, amount: payment })
    }

    fn send_tips(
        &mut self,
        caller: u64,
        identifier: Vec<u8>,
        owner: u64,
        token: TokenId,
        payment: u64,
    ) -> (r: Result<Transfer, ContractError>) {
        if !token_eq(&token, &self.gating) {
            return Err(ContractError::WrongToken);
        }
        let entry = TipEntry { actor: caller, content: identifier, amount: payment };
        let ghost entry_v = entry;
        self.tips.push(entry);
        proof {
            crate::model::lemma_seq_map_values_push(
                old(self).tips@,
                |e: TipEntry| e@,
                entry_v,
            );
            assert(self.model() =~= (StateV {
                tips: old(self).model().tips.push(entry_v@),
                ..old(self).model()
            }));
        }
        Ok(Transfer { to: owner, token, nonce: 0, amount: payment })
    }

    fn subscribe_channel(&mut self, channel: u64, caller: Vec<u8>) {
        let entry = SubEntry { channel, subscriber: caller };
        let ghost entry_v = entry;
        self.subs.push(entry);
        proof {
            crate::model::lemma_seq_map_values_push(
                old(self).subs@,
                |e: SubEntry| e@,
                entry_v,
            );
            assert(self.model() =~= (StateV {
                subs: old(self).model().subs.push(entry_v@),
                ..old(self).model()
            }));
        }
    }

    fn unsubscribe_channel(&mut self, channel: u64, caller: Vec<u8>) {
        let entry = SubEntry { channel, subscriber: caller };
        let ghost entry_v = entry;
        self.unsubs.push(entry);
        proof {
            crate::model::lemma_seq_map_values_push(
                old(self).unsubs@,
                |e: SubEntry| e@,
                entry_v,
            );
            assert(self.model() =~= (StateV {
                unsubs: old(self).model().unsubs.push(entry_v@),
                ..old(self).model()
            }));
        }
    }

    fn local_burn(&self, token_identifier: TokenId, amount: u64, nonce: u64) -> (r: HostCall) {
        HostCall::Burn { token: token_identifier, nonce, amount }
    }

    fn faucet_drip(&mut self, caller: u64, now: u64) -> (r: Result<Transfer, ContractError>) {
        let last = match self.drips.get(&caller) {
            Option::Some(v) => *v,
            Option::None => 0,
        };
        if !(last <= now && now - last >= 86400) {
            return Err(ContractError::RateLimited);
        }
        let token = self.gating.clone();
        let amount = self.faucet;
        self.drips.insert(caller, now);
        proof {
            assert(self.model() =~= (StateV {
                drips: old(self).model().drips.insert(caller, now),
                ..old(self).model()
            }));
        }
        Ok(Transfer { to: caller, token, nonce: 0, amount })
    }

    fn deposit(&mut self, caller: u64, token_identifier: TokenId, amount: u64) -> (r: Result<
        (),
        ContractError,
    >) {
        if caller != self.owner_addr {
            return Err(ContractError::Unauthorized);
        }
        if !token_eq(&token_identifier, &self.gating) {
            return Err(ContractError::WrongToken);
        }
        let pool_size = match self.deposits.get(&caller) {
            Option::Some(v) => *v,
            Option::None => 0,
        };
        let new_funds = pool_size + amount;
        self.deposits.insert(caller, new_funds);
        proof {
            assert(self.model() =~= (StateV {
                deposits: old(self).model().deposits.insert(caller, new_funds),
                ..old(self).model()
            }));
        }
        Ok(())
    }

    fn set_faucet(&mut self, caller: u64, amount: u64) -> (r: Result<(), ContractError>) {
        if caller != self.owner_addr {
            return Err(ContractError::Unauthorized);
        }
        self.faucet = amount;
        proof {
            assert(self.model() =~= (StateV { faucet: amount, ..old(self).model() }));
        }
        Ok(())
    }
}

} // verus!
