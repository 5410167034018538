use vstd::prelude::*;

pub mod actions;
pub mod digest;
pub mod functions;
pub mod laws;
pub mod model;
pub mod nft_module;
pub mod storage;
pub mod token;

use std::collections::HashMap;
use crate::actions::Transfer;
use crate::digest::sha256_of;
use crate::functions::Functions;
use crate::model::{initial_state, NftV, StateV};
use crate::nft_module::{NftModule, NFT_AMOUNT, ROYALTIES_MAX};
use crate::storage::{Contract, Storage};
use crate::token::{spec_valid_gating_token, TokenId};

verus! {

/// Error kinds shared by every endpoint of the contract.
#[derive(Clone, Copy, Debug, PartialEq, Eq, Structural)]
pub enum ContractError {
    WrongToken,
    NotIssued,
    RoyaltiesExceeded,
    NotListed,
    PaymentMismatch,
    Unauthorized,
    RateLimited,
    InvalidConfiguration,
}

/// The canonical serialized form of a number: its big-endian bytes with
/// leading zero bytes stripped; zero encodes as the empty sequence.
pub open spec fn spec_top_encoded(v: int) -> Seq<u8>
    decreases v,
{
    if v <= 0 {
        Seq::empty()
    } else {
        spec_top_encoded(v / 256).push((v % 256) as u8)
    }
}

/// Serializes a number into its canonical form.
pub fn top_encode_u64(v: u64) -> (r: Vec<u8>)
    ensures
        r@ == spec_top_encoded(v as int),
    decreases v,
{
    if v == 0 {
        Vec::new()
    } else {
        let mut r = top_encode_u64(v / 256);
        r.push((v % 256) as u8);
        r
    }
}

/// An example attribute payload: the creation time of the minted instance.
#[derive(Clone, Copy, Debug, PartialEq, Eq, Structural)]
pub struct ExampleAttributes {
    pub creation_timestamp: u64,
}

impl ExampleAttributes {
    /// The payload in its canonical serialized form, ready to be minted.
    pub fn top_encoded(&self) -> (r: Vec<u8>)
        ensures
            r@ == spec_top_encoded(self.creation_timestamp as int),
    {
        top_encode_u64(self.creation_timestamp)
    }
}

/// The whole contract surface: initialization and minting, over the issuance
/// workflow, the escrow engine and the interaction endpoints.
pub trait NftMinter: NftModule + Functions + Storage {
    /// Sets up the contract: stores the gating token and records the caller
    /// as the platform owner. A gating token that is neither the native
    /// currency nor a syntactically valid token identifier is rejected.
    fn init(token_name: TokenId, caller: u64) -> (r: Result<Self, ContractError>)
        ensures
            r is Ok <==> spec_valid_gating_token(token_name@),
            r is Err ==> r == Err::<Self, ContractError>(ContractError::InvalidConfiguration),
            r matches Ok(c) ==> c.model() == initial_state(token_name@, caller),
    ;

    /// Mints one unit of a new instance under the issued collection and hands
    /// it to the caller; the attribute payload is stored together with its
    /// digest. Returns the new instance's sub-unit index.
    fn create_nft(
        &mut self,
        caller: u64,
        name: Vec<u8>,
        royalties: u64,
        attributes: Vec<u8>,
        uris: Vec<Vec<u8>>,
    ) -> (r: Result<(u64, Transfer), ContractError>)
        requires
            old(self).model().nfts.len() < usize::MAX,
        ensures
            r is Ok <==> old(self).model().collection is Some && royalties <= ROYALTIES_MAX,
            old(self).model().collection is None ==> r == Err::<(u64, Transfer), ContractError>(
                ContractError::NotIssued,
            ),
            old(self).model().collection is Some && royalties > ROYALTIES_MAX ==> r == Err::<
                (u64, Transfer),
                ContractError,
            >(ContractError::RoyaltiesExceeded),
            r is Err ==> *final(self) == *old(self),
            r matches Ok((nonce, t)) ==> ({
                let m = old(self).model();
                &&& nonce == m.nfts.len() + 1
                &&& final(self).model() == (StateV {
                    nfts: m.nfts.push(
                        NftV {
                            name: name@,
                            royalties,
                            hash: sha256_of(attributes@),
                            attributes: attributes@,
                            uris: uris@.map_values(|u: Vec<u8>| u@),
                        },
                    ),
                    ..m
                })
                &&& t.to == caller
                &&& (m.collection matches Some(c) && t.token@ == c)
                &&& t.nonce == nonce
                &&& t.amount == NFT_AMOUNT
            }),
    ;
}

impl NftMinter for Contract {
    fn init(token_name: TokenId, caller: u64) -> (r: Result<Self, ContractError>) {
        if !token_name.is_valid_gating_token() {
            return Err(ContractError::InvalidConfiguration);
        }
        let ghost tn = token_name;
        let c = Contract {
            gating: token_name,
            owner_addr: caller,
            collection: None,
            pending: Vec::new(),
            nfts: Vec::new(),
            prices: HashMap::new(),
            likes: Vec::new(),
            dislikes: Vec::new(),
            reports: Vec::new(),
            tips: Vec::new(),
            subs: Vec::new(),
            unsubs: Vec::new(),
            curated: HashMap::new(),
            accounts: HashMap::new(),
            drips: HashMap::new(),
            deposits: HashMap::new(),
            faucet: 0,
        };
        proof {
            assert(c.model() =~= initial_state(tn@, caller));
        }
        Ok(c)
    }

    fn create_nft(
        &mut self,
        caller: u64,
        name: Vec<u8>,
        royalties: u64,
        attributes: Vec<u8>,
        uris: Vec<Vec<u8>>,
    ) -> (r: Result<(u64, Transfer), ContractError>) {
        self.create_nft_with_attributes(caller, name, royalties, attributes, uris)
    }
}

} // verus!
