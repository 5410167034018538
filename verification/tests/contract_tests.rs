use nft_minter::actions::{HostCall, Transfer};
use nft_minter::functions::Functions;
use nft_minter::nft_module::NftModule;
use nft_minter::storage::{Contract, Storage};
use nft_minter::token::TokenId;
use nft_minter::{ContractError, NftMinter};

const OWNER: u64 = 1;
const ALICE: u64 = 2;
const BOB: u64 = 3;

fn gating() -> TokenId {
    TokenId::Esdt(b"ATIP-abc123".to_vec())
}

fn collection() -> TokenId {
    TokenId::Esdt(b"COLL-def456".to_vec())
}

fn fresh_contract() -> Contract {
    Contract::init(gating(), OWNER).unwrap()
}

fn issued_contract() -> Contract {
    let mut c = fresh_contract();
    let call = c.issue_token(OWNER, TokenId::Egld, 50, b"Collectibles".to_vec(), b"COLL".to_vec());
    match call {
        HostCall::RegisterCollection { cost, name, ticker } => {
            assert_eq!(cost, 50);
            assert_eq!(name, b"Collectibles".to_vec());
            assert_eq!(ticker, b"COLL".to_vec());
        }
        _ => panic!("expected a registration call"),
    }
    let refund = c.issue_callback(Ok(collection()));
    assert!(refund.is_none());
    c
}

#[test]
fn init_accepts_native_and_valid_identifiers() {
    assert!(Contract::init(TokenId::Egld, OWNER).is_ok());
    assert!(Contract::init(gating(), OWNER).is_ok());
}

#[test]
fn init_rejects_malformed_gating_token() {
    let r = Contract::init(TokenId::Esdt(b"bad".to_vec()), OWNER);
    assert_eq!(r.err(), Some(ContractError::InvalidConfiguration));
    let r2 = Contract::init(TokenId::Esdt(b"atip-abc123".to_vec()), OWNER);
    assert_eq!(r2.err(), Some(ContractError::InvalidConfiguration));
}

#[test]
fn token_identifier_syntax() {
    let valid = |s: &[u8]| nft_minter::token::is_valid_esdt_identifier(&s.to_vec());
    assert!(valid(b"ATIP-abc123"));
    assert!(valid(b"ABC-012def"));
    assert!(valid(b"ABCDEFGH12-zz9999"));
    assert!(!valid(b"AB-abc123")); // ticker too short
    assert!(!valid(b"ABCDEFGHIJK-abc123")); // ticker too long
    assert!(!valid(b"ATIP-ABC123")); // random part must be lowercase
    assert!(!valid(b"atip-abc123")); // ticker must be uppercase
    assert!(!valid(b"ATIPXabc123")); // missing dash
    assert!(!valid(b"ATIP-abc12")); // too short overall
}

#[test]
fn top_encoding_examples() {
    assert_eq!(nft_minter::top_encode_u64(0), Vec::<u8>::new());
    assert_eq!(nft_minter::top_encode_u64(1), vec![1]);
    assert_eq!(nft_minter::top_encode_u64(256), vec![1, 0]);
    assert_eq!(nft_minter::top_encode_u64(1000), vec![3, 232]);
    assert_eq!(nft_minter::top_encode_u64(u64::MAX), vec![255; 8]);
    let attrs = nft_minter::ExampleAttributes { creation_timestamp: 1000 };
    assert_eq!(attrs.top_encoded(), vec![3, 232]);
}

#[test]
fn mint_before_issuance_fails() {
    let mut c = fresh_contract();
    let r = c.create_nft(ALICE, b"First".to_vec(), 500, b"abc".to_vec(), vec![]);
    assert_eq!(r.err(), Some(ContractError::NotIssued));
}

#[test]
fn royalties_boundary() {
    let mut c = issued_contract();
    let ok = c.create_nft(ALICE, b"Edge".to_vec(), 10000, b"abc".to_vec(), vec![]);
    assert!(ok.is_ok());
    let too_much = c.create_nft(ALICE, b"Over".to_vec(), 10001, b"abc".to_vec(), vec![]);
    assert_eq!(too_much.err(), Some(ContractError::RoyaltiesExceeded));
}

#[test]
fn mint_stores_digest_of_payload() {
    let mut c = issued_contract();
    let (nonce, handed) = c
        .create_nft(ALICE, b"First".to_vec(), 500, b"abc".to_vec(), vec![b"u".to_vec()])
        .unwrap();
    assert_eq!(nonce, 1);
    assert_eq!(handed.to, ALICE);
    assert_eq!(handed.token, collection());
    assert_eq!(handed.nonce, 1);
    assert_eq!(handed.amount, 1);
    let expected: Vec<u8> = vec![
        0xba, 0x78, 0x16, 0xbf, 0x8f, 0x01, 0xcf, 0xea, 0x41, 0x41, 0x40, 0xde, 0x5d, 0xae,
        0x22, 0x23, 0xb0, 0x03, 0x61, 0xa3, 0x96, 0x17, 0x7a, 0x9c, 0xb4, 0x10, 0xff, 0x61,
        0xf2, 0x00, 0x15, 0xad,
    ];
    assert_eq!(c.nfts[0].hash, expected);
    assert_eq!(c.nfts[0].attributes, b"abc".to_vec());
}

#[test]
fn mint_of_empty_payload_stores_empty_digest() {
    let mut c = issued_contract();
    let attrs = nft_minter::ExampleAttributes { creation_timestamp: 0 };
    let (nonce, _) = c
        .create_nft(ALICE, b"Zero".to_vec(), 0, attrs.top_encoded(), vec![])
        .unwrap();
    assert_eq!(nonce, 1);
    let expected: Vec<u8> = vec![
        0xe3, 0xb0, 0xc4, 0x42, 0x98, 0xfc, 0x1c, 0x14, 0x9a, 0xfb, 0xf4, 0xc8, 0x99, 0x6f,
        0xb9, 0x24, 0x27, 0xae, 0x41, 0xe4, 0x64, 0x9b, 0x93, 0x4c, 0xa4, 0x95, 0x99, 0x1b,
        0x78, 0x52, 0xb8, 0x55,
    ];
    assert_eq!(c.nfts[0].hash, expected);
}

#[test]
fn end_to_end_settlement() {
    let mut c = issued_contract();
    let (nonce, _) = c
        .create_nft(ALICE, b"Seven".to_vec(), 500, b"abc".to_vec(), vec![])
        .unwrap();
    assert!(c.get_nft_price(nonce).is_none());
    c.list_for_sale(nonce, gating(), 0, 100).unwrap();
    let tag = c.get_nft_price(nonce).unwrap();
    assert_eq!(tag.token, gating());
    assert_eq!(tag.nonce, 0);
    assert_eq!(tag.amount, 100);
    let (nft_out, pay_out) = c.buy_nft(BOB, nonce, gating(), 0, 100).unwrap();
    assert_eq!(
        nft_out,
        Transfer { to: BOB, token: collection(), nonce, amount: 1 }
    );
    assert_eq!(
        pay_out,
        Transfer { to: OWNER, token: gating(), nonce: 0, amount: 100 }
    );
    assert!(c.get_nft_price(nonce).is_none());
}

#[test]
fn second_buy_fails_not_listed() {
    let mut c = issued_contract();
    let (nonce, _) = c
        .create_nft(ALICE, b"Once".to_vec(), 0, b"abc".to_vec(), vec![])
        .unwrap();
    c.list_for_sale(nonce, gating(), 0, 100).unwrap();
    assert!(c.buy_nft(BOB, nonce, gating(), 0, 100).is_ok());
    let again = c.buy_nft(ALICE, nonce, gating(), 0, 100);
    assert_eq!(again.err(), Some(ContractError::NotListed));
}

#[test]
fn buy_rejects_payment_mismatch() {
    let mut c = issued_contract();
    let (nonce, _) = c
        .create_nft(ALICE, b"Picky".to_vec(), 0, b"abc".to_vec(), vec![])
        .unwrap();
    c.list_for_sale(nonce, gating(), 0, 100).unwrap();
    let wrong_amount = c.buy_nft(BOB, nonce, gating(), 0, 99);
    assert_eq!(wrong_amount.err(), Some(ContractError::PaymentMismatch));
    let wrong_nonce = c.buy_nft(BOB, nonce, gating(), 1, 100);
    assert_eq!(wrong_nonce.err(), Some(ContractError::PaymentMismatch));
    let wrong_token = c.buy_nft(BOB, nonce, TokenId::Egld, 0, 100);
    assert_eq!(wrong_token.err(), Some(ContractError::PaymentMismatch));
    // the tag is still live afterwards
    assert!(c.buy_nft(BOB, nonce, gating(), 0, 100).is_ok());
}

#[test]
fn buy_on_unlisted_instance() {
    let mut c = issued_contract();
    let r = c.buy_nft(BOB, 42, gating(), 0, 100);
    assert_eq!(r.err(), Some(ContractError::NotListed));
    let mut fresh = fresh_contract();
    let r2 = fresh.buy_nft(BOB, 42, gating(), 0, 100);
    assert_eq!(r2.err(), Some(ContractError::NotIssued));
}

#[test]
fn relisting_replaces_the_tag() {
    let mut c = issued_contract();
    let (nonce, _) = c
        .create_nft(ALICE, b"Twice".to_vec(), 0, b"abc".to_vec(), vec![])
        .unwrap();
    c.list_for_sale(nonce, gating(), 0, 100).unwrap();
    c.list_for_sale(nonce, gating(), 0, 250).unwrap();
    let tag = c.get_nft_price(nonce).unwrap();
    assert_eq!(tag.amount, 250);
}

#[test]
fn wrong_token_interactions_change_nothing() {
    let mut c = fresh_contract();
    let id = b"video-7".to_vec();
    let bad = TokenId::Esdt(b"OTHR-abc123".to_vec());
    assert_eq!(
        c.create_like(ALICE, id.clone(), BOB, bad.clone(), 5).err(),
        Some(ContractError::WrongToken)
    );
    assert_eq!(
        c.create_dislike(ALICE, id.clone(), BOB, bad.clone(), 5).err(),
        Some(ContractError::WrongToken)
    );
    assert_eq!(
        c.report_nft(ALICE, id.clone(), BOB, bad.clone(), 5).err(),
        Some(ContractError::WrongToken)
    );
    assert_eq!(
        c.send_tips(ALICE, id.clone(), BOB, bad, 5).err(),
        Some(ContractError::WrongToken)
    );
    assert!(c.submit_like(&id).is_empty());
    assert!(c.submit_dislike(&id).is_empty());
    assert!(c.submit_report(&id).is_empty());
    assert!(c.send_tip(ALICE, &id).is_empty());
}

#[test]
fn like_and_tip_pay_the_declared_owner() {
    let mut c = fresh_contract();
    let id = b"video-7".to_vec();
    let t = c.create_like(ALICE, id.clone(), BOB, gating(), 5).unwrap();
    assert_eq!(t, Transfer { to: BOB, token: gating(), nonce: 0, amount: 5 });
    let t2 = c.send_tips(ALICE, id.clone(), BOB, gating(), 9).unwrap();
    assert_eq!(t2, Transfer { to: BOB, token: gating(), nonce: 0, amount: 9 });
    assert_eq!(c.submit_like(&id), vec![ALICE]);
    assert_eq!(c.send_tip(ALICE, &id), vec![9]);
}

#[test]
fn dislike_and_report_pay_the_platform_pool() {
    let mut c = fresh_contract();
    let id = b"video-7".to_vec();
    let t = c.create_dislike(ALICE, id.clone(), BOB, gating(), 5).unwrap();
    assert_eq!(t, Transfer { to: OWNER, token: gating(), nonce: 0, amount: 5 });
    let t2 = c.report_nft(BOB, id.clone(), ALICE, gating(), 7).unwrap();
    assert_eq!(t2, Transfer { to: OWNER, token: gating(), nonce: 0, amount: 7 });
    assert_eq!(c.submit_dislike(&id), vec![ALICE]);
    assert_eq!(c.submit_report(&id), vec![BOB]);
}

#[test]
fn interaction_logs_grow_in_order() {
    let mut c = fresh_contract();
    let id = b"a".to_vec();
    let other = b"b".to_vec();
    c.create_like(ALICE, id.clone(), BOB, gating(), 1).unwrap();
    c.create_like(BOB, id.clone(), BOB, gating(), 1).unwrap();
    c.create_like(OWNER, other.clone(), BOB, gating(), 1).unwrap();
    assert_eq!(c.submit_like(&id), vec![ALICE, BOB]);
    assert_eq!(c.submit_like(&other), vec![OWNER]);
    c.send_tips(ALICE, id.clone(), BOB, gating(), 5).unwrap();
    c.send_tips(ALICE, id.clone(), BOB, gating(), 7).unwrap();
    c.send_tips(BOB, id.clone(), BOB, gating(), 11).unwrap();
    assert_eq!(c.send_tip(ALICE, &id), vec![5, 7]);
    assert_eq!(c.send_tip(BOB, &id), vec![11]);
}

#[test]
fn subscription_logs_are_independent_event_logs() {
    let mut c = fresh_contract();
    c.subscribe_channel(BOB, b"alice".to_vec());
    c.subscribe_channel(BOB, b"carol".to_vec());
    c.unsubscribe_channel(BOB, b"alice".to_vec());
    // unsubscribing appends to its own log; the subscription log keeps both
    assert_eq!(c.subscribe_list(BOB), vec![b"alice".to_vec(), b"carol".to_vec()]);
    assert_eq!(c.unsubscribe_list(BOB), vec![b"alice".to_vec()]);
    assert!(c.subscribe_list(ALICE).is_empty());
}

#[test]
fn faucet_window_blocks_early_second_drip() {
    let mut c = fresh_contract();
    c.set_faucet(OWNER, 25).unwrap();
    let t1: u64 = 100000;
    let t = c.faucet_drip(ALICE, t1).unwrap();
    assert_eq!(t, Transfer { to: ALICE, token: gating(), nonce: 0, amount: 25 });
    let early = c.faucet_drip(ALICE, t1 + 86399);
    assert_eq!(early.err(), Some(ContractError::RateLimited));
    let late = c.faucet_drip(ALICE, t1 + 86400);
    assert!(late.is_ok());
    assert_eq!(c.last_drip(ALICE), t1 + 86400);
}

#[test]
fn faucet_before_first_window_elapses() {
    let mut c = fresh_contract();
    c.set_faucet(OWNER, 25).unwrap();
    let r = c.faucet_drip(ALICE, 50000);
    assert_eq!(r.err(), Some(ContractError::RateLimited));
    // another caller's clock is independent
    assert!(c.faucet_drip(BOB, 86400).is_ok());
}

#[test]
fn owner_only_endpoints_reject_others() {
    let mut c = fresh_contract();
    assert_eq!(c.set_faucet(ALICE, 25).err(), Some(ContractError::Unauthorized));
    assert_eq!(
        c.deposit(ALICE, gating(), 10).err(),
        Some(ContractError::Unauthorized)
    );
}

#[test]
fn deposit_accumulates_gating_token_only() {
    let mut c = fresh_contract();
    assert_eq!(
        c.deposit(OWNER, TokenId::Egld, 10).err(),
        Some(ContractError::WrongToken)
    );
    c.deposit(OWNER, gating(), 10).unwrap();
    c.deposit(OWNER, gating(), 20).unwrap();
    assert_eq!(c.deposit_tokens(OWNER), 30);
    assert_eq!(c.deposit_tokens(ALICE), 0);
}

#[test]
fn account_blob_is_stored_per_address() {
    let mut c = fresh_contract();
    c.create_account(ALICE, b"profile".to_vec());
    assert_eq!(c.new_account(ALICE), b"profile".to_vec());
    assert!(c.new_account(BOB).is_empty());
    c.create_account(ALICE, b"replaced".to_vec());
    assert_eq!(c.new_account(ALICE), b"replaced".to_vec());
}

#[test]
fn failed_issuance_refunds_native_collateral() {
    let mut c = fresh_contract();
    c.issue_token(ALICE, TokenId::Egld, 50, b"Collectibles".to_vec(), b"COLL".to_vec());
    let refund = c.issue_callback(Err(()));
    assert_eq!(
        refund,
        Some(Transfer { to: ALICE, token: TokenId::Egld, nonce: 0, amount: 50 })
    );
    assert!(c.nft_token_id().is_none());
    // the contract can retry issuance afterwards
    c.issue_token(ALICE, TokenId::Egld, 50, b"Collectibles".to_vec(), b"COLL".to_vec());
    assert!(c.issue_callback(Ok(collection())).is_none());
    assert_eq!(c.nft_token_id().as_ref(), Some(&collection()));
}

#[test]
fn failed_issuance_keeps_non_native_collateral() {
    let mut c = fresh_contract();
    c.issue_token(ALICE, gating(), 50, b"Collectibles".to_vec(), b"COLL".to_vec());
    assert!(c.issue_callback(Err(())).is_none());
    let mut c2 = fresh_contract();
    c2.issue_token(ALICE, TokenId::Egld, 0, b"Collectibles".to_vec(), b"COLL".to_vec());
    assert!(c2.issue_callback(Err(())).is_none());
}

#[test]
fn reissuing_while_pending_keeps_both_registrations() {
    let mut c = fresh_contract();
    c.issue_token(ALICE, TokenId::Egld, 50, b"One".to_vec(), b"ONE".to_vec());
    c.issue_token(BOB, TokenId::Egld, 60, b"Two".to_vec(), b"TWO".to_vec());
    // callbacks resolve in order: the first commits, the second refunds Bob
    assert!(c.issue_callback(Ok(collection())).is_none());
    let refund = c.issue_callback(Err(()));
    assert_eq!(
        refund,
        Some(Transfer { to: BOB, token: TokenId::Egld, nonce: 0, amount: 60 })
    );
    assert_eq!(c.nft_token_id().as_ref(), Some(&collection()));
}

#[test]
fn local_roles_record_the_curated_collection() {
    let mut c = fresh_contract();
    let call = c.set_local_roles(ALICE, collection());
    assert_eq!(call, HostCall::SetMintBurnRoles { collection: collection() });
    assert_eq!(c.set_collection(ALICE), vec![collection()]);
    c.set_local_roles(ALICE, gating());
    assert_eq!(c.set_collection(ALICE), vec![collection(), gating()]);
    assert!(c.set_collection(BOB).is_empty());
}

#[test]
fn transfer_owner_and_burn_are_host_calls() {
    let c = fresh_contract();
    let call = c.transfer_owner(ALICE, collection());
    assert_eq!(
        call,
        HostCall::TransferCollectionOwnership { collection: collection(), new_owner: ALICE }
    );
    let burn = c.local_burn(gating(), 9, 4);
    assert_eq!(burn, HostCall::Burn { token: gating(), nonce: 4, amount: 9 });
}

#[test]
fn require_token_issued_tracks_the_workflow() {
    let mut c = fresh_contract();
    assert_eq!(c.require_token_issued().err(), Some(ContractError::NotIssued));
    c.issue_token(OWNER, TokenId::Egld, 0, b"One".to_vec(), b"ONE".to_vec());
    // still pending: nothing committed yet
    assert_eq!(c.require_token_issued().err(), Some(ContractError::NotIssued));
    c.issue_callback(Ok(collection()));
    assert!(c.require_token_issued().is_ok());
}

#[test]
fn stored_views_reflect_configuration() {
    let c = fresh_contract();
    assert_eq!(c.cf_token_name(), &gating());
    assert_eq!(c.contract_owner(), OWNER);
    assert_eq!(c.faucet_amount(), 0);
    assert_eq!(c.last_drip(ALICE), 0);
}
