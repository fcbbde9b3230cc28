use dex_settlement::account::Account;
use dex_settlement::error::DexError;
use dex_settlement::error::Fault;
use dex_settlement::key::Key;
use dex_settlement::order_id::pack;
use dex_settlement::order_id::Side;
use dex_settlement::processor::cancel_order::check_accounts;
use dex_settlement::processor::cancel_order::fault;
use dex_settlement::processor::cancel_order::process;
use dex_settlement::processor::cancel_order::settle;
use dex_settlement::processor::cancel_order::try_settle;
use dex_settlement::processor::cancel_order::Accounts;
use dex_settlement::processor::cancel_order::Params;
use dex_settlement::processor::Dispatch;
use dex_settlement::processor::Processor;
use dex_settlement::register::OrderSummary;
use dex_settlement::register::ResultRegister;
use dex_settlement::signer::MarketSigner;
use dex_settlement::state::market::DexState;
use dex_settlement::state::user_account::UserAccount;
use dex_settlement::state::user_account::UserAccountHeader;
use dex_settlement::state::AccountTag;
use dex_settlement::utils::check_account_key;
use dex_settlement::utils::check_signer;
use solana_program::pubkey::Pubkey;

const PROGRAM: [u8; 32] = [9; 32];
const ENGINE: [u8; 32] = [10; 32];
const MARKET: [u8; 32] = [1; 32];
const BOOK: [u8; 32] = [3; 32];
const QUEUE: [u8; 32] = [4; 32];
const BIDS: [u8; 32] = [5; 32];
const ASKS: [u8; 32] = [6; 32];
const USER: [u8; 32] = [7; 32];
const OWNER: [u8; 32] = [8; 32];

/// The market's signing address and the nonce that derives it.
fn market_authority() -> ([u8; 32], u8) {
    let (address, nonce) = Pubkey::find_program_address(&[&MARKET], &Pubkey::new_from_array(PROGRAM));
    (address.to_bytes(), nonce)
}

/// A nonce from which the market derives no address.
fn barren_nonce() -> u8 {
    let program = Pubkey::new_from_array(PROGRAM);
    for nonce in 0..=255u8 {
        if Pubkey::create_program_address(&[&MARKET, &[nonce]], &program).is_err() {
            return nonce;
        }
    }
    panic!("every nonce derives an address");
}

fn market_record(tag: AccountTag, nonce: u8) -> Vec<u8> {
    DexState {
        tag,
        signer_nonce: nonce,
        base_mint: Key::new([0x11; 32]),
        quote_mint: Key::new([0x22; 32]),
        orderbook: Key::new(BOOK),
        aaob_program: Key::new(ENGINE),
    }
    .serialize()
}

fn user_header(base: (u64, u64), quote: (u64, u64)) -> UserAccountHeader {
    UserAccountHeader {
        market: Key::new(MARKET),
        owner: Key::new(OWNER),
        base_token_free: base.0,
        base_token_locked: base.1,
        quote_token_free: quote.0,
        quote_token_locked: quote.1,
    }
}

fn account(key: [u8; 32], is_signer: bool, data: Vec<u8>) -> Account {
    Account::new(Key::new(key), is_signer, data)
}

/// The nine accounts of a cancellation around the given user record.
fn account_set(user_data: Vec<u8>) -> Vec<Account> {
    let (signer, nonce) = market_authority();
    vec![
        account(ENGINE, false, vec![]),
        account(MARKET, false, market_record(AccountTag::DexState, nonce)),
        account(signer, false, vec![]),
        account(BOOK, false, vec![]),
        account(QUEUE, false, vec![0; 64]),
        account(BIDS, false, vec![]),
        account(ASKS, false, vec![]),
        account(USER, false, user_data),
        account(OWNER, true, vec![]),
    ]
}

fn bid_x() -> u128 {
    pack(Side::Bid, (250u128 << 64) | 17)
}

fn ask_y() -> u128 {
    pack(Side::Ask, (260u128 << 64) | 18)
}

fn account_with_one_bid() -> UserAccount {
    UserAccount::new(user_header((0, 0), (0, 500)), vec![Some(bid_x())])
}

fn process_err(accounts: &[Account], order_index: u64) -> DexError {
    process(&Key::new(PROGRAM), accounts, Params { order_index }).unwrap_err()
}

#[test]
fn resting_bid_is_unlocked_in_full() {
    let accounts = account_set(account_with_one_bid().write());
    let pending = process(&Key::new(PROGRAM), &accounts, Params { order_index: 0 }).unwrap();
    assert_eq!(pending.request.order_id, bid_x());
    assert_eq!(pending.order_index, 0);

    // the engine cancels the order and posts its summary
    let mut register = ResultRegister::new();
    register.post(OrderSummary { side: Side::Bid, total_asset_qty: 2, total_quote_qty: 500 });

    let mut user = pending.user_account;
    assert_eq!(try_settle(&mut user, 0, Ok(()), &mut register), Ok(Ok(())));
    let h = user.header();
    assert_eq!(h.quote_token_free, 500);
    assert_eq!(h.quote_token_locked, 0);
    assert_eq!(h.base_token_free, 0);
    assert_eq!(h.base_token_locked, 0);
    assert_eq!(user.slot(0), None);
    assert_eq!(user.capacity(), 1);
    assert_eq!(register.peek(), None);

    let expected = UserAccount::new(user_header((0, 0), (500, 0)), vec![None]);
    assert_eq!(user.write(), expected.write());
}

#[test]
fn engine_failure_leaves_the_account_as_it_was() {
    let before = account_with_one_bid().write();
    let accounts = account_set(before.clone());
    let pending = process(&Key::new(PROGRAM), &accounts, Params { order_index: 0 }).unwrap();
    assert_eq!(pending.market_data, accounts[1].data);

    // the engine finds no such order and leaves the register untouched
    let order_not_found: u64 = 6;
    let mut register = ResultRegister::new();
    let mut user = pending.user_account;
    assert_eq!(fault(&user, 0, &Err(order_not_found), &register), None);
    assert_eq!(
        try_settle(&mut user, 0, Err(order_not_found), &mut register),
        Ok(Err(DexError::Engine(order_not_found)))
    );
    assert_eq!(user.write(), before);
    assert_eq!(register.peek(), None);
}

#[test]
fn index_beyond_the_slab_is_rejected_before_the_engine_is_asked() {
    let user = UserAccount::new(
        user_header((0, 0), (0, 500)),
        vec![Some(bid_x()), None, None, None],
    );
    let accounts = account_set(user.write());
    assert_eq!(process_err(&accounts, 7), DexError::InvalidArgument);
    assert_eq!(process_err(&accounts, 4), DexError::InvalidArgument);
    assert!(process(&Key::new(PROGRAM), &accounts, Params { order_index: 0 }).is_ok());
}

#[test]
fn empty_slot_is_rejected_with_no_state_change() {
    let user = UserAccount::new(user_header((1, 2), (3, 4)), vec![None, Some(ask_y())]);
    let before = user.write();
    let accounts = account_set(before.clone());
    assert_eq!(process_err(&accounts, 0), DexError::InvalidArgument);

    // settling such a slot all the same is rejected too, and changes nothing
    let mut user = UserAccount::parse(&before).unwrap();
    let summary = OrderSummary { side: Side::Ask, total_asset_qty: 1, total_quote_qty: 1 };
    let mut register = ResultRegister::new();
    register.post(summary);
    assert_eq!(try_settle(&mut user, 0, Ok(()), &mut register), Ok(Err(DexError::InvalidArgument)));
    assert_eq!(user.write(), before);
    assert_eq!(register.peek(), Some(summary));
}

#[test]
fn ask_touches_base_balances_only() {
    let user = UserAccount::new(user_header((10, 40), (7, 9)), vec![None, Some(ask_y())]);
    let accounts = account_set(user.write());
    let pending = process(&Key::new(PROGRAM), &accounts, Params { order_index: 1 }).unwrap();
    assert_eq!(pending.request.order_id, ask_y());
    let mut register = ResultRegister::new();
    register.post(OrderSummary { side: Side::Ask, total_asset_qty: 25, total_quote_qty: 6000 });
    let mut user = pending.user_account;
    assert_eq!(fault(&user, 1, &Ok(()), &register), None);
    assert_eq!(settle(&mut user, 1, Ok(()), &mut register), Ok(()));
    let h = user.header();
    assert_eq!((h.base_token_free, h.base_token_locked), (35, 15));
    assert_eq!((h.quote_token_free, h.quote_token_locked), (7, 9));
    assert_eq!(user.slot(1), None);
}

#[test]
fn bid_touches_quote_balances_only() {
    let user = UserAccount::new(user_header((10, 40), (7, 9)), vec![Some(bid_x())]);
    let mut user = UserAccount::parse(&user.write()).unwrap();
    let mut register = ResultRegister::new();
    // the summary's own side tag does not count: the identifier's flag does
    register.post(OrderSummary { side: Side::Ask, total_asset_qty: 25, total_quote_qty: 4 });
    assert_eq!(try_settle(&mut user, 0, Ok(()), &mut register), Ok(Ok(())));
    let h = user.header();
    assert_eq!((h.base_token_free, h.base_token_locked), (10, 40));
    assert_eq!((h.quote_token_free, h.quote_token_locked), (11, 5));
}

#[test]
fn conservation_on_a_partial_unwind() {
    let mut user = UserAccount::new(user_header((0, 0), (123, 1000)), vec![Some(bid_x())]);
    let mut register = ResultRegister::new();
    register.post(OrderSummary { side: Side::Bid, total_asset_qty: 0, total_quote_qty: 377 });
    let before = user.header();
    assert_eq!(try_settle(&mut user, 0, Ok(()), &mut register), Ok(Ok(())));
    let after = user.header();
    assert_eq!(after.quote_token_free - before.quote_token_free, 377);
    assert_eq!(before.quote_token_locked - after.quote_token_locked, 377);
    assert_eq!(
        after.quote_token_free + after.quote_token_locked,
        before.quote_token_free + before.quote_token_locked
    );
}

#[test]
fn unwinding_more_than_is_locked_is_a_fault() {
    let mut user = UserAccount::new(user_header((0, 0), (0, 499)), vec![Some(bid_x())]);
    let before = user.write();
    let summary = OrderSummary { side: Side::Bid, total_asset_qty: 0, total_quote_qty: 500 };
    let mut register = ResultRegister::new();
    register.post(summary);
    assert_eq!(fault(&user, 0, &Ok(()), &register), Some(Fault::LockedUnderflow));
    assert_eq!(try_settle(&mut user, 0, Ok(()), &mut register), Err(Fault::LockedUnderflow));
    assert_eq!(user.write(), before);
    assert_eq!(register.peek(), Some(summary));
}

#[test]
fn overflowing_the_free_balance_is_a_fault() {
    let mut user = UserAccount::new(user_header((u64::MAX - 4, 10), (0, 0)), vec![Some(ask_y())]);
    let before = user.write();
    let mut register = ResultRegister::new();
    register.post(OrderSummary { side: Side::Ask, total_asset_qty: 5, total_quote_qty: 0 });
    assert_eq!(fault(&user, 0, &Ok(()), &register), Some(Fault::FreeOverflow));
    assert_eq!(try_settle(&mut user, 0, Ok(()), &mut register), Err(Fault::FreeOverflow));
    assert_eq!(user.write(), before);

    // four more still fit
    let mut register = ResultRegister::new();
    register.post(OrderSummary { side: Side::Ask, total_asset_qty: 4, total_quote_qty: 0 });
    assert_eq!(try_settle(&mut user, 0, Ok(()), &mut register), Ok(Ok(())));
    assert_eq!(user.header().base_token_free, u64::MAX);
    assert_eq!(user.header().base_token_locked, 6);
}

#[test]
fn success_with_an_empty_register_is_a_fault() {
    let mut user = account_with_one_bid();
    let before = user.write();
    let mut register = ResultRegister::new();
    assert_eq!(fault(&user, 0, &Ok(()), &register), Some(Fault::RegisterEmpty));
    assert_eq!(try_settle(&mut user, 0, Ok(()), &mut register), Err(Fault::RegisterEmpty));
    assert_eq!(user.write(), before);
}

#[test]
fn engine_failure_is_handed_on_verbatim() {
    for code in [0u64, 1, 0x1_0000_0000, u64::MAX] {
        let mut user = account_with_one_bid();
        let mut register = ResultRegister::new();
        assert_eq!(settle(&mut user, 0, Err(code), &mut register), Err(DexError::Engine(code)));
    }
}

#[test]
fn foreign_owner_is_rejected_whatever_the_order() {
    let user = UserAccount::new(
        UserAccountHeader { owner: Key::new([0xee; 32]), ..user_header((0, 0), (0, 500)) },
        vec![Some(bid_x()), None],
    );
    let accounts = account_set(user.write());
    assert_eq!(process_err(&accounts, 0), DexError::InvalidOwner);
    assert_eq!(process_err(&accounts, 1), DexError::InvalidOwner);
    assert_eq!(process_err(&accounts, 99), DexError::InvalidOwner);
}

#[test]
fn account_of_another_market_is_rejected() {
    let user = UserAccount::new(
        UserAccountHeader { market: Key::new([0xee; 32]), ..user_header((0, 0), (0, 500)) },
        vec![Some(bid_x())],
    );
    let accounts = account_set(user.write());
    assert_eq!(process_err(&accounts, 0), DexError::InvalidMarket);
}

#[test]
fn too_few_accounts_are_rejected() {
    let mut accounts = account_set(account_with_one_bid().write());
    accounts.pop();
    assert_eq!(process_err(&accounts, 0), DexError::NotEnoughAccountKeys);
    assert_eq!(process_err(&[], 0), DexError::NotEnoughAccountKeys);
}

#[test]
fn extra_accounts_are_ignored() {
    let mut accounts = account_set(account_with_one_bid().write());
    accounts.push(account([0x77; 32], false, vec![1, 2, 3]));
    assert!(process(&Key::new(PROGRAM), &accounts, Params { order_index: 0 }).is_ok());
}

#[test]
fn owner_must_have_signed() {
    let mut accounts = account_set(account_with_one_bid().write());
    accounts[8].is_signer = false;
    assert_eq!(process_err(&accounts, 0), DexError::MissingRequiredSignature);
    assert_eq!(check_signer(&accounts[8]), Err(DexError::MissingRequiredSignature));
    assert_eq!(check_signer(&accounts[7]), Err(DexError::MissingRequiredSignature));
    accounts[8].is_signer = true;
    assert_eq!(check_signer(&accounts[8]), Ok(()));
}

#[test]
fn market_record_must_decode_and_be_a_market() {
    let mut accounts = account_set(account_with_one_bid().write());
    let (_, nonce) = market_authority();
    accounts[1].data = market_record(AccountTag::Uninitialized, nonce);
    assert_eq!(process_err(&accounts, 0), DexError::InvalidState);
    accounts[1].data = market_record(AccountTag::UserAccount, nonce);
    assert_eq!(process_err(&accounts, 0), DexError::InvalidState);
    accounts[1].data = vec![1; 20];
    assert_eq!(process_err(&accounts, 0), DexError::InvalidAccountData);
    accounts[1].data = vec![];
    assert_eq!(process_err(&accounts, 0), DexError::InvalidAccountData);
}

#[test]
fn user_record_must_decode() {
    let mut accounts = account_set(account_with_one_bid().write());
    accounts[7].data.push(0);
    assert_eq!(process_err(&accounts, 0), DexError::InvalidAccountData);
    accounts[7].data = vec![];
    assert_eq!(process_err(&accounts, 0), DexError::InvalidAccountData);
}

#[test]
fn market_state_is_checked_before_the_user_account() {
    let user = UserAccount::new(
        UserAccountHeader { owner: Key::new([0xee; 32]), ..user_header((0, 0), (0, 500)) },
        vec![Some(bid_x())],
    );
    let mut accounts = account_set(user.write());
    accounts[1].data = market_record(AccountTag::Uninitialized, 0);
    assert_eq!(process_err(&accounts, 0), DexError::InvalidState);
}

#[test]
fn substituted_accounts_are_rejected() {
    let good = account_set(account_with_one_bid().write());

    let mut accounts = good.clone();
    accounts[2].key = Key::new([0x66; 32]);
    assert_eq!(process_err(&accounts, 0), DexError::InvalidAccountKey);

    let mut accounts = good.clone();
    accounts[3].key = Key::new([0x66; 32]);
    assert_eq!(process_err(&accounts, 0), DexError::InvalidAccountKey);

    let mut accounts = good.clone();
    accounts[0].key = Key::new([0x66; 32]);
    assert_eq!(process_err(&accounts, 0), DexError::InvalidAccountKey);

    // the cross-checks come before the slot
    let mut accounts = good.clone();
    accounts[0].key = Key::new([0x66; 32]);
    assert_eq!(process_err(&accounts, 7), DexError::InvalidAccountKey);

    // the queue and the two sides of the book are the engine's to check
    let mut accounts = good.clone();
    accounts[4].key = Key::new([0x66; 32]);
    accounts[5].key = Key::new([0x67; 32]);
    accounts[6].key = Key::new([0x68; 32]);
    let pending = process(&Key::new(PROGRAM), &accounts, Params { order_index: 0 }).unwrap();
    assert!(pending.request.event_queue == Key::new([0x66; 32]));
    assert!(pending.request.bids == Key::new([0x67; 32]));
    assert!(pending.request.asks == Key::new([0x68; 32]));
}

#[test]
fn a_nonce_that_derives_nothing_is_rejected() {
    let mut accounts = account_set(account_with_one_bid().write());
    accounts[1].data = market_record(AccountTag::DexState, barren_nonce());
    assert_eq!(process_err(&accounts, 0), DexError::InvalidSeeds);
    assert!(MarketSigner::derive(&Key::new(PROGRAM), &Key::new(MARKET), barren_nonce()).is_none());
}

#[test]
fn the_derived_address_depends_on_the_program() {
    let accounts = account_set(account_with_one_bid().write());
    let other_program = Key::new([0x99; 32]);
    let r = process(&other_program, &accounts, Params { order_index: 0 });
    assert!(matches!(r, Err(DexError::InvalidAccountKey) | Err(DexError::InvalidSeeds)));
}

#[test]
fn market_signer_is_the_program_derived_address() {
    let (address, nonce) = market_authority();
    let signer = MarketSigner::derive(&Key::new(PROGRAM), &Key::new(MARKET), nonce).unwrap();
    assert_eq!(signer.address().to_bytes(), address);
    assert_eq!(signer.market().to_bytes(), MARKET);
    assert_eq!(signer.nonce(), nonce);
    assert!(signer.address().to_bytes() != MARKET);
    assert!(signer.address().to_bytes() != PROGRAM);
    let expected =
        Pubkey::create_program_address(&[&MARKET, &[nonce]], &Pubkey::new_from_array(PROGRAM));
    assert_eq!(expected.unwrap().to_bytes(), address);
}

#[test]
fn request_names_the_supplied_accounts_and_the_markets_seeds() {
    let accounts = account_set(account_with_one_bid().write());
    let (address, nonce) = market_authority();
    let pending = process(&Key::new(PROGRAM), &accounts, Params { order_index: 0 }).unwrap();
    let request = pending.request;
    assert!(request.aaob_program == Key::new(ENGINE));
    assert!(request.orderbook == Key::new(BOOK));
    assert!(request.event_queue == Key::new(QUEUE));
    assert!(request.bids == Key::new(BIDS));
    assert!(request.asks == Key::new(ASKS));
    assert_eq!(request.market_signer.address().to_bytes(), address);
    assert_eq!(request.market_signer.market().to_bytes(), MARKET);
    assert_eq!(request.market_signer.nonce(), nonce);
    assert_eq!(request.order_id, bid_x());
}

#[test]
fn market_record_is_persisted_unchanged() {
    let mut accounts = account_set(account_with_one_bid().write());
    accounts[1].data.extend_from_slice(&[0xde, 0xad, 0xbe, 0xef]);
    let pending = process(&Key::new(PROGRAM), &accounts, Params { order_index: 0 }).unwrap();
    assert_eq!(pending.market_data, accounts[1].data);
    assert_eq!(pending.market_data.len(), 134);
}

#[test]
fn accounts_are_named_in_order() {
    let set = account_set(account_with_one_bid().write());
    let accounts = Accounts::parse(&Key::new(PROGRAM), &set).unwrap();
    assert!(accounts.aaob_program.key == Key::new(ENGINE));
    assert!(accounts.market.key == Key::new(MARKET));
    assert!(accounts.market_signer.key == Key::new(market_authority().0));
    assert!(accounts.orderbook.key == Key::new(BOOK));
    assert!(accounts.event_queue.key == Key::new(QUEUE));
    assert!(accounts.bids.key == Key::new(BIDS));
    assert!(accounts.asks.key == Key::new(ASKS));
    assert!(accounts.user.key == Key::new(USER));
    assert!(accounts.user_owner.key == Key::new(OWNER));
    let user = accounts.load_user_account().unwrap();
    assert_eq!(user.read_order(0), Ok(bid_x()));
}

#[test]
fn check_accounts_compares_three_keys() {
    let set = account_set(account_with_one_bid().write());
    let accounts = Accounts::parse(&Key::new(PROGRAM), &set).unwrap();
    let (_, nonce) = market_authority();
    let state = DexState::deserialize(&set[1].data).unwrap();
    let signer = MarketSigner::derive(&Key::new(PROGRAM), &Key::new(MARKET), nonce).unwrap();
    assert_eq!(check_accounts(&signer.address(), &state, &accounts), Ok(()));

    let other_market = Key::new([0x55; 32]);
    let (_, other_nonce) =
        Pubkey::find_program_address(&[&[0x55; 32]], &Pubkey::new_from_array(PROGRAM));
    let other = MarketSigner::derive(&Key::new(PROGRAM), &other_market, other_nonce).unwrap();
    assert_eq!(
        check_accounts(&other.address(), &state, &accounts),
        Err(DexError::InvalidAccountKey)
    );

    let moved = DexState { orderbook: Key::new([0x56; 32]), ..state };
    assert_eq!(
        check_accounts(&signer.address(), &moved, &accounts),
        Err(DexError::InvalidAccountKey)
    );
    let moved = DexState { aaob_program: Key::new([0x57; 32]), ..state };
    assert_eq!(
        check_accounts(&signer.address(), &moved, &accounts),
        Err(DexError::InvalidAccountKey)
    );
    assert_eq!(check_accounts(&Key::new([0; 32]), &state, &accounts), Err(DexError::InvalidAccountKey));
}

#[test]
fn check_account_key_compares_addresses() {
    let a = account([1; 32], false, vec![]);
    assert_eq!(check_account_key(&a, &Key::new([1; 32])), Ok(()));
    assert_eq!(check_account_key(&a, &Key::new([2; 32])), Err(DexError::InvalidAccountKey));
}

#[test]
fn router_validates_a_cancellation() {
    let accounts = account_set(account_with_one_bid().write());
    let data = [3u8, 0, 0, 0, 0, 0, 0, 0, 0];
    match Processor::process_instruction(&Key::new(PROGRAM), &accounts, &data) {
        Ok(Dispatch::CancelOrder(pending)) => {
            assert_eq!(pending.request.order_id, bid_x());
            assert_eq!(pending.order_index, 0);
        }
        other => panic!("unexpected: {:?}", other),
    }
    let data = [3u8, 7, 0, 0, 0, 0, 0, 0, 0];
    assert!(matches!(
        Processor::process_instruction(&Key::new(PROGRAM), &accounts, &data),
        Err(DexError::InvalidArgument)
    ));
}

#[test]
fn router_rejects_a_bad_payload_before_it_looks_at_accounts() {
    for data in [&[][..], &[5][..], &[3, 1][..], &[200, 0, 0][..]] {
        assert!(matches!(
            Processor::process_instruction(&Key::new(PROGRAM), &[], data),
            Err(DexError::InvalidInstructionData)
        ));
    }
    // a well-formed cancellation then fails on the accounts
    assert!(matches!(
        Processor::process_instruction(&Key::new(PROGRAM), &[], &[3, 0, 0, 0, 0, 0, 0, 0, 0]),
        Err(DexError::NotEnoughAccountKeys)
    ));
}

#[test]
fn router_hands_other_instructions_on() {
    let program = Key::new(PROGRAM);
    assert!(matches!(
        Processor::process_instruction(&program, &[], &[0, 1, 2]),
        Ok(Dispatch::CreateMarket(args)) if args == vec![1, 2]
    ));
    assert!(matches!(
        Processor::process_instruction(&program, &[], &[1, 7]),
        Ok(Dispatch::NewOrder(args)) if args == vec![7]
    ));
    assert!(matches!(
        Processor::process_instruction(&program, &[], &[2]),
        Ok(Dispatch::ConsumeEvents(args)) if args.is_empty()
    ));
    assert!(matches!(
        Processor::process_instruction(&program, &[], &[4, 4, 4, 4]),
        Ok(Dispatch::Settle(args)) if args == vec![4, 4, 4]
    ));
}
