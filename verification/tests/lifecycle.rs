use simpledex::account::AccountInfo;
use simpledex::address::Address;
use simpledex::checks::program_id::{
    ata_program_id, rent_sysvar_id, system_program_id, token_program_id,
};
use simpledex::checks::token_account::TokenAccountState;
use simpledex::checks::{
    is_not_frozen, is_not_pubkey, is_of_mint, is_offer_pda, is_signer, mint_account_checked,
    token_account_checked,
};
use simpledex::error::{ProgramError, SimpleDexError};
use simpledex::fee::calc_fee;
use simpledex::host::{HostAction, PdaSigner};
use simpledex::instructions::cancel_offer::process_cancel;
use simpledex::instructions::create_offer::{process_create_offer, CreateOfferArgs};
use simpledex::instructions::match_offers::{
    close_offer_accounts, process_match_offers, update_offer_accounts, OfferUpdate,
};
use simpledex::instructions::packun::pack_instruction;
use simpledex::instructions::SimpleDexInstruction;
use simpledex::pda::{find_holding_address, try_find_offer_pda};
use simpledex::processor::{Plan, Processor};
use simpledex::state::offer::create_pda_account;
use simpledex::state::{HoldingAccount, Offer, OfferAccount};
use solana_program::program_option::COption;
use solana_program::program_pack::Pack;
use solana_program::pubkey::Pubkey;

const RENT: u64 = 2_428_800;

fn address(tag: u8) -> Address {
    Address::new_from_array([tag; 32])
}

fn key(a: &Address) -> Pubkey {
    Pubkey::new_from_array(a.bytes)
}

fn plain(key: Address) -> AccountInfo {
    AccountInfo { key, owner: system_program_id(), is_signer: false, lamports: 1, data: vec![] }
}

fn signer(key: Address) -> AccountInfo {
    AccountInfo { key, owner: system_program_id(), is_signer: true, lamports: 1_000, data: vec![] }
}

fn token_data(mint: &Address, owner: &Address, amount: u64, frozen: bool) -> Vec<u8> {
    let account = spl_token::state::Account {
        mint: key(mint),
        owner: key(owner),
        amount,
        delegate: COption::None,
        state: if frozen {
            spl_token::state::AccountState::Frozen
        } else {
            spl_token::state::AccountState::Initialized
        },
        is_native: COption::None,
        delegated_amount: 0,
        close_authority: COption::None,
    };
    let mut data = vec![0u8; spl_token::state::Account::LEN];
    spl_token::state::Account::pack(account, &mut data).unwrap();
    data
}

fn token_account(key: Address, mint: &Address, owner: &Address, amount: u64) -> AccountInfo {
    AccountInfo {
        key,
        owner: token_program_id(),
        is_signer: false,
        lamports: 2_039_280,
        data: token_data(mint, owner, amount, false),
    }
}

fn mint_account(key: Address) -> AccountInfo {
    let mint = spl_token::state::Mint {
        mint_authority: COption::None,
        supply: 1_000_000,
        decimals: 0,
        is_initialized: true,
        freeze_authority: COption::None,
    };
    let mut data = vec![0u8; spl_token::state::Mint::LEN];
    spl_token::state::Mint::pack(mint, &mut data).unwrap();
    AccountInfo { key, owner: token_program_id(), is_signer: false, lamports: 1_461_600, data }
}

/// The parties of one offer: who owns it, and the accounts it names.
struct Party {
    owner: Address,
    offer_mint: Address,
    accept_mint: Address,
    pay_from: Address,
    credit_to: Address,
    refund_rent_to: Address,
    seed: u16,
}

impl Party {
    fn offer_address(&self) -> (Address, u8) {
        try_find_offer_pda(&self.owner, &self.offer_mint, &self.accept_mint, self.seed).unwrap()
    }

    fn holding_address(&self) -> Address {
        find_holding_address(&self.offer_address().0, &self.offer_mint).unwrap()
    }

    fn args(&self, offering: u64, accept_at_least: u64) -> CreateOfferArgs {
        CreateOfferArgs { bump: self.offer_address().1, seed: self.seed, offering, accept_at_least }
    }

    /// The accounts of an instruction to make the offer, before it exists.
    fn create_accounts(&self, balance: u64) -> Vec<AccountInfo> {
        vec![
            signer(self.refund_rent_to),
            signer(self.owner),
            token_account(self.pay_from, &self.offer_mint, &self.owner, balance),
            AccountInfo {
                key: self.offer_address().0,
                owner: system_program_id(),
                is_signer: false,
                lamports: 0,
                data: vec![],
            },
            AccountInfo {
                key: self.holding_address(),
                owner: system_program_id(),
                is_signer: false,
                lamports: 0,
                data: vec![],
            },
            token_account(self.pay_from, &self.offer_mint, &self.owner, balance),
            token_account(self.credit_to, &self.accept_mint, &self.owner, 0),
            plain(self.refund_rent_to),
            mint_account(self.offer_mint),
            mint_account(self.accept_mint),
            plain(token_program_id()),
            plain(ata_program_id()),
            plain(system_program_id()),
            plain(rent_sysvar_id()),
        ]
    }

    /// The offer's record and escrow as the host holds them once the offer
    /// is made at `slot`, paid from an account that holds `balance`.
    fn made_from(
        &self,
        balance: u64,
        slot: u64,
        offering: u64,
        accept_at_least: u64,
    ) -> (AccountInfo, AccountInfo) {
        let accounts = self.create_accounts(balance);
        let plan =
            process_create_offer(&accounts, self.args(offering, accept_at_least), slot, RENT)
                .unwrap();
        let funded = transfer_of(&plan.fund_holding).3;
        assert!(funded <= balance);
        let record = AccountInfo {
            key: self.offer_address().0,
            owner: simpledex::id(),
            is_signer: false,
            lamports: RENT,
            data: plan.created.record,
        };
        let holder = self.offer_address().0;
        let escrow = token_account(self.holding_address(), &self.offer_mint, &holder, funded);
        (record, escrow)
    }

    /// The offer's record and escrow as the host holds them once the offer
    /// is made at `slot`.
    fn made(&self, slot: u64, offering: u64, accept_at_least: u64) -> (AccountInfo, AccountInfo) {
        self.made_from(offering + calc_fee(offering).unwrap(), slot, offering, accept_at_least)
    }
}

fn party_a() -> Party {
    Party {
        owner: address(10),
        offer_mint: address(1),
        accept_mint: address(2),
        pay_from: address(11),
        credit_to: address(12),
        refund_rent_to: address(13),
        seed: 0,
    }
}

fn party_b() -> Party {
    Party {
        owner: address(20),
        offer_mint: address(2),
        accept_mint: address(1),
        pay_from: address(21),
        credit_to: address(22),
        refund_rent_to: address(23),
        seed: 0,
    }
}

fn cancel_accounts(party: &Party, record: AccountInfo, escrow: AccountInfo) -> Vec<AccountInfo> {
    vec![
        signer(party.owner),
        record,
        escrow,
        plain(party.pay_from),
        plain(party.refund_rent_to),
        plain(token_program_id()),
    ]
}

fn match_accounts(
    a: &Party,
    a_made: (AccountInfo, AccountInfo),
    b: &Party,
    b_made: (AccountInfo, AccountInfo),
) -> Vec<AccountInfo> {
    vec![
        a_made.0,
        a_made.1,
        b_made.0,
        b_made.1,
        plain(a.credit_to),
        plain(a.pay_from),
        plain(a.refund_rent_to),
        plain(b.credit_to),
        plain(b.pay_from),
        plain(b.refund_rent_to),
        plain(address(91)),
        plain(address(92)),
        plain(token_program_id()),
    ]
}

fn transfer_of(action: &HostAction) -> (Address, Address, Address, u64, bool) {
    match action {
        HostAction::TokenTransfer { source, destination, authority, amount, derived_from } => {
            (*source, *destination, *authority, *amount, derived_from.is_some())
        }
        other => panic!("not a transfer: {:?}", other),
    }
}

fn same_signer(signer: &PdaSigner, party: &Party) -> bool {
    signer.owner == party.owner
        && signer.offer_mint == party.offer_mint
        && signer.accept_mint == party.accept_mint
        && signer.seed == party.seed
        && signer.bump == party.offer_address().1
}

fn failure<T>(r: Result<T, ProgramError>) -> ProgramError {
    match r {
        Ok(_) => panic!("expected a failure"),
        Err(e) => e,
    }
}

#[test]
fn create_offer_success() {
    let party = party_a();
    let accounts = party.create_accounts(50);
    let plan = process_create_offer(&accounts, party.args(45, 2), 9, RENT).unwrap();
    match plan.create_holding {
        HostAction::CreateAssociatedTokenAccount { payer, wallet, mint } => {
            assert_eq!(payer, party.refund_rent_to);
            assert_eq!(wallet, party.offer_address().0);
            assert_eq!(mint, party.offer_mint);
        }
        other => panic!("unexpected action: {:?}", other),
    }
    let offer = plan.created.account.data;
    assert_eq!((offer.slot, offer.offering, offer.accept_at_least), (9, 45, 2));
    assert_eq!((offer.seed, offer.bump), (0, party.offer_address().1));
    assert_eq!(offer.owner, party.owner);
    assert_eq!(offer.refund_to, party.pay_from);
    assert_eq!(offer.credit_to, party.credit_to);
    assert_eq!(offer.refund_rent_to, party.refund_rent_to);
    assert_eq!(plan.created.record.len(), 221);
    let read = Offer::unpack(&plan.created.record).unwrap();
    assert_eq!((read.slot, read.offering, read.accept_at_least), (9, 45, 2));
    assert_eq!(plan.created.allocation.len(), 1);
    match plan.created.allocation[0] {
        HostAction::CreateAccount { from, to, lamports, space, owner, signer } => {
            assert_eq!(from, party.refund_rent_to);
            assert_eq!(to, party.offer_address().0);
            assert_eq!((lamports, space), (RENT, 221));
            assert_eq!(owner, simpledex::id());
            assert!(same_signer(&signer, &party));
        }
        other => panic!("unexpected action: {:?}", other),
    }
    // the escrow is funded with the offering and the fee on it
    assert_eq!(
        transfer_of(&plan.fund_holding),
        (party.pay_from, party.holding_address(), party.owner, 45, false)
    );
    let escrow = token_account(party.holding_address(), &party.offer_mint, &offer.owner, 0);
    let holding = HoldingAccount::created(&escrow).unwrap();
    let fund = holding.receive_holding_tokens(&accounts[1], &accounts[2], &offer).unwrap();
    assert_eq!(fund, plan.fund_holding);
}

#[test]
fn escrow_is_funded_with_offering_and_fee() {
    let party = party_a();
    let escrow = token_account(party.holding_address(), &party.offer_mint, &party.owner, 0);
    let holding = HoldingAccount::created(&escrow).unwrap();
    let mut offer = Offer::unpack(&party.made(1, 900_000, 99_000).0.data).unwrap();
    let fund = holding
        .receive_holding_tokens(&signer(party.owner), &plain(party.pay_from), &offer)
        .unwrap();
    assert_eq!(transfer_of(&fund).3, 900_900);
    offer.offering = u64::MAX;
    let fund =
        holding.receive_holding_tokens(&signer(party.owner), &plain(party.pay_from), &offer);
    assert_eq!(failure(fund), ProgramError::Custom(SimpleDexError::NumericalError.code()));
}

#[test]
fn cancel_offer_success() {
    let offering = 45;
    let accept_at_least = 2;
    let party = party_a();
    let (record, escrow) = party.made_from(offering + 5, 5, offering, accept_at_least);
    let lamports_of_record = record.lamports;
    let accounts = cancel_accounts(&party, record, escrow);
    let plan = process_cancel(&accounts).unwrap();
    // all that the escrow holds goes back to where the offering came from
    let (source, destination, authority, amount, signed) = transfer_of(&plan.refund);
    assert_eq!(source, party.holding_address());
    assert_eq!(destination, party.pay_from);
    assert_eq!(authority, party.offer_address().0);
    assert_eq!(amount, 45);
    assert!(signed);
    match plan.close_holding {
        HostAction::CloseTokenAccount { account, destination, authority, signer } => {
            assert_eq!(account, party.holding_address());
            assert_eq!(destination, party.refund_rent_to);
            assert_eq!(authority, party.offer_address().0);
            assert!(same_signer(&signer, &party));
        }
        other => panic!("unexpected action: {:?}", other),
    }
    // the record's whole deposit is refunded and its bytes are wiped
    let payer = AccountInfo { lamports: 7, ..plain(party.refund_rent_to) };
    let closed = plan.offer.close(&payer).unwrap();
    assert_eq!(closed.refund_rent_to_lamports, 7 + lamports_of_record);
    assert!(closed.refund_rent_to_lamports > payer.lamports);
    assert_eq!(closed.lamports, 0);
    assert_eq!(closed.data, vec![0u8; 221]);
    // the record cannot be read afterwards, and cannot be cancelled again
    let wiped = AccountInfo {
        key: party.offer_address().0,
        owner: simpledex::id(),
        is_signer: false,
        lamports: closed.lamports,
        data: closed.data,
    };
    assert_eq!(failure(OfferAccount::load_checked(&wiped)), ProgramError::UninitializedAccount);
    let escrow = token_account(party.holding_address(), &party.offer_mint, &party.owner, 0);
    let again = cancel_accounts(&party, wiped, escrow);
    assert_eq!(failure(process_cancel(&again)), ProgramError::UninitializedAccount);
}

#[test]
fn record_deposit_goes_to_the_recorded_account_alone() {
    let party = party_a();
    let (record, escrow) = party.made(5, 45, 2);
    let accounts = cancel_accounts(&party, record, escrow);
    let plan = process_cancel(&accounts).unwrap();
    let other = AccountInfo { lamports: 7, ..plain(address(99)) };
    assert!(matches!(plan.offer.close(&other), Err(SimpleDexError::IncorrectRefundRentTo)));
}

#[test]
fn closed_offer_refunds_into_its_recorded_accounts() {
    let (a, b) = (party_a(), party_b());
    let close = |refund_to: Address, refund_rent_to: Address, escrow_key: Option<Address>| {
        let accounts = match_accounts(&a, a.made(3, 100, 10), &b, b.made(4, 10, 100));
        let accounts: &'static Vec<AccountInfo> = Box::leak(Box::new(accounts));
        let plan = process_match_offers(accounts).unwrap();
        let mut left =
            token_account(a.holding_address(), &a.offer_mint, &a.offer_address().0, 3);
        if let Some(key) = escrow_key {
            left.key = key;
        }
        let left: &'static AccountInfo = Box::leak(Box::new(left));
        match plan.update_a {
            OfferUpdate::Closed { offer, holding } => {
                let (to, rent_to) = (plain(refund_to), plain(refund_rent_to));
                close_offer_accounts(&offer, holding, left, &to, &rent_to)
            }
            OfferUpdate::Saved { .. } => panic!("offer a stayed open"),
        }
    };
    let (refund, close_holding) = close(a.pay_from, a.refund_rent_to, None).unwrap();
    assert_eq!(
        transfer_of(&refund),
        (a.holding_address(), a.pay_from, a.offer_address().0, 3, true)
    );
    match close_holding {
        HostAction::CloseTokenAccount { account, destination, authority, signer } => {
            assert_eq!(account, a.holding_address());
            assert_eq!(destination, a.refund_rent_to);
            assert_eq!(authority, a.offer_address().0);
            assert!(same_signer(&signer, &a));
        }
        other => panic!("unexpected action: {:?}", other),
    }
    assert_eq!(
        failure(close(address(99), a.refund_rent_to, None)),
        ProgramError::Custom(SimpleDexError::IncorrectRefundTo.code())
    );
    assert_eq!(
        failure(close(a.pay_from, address(99), None)),
        ProgramError::Custom(SimpleDexError::IncorrectRefundRentTo.code())
    );
    // the escrow is read again from its own account and no other
    assert_eq!(
        failure(close(a.pay_from, a.refund_rent_to, Some(b.holding_address()))),
        ProgramError::Custom(SimpleDexError::InvalidHoldingAccount.code())
    );
}

#[test]
fn escrow_is_reloaded_from_its_own_account() {
    let party = party_a();
    let (record, escrow) = party.made(5, 45, 2);
    let offer = OfferAccount::load_checked(&record).unwrap();
    let holding = HoldingAccount::load_checked(&escrow, &offer).unwrap();
    let now = token_account(party.holding_address(), &party.offer_mint, &offer.key(), 12);
    assert_eq!(holding.reload(&now).unwrap().data.amount, 12);
    let holding = HoldingAccount::load_checked(&escrow, &offer).unwrap();
    let other = token_account(address(98), &party.offer_mint, &offer.key(), 12);
    assert_eq!(
        failure(holding.reload(&other).map(|reloaded| reloaded.data.amount)),
        ProgramError::Custom(SimpleDexError::InvalidHoldingAccount.code())
    );
}

#[test]
fn closing_a_record_must_not_overflow_the_refund() {
    let party = party_a();
    let (record, escrow) = party.made(5, 45, 2);
    let accounts = cancel_accounts(&party, record, escrow);
    let plan = process_cancel(&accounts).unwrap();
    let full = AccountInfo { lamports: u64::MAX - RENT + 1, ..plain(party.refund_rent_to) };
    assert!(matches!(plan.offer.close(&full), Err(SimpleDexError::InternalError)));
}

#[test]
fn cancel_is_for_the_owner_alone() {
    let party = party_a();
    let made = || party.made(5, 45, 2);
    let mut accounts = cancel_accounts(&party, made().0, made().1);
    accounts[0].is_signer = false;
    assert_eq!(failure(process_cancel(&accounts)), ProgramError::MissingRequiredSignature);
    let mut accounts = cancel_accounts(&party, made().0, made().1);
    accounts[0].key = address(99);
    assert_eq!(
        failure(process_cancel(&accounts)),
        ProgramError::Custom(SimpleDexError::IncorrectOwner.code())
    );
    let mut accounts = cancel_accounts(&party, made().0, made().1);
    accounts[3].key = address(99);
    assert_eq!(
        failure(process_cancel(&accounts)),
        ProgramError::Custom(SimpleDexError::IncorrectRefundTo.code())
    );
    let mut accounts = cancel_accounts(&party, made().0, made().1);
    accounts[4].key = address(99);
    assert_eq!(
        failure(process_cancel(&accounts)),
        ProgramError::Custom(SimpleDexError::IncorrectRefundRentTo.code())
    );
    let mut accounts = cancel_accounts(&party, made().0, made().1);
    accounts[5].key = address(99);
    assert_eq!(failure(process_cancel(&accounts)), ProgramError::IncorrectProgramId);
    let mut accounts = cancel_accounts(&party, made().0, made().1);
    accounts.pop();
    assert_eq!(failure(process_cancel(&accounts)), ProgramError::NotEnoughAccountKeys);
}

#[test]
fn record_must_sit_at_its_derived_address() {
    let party = party_a();
    let (mut record, escrow) = party.made(5, 45, 2);
    record.key = address(77);
    let accounts = cancel_accounts(&party, record, escrow);
    assert_eq!(
        failure(process_cancel(&accounts)),
        ProgramError::Custom(SimpleDexError::IncorrectOfferAccount.code())
    );
    // a record with another bump derives another address, or none
    let mut seen = (false, false);
    for bump in 0..party.offer_address().1 {
        let (mut record, escrow) = party.made(5, 45, 2);
        record.data[26] = bump;
        let accounts = cancel_accounts(&party, record, escrow);
        match failure(process_cancel(&accounts)) {
            ProgramError::InvalidSeeds => seen.0 = true,
            e => {
                assert_eq!(e, ProgramError::Custom(SimpleDexError::IncorrectOfferAccount.code()));
                seen.1 = true;
            }
        }
        if seen == (true, true) {
            break;
        }
    }
    assert_eq!(seen, (true, true));
}

#[test]
fn escrow_must_be_the_offers_own() {
    let party = party_a();
    let (record, mut escrow) = party.made(5, 45, 2);
    escrow.key = address(78);
    let accounts = cancel_accounts(&party, record, escrow);
    assert_eq!(
        failure(process_cancel(&accounts)),
        ProgramError::Custom(SimpleDexError::InvalidHoldingAccount.code())
    );
    let (record, mut escrow) = party.made(5, 45, 2);
    escrow.owner = system_program_id();
    let accounts = cancel_accounts(&party, record, escrow);
    assert_eq!(failure(process_cancel(&accounts)), ProgramError::IllegalOwner);
    let (record, mut escrow) = party.made(5, 45, 2);
    escrow.data = vec![0u8; 165];
    let accounts = cancel_accounts(&party, record, escrow);
    assert_eq!(failure(process_cancel(&accounts)), ProgramError::UninitializedAccount);
    let (record, mut escrow) = party.made(5, 45, 2);
    escrow.data.pop();
    let accounts = cancel_accounts(&party, record, escrow);
    assert_eq!(failure(process_cancel(&accounts)), ProgramError::InvalidAccountData);
}

#[test]
fn success_match_exact() {
    let offer_a_offering = 900_000;
    let offer_a_accept_at_least = 99_000;
    let offer_b_offering = offer_a_accept_at_least;
    let offer_b_accept_at_least = offer_a_offering;
    let mint_a_tokens = 1_000_000;
    let mint_b_tokens = 123_456;
    let (a, b) = (party_a(), party_b());
    let accounts = match_accounts(
        &a,
        a.made_from(mint_a_tokens, 3, offer_a_offering, offer_a_accept_at_least),
        &b,
        b.made_from(mint_b_tokens, 4, offer_b_offering, offer_b_accept_at_least),
    );
    let plan = process_match_offers(&accounts).unwrap();
    assert_eq!((plan.amt_a_gives, plan.amt_b_gives), (900_000, 99_000));
    // what each owner is credited
    assert_eq!(plan.receipt.b_to_a, offer_a_accept_at_least);
    assert_eq!(plan.receipt.a_to_b, offer_b_accept_at_least);
    assert_eq!((plan.receipt.a_to_matcher, plan.receipt.b_to_matcher), (0, 99));
    assert_eq!(
        transfer_of(&plan.pay_b),
        (a.holding_address(), b.credit_to, a.offer_address().0, 900_000, true)
    );
    assert_eq!(
        transfer_of(&plan.pay_matcher_a),
        (a.holding_address(), address(91), a.offer_address().0, 0, true)
    );
    assert_eq!(
        transfer_of(&plan.pay_a),
        (b.holding_address(), a.credit_to, b.offer_address().0, 99_000, true)
    );
    assert_eq!(
        transfer_of(&plan.pay_matcher_b),
        (b.holding_address(), address(92), b.offer_address().0, 99, true)
    );

    assert_eq!((plan.offering_a.offering, plan.offering_b.offering), (900_000, 99_000));

    // both offers no longer exist
    let left_a = token_account(a.holding_address(), &a.offer_mint, &a.offer_address().0, 900);
    match plan.update_a {
        OfferUpdate::Closed { offer, holding } => {
            assert!(offer.data.is_closed());
            assert_eq!(holding.data.amount, 900_900);
            let (refund, close_holding) =
                close_offer_accounts(&offer, holding, &left_a, &accounts[5], &accounts[6])
                    .unwrap();
            // the fee that a did not owe goes back with the rest
            assert_eq!(
                transfer_of(&refund),
                (a.holding_address(), a.pay_from, a.offer_address().0, 900, true)
            );
            assert!(matches!(close_holding, HostAction::CloseTokenAccount { .. }));
            let closed = offer.close(&accounts[6]).unwrap();
            assert_eq!(closed.data, vec![0u8; 221]);
            assert_eq!(closed.lamports, 0);
            assert_eq!(closed.refund_rent_to_lamports, 1 + RENT);
        }
        OfferUpdate::Saved { .. } => panic!("offer a stayed open"),
    }
    let left_b = token_account(b.holding_address(), &b.offer_mint, &b.offer_address().0, 0);
    match plan.update_b {
        OfferUpdate::Closed { offer, holding } => {
            assert!(offer.data.is_closed());
            let (refund, _) =
                close_offer_accounts(&offer, holding, &left_b, &accounts[8], &accounts[9])
                    .unwrap();
            assert_eq!(transfer_of(&refund).3, 0);
        }
        OfferUpdate::Saved { .. } => panic!("offer b stayed open"),
    }
}

#[test]
fn partial_match_leaves_one_offer_open() {
    let (a, b) = (party_a(), party_b());
    // a offers 100 for 10; b offers 4 for 40
    let accounts = match_accounts(&a, a.made(3, 100, 10), &b, b.made(3, 4, 40));
    let plan = process_match_offers(&accounts).unwrap();
    assert_eq!((plan.amt_a_gives, plan.amt_b_gives), (40, 4));
    assert_eq!(plan.receipt.a_to_b, 40);
    assert_eq!(plan.receipt.b_to_a, 4);
    match plan.update_a {
        OfferUpdate::Saved { record } => {
            let after = Offer::unpack(&record).unwrap();
            assert_eq!((after.offering, after.accept_at_least), (60, 6));
            assert_eq!(after.slot, 3);
            assert!(!after.is_closed());
            // the record is still at its address
            let stored = AccountInfo {
                key: a.offer_address().0,
                owner: simpledex::id(),
                is_signer: false,
                lamports: RENT,
                data: record,
            };
            assert!(OfferAccount::load_checked(&stored).is_ok());
        }
        OfferUpdate::Closed { .. } => panic!("offer a was closed"),
    }
    assert!(matches!(plan.update_b, OfferUpdate::Closed { .. }));
}

#[test]
fn offer_is_written_back_or_closed_by_what_is_left() {
    let party = party_a();
    let (record, escrow) = party.made(5, 100, 10);
    let load = |record: &'static AccountInfo, escrow: &'static AccountInfo| {
        let offer = OfferAccount::load_checked(record).unwrap();
        let holding = HoldingAccount::load_checked(escrow, &offer).unwrap();
        (offer, holding)
    };
    let record: &'static AccountInfo = Box::leak(Box::new(record));
    let escrow: &'static AccountInfo = Box::leak(Box::new(escrow));
    let (offer, holding) = load(record, escrow);
    match update_offer_accounts(offer, holding, 99).unwrap() {
        OfferUpdate::Saved { record } => {
            let after = Offer::unpack(&record).unwrap();
            assert_eq!((after.offering, after.accept_at_least), (1, 1));
        }
        OfferUpdate::Closed { .. } => panic!("the offer was closed"),
    }
    let (offer, holding) = load(record, escrow);
    match update_offer_accounts(offer, holding, 100).unwrap() {
        OfferUpdate::Closed { offer, .. } => {
            assert_eq!((offer.data.offering, offer.data.accept_at_least), (0, 0));
        }
        OfferUpdate::Saved { .. } => panic!("the offer stayed open"),
    }
    let (offer, holding) = load(record, escrow);
    assert_eq!(
        failure(update_offer_accounts(offer, holding, 101)),
        ProgramError::Custom(SimpleDexError::InternalError.code())
    );
}

#[test]
fn offers_that_do_not_cross_are_not_matched() {
    let (a, b) = (party_a(), party_b());
    let accounts = match_accounts(&a, a.made(3, 100, 11), &b, b.made(4, 10, 100));
    assert_eq!(
        failure(process_match_offers(&accounts)),
        ProgramError::Custom(SimpleDexError::OffersDontMatch.code())
    );
}

#[test]
fn offer_with_nothing_left_is_not_matched() {
    let (a, b) = (party_a(), party_b());
    // the ranges cross, but a has nothing to give
    let accounts = match_accounts(&a, a.made(3, 0, 5), &b, b.made(4, 3, 0));
    assert_eq!(
        failure(process_match_offers(&accounts)),
        ProgramError::Custom(SimpleDexError::InternalError.code())
    );
}

#[test]
fn match_pays_only_into_the_accounts_that_the_offers_name() {
    let (a, b) = (party_a(), party_b());
    let accounts = || match_accounts(&a, a.made(3, 100, 10), &b, b.made(4, 10, 100));
    let expected = [
        (4, SimpleDexError::IncorrectCreditTo),
        (5, SimpleDexError::IncorrectRefundTo),
        (6, SimpleDexError::IncorrectRefundRentTo),
        (7, SimpleDexError::IncorrectCreditTo),
        (8, SimpleDexError::IncorrectRefundTo),
        (9, SimpleDexError::IncorrectRefundRentTo),
    ];
    for (index, error) in expected {
        let mut changed = accounts();
        changed[index].key = address(99);
        assert_eq!(failure(process_match_offers(&changed)), ProgramError::Custom(error.code()));
    }
    let mut changed = accounts();
    changed[12].key = address(99);
    assert_eq!(failure(process_match_offers(&changed)), ProgramError::IncorrectProgramId);
    let mut changed = accounts();
    changed.truncate(12);
    assert_eq!(failure(process_match_offers(&changed)), ProgramError::NotEnoughAccountKeys);
    assert!(process_match_offers(&accounts()).is_ok());
}

#[test]
fn closed_offer_cannot_be_matched() {
    let (a, b) = (party_a(), party_b());
    let mut accounts = match_accounts(&a, a.made(3, 100, 10), &b, b.made(4, 10, 100));
    accounts[2].data = vec![0u8; 221];
    assert_eq!(failure(process_match_offers(&accounts)), ProgramError::UninitializedAccount);
    let mut accounts = match_accounts(&a, a.made(3, 100, 10), &b, b.made(4, 10, 100));
    accounts[0].data = vec![];
    assert_eq!(failure(process_match_offers(&accounts)), ProgramError::InvalidAccountData);
}

#[test]
fn new_offer_is_tested_before_anything_is_made() {
    let party = party_a();
    let args = party.args(45, 2);
    let accounts = || party.create_accounts(50);
    let run = |accounts: &Vec<AccountInfo>, args: CreateOfferArgs| {
        failure(process_create_offer(accounts, args, 9, RENT))
    };
    let custom = |e: SimpleDexError| ProgramError::Custom(e.code());

    let mut changed = accounts();
    changed.truncate(13);
    assert_eq!(run(&changed, args), ProgramError::NotEnoughAccountKeys);
    let mut changed = accounts();
    changed[5].owner = system_program_id();
    assert_eq!(run(&changed, args), ProgramError::IllegalOwner);
    let mut changed = accounts();
    changed[6].data = vec![1, 2, 3];
    assert_eq!(run(&changed, args), ProgramError::InvalidAccountData);
    let mut changed = accounts();
    changed[9].data = vec![0u8; 82];
    assert_eq!(run(&changed, args), ProgramError::UninitializedAccount);
    let mut changed = accounts();
    changed[8].owner = address(99);
    assert_eq!(run(&changed, args), ProgramError::IllegalOwner);
    let mut changed = accounts();
    changed[0].is_signer = false;
    assert_eq!(run(&changed, args), ProgramError::MissingRequiredSignature);
    let mut changed = accounts();
    changed[1].is_signer = false;
    assert_eq!(run(&changed, args), ProgramError::MissingRequiredSignature);
    let mut changed = accounts();
    changed[3].key = address(99);
    assert_eq!(run(&changed, args), custom(SimpleDexError::InvalidOfferAccount));
    let wrong_bump = CreateOfferArgs { bump: args.bump.wrapping_sub(1), ..args };
    assert_eq!(run(&accounts(), wrong_bump), custom(SimpleDexError::InvalidOfferBump));
    let mut changed = accounts();
    changed[5].data = token_data(&party.accept_mint, &party.owner, 50, false);
    assert_eq!(run(&changed, args), custom(SimpleDexError::IncorrectMint));
    let mut changed = accounts();
    changed[5].data = token_data(&party.offer_mint, &party.owner, 50, true);
    assert_eq!(run(&changed, args), custom(SimpleDexError::TokenAccountFrozen));
    let mut changed = accounts();
    changed[5].key = party.holding_address();
    assert_eq!(run(&changed, args), custom(SimpleDexError::RefundingToOfferAccounts));
    let mut changed = accounts();
    changed[6].data = token_data(&party.offer_mint, &party.owner, 0, false);
    assert_eq!(run(&changed, args), custom(SimpleDexError::IncorrectMint));
    let mut changed = accounts();
    changed[6].data = token_data(&party.accept_mint, &party.owner, 0, true);
    assert_eq!(run(&changed, args), custom(SimpleDexError::TokenAccountFrozen));
    let mut changed = accounts();
    changed[7].key = party.offer_address().0;
    assert_eq!(run(&changed, args), custom(SimpleDexError::RefundingToOfferAccounts));
    let mut changed = accounts();
    changed[7].key = party.holding_address();
    assert_eq!(run(&changed, args), custom(SimpleDexError::RefundingToOfferAccounts));
    for program in [10, 11, 12] {
        let mut changed = accounts();
        changed[program].key = address(99);
        assert_eq!(run(&changed, args), ProgramError::IncorrectProgramId);
    }
    let mut changed = accounts();
    changed[4].key = address(99);
    assert_eq!(run(&changed, args), custom(SimpleDexError::InvalidHoldingAccount));
    let too_much = CreateOfferArgs { offering: u64::MAX, ..args };
    assert_eq!(run(&accounts(), too_much), custom(SimpleDexError::NumericalError));
    // 18428315757951600015 and the fee on it are exactly 2^64 - 1
    let over = CreateOfferArgs { offering: 18_428_315_757_951_600_016, ..args };
    assert_eq!(run(&accounts(), over), custom(SimpleDexError::NumericalError));
    let fits = CreateOfferArgs { offering: 18_428_315_757_951_600_015, ..args };
    let unchanged = accounts();
    let plan = process_create_offer(&unchanged, fits, 9, RENT).unwrap();
    assert_eq!(transfer_of(&plan.fund_holding).3, u64::MAX);
}

#[test]
fn room_for_a_record_is_made_as_the_account_stands() {
    let party = party_a();
    let signer_fields = PdaSigner {
        owner: party.owner,
        offer_mint: party.offer_mint,
        accept_mint: party.accept_mint,
        seed: 0,
        bump: 1,
    };
    let payer = signer(address(50));
    let mut target = plain(address(51));
    target.lamports = 0;
    let actions = create_pda_account(221, &payer, &target, signer_fields, 0);
    assert_eq!(actions.len(), 1);
    assert!(matches!(actions[0], HostAction::CreateAccount { lamports: 1, space: 221, .. }));
    // an account that already holds some deposit is topped up
    target.lamports = 1_000;
    let actions = create_pda_account(221, &payer, &target, signer_fields, RENT);
    assert_eq!(actions.len(), 3);
    match actions[0] {
        HostAction::SystemTransfer { from, to, lamports } => {
            assert_eq!((from, to, lamports), (address(50), address(51), RENT - 1_000));
        }
        other => panic!("unexpected action: {:?}", other),
    }
    assert!(matches!(actions[1], HostAction::Allocate { space: 221, .. }));
    match actions[2] {
        HostAction::Assign { account, owner, .. } => {
            assert_eq!((account, owner), (address(51), simpledex::id()));
        }
        other => panic!("unexpected action: {:?}", other),
    }
    // one that holds enough is only given room and handed over
    target.lamports = RENT;
    let actions = create_pda_account(221, &payer, &target, signer_fields, RENT);
    assert_eq!(actions.len(), 2);
    assert!(matches!(actions[0], HostAction::Allocate { .. }));
    assert!(matches!(actions[1], HostAction::Assign { .. }));
}

#[test]
fn processor_reads_the_instruction() {
    let party = party_a();
    let accounts = party.create_accounts(50);
    let input = pack_instruction(&SimpleDexInstruction::CreateOffer(party.args(45, 2)));
    let plan = Processor::process(&simpledex::id(), &accounts, &input, 9, RENT).unwrap();
    assert!(matches!(plan, Plan::CreateOffer(_)));
    let (record, escrow) = party.made(5, 45, 2);
    let accounts = cancel_accounts(&party, record, escrow);
    let plan = Processor::process(&simpledex::id(), &accounts, &[1], 9, RENT).unwrap();
    assert!(matches!(plan, Plan::CancelOffer(_)));
    let (a, b) = (party_a(), party_b());
    let accounts = match_accounts(&a, a.made(3, 100, 10), &b, b.made(4, 10, 100));
    let plan = Processor::process(&simpledex::id(), &accounts, &[2], 9, RENT).unwrap();
    assert!(matches!(plan, Plan::MatchOffers(_)));
    assert_eq!(
        failure(Processor::process(&address(1), &accounts, &[2], 9, RENT)),
        ProgramError::IncorrectProgramId
    );
    assert_eq!(
        failure(Processor::process(&simpledex::id(), &accounts, &[9], 9, RENT)),
        ProgramError::Custom(SimpleDexError::PackunError.code())
    );
    assert_eq!(
        failure(Processor::process(&simpledex::id(), &accounts, &[], 9, RENT)),
        ProgramError::Custom(SimpleDexError::PackunError.code())
    );
}

#[test]
fn checks_say_what_they_find() {
    let party = party_a();
    assert_eq!(is_signer(&signer(address(1))), Ok(()));
    assert_eq!(is_signer(&plain(address(1))), Err(ProgramError::MissingRequiredSignature));
    assert_eq!(is_not_pubkey(&plain(address(1)), &address(2), 7u8), Ok(()));
    assert_eq!(is_not_pubkey(&plain(address(1)), &address(1), 7u8), Err(7u8));
    let held = token_account(address(3), &party.offer_mint, &party.owner, 12);
    let read = token_account_checked(&held).unwrap();
    assert_eq!(read.mint, party.offer_mint);
    assert_eq!(read.owner, party.owner);
    assert_eq!(read.amount, 12);
    assert_eq!(read.state, TokenAccountState::Initialized);
    assert!(!read.is_frozen());
    assert_eq!(is_of_mint(&read, &party.offer_mint), Ok(()));
    assert_eq!(is_of_mint(&read, &party.accept_mint), Err(SimpleDexError::IncorrectMint));
    assert_eq!(is_not_frozen(&read), Ok(()));
    let mut frozen = held;
    frozen.data = token_data(&party.offer_mint, &party.owner, 12, true);
    let read = token_account_checked(&frozen).unwrap();
    assert_eq!(read.state, TokenAccountState::Frozen);
    assert_eq!(is_not_frozen(&read), Err(SimpleDexError::TokenAccountFrozen));
    assert_eq!(mint_account_checked(&mint_account(address(4))), Ok(()));
    assert_eq!(
        mint_account_checked(&plain(address(4))),
        Err(ProgramError::IllegalOwner)
    );
    let (offer, bump) = party.offer_address();
    let accounts = party.create_accounts(1);
    assert_eq!(
        is_offer_pda(&plain(offer), &accounts[1], &accounts[8], &accounts[9], 0, bump),
        Ok(())
    );
    assert_eq!(
        is_offer_pda(&plain(offer), &accounts[1], &accounts[8], &accounts[9], 1, bump),
        Err(ProgramError::Custom(SimpleDexError::InvalidOfferAccount.code()))
    );
}
