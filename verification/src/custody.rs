//! What an operation asks of custody: the accounts to make sure of and the balances to move.
//!
//! The library decides; it moves nothing itself. Each result of an operation yields the list
//! of actions that carry it out, in the order in which they are to be taken. A list never
//! holds a move of nothing: every method that makes one says so.

use vstd::prelude::*;
use crate::account::holding::HoldingAccountStatus;
use crate::instructions::buy_tokens::BuyOutcome;
use crate::instructions::graduate::Confirmation;
use crate::state::bonding_curve::CurveCreated;
use crate::state::pool_request::Migration;
use crate::state::trade::{TradeDirection, TradeEvent};

verus! {

/// Who holds a balance, by role. A role stands for the holder's own account where native
/// balance moves, and for the holder's token account where tokens move.
#[derive(Clone, Copy, Debug, PartialEq, Eq, Structural)]
pub enum Party {
    /// Who launches the token.
    Creator,
    /// Who buys or sells.
    Trader,
    /// The curve, which is its own authority over what it holds.
    Curve,
    /// The treasury that the configuration names.
    Treasury,
    /// The relayer's holding account for the curve's token.
    TokenHolding,
    /// The relayer's holding account for wrapped base.
    BaseHolding,
}

/// One step that custody is to take.
#[derive(Clone, Copy, Debug, PartialEq, Eq, Structural)]
pub enum CustodyAction {
    /// Create the holding account, which is missing.
    EnsureHoldingAccount { account: Party },
    /// Move native balance.
    TransferNative { from: Party, to: Party, amount: u64 },
    /// Move tokens of the curve's mint, signed for by `authority`.
    TransferAsset { from: Party, to: Party, authority: Party, amount: u64 },
    /// Mint tokens of the curve's mint.
    MintAsset { to: Party, amount: u64 },
    /// Burn liquidity receipts.
    BurnReceipts { from: Party, amount: u64 },
}

/// The move of `amount` native balance, or nothing where `amount` is zero.
pub open spec fn native_transfer(from: Party, to: Party, amount: u64) -> Seq<CustodyAction> {
    if amount == 0 {
        Seq::empty()
    } else {
        seq![CustodyAction::TransferNative { from, to, amount }]
    }
}

/// The move of `amount` tokens, signed for by whoever gives them, or nothing where `amount`
/// is zero.
pub open spec fn asset_transfer(from: Party, to: Party, amount: u64) -> Seq<CustodyAction> {
    if amount == 0 {
        Seq::empty()
    } else {
        seq![CustodyAction::TransferAsset { from, to, authority: from, amount }]
    }
}

/// The creation of a holding account that is missing, or nothing where it exists.
pub open spec fn holding_account_creation(
    account: Party,
    status: HoldingAccountStatus,
) -> Seq<CustodyAction> {
    match status {
        HoldingAccountStatus::Created => seq![CustodyAction::EnsureHoldingAccount { account }],
        HoldingAccountStatus::Existed => Seq::empty(),
    }
}

/// What carries out a trade. A buy pays the net deposit into the curve and the fee to the
/// treasury, and hands the tokens bought to the trader. A sell pays the net tokens into the
/// curve and the fee, in tokens, to the treasury, and hands the base earned to the trader.
pub open spec fn trade_actions(trade: TradeEvent) -> Seq<CustodyAction> {
    match trade.direction {
        TradeDirection::Buy => native_transfer(Party::Trader, Party::Curve, trade.net)
            + native_transfer(Party::Trader, Party::Treasury, trade.fee) + asset_transfer(
            Party::Curve,
            Party::Trader,
            trade.amount_out,
        ),
        TradeDirection::Sell => asset_transfer(Party::Trader, Party::Curve, trade.net)
            + asset_transfer(Party::Trader, Party::Treasury, trade.fee) + native_transfer(
            Party::Curve,
            Party::Trader,
            trade.amount_out,
        ),
    }
}

/// What carries out a sweep: the holding accounts that are missing are created, then the
/// tokens and the base swept move out of the curve into them.
pub open spec fn migration_actions(migration: Migration) -> Seq<CustodyAction> {
    holding_account_creation(Party::TokenHolding, migration.token_account)
        + holding_account_creation(Party::BaseHolding, migration.wsol_account) + asset_transfer(
        Party::Curve,
        Party::TokenHolding,
        migration.request.token_amount,
    ) + native_transfer(Party::Curve, Party::BaseHolding, migration.request.wsol_amount)
}

/// What carries out a buy: its trade, then its sweep if it set one off.
pub open spec fn buy_actions(outcome: BuyOutcome) -> Seq<CustodyAction> {
    match outcome.migration {
        Some(migration) => trade_actions(outcome.trade) + migration_actions(migration),
        None => trade_actions(outcome.trade),
    }
}

/// What carries out a launch: the supply is minted into the curve's custody and the creator
/// pays the creation fee to the treasury.
pub open spec fn launch_actions(created: CurveCreated) -> Seq<CustodyAction> {
    (if created.minted == 0 {
        Seq::empty()
    } else {
        seq![CustodyAction::MintAsset { to: Party::Curve, amount: created.minted }]
    }) + native_transfer(Party::Creator, Party::Treasury, created.creation_fee)
}

/// What carries out a confirmation: the liquidity receipts to burn leave the curve.
pub open spec fn confirmation_actions(confirmation: Confirmation) -> Seq<CustodyAction> {
    if confirmation.burned == 0 {
        Seq::empty()
    } else {
        seq![CustodyAction::BurnReceipts { from: Party::Curve, amount: confirmation.burned }]
    }
}

/// The action moves or makes a positive amount, or creates an account.
pub open spec fn moves_something(action: CustodyAction) -> bool {
    match action {
        CustodyAction::EnsureHoldingAccount { .. } => true,
        CustodyAction::TransferNative { amount, .. } => amount > 0,
        CustodyAction::TransferAsset { amount, .. } => amount > 0,
        CustodyAction::MintAsset { amount, .. } => amount > 0,
        CustodyAction::BurnReceipts { amount, .. } => amount > 0,
    }
}

fn push_native(actions: &mut Vec<CustodyAction>, from: Party, to: Party, amount: u64)
    ensures
        final(actions)@ == old(actions)@ + native_transfer(from, to, amount),
{
    if amount > 0 {
        actions.push(CustodyAction::TransferNative { from, to, amount });
    }
}

fn push_asset(actions: &mut Vec<CustodyAction>, from: Party, to: Party, amount: u64)
    ensures
        final(actions)@ == old(actions)@ + asset_transfer(from, to, amount),
{
    if amount > 0 {
        actions.push(CustodyAction::TransferAsset { from, to, authority: from, amount });
    }
}

fn push_creation(actions: &mut Vec<CustodyAction>, account: Party, status: HoldingAccountStatus)
    ensures
        final(actions)@ == old(actions)@ + holding_account_creation(account, status),
{
    match status {
        HoldingAccountStatus::Created => {
            actions.push(CustodyAction::EnsureHoldingAccount { account });
        },
        HoldingAccountStatus::Existed => {},
    }
}

fn push_trade(actions: &mut Vec<CustodyAction>, trade: &TradeEvent)
    ensures
        final(actions)@ == old(actions)@ + trade_actions(*trade),
{
    match trade.direction {
        TradeDirection::Buy => {
            push_native(actions, Party::Trader, Party::Curve, trade.net);
            push_native(actions, Party::Trader, Party::Treasury, trade.fee);
            push_asset(actions, Party::Curve, Party::Trader, trade.amount_out);
        },
        TradeDirection::Sell => {
            push_asset(actions, Party::Trader, Party::Curve, trade.net);
            push_asset(actions, Party::Trader, Party::Treasury, trade.fee);
            push_native(actions, Party::Curve, Party::Trader, trade.amount_out);
        },
    }
}

fn push_migration(actions: &mut Vec<CustodyAction>, migration: &Migration)
    ensures
        final(actions)@ == old(actions)@ + migration_actions(*migration),
{
    push_creation(actions, Party::TokenHolding, migration.token_account);
    push_creation(actions, Party::BaseHolding, migration.wsol_account);
    push_asset(actions, Party::Curve, Party::TokenHolding, migration.request.token_amount);
    push_native(actions, Party::Curve, Party::BaseHolding, migration.request.wsol_amount);
}

impl TradeEvent {
    /// The actions that carry out the trade: `trade_actions`.
    pub fn custody_actions(&self) -> (actions: Vec<CustodyAction>)
        ensures
            actions@ == trade_actions(*self),
            all_move_something(actions@),
    {
        let mut actions: Vec<CustodyAction> = Vec::new();
        push_trade(&mut actions, self);
        proof {
            lemma_trade_actions_move_something(*self);
        }
        actions
    }
}

impl Migration {
    /// The actions that carry out the sweep: `migration_actions`.
    pub fn custody_actions(&self) -> (actions: Vec<CustodyAction>)
        ensures
            actions@ == migration_actions(*self),
            all_move_something(actions@),
    {
        let mut actions: Vec<CustodyAction> = Vec::new();
        push_migration(&mut actions, self);
        proof {
            lemma_migration_actions_move_something(*self);
        }
        actions
    }
}

impl BuyOutcome {
    /// The actions that carry out the buy: `buy_actions`.
    pub fn custody_actions(&self) -> (actions: Vec<CustodyAction>)
        ensures
            actions@ == buy_actions(*self),
            all_move_something(actions@),
    {
        let mut actions: Vec<CustodyAction> = Vec::new();
        push_trade(&mut actions, &self.trade);
        match &self.migration {
            Some(migration) => {
                push_migration(&mut actions, migration);
            },
            None => {},
        }
        proof {
            lemma_buy_actions_move_something(*self);
        }
        actions
    }
}

impl CurveCreated {
    /// The actions that carry out the launch: `launch_actions`.
    pub fn custody_actions(&self) -> (actions: Vec<CustodyAction>)
        ensures
            actions@ == launch_actions(*self),
            all_move_something(actions@),
    {
        let mut actions: Vec<CustodyAction> = Vec::new();
        if self.minted > 0 {
            actions.push(CustodyAction::MintAsset { to: Party::Curve, amount: self.minted });
        }
        push_native(&mut actions, Party::Creator, Party::Treasury, self.creation_fee);
        proof {
            lemma_launch_actions_move_something(*self);
        }
        actions
    }
}

impl Confirmation {
    /// The actions that carry out the confirmation: `confirmation_actions`.
    pub fn custody_actions(&self) -> (actions: Vec<CustodyAction>)
        ensures
            actions@ == confirmation_actions(*self),
            all_move_something(actions@),
    {
        let mut actions: Vec<CustodyAction> = Vec::new();
        if self.burned > 0 {
            actions.push(CustodyAction::BurnReceipts { from: Party::Curve, amount: self.burned });
        }
        actions
    }
}

/// Every action of the list moves or makes something.
pub open spec fn all_move_something(actions: Seq<CustodyAction>) -> bool {
    forall|i: int| 0 <= i < actions.len() ==> moves_something(#[trigger] actions[i])
}

proof fn lemma_joined_actions_move_something(first: Seq<CustodyAction>, second: Seq<CustodyAction>)
    requires
        all_move_something(first),
        all_move_something(second),
    ensures
        all_move_something(first + second),
{
    assert forall|i: int| 0 <= i < (first + second).len() implies moves_something(
        #[trigger] (first + second)[i],
    ) by {
        if i < first.len() {
            assert((first + second)[i] == first[i]);
        } else {
            assert((first + second)[i] == second[i - first.len()]);
        }
    }
}

/// The actions of a trade hold no move of nothing.
proof fn lemma_trade_actions_move_something(trade: TradeEvent)
    ensures
        all_move_something(trade_actions(trade)),
{
    match trade.direction {
        TradeDirection::Buy => {
            let pay = native_transfer(Party::Trader, Party::Curve, trade.net);
            let fee = native_transfer(Party::Trader, Party::Treasury, trade.fee);
            let hand = asset_transfer(Party::Curve, Party::Trader, trade.amount_out);
            lemma_joined_actions_move_something(pay, fee);
            lemma_joined_actions_move_something(pay + fee, hand);
        },
        TradeDirection::Sell => {
            let pay = asset_transfer(Party::Trader, Party::Curve, trade.net);
            let fee = asset_transfer(Party::Trader, Party::Treasury, trade.fee);
            let hand = native_transfer(Party::Curve, Party::Trader, trade.amount_out);
            lemma_joined_actions_move_something(pay, fee);
            lemma_joined_actions_move_something(pay + fee, hand);
        },
    }
}

/// The actions of a sweep hold no move of nothing.
proof fn lemma_migration_actions_move_something(migration: Migration)
    ensures
        all_move_something(migration_actions(migration)),
{
    let token = holding_account_creation(Party::TokenHolding, migration.token_account);
    let base = holding_account_creation(Party::BaseHolding, migration.wsol_account);
    let tokens = asset_transfer(Party::Curve, Party::TokenHolding, migration.request.token_amount);
    let sol = native_transfer(Party::Curve, Party::BaseHolding, migration.request.wsol_amount);
    lemma_joined_actions_move_something(token, base);
    lemma_joined_actions_move_something(token + base, tokens);
    lemma_joined_actions_move_something(token + base + tokens, sol);
}

/// The actions of a buy hold no move of nothing.
proof fn lemma_buy_actions_move_something(outcome: BuyOutcome)
    ensures
        all_move_something(buy_actions(outcome)),
{
    lemma_trade_actions_move_something(outcome.trade);
    match outcome.migration {
        Some(migration) => {
            lemma_migration_actions_move_something(migration);
            lemma_joined_actions_move_something(
                trade_actions(outcome.trade),
                migration_actions(migration),
            );
        },
        None => {},
    }
}

/// The actions of a launch hold no move of nothing.
proof fn lemma_launch_actions_move_something(created: CurveCreated)
    ensures
        all_move_something(launch_actions(created)),
{
    let mint = if created.minted == 0 {
        Seq::<CustodyAction>::empty()
    } else {
        seq![CustodyAction::MintAsset { to: Party::Curve, amount: created.minted }]
    };
    lemma_joined_actions_move_something(
        mint,
        native_transfer(Party::Creator, Party::Treasury, created.creation_fee),
    );
}

} // verus!
