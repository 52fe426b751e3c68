//! Bank transactions, transfers between accounts, and bank accounts.
//!
//! These rules guard the integrity of the ledger: one side to a transaction,
//! ceilings on amounts and overdrafts, and approval of large transfers.

use vstd::prelude::*;
use crate::context::SetDocContext;
use crate::money::fixed_text;
use crate::money::push_fixed;
use crate::status::transfer_graph;
use crate::status::transfer_statuses;
use crate::status::transition_verdict;
use crate::text::is_one_of;
use crate::text::literal_views;
use crate::text::str_equal;
use crate::verdict::and_then;
use crate::verdict::is_lacking;
use crate::verdict::lacks_text;
use crate::verdict::outcome;
use crate::verdict::quote;
use crate::verdict::quoting;
use crate::verdict::rejection;
use crate::verdict::unreadable;
use crate::verdict::Verdict;

verus! {

/// An entry in the ledger of a bank account. Amounts are in hundredths of
/// the currency unit.
#[derive(Clone, Debug)]
pub struct BankTransactionData {
    pub debit_amount: i64,
    pub credit_amount: i64,
    pub balance: i64,
    pub status: String,
    pub is_reconciled: Option<bool>,
}

/// A transfer from one account to another.
#[derive(Clone, Debug)]
pub struct InterAccountTransferData {
    pub from_account_id: String,
    pub to_account_id: String,
    pub amount: i64,
    pub status: String,
    pub approved_by: Option<String>,
    pub approved_at: Option<u64>,
}

/// A bank account.
#[derive(Clone, Debug)]
pub struct BankAccountData {
    pub account_type: String,
    pub balance: i64,
}

/// The largest amount of one transaction or transfer: a thousand million.
pub const MAX_SINGLE_TRANSACTION: i64 = 100_000_000_000;

/// The largest transfer that is completed without approval: five million.
pub const MAX_TRANSFER_WITHOUT_APPROVAL: i64 = 500_000_000;

/// The deepest overdraft that a transaction may leave: ten million.
pub const OVERDRAFT_ALERT_THRESHOLD: i64 = -1_000_000_000;

/// The deepest overdraft that an account may show: fifty million.
pub const ACCOUNT_OVERDRAFT_LIMIT: i64 = -5_000_000_000;

// ---------------------------------------------------------------------------
// Transactions
// ---------------------------------------------------------------------------

/// The larger of the two sides of a transaction.
pub open spec fn transaction_amount(data: BankTransactionData) -> int {
    if data.debit_amount >= data.credit_amount {
        data.debit_amount as int
    } else {
        data.credit_amount as int
    }
}

/// The rejection of a transaction above the ceiling: it quotes the amount
/// and the ceiling.
pub open spec fn transaction_too_large(amount: int) -> Seq<char> {
    "FRAUD ALERT: Transaction amount ₦"@ + fixed_text(amount) + " exceeds maximum limit of ₦"@
        + fixed_text(MAX_SINGLE_TRANSACTION as int) + ". Contact administrator."@
}

/// The rejection of a transaction that leaves too deep an overdraft.
pub open spec fn overdraft_too_deep(balance: int) -> Seq<char> {
    "FRAUD ALERT: Account balance ₦"@ + fixed_text(balance)
        + " exceeds reasonable overdraft limit. Verify account status."@
}

/// The statuses of a transaction.
pub open spec fn transaction_statuses() -> Seq<Seq<char>> {
    seq!["pending"@, "cleared"@, "reconciled"@]
}

/// A transaction has one side: neither side is negative, not both are
/// positive, and not both are zero.
pub open spec fn double_entry_verdict(data: BankTransactionData) -> Verdict {
    if data.debit_amount < 0 || data.credit_amount < 0 {
        Err("SECURITY: Transaction amounts cannot be negative"@)
    } else if data.debit_amount > 0 && data.credit_amount > 0 {
        Err("SECURITY: Transaction cannot have both debit and credit amounts"@)
    } else if data.debit_amount == 0 && data.credit_amount == 0 {
        Err("SECURITY: Transaction must have a non-zero amount"@)
    } else {
        Ok(())
    }
}

/// The amount and the balance of a transaction are within the ceilings.
pub open spec fn transaction_limits_verdict(data: BankTransactionData) -> Verdict {
    if transaction_amount(data) > MAX_SINGLE_TRANSACTION {
        Err(transaction_too_large(transaction_amount(data)))
    } else if data.balance < OVERDRAFT_ALERT_THRESHOLD {
        Err(overdraft_too_deep(data.balance as int))
    } else {
        Ok(())
    }
}

/// The status of a transaction is a known one, and a reconciled transaction
/// is flagged as reconciled.
pub open spec fn transaction_status_verdict(data: BankTransactionData) -> Verdict {
    if !transaction_statuses().contains(data.status@) {
        Err(quoting("Invalid status '"@, data.status@, "'. Must be: pending, cleared, or reconciled"@))
    } else if data.status@ == "reconciled"@ && data.is_reconciled != Some(true) {
        Err("AUDIT: Status is 'reconciled' but isReconciled flag is false"@)
    } else {
        Ok(())
    }
}

/// The verdict on a write of a transaction: a record that cannot be read is
/// rejected with the decoder's words; else the first of these that fails
/// rejects: the double entry, the ceilings, the status.
pub open spec fn bank_transaction_verdict(context: SetDocContext<BankTransactionData>) -> Verdict {
    match context.proposed {
        Err(failure) => Err("Invalid bank transaction data format: "@ + failure@),
        Ok(data) => and_then(
            double_entry_verdict(data),
            and_then(transaction_limits_verdict(data), transaction_status_verdict(data)),
        ),
    }
}

/// A transaction with both a debit and a credit is never accepted.
pub proof fn lemma_two_sided_transaction_rejected(context: SetDocContext<BankTransactionData>)
    requires
        context.proposed is Ok,
        context.proposed->Ok_0.debit_amount > 0,
        context.proposed->Ok_0.credit_amount > 0,
    ensures
        bank_transaction_verdict(context) == Err::<(), Seq<char>>(
            "SECURITY: Transaction cannot have both debit and credit amounts"@,
        ),
{
}

/// An accepted transaction has exactly one positive side.
pub proof fn lemma_accepted_transaction_one_sided(context: SetDocContext<BankTransactionData>)
    requires
        bank_transaction_verdict(context) is Ok,
    ensures
        context.proposed is Ok,
        (context.proposed->Ok_0.debit_amount > 0 && context.proposed->Ok_0.credit_amount == 0) || (
        context.proposed->Ok_0.debit_amount == 0 && context.proposed->Ok_0.credit_amount > 0),
{
}

fn check_double_entry(data: &BankTransactionData) -> (res: Result<(), String>)
    ensures
        outcome(res) == double_entry_verdict(*data),
{
    if data.debit_amount < 0 || data.credit_amount < 0 {
        return rejection("SECURITY: Transaction amounts cannot be negative");
    }
    if data.debit_amount > 0 && data.credit_amount > 0 {
        return rejection("SECURITY: Transaction cannot have both debit and credit amounts");
    }
    if data.debit_amount == 0 && data.credit_amount == 0 {
        return rejection("SECURITY: Transaction must have a non-zero amount");
    }
    Ok(())
}

fn check_transaction_limits(data: &BankTransactionData) -> (res: Result<(), String>)
    ensures
        outcome(res) == transaction_limits_verdict(*data),
{
    let amount = if data.debit_amount >= data.credit_amount {
        data.debit_amount
    } else {
        data.credit_amount
    };
    if amount > MAX_SINGLE_TRANSACTION {
        let mut message = "FRAUD ALERT: Transaction amount ₦".to_string();
        push_fixed(&mut message, amount);
        message.append(" exceeds maximum limit of ₦");
        push_fixed(&mut message, MAX_SINGLE_TRANSACTION);
        message.append(". Contact administrator.");
        return Err(message);
    }
    if data.balance < OVERDRAFT_ALERT_THRESHOLD {
        let mut message = "FRAUD ALERT: Account balance ₦".to_string();
        push_fixed(&mut message, data.balance);
        message.append(" exceeds reasonable overdraft limit. Verify account status.");
        return Err(message);
    }
    Ok(())
}

fn check_transaction_status(data: &BankTransactionData) -> (res: Result<(), String>)
    ensures
        outcome(res) == transaction_status_verdict(*data),
{
    let statuses: Vec<&'static str> = vec!["pending", "cleared", "reconciled"];
    proof {
        assert(literal_views(statuses@) =~= transaction_statuses());
    }
    if !is_one_of(data.status.as_str(), &statuses) {
        return Err(
            quote("Invalid status '", data.status.as_str(), "'. Must be: pending, cleared, or reconciled"),
        );
    }
    if str_equal(data.status.as_str(), "reconciled") {
        let flagged = match data.is_reconciled {
            Some(flag) => flag,
            None => false,
        };
        if !flagged {
            return rejection("AUDIT: Status is 'reconciled' but isReconciled flag is false");
        }
    }
    Ok(())
}

/// Decides on a write of a bank transaction.
pub fn validate_bank_transaction(context: &SetDocContext<BankTransactionData>) -> (res: Result<
    (),
    String,
>)
    ensures
        outcome(res) == bank_transaction_verdict(*context),
{
    match &context.proposed {
        Err(failure) => unreadable("Invalid bank transaction data format: ", failure),
        Ok(data) => {
            match check_double_entry(data) {
                Err(message) => {
                    return Err(message);
                },
                Ok(_) => {},
            }
            match check_transaction_limits(data) {
                Err(message) => {
                    return Err(message);
                },
                Ok(_) => {},
            }
            check_transaction_status(data)
        },
    }
}

// ---------------------------------------------------------------------------
// Transfers
// ---------------------------------------------------------------------------

/// The rejection of a transfer above the ceiling.
pub open spec fn transfer_too_large(amount: int) -> Seq<char> {
    "FRAUD ALERT: Transfer amount ₦"@ + fixed_text(amount)
        + " exceeds maximum limit. Contact administrator."@
}

/// The rejection of a large transfer that is completed without approval: it
/// quotes the amount from which approval is needed.
pub open spec fn approval_required() -> Seq<char> {
    "APPROVAL REQUIRED: Transfers over ₦"@ + fixed_text(MAX_TRANSFER_WITHOUT_APPROVAL as int)
        + " require approval before completion"@
}

/// A transfer goes between two accounts, and its amount is positive and
/// within the ceiling.
pub open spec fn transfer_amount_verdict(data: InterAccountTransferData) -> Verdict {
    if data.from_account_id@ == data.to_account_id@ {
        Err("SECURITY: Cannot transfer to the same account. Self-transfers are prohibited."@)
    } else if data.amount <= 0 {
        Err("Transfer amount must be greater than 0"@)
    } else if data.amount > MAX_SINGLE_TRANSACTION {
        Err(transfer_too_large(data.amount as int))
    } else {
        Ok(())
    }
}

/// The status of a transfer is a known one; a transfer is entered with any
/// of them; a changed transfer keeps its status or moves along the graph.
pub open spec fn transfer_status_verdict(
    current: Option<Result<InterAccountTransferData, String>>,
    data: InterAccountTransferData,
) -> Verdict {
    let graph = transfer_statuses();
    if !graph.knows(data.status@) {
        Err(quoting("Invalid status '"@, data.status@, "'"@))
    } else {
        match current {
            Some(Err(failure)) => Err("Invalid previous transfer data: "@ + failure@),
            Some(Ok(before)) => transition_verdict(graph, before.status@, data.status@),
            None => Ok(()),
        }
    }
}

/// A transfer above five million is completed only with approval: the
/// approver is named and the time of approval is given.
pub open spec fn transfer_approval_verdict(data: InterAccountTransferData) -> Verdict {
    if data.amount > MAX_TRANSFER_WITHOUT_APPROVAL && data.status@ == "completed"@ {
        if lacks_text(data.approved_by) {
            Err(approval_required())
        } else if data.approved_at is None {
            Err("AUDIT: Approved transfers must have approvedAt timestamp"@)
        } else {
            Ok(())
        }
    } else {
        Ok(())
    }
}

/// The verdict on a write of a transfer: a record that cannot be read is
/// rejected with the decoder's words; else the first of these that fails
/// rejects: the accounts and the amount, the status, the approval.
pub open spec fn transfer_verdict(context: SetDocContext<InterAccountTransferData>) -> Verdict {
    match context.proposed {
        Err(failure) => Err("Invalid transfer data format: "@ + failure@),
        Ok(data) => and_then(
            transfer_amount_verdict(data),
            and_then(
                transfer_status_verdict(context.current, data),
                transfer_approval_verdict(data),
            ),
        ),
    }
}

/// A change of status along no edge of the transfer graph is rejected, and
/// where the accounts and the amount are in order, with the transition
/// error.
pub proof fn lemma_transfer_transition_rejected(
    context: SetDocContext<InterAccountTransferData>,
    before: InterAccountTransferData,
)
    requires
        context.proposed is Ok,
        context.current == Some(Ok::<InterAccountTransferData, String>(before)),
        transfer_statuses().knows(context.proposed->Ok_0.status@),
        before.status@ != context.proposed->Ok_0.status@,
        !transfer_statuses().allows(before.status@, context.proposed->Ok_0.status@),
    ensures
        transfer_verdict(context) is Err,
        transfer_amount_verdict(context.proposed->Ok_0) is Ok ==> transfer_verdict(context)
            == transition_verdict(
            transfer_statuses(),
            before.status@,
            context.proposed->Ok_0.status@,
        ),
{
}

/// No accepted transfer above five million is completed without an approver
/// and a time of approval.
pub proof fn lemma_large_transfer_needs_approval(context: SetDocContext<InterAccountTransferData>)
    requires
        transfer_verdict(context) is Ok,
        context.proposed->Ok_0.amount > MAX_TRANSFER_WITHOUT_APPROVAL,
        context.proposed->Ok_0.status@ == "completed"@,
    ensures
        !lacks_text(context.proposed->Ok_0.approved_by),
        context.proposed->Ok_0.approved_at is Some,
{
}

fn check_transfer_amount(data: &InterAccountTransferData) -> (res: Result<(), String>)
    ensures
        outcome(res) == transfer_amount_verdict(*data),
{
    if str_equal(data.from_account_id.as_str(), data.to_account_id.as_str()) {
        return rejection(
            "SECURITY: Cannot transfer to the same account. Self-transfers are prohibited.",
        );
    }
    if data.amount <= 0 {
        return rejection("Transfer amount must be greater than 0");
    }
    if data.amount > MAX_SINGLE_TRANSACTION {
        let mut message = "FRAUD ALERT: Transfer amount ₦".to_string();
        push_fixed(&mut message, data.amount);
        message.append(" exceeds maximum limit. Contact administrator.");
        return Err(message);
    }
    Ok(())
}

fn check_transfer_status(
    context: &SetDocContext<InterAccountTransferData>,
    data: &InterAccountTransferData,
) -> (res: Result<(), String>)
    ensures
        outcome(res) == transfer_status_verdict(context.current, *data),
{
    let graph = transfer_graph();
    if !graph.knows(data.status.as_str()) {
        return Err(quote("Invalid status '", data.status.as_str(), "'"));
    }
    match &context.current {
        Some(Err(failure)) => unreadable("Invalid previous transfer data: ", failure),
        Some(Ok(before)) => graph.check_transition(before.status.as_str(), data.status.as_str()),
        None => Ok(()),
    }
}

fn check_transfer_approval(data: &InterAccountTransferData) -> (res: Result<(), String>)
    ensures
        outcome(res) == transfer_approval_verdict(*data),
{
    if data.amount > MAX_TRANSFER_WITHOUT_APPROVAL && str_equal(data.status.as_str(), "completed") {
        if is_lacking(&data.approved_by) {
            let mut message = "APPROVAL REQUIRED: Transfers over ₦".to_string();
            push_fixed(&mut message, MAX_TRANSFER_WITHOUT_APPROVAL);
            message.append(" require approval before completion");
            return Err(message);
        }
        if data.approved_at.is_none() {
            return rejection("AUDIT: Approved transfers must have approvedAt timestamp");
        }
    }
    Ok(())
}

/// Decides on a write of a transfer between accounts.
pub fn validate_transfer(context: &SetDocContext<InterAccountTransferData>) -> (res: Result<
    (),
    String,
>)
    ensures
        outcome(res) == transfer_verdict(*context),
{
    match &context.proposed {
        Err(failure) => unreadable("Invalid transfer data format: ", failure),
        Ok(data) => {
            match check_transfer_amount(data) {
                Err(message) => {
                    return Err(message);
                },
                Ok(_) => {},
            }
            match check_transfer_status(context, data) {
                Err(message) => {
                    return Err(message);
                },
                Ok(_) => {},
            }
            check_transfer_approval(data)
        },
    }
}

// ---------------------------------------------------------------------------
// Accounts
// ---------------------------------------------------------------------------

/// The kinds of bank account.
pub open spec fn account_types() -> Seq<Seq<char>> {
    seq!["current"@, "savings"@]
}

/// The rejection of an account whose balance is too far below zero.
pub open spec fn balance_too_negative(balance: int) -> Seq<char> {
    "FRAUD ALERT: Account balance ₦"@ + fixed_text(balance)
        + " is unreasonably negative. Verify account integrity."@
}

/// The verdict on a write of a bank account: a record that cannot be read is
/// rejected with the decoder's words; else the kind of account is a known
/// one, and the balance is not below fifty million under zero.
pub open spec fn bank_account_verdict(context: SetDocContext<BankAccountData>) -> Verdict {
    match context.proposed {
        Err(failure) => Err("Invalid bank account data format: "@ + failure@),
        Ok(data) => if !account_types().contains(data.account_type@) {
            Err(quoting("Invalid accountType '"@, data.account_type@, "'. Must be: current or savings"@))
        } else if data.balance < ACCOUNT_OVERDRAFT_LIMIT {
            Err(balance_too_negative(data.balance as int))
        } else {
            Ok(())
        },
    }
}

/// Decides on a write of a bank account.
pub fn validate_bank_account(context: &SetDocContext<BankAccountData>) -> (res: Result<(), String>)
    ensures
        outcome(res) == bank_account_verdict(*context),
{
    match &context.proposed {
        Err(failure) => unreadable("Invalid bank account data format: ", failure),
        Ok(data) => {
            let kinds: Vec<&'static str> = vec!["current", "savings"];
            proof {
                assert(literal_views(kinds@) =~= account_types());
            }
            if !is_one_of(data.account_type.as_str(), &kinds) {
                return Err(
                    quote(
                        "Invalid accountType '",
                        data.account_type.as_str(),
                        "'. Must be: current or savings",
                    ),
                );
            }
            if data.balance < ACCOUNT_OVERDRAFT_LIMIT {
                let mut message = "FRAUD ALERT: Account balance ₦".to_string();
                push_fixed(&mut message, data.balance);
                message.append(" is unreasonably negative. Verify account integrity.");
                return Err(message);
            }
            Ok(())
        },
    }
}

} // verus!
