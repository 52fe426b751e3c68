use school_rules::banking::validate_bank_account;
use school_rules::banking::validate_bank_transaction;
use school_rules::banking::validate_transfer;
use school_rules::banking::BankAccountData;
use school_rules::banking::BankTransactionData;
use school_rules::banking::InterAccountTransferData;
use school_rules::context::SetDocContext;

fn transaction(debit: i64, credit: i64) -> BankTransactionData {
    BankTransactionData {
        debit_amount: debit,
        credit_amount: credit,
        balance: 10_000_000,
        status: "pending".to_string(),
        is_reconciled: None,
    }
}

fn transfer(amount: i64, status: &str) -> InterAccountTransferData {
    InterAccountTransferData {
        from_account_id: "acc-1".to_string(),
        to_account_id: "acc-2".to_string(),
        amount,
        status: status.to_string(),
        approved_by: None,
        approved_at: None,
    }
}

fn create<T>(record: T) -> SetDocContext<T> {
    SetDocContext { key: String::new(), proposed: Ok(record), current: None }
}

fn update<T>(before: T, record: T) -> SetDocContext<T> {
    SetDocContext { key: "k1".to_string(), proposed: Ok(record), current: Some(Ok(before)) }
}

fn reject(message: &str) -> Result<(), String> {
    Err(message.to_string())
}

#[test]
fn a_transaction_with_debit_and_credit_is_rejected() {
    assert_eq!(
        validate_bank_transaction(&create(transaction(100_000, 50_000))),
        reject("SECURITY: Transaction cannot have both debit and credit amounts")
    );
}

#[test]
fn a_transaction_has_exactly_one_side() {
    assert_eq!(validate_bank_transaction(&create(transaction(100_000, 0))), Ok(()));
    assert_eq!(validate_bank_transaction(&create(transaction(0, 100_000))), Ok(()));
    assert_eq!(
        validate_bank_transaction(&create(transaction(0, 0))),
        reject("SECURITY: Transaction must have a non-zero amount")
    );
    assert_eq!(
        validate_bank_transaction(&create(transaction(-1, 100))),
        reject("SECURITY: Transaction amounts cannot be negative")
    );
    assert_eq!(
        validate_bank_transaction(&create(transaction(100, -1))),
        reject("SECURITY: Transaction amounts cannot be negative")
    );
}

#[test]
fn ceilings_of_a_transaction() {
    assert_eq!(validate_bank_transaction(&create(transaction(100_000_000_000, 0))), Ok(()));
    assert_eq!(
        validate_bank_transaction(&create(transaction(0, 100_000_000_001))),
        reject(
            "FRAUD ALERT: Transaction amount ₦1000000000.01 exceeds maximum limit of ₦1000000000.00. Contact administrator."
        )
    );
    let mut t = transaction(100, 0);
    t.balance = -1_000_000_000;
    assert_eq!(validate_bank_transaction(&create(t.clone())), Ok(()));
    t.balance = -1_000_000_001;
    assert_eq!(
        validate_bank_transaction(&create(t)),
        reject("FRAUD ALERT: Account balance ₦-10000000.01 exceeds reasonable overdraft limit. Verify account status.")
    );
}

#[test]
fn status_of_a_transaction() {
    let mut t = transaction(100, 0);
    t.status = "done".to_string();
    assert_eq!(
        validate_bank_transaction(&create(t.clone())),
        reject("Invalid status 'done'. Must be: pending, cleared, or reconciled")
    );
    t.status = "cleared".to_string();
    assert_eq!(validate_bank_transaction(&create(t.clone())), Ok(()));
    t.status = "reconciled".to_string();
    assert_eq!(
        validate_bank_transaction(&create(t.clone())),
        reject("AUDIT: Status is 'reconciled' but isReconciled flag is false")
    );
    t.is_reconciled = Some(false);
    assert_eq!(
        validate_bank_transaction(&create(t.clone())),
        reject("AUDIT: Status is 'reconciled' but isReconciled flag is false")
    );
    t.is_reconciled = Some(true);
    assert_eq!(validate_bank_transaction(&create(t)), Ok(()));
}

#[test]
fn a_transaction_that_cannot_be_read_is_rejected() {
    let context: SetDocContext<BankTransactionData> =
        SetDocContext { key: String::new(), proposed: Err("eof".to_string()), current: None };
    assert_eq!(validate_bank_transaction(&context), reject("Invalid bank transaction data format: eof"));
}

#[test]
fn a_large_transfer_is_completed_only_with_approval() {
    // 6,000,000 proposed directly as completed, without approver fields.
    let mut t = transfer(600_000_000, "completed");
    assert_eq!(
        validate_transfer(&create(t.clone())),
        reject("APPROVAL REQUIRED: Transfers over ₦5000000.00 require approval before completion")
    );
    t.approved_by = Some("  ".to_string());
    assert_eq!(
        validate_transfer(&create(t.clone())),
        reject("APPROVAL REQUIRED: Transfers over ₦5000000.00 require approval before completion")
    );
    t.approved_by = Some("bursar".to_string());
    assert_eq!(
        validate_transfer(&create(t.clone())),
        reject("AUDIT: Approved transfers must have approvedAt timestamp")
    );
    // The same transfer with approver identity and timestamp.
    t.approved_at = Some(1_710_000_000_000_000_000);
    assert_eq!(validate_transfer(&create(t)), Ok(()));
}

#[test]
fn approval_is_asked_above_five_million_and_on_completion_only() {
    assert_eq!(validate_transfer(&create(transfer(500_000_000, "completed"))), Ok(()));
    assert!(validate_transfer(&create(transfer(500_000_001, "completed"))).is_err());
    for status in ["pending", "approved", "rejected", "cancelled"] {
        assert_eq!(validate_transfer(&create(transfer(600_000_000, status))), Ok(()));
    }
}

#[test]
fn accounts_and_amount_of_a_transfer() {
    let mut t = transfer(100, "pending");
    t.to_account_id = "acc-1".to_string();
    assert_eq!(
        validate_transfer(&create(t)),
        reject("SECURITY: Cannot transfer to the same account. Self-transfers are prohibited.")
    );
    assert_eq!(
        validate_transfer(&create(transfer(0, "pending"))),
        reject("Transfer amount must be greater than 0")
    );
    assert_eq!(
        validate_transfer(&create(transfer(100_000_000_001, "pending"))),
        reject("FRAUD ALERT: Transfer amount ₦1000000000.01 exceeds maximum limit. Contact administrator.")
    );
    assert_eq!(validate_transfer(&create(transfer(100, "done"))), reject("Invalid status 'done'"));
    let context: SetDocContext<InterAccountTransferData> =
        SetDocContext { key: String::new(), proposed: Err("eof".to_string()), current: None };
    assert_eq!(validate_transfer(&context), reject("Invalid transfer data format: eof"));
}

#[test]
fn transfers_follow_their_graph() {
    let all = ["pending", "approved", "completed", "rejected", "cancelled"];
    let allowed =
        [("pending", "approved"), ("pending", "rejected"), ("pending", "cancelled"), ("approved", "completed")];
    for from in all {
        for to in all {
            let verdict = validate_transfer(&update(transfer(100, from), transfer(100, to)));
            if from == to || allowed.contains(&(from, to)) {
                assert_eq!(verdict, Ok(()));
            } else {
                assert!(verdict.unwrap_err().starts_with(&format!(
                    "Invalid status transition from '{}' to '{}'. Allowed: [",
                    from, to
                )));
            }
        }
    }
    assert_eq!(
        validate_transfer(&update(transfer(100, "completed"), transfer(100, "pending"))),
        reject("Invalid status transition from 'completed' to 'pending'. Allowed: []")
    );
    let context = SetDocContext {
        key: "k1".to_string(),
        proposed: Ok(transfer(100, "pending")),
        current: Some(Err("bad".to_string())),
    };
    assert_eq!(validate_transfer(&context), reject("Invalid previous transfer data: bad"));
}

#[test]
fn a_bank_account() {
    let account = BankAccountData { account_type: "savings".to_string(), balance: -5_000_000_000 };
    assert_eq!(validate_bank_account(&create(account)), Ok(()));
    let account = BankAccountData { account_type: "current".to_string(), balance: -5_000_000_001 };
    assert_eq!(
        validate_bank_account(&create(account)),
        reject("FRAUD ALERT: Account balance ₦-50000000.01 is unreasonably negative. Verify account integrity.")
    );
    let account = BankAccountData { account_type: "loan".to_string(), balance: 0 };
    assert_eq!(
        validate_bank_account(&create(account)),
        reject("Invalid accountType 'loan'. Must be: current or savings")
    );
    let context: SetDocContext<BankAccountData> =
        SetDocContext { key: String::new(), proposed: Err("eof".to_string()), current: None };
    assert_eq!(validate_bank_account(&context), reject("Invalid bank account data format: eof"));
}
