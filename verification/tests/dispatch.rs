use school_rules::banking::BankTransactionData;
use school_rules::context::SetDocContext;
use school_rules::dispatch::assert_set_doc;
use school_rules::dispatch::collection_kind;
use school_rules::dispatch::CollectionKind;
use school_rules::dispatch::SetDoc;
use school_rules::payments::PaymentData;

#[test]
fn collections_are_known_by_name() {
    assert_eq!(collection_kind("expenses"), CollectionKind::Expense);
    assert_eq!(collection_kind("expense_categories"), CollectionKind::ExpenseCategory);
    assert_eq!(collection_kind("students"), CollectionKind::Student);
    assert_eq!(collection_kind("payments"), CollectionKind::Payment);
    assert_eq!(collection_kind("staff"), CollectionKind::Staff);
    assert_eq!(collection_kind("salary_payments"), CollectionKind::SalaryPayment);
    assert_eq!(collection_kind("fee_assignments"), CollectionKind::FeeAssignment);
    assert_eq!(collection_kind("scholarships"), CollectionKind::Scholarship);
    assert_eq!(collection_kind("bank_transactions"), CollectionKind::BankTransaction);
    assert_eq!(collection_kind("bank_transfers"), CollectionKind::Transfer);
    assert_eq!(collection_kind("bank_accounts"), CollectionKind::BankAccount);
}

#[test]
fn other_collections_have_no_rules() {
    for name in ["budgets", "fee_categories", "classes", "Expenses", "expenses ", "", "anything"] {
        assert_eq!(collection_kind(name), CollectionKind::Unchecked);
    }
    assert_eq!(assert_set_doc(&SetDoc::Unchecked), Ok(()));
}

#[test]
fn a_write_is_judged_by_the_rules_of_its_kind() {
    let transaction = BankTransactionData {
        debit_amount: 5,
        credit_amount: 5,
        balance: 0,
        status: "pending".to_string(),
        is_reconciled: None,
    };
    let doc = SetDoc::BankTransaction(SetDocContext {
        key: String::new(),
        proposed: Ok(transaction),
        current: None,
    });
    assert_eq!(
        assert_set_doc(&doc),
        Err("SECURITY: Transaction cannot have both debit and credit amounts".to_string())
    );
    let unreadable: SetDocContext<PaymentData> =
        SetDocContext { key: String::new(), proposed: Err("eof".to_string()), current: None };
    assert_eq!(
        assert_set_doc(&SetDoc::Payment(unreadable)),
        Err("Invalid payment data format: eof".to_string())
    );
}
