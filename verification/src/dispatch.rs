//! From the name of a collection to the rules for its records.
//!
//! A write to a collection that has no rules here is accepted as it is.

use vstd::prelude::*;
use crate::banking::bank_account_verdict;
use crate::banking::bank_transaction_verdict;
use crate::banking::transfer_verdict;
use crate::banking::validate_bank_account;
use crate::banking::validate_bank_transaction;
use crate::banking::validate_transfer;
use crate::banking::BankAccountData;
use crate::banking::BankTransactionData;
use crate::banking::InterAccountTransferData;
use crate::context::Answer;
use crate::context::SetDocContext;
use crate::expenses::category_verdict;
use crate::expenses::expense_verdict;
use crate::expenses::validate_expense_category_document;
use crate::expenses::validate_expense_document;
use crate::expenses::ExpenseCategoryData;
use crate::expenses::ExpenseData;
use crate::expenses::ExpenseFindings;
use crate::fees::fee_assignment_verdict;
use crate::fees::scholarship_verdict;
use crate::fees::validate_scholarship;
use crate::fees::validate_student_fee_assignment;
use crate::fees::ScholarshipData;
use crate::fees::StudentFeeAssignmentData;
use crate::payments::payment_verdict;
use crate::payments::validate_payment_document;
use crate::payments::PaymentData;
use crate::staff::salary_verdict;
use crate::staff::staff_verdict;
use crate::staff::validate_salary_payment_document;
use crate::staff::validate_staff_document;
use crate::staff::SalaryFindings;
use crate::staff::SalaryPaymentData;
use crate::staff::StaffFindings;
use crate::staff::StaffMemberData;
use crate::students::student_verdict;
use crate::students::validate_student_document;
use crate::students::StudentData;
use crate::students::StudentFindings;
use crate::text::str_equal;
use crate::verdict::outcome;
use crate::verdict::Verdict;

verus! {

/// The kinds of record that have rules, and `Unchecked` for every other.
#[derive(Clone, Copy, Debug, PartialEq, Eq, Structural)]
pub enum CollectionKind {
    Expense,
    ExpenseCategory,
    Student,
    Payment,
    Staff,
    SalaryPayment,
    FeeAssignment,
    Scholarship,
    BankTransaction,
    Transfer,
    BankAccount,
    Unchecked,
}

/// The kind of record that a collection holds, by its name.
pub open spec fn kind_of(collection: Seq<char>) -> CollectionKind {
    if collection == "expenses"@ {
        CollectionKind::Expense
    } else if collection == "expense_categories"@ {
        CollectionKind::ExpenseCategory
    } else if collection == "students"@ {
        CollectionKind::Student
    } else if collection == "payments"@ {
        CollectionKind::Payment
    } else if collection == "staff"@ {
        CollectionKind::Staff
    } else if collection == "salary_payments"@ {
        CollectionKind::SalaryPayment
    } else if collection == "fee_assignments"@ {
        CollectionKind::FeeAssignment
    } else if collection == "scholarships"@ {
        CollectionKind::Scholarship
    } else if collection == "bank_transactions"@ {
        CollectionKind::BankTransaction
    } else if collection == "bank_transfers"@ {
        CollectionKind::Transfer
    } else if collection == "bank_accounts"@ {
        CollectionKind::BankAccount
    } else {
        CollectionKind::Unchecked
    }
}

/// The kind of record that the collection `collection` holds.
pub fn collection_kind(collection: &str) -> (kind: CollectionKind)
    ensures
        kind == kind_of(collection@),
{
    if str_equal(collection, "expenses") {
        CollectionKind::Expense
    } else if str_equal(collection, "expense_categories") {
        CollectionKind::ExpenseCategory
    } else if str_equal(collection, "students") {
        CollectionKind::Student
    } else if str_equal(collection, "payments") {
        CollectionKind::Payment
    } else if str_equal(collection, "staff") {
        CollectionKind::Staff
    } else if str_equal(collection, "salary_payments") {
        CollectionKind::SalaryPayment
    } else if str_equal(collection, "fee_assignments") {
        CollectionKind::FeeAssignment
    } else if str_equal(collection, "scholarships") {
        CollectionKind::Scholarship
    } else if str_equal(collection, "bank_transactions") {
        CollectionKind::BankTransaction
    } else if str_equal(collection, "bank_transfers") {
        CollectionKind::Transfer
    } else if str_equal(collection, "bank_accounts") {
        CollectionKind::BankAccount
    } else {
        CollectionKind::Unchecked
    }
}

/// An attempted write, by the kind of its record.
pub enum SetDoc {
    Expense(SetDocContext<ExpenseData>),
    ExpenseCategory(SetDocContext<ExpenseCategoryData>),
    Student(SetDocContext<StudentData>),
    Payment(SetDocContext<PaymentData>),
    Staff(SetDocContext<StaffMemberData>),
    SalaryPayment(SetDocContext<SalaryPaymentData>),
    FeeAssignment(SetDocContext<StudentFeeAssignmentData>),
    Scholarship(SetDocContext<ScholarshipData>),
    BankTransaction(SetDocContext<BankTransactionData>),
    Transfer(SetDocContext<InterAccountTransferData>),
    BankAccount(SetDocContext<BankAccountData>),
    Unchecked,
}

impl SetDoc {
    /// The kind of the record that is written.
    pub open spec fn kind(self) -> CollectionKind {
        match self {
            SetDoc::Expense(_) => CollectionKind::Expense,
            SetDoc::ExpenseCategory(_) => CollectionKind::ExpenseCategory,
            SetDoc::Student(_) => CollectionKind::Student,
            SetDoc::Payment(_) => CollectionKind::Payment,
            SetDoc::Staff(_) => CollectionKind::Staff,
            SetDoc::SalaryPayment(_) => CollectionKind::SalaryPayment,
            SetDoc::FeeAssignment(_) => CollectionKind::FeeAssignment,
            SetDoc::Scholarship(_) => CollectionKind::Scholarship,
            SetDoc::BankTransaction(_) => CollectionKind::BankTransaction,
            SetDoc::Transfer(_) => CollectionKind::Transfer,
            SetDoc::BankAccount(_) => CollectionKind::BankAccount,
            SetDoc::Unchecked => CollectionKind::Unchecked,
        }
    }
}

/// What the clock and the store may say to the rules of any kind of record.
pub struct Findings {
    pub expense: ExpenseFindings,
    pub category_names: Answer,
    pub student: StudentFindings,
    pub payment_references: Answer,
    pub staff: StaffFindings,
    pub salary: SalaryFindings,
}

/// The verdict on a write: that of the rules for its kind of record, and
/// acceptance for a record of a kind without rules.
pub open spec fn set_doc_verdict(doc: SetDoc, findings: Findings) -> Verdict {
    match doc {
        SetDoc::Expense(context) => expense_verdict(context, findings.expense),
        SetDoc::ExpenseCategory(context) => category_verdict(context, findings.category_names),
        SetDoc::Student(context) => student_verdict(context, findings.student),
        SetDoc::Payment(context) => payment_verdict(context, findings.payment_references),
        SetDoc::Staff(context) => staff_verdict(context, findings.staff),
        SetDoc::SalaryPayment(context) => salary_verdict(context, findings.salary),
        SetDoc::FeeAssignment(context) => fee_assignment_verdict(context),
        SetDoc::Scholarship(context) => scholarship_verdict(context),
        SetDoc::BankTransaction(context) => bank_transaction_verdict(context),
        SetDoc::Transfer(context) => transfer_verdict(context),
        SetDoc::BankAccount(context) => bank_account_verdict(context),
        SetDoc::Unchecked => Ok(()),
    }
}

/// Decides on a write by the rules for its kind of record. The verdict is
/// the one that `set_doc_verdict` gives for what the clock and the store
/// said.
pub fn assert_set_doc(doc: &SetDoc) -> (res: Result<(), String>)
    ensures
        exists|findings: Findings| outcome(res) == #[trigger] set_doc_verdict(*doc, findings),
{
    let ghost any: Findings = arbitrary();
    match doc {
        SetDoc::Expense(context) => {
            let res = validate_expense_document(context);
            proof {
                let own = choose|f: ExpenseFindings| outcome(res) == expense_verdict(*context, f);
                let findings = Findings { expense: own, ..any };
                assert(outcome(res) == set_doc_verdict(*doc, findings));
            }
            res
        },
        SetDoc::ExpenseCategory(context) => {
            let res = validate_expense_category_document(context);
            proof {
                let own = choose|a: Answer| outcome(res) == category_verdict(*context, a);
                let findings = Findings { category_names: own, ..any };
                assert(outcome(res) == set_doc_verdict(*doc, findings));
            }
            res
        },
        SetDoc::Student(context) => {
            let res = validate_student_document(context);
            proof {
                let own = choose|f: StudentFindings| outcome(res) == student_verdict(*context, f);
                let findings = Findings { student: own, ..any };
                assert(outcome(res) == set_doc_verdict(*doc, findings));
            }
            res
        },
        SetDoc::Payment(context) => {
            let res = validate_payment_document(context);
            proof {
                let own = choose|a: Answer| outcome(res) == payment_verdict(*context, a);
                let findings = Findings { payment_references: own, ..any };
                assert(outcome(res) == set_doc_verdict(*doc, findings));
            }
            res
        },
        SetDoc::Staff(context) => {
            let res = validate_staff_document(context);
            proof {
                let own = choose|f: StaffFindings| outcome(res) == staff_verdict(*context, f);
                let findings = Findings { staff: own, ..any };
                assert(outcome(res) == set_doc_verdict(*doc, findings));
            }
            res
        },
        SetDoc::SalaryPayment(context) => {
            let res = validate_salary_payment_document(context);
            proof {
                let own = choose|f: SalaryFindings| outcome(res) == salary_verdict(*context, f);
                let findings = Findings { salary: own, ..any };
                assert(outcome(res) == set_doc_verdict(*doc, findings));
            }
            res
        },
        SetDoc::FeeAssignment(context) => {
            let res = validate_student_fee_assignment(context);
            proof {
                assert(outcome(res) == set_doc_verdict(*doc, any));
            }
            res
        },
        SetDoc::Scholarship(context) => {
            let res = validate_scholarship(context);
            proof {
                assert(outcome(res) == set_doc_verdict(*doc, any));
            }
            res
        },
        SetDoc::BankTransaction(context) => {
            let res = validate_bank_transaction(context);
            proof {
                assert(outcome(res) == set_doc_verdict(*doc, any));
            }
            res
        },
        SetDoc::Transfer(context) => {
            let res = validate_transfer(context);
            proof {
                assert(outcome(res) == set_doc_verdict(*doc, any));
            }
            res
        },
        SetDoc::BankAccount(context) => {
            let res = validate_bank_account(context);
            proof {
                assert(outcome(res) == set_doc_verdict(*doc, any));
            }
            res
        },
        SetDoc::Unchecked => {
            proof {
                assert(outcome(Ok(())) == set_doc_verdict(*doc, any));
            }
            Ok(())
        },
    }
}

} // verus!
