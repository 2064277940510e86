//! Posting to the general ledger: the rows that a document or a price
//! difference adds to the ledger table.

use vstd::prelude::*;
use crate::decimal::{Dec, neg_of, lemma_neg_units};
use crate::document::{balance_of, lines_wf, Document, DocumentLine};
use crate::domain::{partner_id, material_id, user_id, DebtCredit, LedgerAccount, User};
use crate::period::{Date, Period, year_period_of};

verus! {

/// One row of the ledger table.
#[derive(Clone, Debug)]
pub struct LedgerRow {
    /// The `yyyymm` key of the posting period.
    pub period: i32,
    pub doc_no: String,
    pub posting_date: Date,
    pub account: LedgerAccount,
    pub business_partner_id: Option<String>,
    pub material_id: Option<String>,
    pub debt_credit: DebtCredit,
    pub amount: Dec,
    pub debt: Dec,
    pub credit: Dec,
    pub quantity: Dec,
    pub updated_by: String,
}

/// Why a document could not be posted.
#[derive(Clone, Copy, Debug, PartialEq, Eq)]
pub enum PostError {
    /// The amounts do not add up to zero; the balance is given.
    Unbalanced(Dec),
    /// Adding up the amounts overflowed.
    BalanceOverflow,
}

/// The optional text of an optional key.
pub open spec fn opt_view(s: Option<String>) -> Option<Seq<char>> {
    match s {
        Some(x) => Some(x@),
        None => None,
    }
}

/// The zero decimal.
pub open spec fn dec_zero() -> Dec {
    Dec { mantissa: 0, scale: 0 }
}

/// The `yyyymm` key of the period of a date.
pub open spec fn date_key(date: Date) -> int {
    year_period_of(Period(date.year, date.month as i32))
}

/// The row that posting `line` of a document adds: debit lines carry their
/// amount as debit, credit lines carry the negated amount as credit, a
/// missing quantity is zero.
pub open spec fn document_row(r: LedgerRow, doc_no: Seq<char>, date: Date, user: User, line: DocumentLine) -> bool {
    &&& r.period == date_key(date)
    &&& r.doc_no@ == doc_no
    &&& r.posting_date == date
    &&& r.account == line.account
    &&& opt_view(r.business_partner_id) == (match line.business_partner {
        Some(bp) => Some(partner_id(bp)),
        None => None::<Seq<char>>,
    })
    &&& opt_view(r.material_id) == (match line.material {
        Some(m) => Some(material_id(m.0 as nat)),
        None => None::<Seq<char>>,
    })
    &&& r.debt_credit == line.debt_credit
    &&& r.amount == line.amount
    &&& r.debt == (match line.debt_credit {
        DebtCredit::Debt => line.amount,
        DebtCredit::Credit => dec_zero(),
    })
    &&& r.credit == (match line.debt_credit {
        DebtCredit::Debt => dec_zero(),
        DebtCredit::Credit => neg_of(line.amount),
    })
    &&& r.quantity == (match line.quantity {
        Some(q) => q,
        None => dec_zero(),
    })
    &&& r.updated_by@ == user_id(user.0 as nat)
}

/// A date that `chrono` represents has a `yyyymm` key within `i32`.
pub proof fn lemma_date_key_fits(date: Date)
    requires
        date.valid(),
    ensures
        Period(date.year, date.month as i32).key_fits(),
{
}

/// The ledger rows of a document, one per line, after checking that its
/// amounts add up to zero.
pub fn post_document(document: &Document) -> (res: Result<Vec<LedgerRow>, PostError>)
    requires
        document.posting_date.valid(),
        lines_wf(document.lines@),
    ensures
        balance_of(document.lines@) is None <==> res == Err::<Vec<LedgerRow>, PostError>(PostError::BalanceOverflow),
        balance_of(document.lines@) matches Some(b) && b.mantissa != 0
            <==> res == Err::<Vec<LedgerRow>, PostError>(PostError::Unbalanced(balance_of(document.lines@).unwrap())),
        res is Ok <==> (balance_of(document.lines@) matches Some(b) && b.mantissa == 0),
        res matches Ok(rows) ==> rows.len() == document.lines.len()
            && forall|i: int| 0 <= i < rows.len() ==> document_row(#[trigger] rows[i], document.doc_no@,
                document.posting_date, document.updated_by, document.lines@[i]),
{
    let balance = match document.balance() {
        Some(b) => b,
        None => return Err(PostError::BalanceOverflow),
    };
    if !balance.is_zero() {
        return Err(PostError::Unbalanced(balance));
    }

    proof { lemma_date_key_fits(document.posting_date); }
    let period_yp = Period::from(document.posting_date).year_period();
    let mut rows: Vec<LedgerRow> = Vec::new();
    let mut i: usize = 0;
    while i < document.lines.len()
        invariant
            i <= document.lines.len(),
            rows.len() == i,
            lines_wf(document.lines@),
            period_yp == date_key(document.posting_date),
            forall|k: int| 0 <= k < i ==> document_row(#[trigger] rows[k], document.doc_no@,
                document.posting_date, document.updated_by, document.lines@[k]),
        decreases document.lines.len() - i,
    {
        let line = document.lines[i];
        assert(line.wf());
        let (debt, credit) = match line.debt_credit {
            DebtCredit::Debt => (line.amount, Dec::zero()),
            DebtCredit::Credit => (Dec::zero(), line.amount.neg()),
        };
        let business_partner_id = match line.business_partner {
            Some(bp) => Some(bp.id()),
            None => None,
        };
        let material_id = match line.material {
            Some(m) => Some(m.id()),
            None => None,
        };
        let quantity = match line.quantity {
            Some(q) => q,
            None => Dec::zero(),
        };
        let row = LedgerRow {
            period: period_yp,
            doc_no: document.doc_no.clone(),
            posting_date: document.posting_date,
            account: line.account,
            business_partner_id,
            material_id,
            debt_credit: line.debt_credit,
            amount: line.amount,
            debt,
            credit,
            quantity,
            updated_by: document.updated_by.id(),
        };
        rows.push(row);
        i = i + 1;
    }
    Ok(rows)
}

/// Every posted row records its amount as debit minus credit.
pub proof fn lemma_row_debit_minus_credit(r: LedgerRow, doc_no: Seq<char>, date: Date, user: User, line: DocumentLine)
    requires
        document_row(r, doc_no, date, user, line),
        line.amount.wf(),
    ensures
        r.debt.units() - r.credit.units() == r.amount.units(),
{
    lemma_neg_units(line.amount);
    crate::decimal::lemma_units_sign(dec_zero());
}

/// The row that a price difference posts to one side.
pub open spec fn difference_row(r: LedgerRow, date: Date, doc_no: Seq<char>, material: Seq<char>,
    account: LedgerAccount, side: DebtCredit, amount: Dec, user: Seq<char>) -> bool {
    &&& r.period == date_key(date)
    &&& r.doc_no@ == doc_no
    &&& r.posting_date == date
    &&& r.account == account
    &&& r.business_partner_id is None
    &&& opt_view(r.material_id) == Some(material)
    &&& r.debt_credit == side
    &&& r.amount == (match side {
        DebtCredit::Debt => amount,
        DebtCredit::Credit => neg_of(amount),
    })
    &&& r.debt == (match side {
        DebtCredit::Debt => amount,
        DebtCredit::Credit => dec_zero(),
    })
    &&& r.credit == (match side {
        DebtCredit::Debt => dec_zero(),
        DebtCredit::Credit => amount,
    })
    &&& r.quantity == dec_zero()
    &&& r.updated_by@ == user
}

/// The rows that post a price difference of `amount` from `credit_account`
/// to `debt_account`: none for a zero amount, otherwise a debit row and a
/// credit row of the magnitude of the amount, with the accounts swapped when
/// the amount is negative.
pub open spec fn difference_rows(rows: Seq<LedgerRow>, date: Date, doc_no: Seq<char>, material: Seq<char>,
    amount: Dec, debt_account: LedgerAccount, credit_account: LedgerAccount, user: Seq<char>) -> bool {
    &&& amount.mantissa == 0 ==> rows.len() == 0
    &&& amount.mantissa > 0 ==> rows.len() == 2
        && difference_row(rows[0], date, doc_no, material, debt_account, DebtCredit::Debt, amount, user)
        && difference_row(rows[1], date, doc_no, material, credit_account, DebtCredit::Credit, amount, user)
    &&& amount.mantissa < 0 ==> rows.len() == 2
        && difference_row(rows[0], date, doc_no, material, credit_account, DebtCredit::Debt, neg_of(amount), user)
        && difference_row(rows[1], date, doc_no, material, debt_account, DebtCredit::Credit, neg_of(amount), user)
}

/// The ledger rows that post a price difference of `amount` from
/// `credit_account` to `debt_account`: nothing for a zero amount, otherwise
/// a debit row and a credit row of the magnitude of the amount, with the
/// accounts swapped when the amount is negative.
pub fn post_differences(
    posting_date: Date,
    doc_no: &String,
    material_id: &String,
    amount: Dec,
    debt_account: LedgerAccount,
    credit_account: LedgerAccount,
    user_id: &String,
) -> (rows: Vec<LedgerRow>)
    requires
        posting_date.valid(),
        amount.wf(),
    ensures
        difference_rows(rows@, posting_date, doc_no@, material_id@, amount, debt_account, credit_account, user_id@),
{
    let mut rows: Vec<LedgerRow> = Vec::new();
    if amount.is_zero() {
        return rows;
    }
    let (amount, debt_account, credit_account) = if amount.is_negative() {
        (amount.neg(), credit_account, debt_account)
    } else {
        (amount, debt_account, credit_account)
    };
    proof { lemma_date_key_fits(posting_date); }
    let period = Period::from(posting_date);
    let period_yp = period.year_period();
    rows.push(LedgerRow {
        period: period_yp,
        doc_no: doc_no.clone(),
        posting_date,
        account: debt_account,
        business_partner_id: None,
        material_id: Some(material_id.clone()),
        debt_credit: DebtCredit::Debt,
        amount,
        debt: amount,
        credit: Dec::zero(),
        quantity: Dec::zero(),
        updated_by: user_id.clone(),
    });
    rows.push(LedgerRow {
        period: period_yp,
        doc_no: doc_no.clone(),
        posting_date,
        account: credit_account,
        business_partner_id: None,
        material_id: Some(material_id.clone()),
        debt_credit: DebtCredit::Credit,
        amount: amount.neg(),
        debt: Dec::zero(),
        credit: amount,
        quantity: Dec::zero(),
        updated_by: user_id.clone(),
    });
    rows
}

/// The net amount that a set of rows posts to an account.
pub open spec fn net_to(rows: Seq<LedgerRow>, account: LedgerAccount) -> int
    decreases rows.len(),
{
    if rows.len() == 0 {
        0
    } else {
        net_to(rows.drop_last(), account) + if rows.last().account == account { rows.last().amount.units() } else { 0 }
    }
}

/// The net amount of two runs of rows is the sum of their net amounts.
pub proof fn lemma_net_to_concat(a: Seq<LedgerRow>, b: Seq<LedgerRow>, account: LedgerAccount)
    ensures
        net_to(a + b, account) == net_to(a, account) + net_to(b, account),
    decreases b.len(),
{
    if b.len() == 0 {
        assert(a + b =~= a);
    } else {
        assert((a + b).drop_last() =~= a + b.drop_last());
        assert((a + b).last() == b.last());
        lemma_net_to_concat(a, b.drop_last(), account);
    }
}

/// Whatever its sign, a posted price difference of `amount` raises the debit
/// account by `amount` and lowers the credit account by `amount`, and each
/// row carries a positive debit or credit.
pub proof fn lemma_difference_moves_amount(rows: Seq<LedgerRow>, date: Date, doc_no: Seq<char>, material: Seq<char>,
    amount: Dec, debt_account: LedgerAccount, credit_account: LedgerAccount, user: Seq<char>)
    requires
        amount.wf(),
        debt_account != credit_account,
        difference_rows(rows, date, doc_no, material, amount, debt_account, credit_account, user),
    ensures
        net_to(rows, debt_account) == amount.units(),
        net_to(rows, credit_account) == -amount.units(),
        forall|i: int| 0 <= i < rows.len() ==> #[trigger] rows[i].debt.units() + rows[i].credit.units() > 0,
{
    lemma_neg_units(amount);
    lemma_neg_units(neg_of(amount));
    crate::decimal::lemma_units_sign(amount);
    crate::decimal::lemma_units_sign(dec_zero());
    if rows.len() == 2 {
        let r1 = rows.drop_last();
        assert(r1.drop_last() =~= Seq::<LedgerRow>::empty());
        assert(r1.last() == rows[0]);
        assert(rows.last() == rows[1]);
        assert(net_to(r1.drop_last(), debt_account) == 0);
        assert(net_to(r1.drop_last(), credit_account) == 0);
        assert(neg_of(neg_of(amount)) == amount);
        let a0 = rows[0].amount.units();
        let a1 = rows[1].amount.units();
        assert(net_to(r1, debt_account) == if rows[0].account == debt_account { a0 } else { 0 });
        assert(net_to(r1, credit_account) == if rows[0].account == credit_account { a0 } else { 0 });
        assert(net_to(rows, debt_account) == net_to(r1, debt_account) + if rows[1].account == debt_account { a1 } else { 0 });
        assert(net_to(rows, credit_account) == net_to(r1, credit_account) + if rows[1].account == credit_account { a1 } else { 0 });
    } else {
        assert(amount.units() == 0);
    }
}

} // verus!
