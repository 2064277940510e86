//! Accounting documents: balanced sets of ledger lines for purchases, costs,
//! cost of goods sold and sales.

use vstd::prelude::*;
use crate::decimal::{Dec, dec_add, dec_mul, dec_sub, neg_of, spec_add, spec_mul, spec_sub, add_is_exact, sub_is_exact,
    mul_is_exact, exact_sum, exact_product, exact_difference, fits_at, max_scale, lemma_exact_sum, lemma_exact_difference,
    lemma_fits_own, lemma_fits_smaller_scale, lemma_neg_units, lemma_units_sign, lemma_pow10_pos, MAX_SCALE};
use crate::domain::{BusinessPartner, Customer, DebtCredit, LedgerAccount, Material, User, Vendor};
use crate::period::Date;

verus! {

/// One line of a document.
#[derive(Clone, Copy, Debug, PartialEq, Eq)]
pub struct DocumentLine {
    pub account: LedgerAccount,
    pub business_partner: Option<BusinessPartner>,
    pub material: Option<Material>,
    pub debt_credit: DebtCredit,
    pub amount: Dec,
    pub quantity: Option<Dec>,
}

/// A document: the lines posted together under one number and date.
#[derive(Debug)]
pub struct Document {
    pub posting_date: Date,
    pub doc_no: String,
    pub updated_by: User,
    pub lines: Vec<DocumentLine>,
}

impl DocumentLine {
    /// The amount and quantity are valid decimals.
    pub open spec fn wf(self) -> bool {
        &&& self.amount.wf()
        &&& (self.quantity matches Some(q) ==> q.wf())
    }
}

/// Every line of a sequence is well formed.
pub open spec fn lines_wf(lines: Seq<DocumentLine>) -> bool {
    forall|i: int| 0 <= i < lines.len() ==> #[trigger] lines[i].wf()
}

/// The sum of the amounts of the lines, added in order from zero as
/// `rust_decimal` adds them; `None` when an addition overflows.
pub open spec fn balance_of(lines: Seq<DocumentLine>) -> Option<Dec>
    decreases lines.len(),
{
    if lines.len() == 0 {
        Some(Dec { mantissa: 0, scale: 0 })
    } else {
        match balance_of(lines.drop_last()) {
            Some(b) => spec_add(b, lines.last().amount),
            None => None,
        }
    }
}

/// The lines of a purchase posted at the standard price, the price
/// difference going to the differences account.
pub open spec fn purchase_lines(material: Material, vendor: Vendor, quantity: Dec, amount: Dec, std_amount: Dec, diff_amount: Dec) -> Seq<DocumentLine> {
    let stock_line = DocumentLine {
        account: LedgerAccount::Inventory,
        business_partner: None,
        material: Some(material),
        debt_credit: DebtCredit::Debt,
        amount: std_amount,
        quantity: Some(quantity),
    };
    let payable_line = DocumentLine {
        account: LedgerAccount::Payable,
        business_partner: Some(BusinessPartner::Vendor(vendor)),
        material: None,
        debt_credit: DebtCredit::Credit,
        amount: neg_of(amount),
        quantity: None,
    };
    if diff_amount.mantissa == 0 {
        seq![stock_line, payable_line]
    } else {
        let diff_line = DocumentLine {
            account: LedgerAccount::InventoryDiff,
            business_partner: None,
            material: Some(material),
            debt_credit: if diff_amount.mantissa > 0 { DebtCredit::Debt } else { DebtCredit::Credit },
            amount: diff_amount,
            quantity: None,
        };
        seq![stock_line, diff_line, payable_line]
    }
}

/// The lines of an additional cost: debit price differences, credit the
/// vendor.
pub open spec fn cost_lines(material: Material, vendor: Vendor, amount: Dec) -> Seq<DocumentLine> {
    seq![
        DocumentLine {
            account: LedgerAccount::InventoryDiff,
            business_partner: None,
            material: Some(material),
            debt_credit: DebtCredit::Debt,
            amount: amount,
            quantity: None,
        },
        DocumentLine {
            account: LedgerAccount::Payable,
            business_partner: Some(BusinessPartner::Vendor(vendor)),
            material: None,
            debt_credit: DebtCredit::Credit,
            amount: neg_of(amount),
            quantity: None,
        },
    ]
}

/// The lines of the cost of goods sold: debit cost of goods sold, credit
/// inventory, both at the standard amount.
pub open spec fn cogs_lines(customer: Customer, material: Material, quantity: Dec, std_amount: Dec) -> Seq<DocumentLine> {
    seq![
        DocumentLine {
            account: LedgerAccount::Cogs,
            business_partner: Some(BusinessPartner::Customer(customer)),
            material: Some(material),
            debt_credit: DebtCredit::Debt,
            amount: std_amount,
            quantity: Some(quantity),
        },
        DocumentLine {
            account: LedgerAccount::Inventory,
            business_partner: None,
            material: Some(material),
            debt_credit: DebtCredit::Credit,
            amount: neg_of(std_amount),
            quantity: Some(quantity),
        },
    ]
}

/// The lines of a sale: debit the customer, credit sales.
pub open spec fn sale_lines(customer: Customer, material: Material, quantity: Dec, amount: Dec) -> Seq<DocumentLine> {
    seq![
        DocumentLine {
            account: LedgerAccount::Receivable,
            business_partner: Some(BusinessPartner::Customer(customer)),
            material: None,
            debt_credit: DebtCredit::Debt,
            amount: amount,
            quantity: None,
        },
        DocumentLine {
            account: LedgerAccount::Sales,
            business_partner: Some(BusinessPartner::Customer(customer)),
            material: Some(material),
            debt_credit: DebtCredit::Credit,
            amount: neg_of(amount),
            quantity: Some(quantity),
        },
    ]
}

impl Document {
    /// A purchase at `price` of `quantity` units of a material whose
    /// standard price is `std_price`. `None` when `rust_decimal` overflows.
    pub fn new_purchase_document(
        posting_date: Date,
        doc_no: String,
        material: Material,
        vendor: Vendor,
        price: Dec,
        std_price: Dec,
        quantity: Dec,
        updated_by: User,
    ) -> (doc: Option<Document>)
        requires
            price.wf(),
            std_price.wf(),
            quantity.wf(),
        ensures
            doc is Some <==> (spec_mul(price, quantity) matches Some(amount)
                && spec_mul(std_price, quantity) matches Some(std_amount)
                && spec_sub(amount, std_amount) is Some),
            doc matches Some(d) ==> {
                let amount = spec_mul(price, quantity).unwrap();
                let std_amount = spec_mul(std_price, quantity).unwrap();
                let diff_amount = spec_sub(amount, std_amount).unwrap();
                &&& d.posting_date == posting_date
                &&& d.doc_no@ == doc_no@
                &&& d.updated_by == updated_by
                &&& d.lines@ == purchase_lines(material, vendor, quantity, amount, std_amount, diff_amount)
                &&& lines_wf(d.lines@)
            },
    {
        let amount = match dec_mul(price, quantity) {
            Some(a) => a,
            None => return None,
        };
        let std_amount = match dec_mul(std_price, quantity) {
            Some(a) => a,
            None => return None,
        };
        let diff_amount = match dec_sub(amount, std_amount) {
            Some(a) => a,
            None => return None,
        };

        let mut lines: Vec<DocumentLine> = Vec::new();
        lines.push(DocumentLine {
            account: LedgerAccount::Inventory,
            material: Some(material),
            business_partner: None,
            debt_credit: DebtCredit::Debt,
            amount: std_amount,
            quantity: Some(quantity),
        });

        if !diff_amount.is_zero() {
            let debt_credit = if diff_amount.is_positive() {
                DebtCredit::Debt
            } else {
                DebtCredit::Credit
            };
            lines.push(DocumentLine {
                account: LedgerAccount::InventoryDiff,
                material: Some(material),
                business_partner: None,
                debt_credit,
                amount: diff_amount,
                quantity: None,
            });
        }

        lines.push(DocumentLine {
            account: LedgerAccount::Payable,
            material: None,
            business_partner: Some(BusinessPartner::Vendor(vendor)),
            debt_credit: DebtCredit::Credit,
            amount: amount.neg(),
            quantity: None,
        });

        assert(lines@ =~= purchase_lines(material, vendor, quantity, amount, std_amount, diff_amount));
        Some(Document { posting_date, doc_no, updated_by, lines })
    }

    /// An additional cost of `amount` on a material, owed to a vendor.
    pub fn new_cost_document(
        posting_date: Date,
        doc_no: String,
        material: Material,
        vendor: Vendor,
        amount: Dec,
        updated_by: User,
    ) -> (d: Document)
        requires
            amount.wf(),
        ensures
            d.posting_date == posting_date,
            d.doc_no@ == doc_no@,
            d.updated_by == updated_by,
            d.lines@ == cost_lines(material, vendor, amount),
            lines_wf(d.lines@),
    {
        let mut lines: Vec<DocumentLine> = Vec::new();
        lines.push(DocumentLine {
            account: LedgerAccount::InventoryDiff,
            material: Some(material),
            business_partner: None,
            debt_credit: DebtCredit::Debt,
            amount,
            quantity: None,
        });
        lines.push(DocumentLine {
            account: LedgerAccount::Payable,
            material: None,
            business_partner: Some(BusinessPartner::Vendor(vendor)),
            debt_credit: DebtCredit::Credit,
            amount: amount.neg(),
            quantity: None,
        });
        assert(lines@ =~= cost_lines(material, vendor, amount));
        Document { posting_date, doc_no, updated_by, lines }
    }

    /// The cost of goods sold of `quantity` units at the standard price.
    /// `None` when `rust_decimal` overflows.
    pub fn new_cogs_document(
        posting_date: Date,
        doc_no: String,
        customer: Customer,
        material: Material,
        std_price: Dec,
        quantity: Dec,
        updated_by: User,
    ) -> (doc: Option<Document>)
        requires
            std_price.wf(),
            quantity.wf(),
        ensures
            doc is Some <==> spec_mul(std_price, quantity) is Some,
            doc matches Some(d) ==> {
                &&& d.posting_date == posting_date
                &&& d.doc_no@ == doc_no@
                &&& d.updated_by == updated_by
                &&& d.lines@ == cogs_lines(customer, material, quantity, spec_mul(std_price, quantity).unwrap())
                &&& lines_wf(d.lines@)
            },
    {
        let std_amount = match dec_mul(std_price, quantity) {
            Some(a) => a,
            None => return None,
        };
        let mut lines: Vec<DocumentLine> = Vec::new();
        lines.push(DocumentLine {
            account: LedgerAccount::Cogs,
            material: Some(material),
            business_partner: Some(BusinessPartner::Customer(customer)),
            debt_credit: DebtCredit::Debt,
            amount: std_amount,
            quantity: Some(quantity),
        });
        lines.push(DocumentLine {
            account: LedgerAccount::Inventory,
            material: Some(material),
            business_partner: None,
            debt_credit: DebtCredit::Credit,
            amount: std_amount.neg(),
            quantity: Some(quantity),
        });
        assert(lines@ =~= cogs_lines(customer, material, quantity, std_amount));
        Some(Document { posting_date, doc_no, updated_by, lines })
    }

    /// A sale of `quantity` units at `price`. `None` when `rust_decimal`
    /// overflows.
    pub fn new_sale_document(
        posting_date: Date,
        doc_no: String,
        customer: Customer,
        material: Material,
        price: Dec,
        quantity: Dec,
        updated_by: User,
    ) -> (doc: Option<Document>)
        requires
            price.wf(),
            quantity.wf(),
        ensures
            doc is Some <==> spec_mul(price, quantity) is Some,
            doc matches Some(d) ==> {
                &&& d.posting_date == posting_date
                &&& d.doc_no@ == doc_no@
                &&& d.updated_by == updated_by
                &&& d.lines@ == sale_lines(customer, material, quantity, spec_mul(price, quantity).unwrap())
                &&& lines_wf(d.lines@)
            },
    {
        let amount = match dec_mul(price, quantity) {
            Some(a) => a,
            None => return None,
        };
        let mut lines: Vec<DocumentLine> = Vec::new();
        lines.push(DocumentLine {
            account: LedgerAccount::Receivable,
            material: None,
            business_partner: Some(BusinessPartner::Customer(customer)),
            debt_credit: DebtCredit::Debt,
            amount,
            quantity: None,
        });
        lines.push(DocumentLine {
            account: LedgerAccount::Sales,
            material: Some(material),
            business_partner: Some(BusinessPartner::Customer(customer)),
            debt_credit: DebtCredit::Credit,
            amount: amount.neg(),
            quantity: Some(quantity),
        });
        assert(lines@ =~= sale_lines(customer, material, quantity, amount));
        Some(Document { posting_date, doc_no, updated_by, lines })
    }

    /// The sum of the line amounts, added in order from zero
    /// (`Iterator::sum` over `Decimal`); `None` when an addition overflows.
    pub fn balance(&self) -> (b: Option<Dec>)
        requires
            lines_wf(self.lines@),
        ensures
            b == balance_of(self.lines@),
            b matches Some(x) ==> x.wf(),
    {
        let mut sum = Dec::zero();
        let mut i: usize = 0;
        while i < self.lines.len()
            invariant
                i <= self.lines.len(),
                lines_wf(self.lines@),
                sum.wf(),
                balance_of(self.lines@.subrange(0, i as int)) == Some(sum),
            decreases self.lines.len() - i,
        {
            let line = self.lines[i];
            assert(line.wf());
            let next = dec_add(sum, line.amount);
            assert(self.lines@.subrange(0, i + 1).drop_last() =~= self.lines@.subrange(0, i as int));
            match next {
                Some(s) => {
                    sum = s;
                },
                None => {
                    proof { lemma_balance_none_extends(self.lines@, (i + 1) as int); }
                    return None;
                },
            }
            i = i + 1;
        }
        assert(self.lines@.subrange(0, i as int) =~= self.lines@);
        Some(sum)
    }
}

/// Adding to zero gives the other operand.
pub proof fn lemma_zero_plus(a: Dec)
    requires
        a.wf(),
    ensures
        spec_add(Dec { mantissa: 0, scale: 0 }, a) == Some(a),
{
    let z = Dec { mantissa: 0, scale: 0 };
    lemma_fits_own(a);
    lemma_pow10_pos((MAX_SCALE - a.scale) as nat);
    assert(z.units() == 0);
    assert(add_is_exact(z, a));
}

/// A value plus its negation is zero, exactly.
pub proof fn lemma_plus_negation(a: Dec, b: Dec)
    requires
        a.wf(),
        b.wf(),
        b.units() == -a.units(),
        b.scale == a.scale,
    ensures
        spec_add(a, b) matches Some(s) && s.mantissa == 0 && s.wf(),
{
    lemma_fits_own(a);
    lemma_pow10_pos((MAX_SCALE - a.scale) as nat);
    assert(add_is_exact(a, b));
    lemma_exact_sum(a, b);
    lemma_units_sign(exact_sum(a, b));
}

/// The balance of a single line is its amount added to zero.
proof fn lemma_balance_single(x: DocumentLine)
    ensures
        balance_of(seq![x]) == spec_add(Dec { mantissa: 0, scale: 0 }, x.amount),
{
    let l = seq![x];
    assert(l.drop_last() =~= Seq::<DocumentLine>::empty());
    assert(balance_of(Seq::<DocumentLine>::empty()) == Some(Dec { mantissa: 0, scale: 0 }));
    assert(l.last() == x);
}

/// Two lines whose amounts cancel balance to zero.
pub proof fn lemma_pair_balanced(x: DocumentLine, y: DocumentLine)
    requires
        x.amount.wf(),
        y.amount == neg_of(x.amount),
    ensures
        balance_of(seq![x, y]) matches Some(b) && b.mantissa == 0,
{
    lemma_neg_units(x.amount);
    assert(seq![x, y].drop_last() =~= seq![x]);
    lemma_balance_single(x);
    lemma_zero_plus(x.amount);
    assert(balance_of(seq![x]) == Some(x.amount));
    lemma_plus_negation(x.amount, y.amount);
}

/// Every cost document is balanced: its amounts add up to exactly zero.
pub proof fn lemma_cost_document_balanced(material: Material, vendor: Vendor, amount: Dec)
    requires
        amount.wf(),
    ensures
        balance_of(cost_lines(material, vendor, amount)) matches Some(b) && b.mantissa == 0,
{
    let l = cost_lines(material, vendor, amount);
    lemma_pair_balanced(l[0], l[1]);
    assert(l =~= seq![l[0], l[1]]);
}

/// Every cost of goods sold document is balanced.
pub proof fn lemma_cogs_document_balanced(customer: Customer, material: Material, quantity: Dec, std_amount: Dec)
    requires
        std_amount.wf(),
    ensures
        balance_of(cogs_lines(customer, material, quantity, std_amount)) matches Some(b) && b.mantissa == 0,
{
    let l = cogs_lines(customer, material, quantity, std_amount);
    lemma_pair_balanced(l[0], l[1]);
    assert(l =~= seq![l[0], l[1]]);
}

/// Every sale document is balanced.
pub proof fn lemma_sale_document_balanced(customer: Customer, material: Material, quantity: Dec, amount: Dec)
    requires
        amount.wf(),
    ensures
        balance_of(sale_lines(customer, material, quantity, amount)) matches Some(b) && b.mantissa == 0,
{
    let l = sale_lines(customer, material, quantity, amount);
    lemma_pair_balanced(l[0], l[1]);
    assert(l =~= seq![l[0], l[1]]);
}

/// A purchase document is balanced whenever `rust_decimal` computes its
/// amounts without rounding: the products of the prices and the quantity
/// are exact, and both products and their difference fit at the larger of
/// their scales.
pub proof fn lemma_purchase_document_balanced(
    material: Material,
    vendor: Vendor,
    price: Dec,
    std_price: Dec,
    quantity: Dec,
)
    requires
        price.wf(),
        std_price.wf(),
        quantity.wf(),
        mul_is_exact(price, quantity),
        mul_is_exact(std_price, quantity),
        sub_is_exact(exact_product(price, quantity), exact_product(std_price, quantity)),
    ensures
        spec_mul(price, quantity) == Some(exact_product(price, quantity)),
        spec_mul(std_price, quantity) == Some(exact_product(std_price, quantity)),
        spec_sub(exact_product(price, quantity), exact_product(std_price, quantity))
            == Some(exact_difference(exact_product(price, quantity), exact_product(std_price, quantity))),
        balance_of(purchase_lines(material, vendor, quantity, exact_product(price, quantity),
            exact_product(std_price, quantity),
            exact_difference(exact_product(price, quantity), exact_product(std_price, quantity))))
            matches Some(b) && b.mantissa == 0,
{
    let a = exact_product(price, quantity);
    let s = exact_product(std_price, quantity);
    let d = exact_difference(a, s);
    let big = max_scale(a, s);
    assert(a.wf());
    assert(s.wf());
    lemma_exact_difference(a, s);
    lemma_neg_units(a);
    let na = neg_of(a);
    let lines = purchase_lines(material, vendor, quantity, a, s, d);
    lemma_zero_plus(s);
    lemma_units_sign(d);
    if d.mantissa == 0 {
        assert(lines.drop_last() =~= seq![lines[0]]);
        lemma_balance_single(lines[0]);
        assert(balance_of(seq![lines[0]]) == Some(s));
        assert(fits_at(na.units(), big));
        assert(fits_at(s.units() + na.units(), big)) by {
            lemma_pow10_pos((MAX_SCALE - big) as nat);
        }
        assert(add_is_exact(s, na));
        lemma_exact_sum(s, na);
        lemma_units_sign(exact_sum(s, na));
    } else {
        let l2 = lines.drop_last();
        assert(l2 =~= seq![lines[0], lines[1]]);
        assert(l2.drop_last() =~= seq![lines[0]]);
        lemma_balance_single(lines[0]);
        assert(balance_of(seq![lines[0]]) == Some(s));
        let s2 = max_scale(s, d);
        lemma_fits_smaller_scale(s.units(), big, s2);
        lemma_fits_smaller_scale(a.units(), big, s2);
        lemma_fits_smaller_scale(d.units(), big, s2);
        assert(add_is_exact(s, d));
        lemma_exact_sum(s, d);
        let b2 = exact_sum(s, d);
        assert(balance_of(l2) == Some(b2));
        let s3 = max_scale(b2, na);
        lemma_fits_smaller_scale(a.units(), big, s3);
        assert(fits_at(na.units(), s3));
        assert(fits_at(b2.units() + na.units(), s3)) by {
            lemma_pow10_pos((MAX_SCALE - s3) as nat);
        }
        assert(add_is_exact(b2, na));
        lemma_exact_sum(b2, na);
        lemma_units_sign(exact_sum(b2, na));
    }
}

/// Once an addition overflows, the sum of any longer prefix is `None` too.
proof fn lemma_balance_none_extends(lines: Seq<DocumentLine>, k: int)
    requires
        0 <= k <= lines.len(),
        balance_of(lines.subrange(0, k)) is None,
    ensures
        balance_of(lines) is None,
    decreases lines.len() - k,
{
    if k < lines.len() {
        assert(lines.subrange(0, k + 1).drop_last() =~= lines.subrange(0, k));
        lemma_balance_none_extends(lines, k + 1);
    } else {
        assert(lines.subrange(0, k) =~= lines);
    }
}

/// The net amount that lines post to an account: the sum of the amounts of
/// its lines (debits positive, credits negative).
pub open spec fn line_net(lines: Seq<DocumentLine>, account: LedgerAccount) -> int
    decreases lines.len(),
{
    if lines.len() == 0 {
        0
    } else {
        line_net(lines.drop_last(), account) + if lines.last().account == account { lines.last().amount.units() } else { 0 }
    }
}

/// The net amounts of two lines.
proof fn lemma_line_net_two(x: DocumentLine, y: DocumentLine, account: LedgerAccount)
    ensures
        line_net(seq![x, y], account) == (if x.account == account { x.amount.units() } else { 0 })
            + (if y.account == account { y.amount.units() } else { 0 }),
{
    let l = seq![x, y];
    let one = seq![x];
    assert(l.drop_last() =~= one);
    assert(one.drop_last() =~= Seq::<DocumentLine>::empty());
    assert(line_net(Seq::<DocumentLine>::empty(), account) == 0);
    assert(one.last() == x);
    assert(l.last() == y);
    assert(line_net(one, account) == (if x.account == account { x.amount.units() } else { 0 }));
}

/// The net amounts of three lines.
proof fn lemma_line_net_three(x: DocumentLine, y: DocumentLine, z: DocumentLine, account: LedgerAccount)
    ensures
        line_net(seq![x, y, z], account) == (if x.account == account { x.amount.units() } else { 0 })
            + (if y.account == account { y.amount.units() } else { 0 })
            + (if z.account == account { z.amount.units() } else { 0 }),
{
    assert(seq![x, y, z].drop_last() =~= seq![x, y]);
    assert(seq![x, y, z].last() == z);
    lemma_line_net_two(x, y, account);
}

/// An additional cost raises the price differences of the material and
/// what is owed to the vendor: the differences account is debited with the
/// material by the amount, the vendor's payable account is credited by it,
/// and nothing else is posted.
pub proof fn lemma_cost_document_accounts(material: Material, vendor: Vendor, amount: Dec)
    requires
        amount.wf(),
    ensures
        line_net(cost_lines(material, vendor, amount), LedgerAccount::InventoryDiff) == amount.units(),
        line_net(cost_lines(material, vendor, amount), LedgerAccount::Payable) == -amount.units(),
        forall|i: int| 0 <= i < cost_lines(material, vendor, amount).len() ==> {
            let l = #[trigger] cost_lines(material, vendor, amount)[i];
            &&& l.account == LedgerAccount::InventoryDiff || l.account == LedgerAccount::Payable
            &&& l.account == LedgerAccount::InventoryDiff ==> l.debt_credit == DebtCredit::Debt && l.material == Some(material)
            &&& l.account == LedgerAccount::Payable ==> l.debt_credit == DebtCredit::Credit
                && l.business_partner == Some(BusinessPartner::Vendor(vendor))
        },
{
    let l = cost_lines(material, vendor, amount);
    lemma_neg_units(amount);
    assert(l =~= seq![l[0], l[1]]);
    lemma_line_net_two(l[0], l[1], LedgerAccount::InventoryDiff);
    lemma_line_net_two(l[0], l[1], LedgerAccount::Payable);
}

/// The cost of goods sold takes the sold quantity out of inventory at the
/// standard amount: inventory is credited by it with the quantity, cost of
/// goods sold is debited by it for the customer, and nothing else is posted.
pub proof fn lemma_cogs_document_accounts(customer: Customer, material: Material, quantity: Dec, std_amount: Dec)
    requires
        std_amount.wf(),
    ensures
        line_net(cogs_lines(customer, material, quantity, std_amount), LedgerAccount::Inventory) == -std_amount.units(),
        line_net(cogs_lines(customer, material, quantity, std_amount), LedgerAccount::Cogs) == std_amount.units(),
        forall|i: int| 0 <= i < cogs_lines(customer, material, quantity, std_amount).len() ==> {
            let l = #[trigger] cogs_lines(customer, material, quantity, std_amount)[i];
            &&& l.account == LedgerAccount::Inventory || l.account == LedgerAccount::Cogs
            &&& l.material == Some(material) && l.quantity == Some(quantity)
            &&& l.account == LedgerAccount::Inventory ==> l.debt_credit == DebtCredit::Credit
            &&& l.account == LedgerAccount::Cogs ==> l.debt_credit == DebtCredit::Debt
                && l.business_partner == Some(BusinessPartner::Customer(customer))
        },
{
    let l = cogs_lines(customer, material, quantity, std_amount);
    lemma_neg_units(std_amount);
    assert(l =~= seq![l[0], l[1]]);
    lemma_line_net_two(l[0], l[1], LedgerAccount::Inventory);
    lemma_line_net_two(l[0], l[1], LedgerAccount::Cogs);
}

/// A sale is owed by the customer and earned as sales: receivables are
/// debited by the amount, sales are credited by it with the quantity, and
/// nothing else is posted.
pub proof fn lemma_sale_document_accounts(customer: Customer, material: Material, quantity: Dec, amount: Dec)
    requires
        amount.wf(),
    ensures
        line_net(sale_lines(customer, material, quantity, amount), LedgerAccount::Receivable) == amount.units(),
        line_net(sale_lines(customer, material, quantity, amount), LedgerAccount::Sales) == -amount.units(),
        forall|i: int| 0 <= i < sale_lines(customer, material, quantity, amount).len() ==> {
            let l = #[trigger] sale_lines(customer, material, quantity, amount)[i];
            &&& l.account == LedgerAccount::Receivable || l.account == LedgerAccount::Sales
            &&& l.business_partner == Some(BusinessPartner::Customer(customer))
            &&& l.account == LedgerAccount::Receivable ==> l.debt_credit == DebtCredit::Debt
            &&& l.account == LedgerAccount::Sales ==> l.debt_credit == DebtCredit::Credit && l.quantity == Some(quantity)
                && l.material == Some(material)
        },
{
    let l = sale_lines(customer, material, quantity, amount);
    lemma_neg_units(amount);
    assert(l =~= seq![l[0], l[1]]);
    lemma_line_net_two(l[0], l[1], LedgerAccount::Receivable);
    lemma_line_net_two(l[0], l[1], LedgerAccount::Sales);
}

/// A purchase puts the quantity into inventory at the standard amount,
/// owes the vendor the amount paid, and posts the difference between the two
/// to the price differences: debit when paid above standard, credit below.
pub proof fn lemma_purchase_document_accounts(material: Material, vendor: Vendor, quantity: Dec, amount: Dec,
    std_amount: Dec, diff_amount: Dec)
    requires
        amount.wf(),
        std_amount.wf(),
        diff_amount.wf(),
    ensures
        line_net(purchase_lines(material, vendor, quantity, amount, std_amount, diff_amount), LedgerAccount::Inventory)
            == std_amount.units(),
        line_net(purchase_lines(material, vendor, quantity, amount, std_amount, diff_amount), LedgerAccount::Payable)
            == -amount.units(),
        line_net(purchase_lines(material, vendor, quantity, amount, std_amount, diff_amount), LedgerAccount::InventoryDiff)
            == diff_amount.units(),
        forall|i: int| 0 <= i < purchase_lines(material, vendor, quantity, amount, std_amount, diff_amount).len() ==> {
            let l = #[trigger] purchase_lines(material, vendor, quantity, amount, std_amount, diff_amount)[i];
            &&& l.account == LedgerAccount::Inventory || l.account == LedgerAccount::Payable
                || l.account == LedgerAccount::InventoryDiff
            &&& l.account == LedgerAccount::Inventory ==> l.debt_credit == DebtCredit::Debt && l.quantity == Some(quantity)
                && l.material == Some(material)
            &&& l.account == LedgerAccount::Payable ==> l.debt_credit == DebtCredit::Credit
                && l.business_partner == Some(BusinessPartner::Vendor(vendor))
            &&& l.account == LedgerAccount::InventoryDiff ==> l.material == Some(material)
                && (l.debt_credit == DebtCredit::Debt <==> l.amount.units() > 0)
        },
{
    let l = purchase_lines(material, vendor, quantity, amount, std_amount, diff_amount);
    lemma_neg_units(amount);
    lemma_units_sign(diff_amount);
    if diff_amount.mantissa == 0 {
        assert(l =~= seq![l[0], l[1]]);
        lemma_line_net_two(l[0], l[1], LedgerAccount::Inventory);
        lemma_line_net_two(l[0], l[1], LedgerAccount::Payable);
        lemma_line_net_two(l[0], l[1], LedgerAccount::InventoryDiff);
    } else {
        assert(l =~= seq![l[0], l[1], l[2]]);
        lemma_line_net_three(l[0], l[1], l[2], LedgerAccount::Inventory);
        lemma_line_net_three(l[0], l[1], l[2], LedgerAccount::Payable);
        lemma_line_net_three(l[0], l[1], l[2], LedgerAccount::InventoryDiff);
    }
}

} // verus!
