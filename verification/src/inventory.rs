//! Inventory valuation per material and period: what a purchase, a sale,
//! the opening and the closing of a period write, computed from the figures
//! read for the material.

use vstd::prelude::*;
use crate::decimal::{Dec, dec_add, dec_div, dec_lt, dec_mul, dec_round_dp, dec_sub, spec_add, spec_div, spec_mul,
    spec_round_dp, spec_sub, sub_is_exact, add_is_exact, mul_is_exact, exact_product, exact_sum, exact_difference,
    lemma_exact_difference, lemma_exact_sum};
use crate::document::{Document, purchase_lines, cogs_lines, sale_lines, lines_wf};
use crate::domain::{LedgerAccount, User, user_id};
use crate::ledger::{LedgerRow, post_differences, difference_rows, net_to, lemma_net_to_concat, lemma_difference_moves_amount};
use crate::operation::{Purchase, Sale};
use crate::period::{Date, Period, next_of, year_period_of, days_in_month, period_text};
use crate::text::{push_signed_padded, signed_padded};

verus! {

/// The prices and stock of a material in a period, as read before a
/// purchase or a sale.
#[derive(Clone, Copy, Debug)]
pub struct MaterialPrices {
    pub std_price: Dec,
    pub mov_avg_price: Dec,
    pub sell_price: Dec,
    pub stock: Dec,
}

impl MaterialPrices {
    pub open spec fn wf(self) -> bool {
        &&& self.std_price.wf()
        &&& self.mov_avg_price.wf()
        &&& self.sell_price.wf()
        &&& self.stock.wf()
    }
}

/// What a purchase writes: its document, the new moving average price and
/// the quantity that the stock grows by.
#[derive(Debug)]
pub struct PurchasePlan {
    pub document: Document,
    pub mov_avg_price: Dec,
    pub stock_increase: Dec,
}

/// The moving average price after receiving `quantity` for `amount`:
/// `(mov_avg_price * stock + amount) / (stock + quantity)` rounded to two
/// decimals, as `rust_decimal` computes it.
pub open spec fn moving_average(mov_avg_price: Dec, stock: Dec, amount: Dec, quantity: Dec) -> Option<Dec> {
    match spec_mul(mov_avg_price, stock) {
        Some(value) => match spec_add(value, amount) {
            Some(total) => match spec_add(stock, quantity) {
                Some(new_stock) => match spec_div(total, new_stock) {
                    Some(q) => Some(spec_round_dp(q, 2)),
                    None => None,
                },
                None => None,
            },
            None => None,
        },
        None => None,
    }
}

/// The purchase of `op` by `user`, at the prices read for the material:
/// the purchase document at the standard price, and the new moving average
/// price. `None` when `rust_decimal` overflows or the new stock is zero.
pub fn plan_purchase(op: &Purchase, user: User, mp: MaterialPrices) -> (plan: Option<PurchasePlan>)
    requires
        op.price.wf(),
        op.quantity.wf(),
        mp.wf(),
    ensures
        plan is Some <==> ({
            &&& spec_mul(op.price, op.quantity) matches Some(amount)
            &&& spec_mul(mp.std_price, op.quantity) matches Some(std_amount)
            &&& spec_sub(amount, std_amount) is Some
            &&& moving_average(mp.mov_avg_price, mp.stock, amount, op.quantity) is Some
        }),
        plan matches Some(p) ==> {
            let amount = spec_mul(op.price, op.quantity).unwrap();
            let std_amount = spec_mul(mp.std_price, op.quantity).unwrap();
            &&& p.document.posting_date == op.posting_date
            &&& p.document.doc_no@ == op.doc_no@
            &&& p.document.updated_by == user
            &&& p.document.lines@ == purchase_lines(op.material, op.vendor, op.quantity, amount, std_amount,
                    spec_sub(amount, std_amount).unwrap())
            &&& lines_wf(p.document.lines@)
            &&& p.mov_avg_price == moving_average(mp.mov_avg_price, mp.stock, amount, op.quantity).unwrap()
            &&& p.stock_increase == op.quantity
        },
{
    let document = match Document::new_purchase_document(
        op.posting_date,
        op.doc_no.clone(),
        op.material,
        op.vendor,
        op.price,
        mp.std_price,
        op.quantity,
        user,
    ) {
        Some(d) => d,
        None => return None,
    };
    let amount = match dec_mul(op.price, op.quantity) {
        Some(a) => a,
        None => return None,
    };
    let value = match dec_mul(mp.mov_avg_price, mp.stock) {
        Some(v) => v,
        None => return None,
    };
    let total = match dec_add(value, amount) {
        Some(t) => t,
        None => return None,
    };
    let new_stock = match dec_add(mp.stock, op.quantity) {
        Some(s) => s,
        None => return None,
    };
    let average = match dec_div(total, new_stock) {
        Some(q) => q,
        None => return None,
    };
    let mov_avg_price = dec_round_dp(average, 2);
    Some(PurchasePlan { document, mov_avg_price, stock_increase: op.quantity })
}

/// What a sale writes: nothing when the stock does not cover the quantity,
/// otherwise the cost of goods sold and sale documents and the quantity that
/// the stock shrinks by.
#[derive(Debug)]
pub enum SalePlan {
    InsufficientStock,
    Sell { cogs: Document, sale: Document, stock_decrease: Dec },
}

/// The sale of `op` by `user`, at the prices and stock read for the
/// material. `None` when `rust_decimal` overflows.
pub fn plan_sale(op: &Sale, user: User, mp: MaterialPrices) -> (plan: Option<SalePlan>)
    requires
        op.quantity.wf(),
        mp.wf(),
    ensures
        mp.stock.units() < op.quantity.units() <==> plan == Some(SalePlan::InsufficientStock),
        mp.stock.units() >= op.quantity.units() ==> (plan is Some <==>
            (spec_mul(mp.std_price, op.quantity) is Some && spec_mul(mp.sell_price, op.quantity) is Some)),
        plan matches Some(SalePlan::Sell { cogs, sale, stock_decrease }) ==> {
            &&& mp.stock.units() >= op.quantity.units()
            &&& cogs.posting_date == op.posting_date
            &&& cogs.doc_no@ == op.cogs_doc_no@
            &&& cogs.updated_by == user
            &&& cogs.lines@ == cogs_lines(op.customer, op.material, op.quantity, spec_mul(mp.std_price, op.quantity).unwrap())
            &&& lines_wf(cogs.lines@)
            &&& sale.posting_date == op.posting_date
            &&& sale.doc_no@ == op.sale_doc_no@
            &&& sale.updated_by == user
            &&& sale.lines@ == sale_lines(op.customer, op.material, op.quantity, spec_mul(mp.sell_price, op.quantity).unwrap())
            &&& lines_wf(sale.lines@)
            &&& stock_decrease == op.quantity
        },
{
    if dec_lt(mp.stock, op.quantity) {
        return Some(SalePlan::InsufficientStock);
    }
    let cogs = match Document::new_cogs_document(
        op.posting_date,
        op.cogs_doc_no.clone(),
        op.customer,
        op.material,
        mp.std_price,
        op.quantity,
        user,
    ) {
        Some(d) => d,
        None => return None,
    };
    let sale = match Document::new_sale_document(
        op.posting_date,
        op.sale_doc_no.clone(),
        op.customer,
        op.material,
        mp.sell_price,
        op.quantity,
        user,
    ) {
        Some(d) => d,
        None => return None,
    };
    Some(SalePlan::Sell { cogs, sale, stock_decrease: op.quantity })
}

/// The row of a material for a period.
#[derive(Clone, Copy, Debug, PartialEq, Eq)]
pub struct PeriodRow {
    pub std_price: Dec,
    pub mov_avg_price: Dec,
    pub actual_price: Dec,
    pub sell_price: Dec,
    pub stock: Dec,
}

/// What opening a period writes for a material.
#[derive(Clone, Copy, Debug, PartialEq, Eq)]
pub enum OpenAction {
    /// Insert the period's row: the previous period's row with the standard
    /// price set to the material's next standard price.
    Insert(PeriodRow),
    /// Update the existing row: the next standard price, and the stock of
    /// the previous period (none when that period has no row).
    Update { std_price: Dec, stock: Option<Dec> },
    /// Nothing to copy from: the period has no row and neither has the
    /// previous one.
    Nothing,
}

/// Opening a period for a material: when the period already has a row, its
/// standard price becomes the material's next standard price and its stock
/// the previous period's stock; otherwise the previous period's row is
/// carried over with the next standard price.
pub fn plan_open(exists: bool, next_std_price: Dec, prev: Option<PeriodRow>) -> (action: OpenAction)
    ensures
        exists ==> action == (OpenAction::Update {
            std_price: next_std_price,
            stock: match prev { Some(r) => Some(r.stock), None => None },
        }),
        !exists && prev is None ==> action == OpenAction::Nothing,
        !exists ==> (prev matches Some(r) ==> action == OpenAction::Insert(PeriodRow { std_price: next_std_price, ..r })),
{
    if exists {
        let stock = match prev {
            Some(r) => Some(r.stock),
            None => None,
        };
        OpenAction::Update { std_price: next_std_price, stock }
    } else {
        match prev {
            Some(r) => OpenAction::Insert(PeriodRow { std_price: next_std_price, ..r }),
            None => OpenAction::Nothing,
        }
    }
}

/// The figures read for a material when its period is closed: the standard
/// price of the period and of the next period, the stock at the end of the
/// previous period, the quantities received and consumed (negative) in the
/// period, and the price differences posted in it.
#[derive(Clone, Copy, Debug)]
pub struct ClosingData {
    pub std_price: Dec,
    pub next_std_price: Dec,
    pub prev_stock: Dec,
    pub receipt: Dec,
    pub consumption: Dec,
    pub diff_amount: Dec,
}

impl ClosingData {
    pub open spec fn wf(self) -> bool {
        &&& self.std_price.wf()
        &&& self.next_std_price.wf()
        &&& self.prev_stock.wf()
        &&& self.receipt.wf()
        &&& self.consumption.wf()
        &&& self.diff_amount.wf()
    }
}

/// The valuation figures of a closed period.
#[derive(Clone, Copy, Debug, PartialEq, Eq)]
pub struct ClosingFigures {
    /// `(s1 * sp2 + r2 * sp2 + d2) / (s1 + r2)`: the actual price.
    pub actual_price: Dec,
    /// `s1 + r2 + c2`: the stock at the end of the period.
    pub curr_stock: Dec,
    /// `d2 * s3 / (s1 + r2)`: the part of the differences that stays in stock.
    pub diff_to_stock: Dec,
    /// `d2 - ds2`: the part of the differences that goes to cost of goods sold.
    pub diff_to_cogs: Dec,
    /// `s3 * sp2 + ds2 - s3 * sp3`: the difference carried into the next
    /// period, where the stock is valued at the next standard price.
    pub next_diff: Dec,
}

/// Chains two optional computations.
pub open spec fn then(a: Option<Dec>, f: spec_fn(Dec) -> Option<Dec>) -> Option<Dec> {
    match a {
        Some(x) => f(x),
        None => None,
    }
}

/// The closing figures once the stock at the end of the period, the actual
/// price and the part of the differences that stays in stock are known: the
/// rest of the differences goes to cost of goods sold, and the stock valued
/// at the standard price plus its differences, less the stock valued at the
/// next standard price, is carried into the next period.
pub open spec fn closing_rest(d: ClosingData, curr_stock: Dec, actual_price: Dec, diff_to_stock: Dec) -> Option<ClosingFigures> {
    let diff_to_cogs = spec_sub(d.diff_amount, diff_to_stock);
    let next_diff = match (spec_mul(curr_stock, d.std_price), spec_mul(curr_stock, d.next_std_price)) {
        (Some(a), Some(b)) => then(spec_add(a, diff_to_stock), |x: Dec| spec_sub(x, b)),
        _ => None,
    };
    match (diff_to_cogs, next_diff) {
        (Some(dc), Some(nd)) => Some(ClosingFigures {
            actual_price,
            curr_stock,
            diff_to_stock,
            diff_to_cogs: dc,
            next_diff: nd,
        }),
        _ => None,
    }
}

/// The closing figures, computed in the order and with the operations of
/// `rust_decimal`; `None` when an operation overflows or the stock before
/// consumption is zero.
pub open spec fn closing_figures(d: ClosingData) -> Option<ClosingFigures> {
    let prev_value = spec_mul(d.prev_stock, d.std_price);
    let receipt_value = spec_mul(d.receipt, d.std_price);
    let value = match (prev_value, receipt_value) {
        (Some(a), Some(b)) => spec_add(a, b),
        _ => None,
    };
    let total_amount = then(value, |v: Dec| spec_add(v, d.diff_amount));
    let total_stock = spec_add(d.prev_stock, d.receipt);
    let actual_price = match (total_amount, total_stock) {
        (Some(a), Some(s)) => spec_div(a, s),
        _ => None,
    };
    let curr_stock = then(total_stock, |s: Dec| spec_add(s, d.consumption));
    let diff_to_stock = match (curr_stock, total_stock) {
        (Some(c), Some(s)) => then(spec_mul(d.diff_amount, c), |x: Dec| spec_div(x, s)),
        _ => None,
    };
    match (actual_price, curr_stock, diff_to_stock) {
        (Some(ap), Some(cs), Some(ds)) => closing_rest(d, cs, ap, ds),
        _ => None,
    }
}

/// Completes the closing figures from the end-of-period stock, the actual
/// price and the part of the differences that stays in stock.
pub fn complete_closing(d: ClosingData, curr_stock: Dec, actual_price: Dec, diff_to_stock: Dec) -> (f: Option<ClosingFigures>)
    requires
        d.wf(),
        curr_stock.wf(),
        actual_price.wf(),
        diff_to_stock.wf(),
    ensures
        f == closing_rest(d, curr_stock, actual_price, diff_to_stock),
        f matches Some(x) ==> x.actual_price.wf() && x.curr_stock.wf() && x.diff_to_stock.wf()
            && x.diff_to_cogs.wf() && x.next_diff.wf(),
{
    let diff_to_cogs = match dec_sub(d.diff_amount, diff_to_stock) {
        Some(v) => v,
        None => return None,
    };
    let stock_value = match dec_mul(curr_stock, d.std_price) {
        Some(v) => v,
        None => return None,
    };
    let next_stock_value = match dec_mul(curr_stock, d.next_std_price) {
        Some(v) => v,
        None => return None,
    };
    let carried = match dec_add(stock_value, diff_to_stock) {
        Some(v) => v,
        None => return None,
    };
    let next_diff = match dec_sub(carried, next_stock_value) {
        Some(v) => v,
        None => return None,
    };
    Some(ClosingFigures { actual_price, curr_stock, diff_to_stock, diff_to_cogs, next_diff })
}

/// Computes the closing figures of a material.
pub fn compute_closing(d: ClosingData) -> (f: Option<ClosingFigures>)
    requires
        d.wf(),
    ensures
        f == closing_figures(d),
        f matches Some(x) ==> x.actual_price.wf() && x.curr_stock.wf() && x.diff_to_stock.wf()
            && x.diff_to_cogs.wf() && x.next_diff.wf(),
{
    let prev_value = match dec_mul(d.prev_stock, d.std_price) {
        Some(v) => v,
        None => return None,
    };
    let receipt_value = match dec_mul(d.receipt, d.std_price) {
        Some(v) => v,
        None => return None,
    };
    let value = match dec_add(prev_value, receipt_value) {
        Some(v) => v,
        None => return None,
    };
    let total_amount = match dec_add(value, d.diff_amount) {
        Some(v) => v,
        None => return None,
    };
    let total_stock = match dec_add(d.prev_stock, d.receipt) {
        Some(v) => v,
        None => return None,
    };
    let actual_price = match dec_div(total_amount, total_stock) {
        Some(v) => v,
        None => return None,
    };
    let curr_stock = match dec_add(total_stock, d.consumption) {
        Some(v) => v,
        None => return None,
    };
    let diff_stock_value = match dec_mul(d.diff_amount, curr_stock) {
        Some(v) => v,
        None => return None,
    };
    let diff_to_stock = match dec_div(diff_stock_value, total_stock) {
        Some(v) => v,
        None => return None,
    };
    complete_closing(d, curr_stock, actual_price, diff_to_stock)
}

/// The split of the period's differences between stock and cost of goods
/// sold loses nothing: when the subtraction is exact, the two parts add up
/// to the differences posted in the period.
pub proof fn lemma_differences_conserved(d: ClosingData)
    requires
        d.wf(),
        closing_figures(d) matches Some(f) && f.diff_to_stock.wf() && sub_is_exact(d.diff_amount, f.diff_to_stock),
    ensures
        closing_figures(d).unwrap().diff_to_stock.units() + closing_figures(d).unwrap().diff_to_cogs.units()
            == d.diff_amount.units(),
{
    let f = closing_figures(d).unwrap();
    lemma_exact_difference(d.diff_amount, f.diff_to_stock);
}

/// No stock before consumption leaves no actual price to compute.
pub proof fn lemma_closing_needs_stock(d: ClosingData)
    requires
        spec_add(d.prev_stock, d.receipt) matches Some(s) && s.mantissa == 0,
    ensures
        closing_figures(d) is None,
{
}

/// The document number of the closing postings of a material in a period:
/// `CLOSE-{period}-{material}`.
pub open spec fn close_doc_text(p: Period, material: Seq<char>) -> Seq<char> {
    seq!['C', 'L', 'O', 'S', 'E', '-'] + period_text(p) + seq!['-'] + material
}

/// The document number of the opening posting of a material in the next
/// period: `OPEN-{yyyymm}-{material}`.
pub open spec fn open_doc_text(next: Period, material: Seq<char>) -> Seq<char> {
    seq!['O', 'P', 'E', 'N', '-'] + signed_padded(year_period_of(next), 0) + seq!['-'] + material
}

/// A period that can be closed: its month is valid and `chrono` represents
/// its days and those of the next period.
pub open spec fn closable(p: Period) -> bool {
    &&& p.valid_month()
    &&& p.date_year()
    &&& next_of(p).date_year()
}

/// The last day of a period.
pub open spec fn last_date_of(p: Period) -> Date {
    Date { year: p.0, month: p.1 as u32, day: days_in_month(p.0 as int, p.1 as int) as u32 }
}

/// The first day of a period.
pub open spec fn first_date_of(p: Period) -> Date {
    Date { year: p.0, month: p.1 as u32, day: 1 }
}

/// What closing a period writes for a material: the closing figures (the
/// actual price becomes the period's actual price and the material's next
/// standard price), the postings of the differences to stock and to cost of
/// goods sold on the last day of the period, and the posting that revalues
/// the stock at the next standard price on the first day of the next period.
#[derive(Debug)]
pub struct ClosePlan {
    pub figures: ClosingFigures,
    pub stock_rows: Vec<LedgerRow>,
    pub cogs_rows: Vec<LedgerRow>,
    pub next_rows: Vec<LedgerRow>,
}

/// `p` is what closing `period` writes for the material `material` by
/// `user` from the figures `d`.
pub open spec fn close_plan_of(p: ClosePlan, period: Period, material: Seq<char>, user: User, d: ClosingData) -> bool {
    let f = p.figures;
    let who = user_id(user.0 as nat);
    let close_doc = close_doc_text(period, material);
    let open_doc = open_doc_text(next_of(period), material);
    &&& closing_figures(d) == Some(f)
    &&& f.actual_price.wf() && f.curr_stock.wf() && f.diff_to_stock.wf() && f.diff_to_cogs.wf() && f.next_diff.wf()
    &&& difference_rows(p.stock_rows@, last_date_of(period), close_doc, material,
            f.diff_to_stock, LedgerAccount::Inventory, LedgerAccount::InventoryDiff, who)
    &&& difference_rows(p.cogs_rows@, last_date_of(period), close_doc, material,
            f.diff_to_cogs, LedgerAccount::Cogs, LedgerAccount::InventoryDiff, who)
    &&& difference_rows(p.next_rows@, first_date_of(next_of(period)), open_doc, material,
            f.next_diff, LedgerAccount::InventoryDiff, LedgerAccount::Inventory, who)
}

/// `CLOSE-{period}-{material}`.
fn close_doc_no(period: &Period, material_id: &String) -> (s: String)
    ensures
        s@ == close_doc_text(*period, material_id@),
{
    let mut s = String::new();
    proof { reveal_strlit("CLOSE-"); }
    s.append("CLOSE-");
    let text = period.fmt();
    s.append(text.as_str());
    proof { reveal_strlit("-"); }
    s.append("-");
    s.append(material_id.as_str());
    assert(s@ =~= close_doc_text(*period, material_id@));
    s
}

/// `OPEN-{yyyymm}-{material}`.
fn open_doc_no(next_yp: i32, next: Ghost<Period>, material_id: &String) -> (s: String)
    requires
        next_yp == year_period_of(next@),
    ensures
        s@ == open_doc_text(next@, material_id@),
{
    let mut s = String::new();
    proof { reveal_strlit("OPEN-"); }
    s.append("OPEN-");
    push_signed_padded(&mut s, next_yp as i64, 0);
    proof { reveal_strlit("-"); }
    s.append("-");
    s.append(material_id.as_str());
    assert(s@ =~= open_doc_text(next@, material_id@));
    s
}

/// Closing `period` for the material `material_id` by `user`, from the
/// figures read for it: `None` when `rust_decimal` overflows or there is no
/// stock before consumption to price.
pub fn plan_close(period: Period, material_id: &String, user: User, d: ClosingData) -> (plan: Option<ClosePlan>)
    requires
        closable(period),
        d.wf(),
    ensures
        plan is Some <==> closing_figures(d) is Some,
        plan matches Some(p) ==> close_plan_of(p, period, material_id@, user, d),
{
    let figures = match compute_closing(d) {
        Some(f) => f,
        None => return None,
    };
    let user_id = user.id();
    let next = period.next_period();
    let next_yp = next.year_period();
    let close_doc = close_doc_no(&period, material_id);
    let open_doc = open_doc_no(next_yp, Ghost(next), material_id);
    let last = period.last_date();
    let first = next.first_date();
    let stock_rows = post_differences(last, &close_doc, material_id, figures.diff_to_stock,
        LedgerAccount::Inventory, LedgerAccount::InventoryDiff, &user_id);
    let cogs_rows = post_differences(last, &close_doc, material_id, figures.diff_to_cogs,
        LedgerAccount::Cogs, LedgerAccount::InventoryDiff, &user_id);
    let next_rows = post_differences(first, &open_doc, material_id, figures.next_diff,
        LedgerAccount::InventoryDiff, LedgerAccount::Inventory, &user_id);
    Some(ClosePlan { figures, stock_rows, cogs_rows, next_rows })
}

/// Closing a period clears the price differences posted in it: the
/// postings to stock and to cost of goods sold take out of the differences
/// account exactly the differences of the period, when splitting them needs
/// no rounding.
pub proof fn lemma_close_clears_differences(p: ClosePlan, period: Period, material: Seq<char>, user: User, d: ClosingData)
    requires
        d.wf(),
        close_plan_of(p, period, material, user, d),
        sub_is_exact(d.diff_amount, p.figures.diff_to_stock),
    ensures
        net_to(p.stock_rows@ + p.cogs_rows@, LedgerAccount::InventoryDiff) == -d.diff_amount.units(),
{
    let f = p.figures;
    let who = user_id(user.0 as nat);
    lemma_difference_moves_amount(p.stock_rows@, last_date_of(period), close_doc_text(period, material), material,
        f.diff_to_stock, LedgerAccount::Inventory, LedgerAccount::InventoryDiff, who);
    lemma_difference_moves_amount(p.cogs_rows@, last_date_of(period), close_doc_text(period, material), material,
        f.diff_to_cogs, LedgerAccount::Cogs, LedgerAccount::InventoryDiff, who);
    lemma_net_to_concat(p.stock_rows@, p.cogs_rows@, LedgerAccount::InventoryDiff);
    lemma_differences_conserved(d);
}

/// A product that needs no rounding is a valid decimal.
proof fn lemma_exact_product_wf(a: Dec, b: Dec)
    requires
        mul_is_exact(a, b),
    ensures
        exact_product(a, b).wf(),
{
}

/// Closing revalues the stock at the next standard price: the stock valued
/// at the period's standard price, plus what closing and opening post to
/// inventory, is the stock valued at the next standard price, when this
/// arithmetic needs no rounding.
pub proof fn lemma_close_revalues_stock(p: ClosePlan, period: Period, material: Seq<char>, user: User, d: ClosingData)
    requires
        d.wf(),
        close_plan_of(p, period, material, user, d),
        mul_is_exact(p.figures.curr_stock, d.std_price),
        mul_is_exact(p.figures.curr_stock, d.next_std_price),
        add_is_exact(exact_product(p.figures.curr_stock, d.std_price), p.figures.diff_to_stock),
        sub_is_exact(exact_sum(exact_product(p.figures.curr_stock, d.std_price), p.figures.diff_to_stock),
            exact_product(p.figures.curr_stock, d.next_std_price)),
    ensures
        exact_product(p.figures.curr_stock, d.std_price).units()
            + net_to(p.stock_rows@ + p.next_rows@, LedgerAccount::Inventory)
            == exact_product(p.figures.curr_stock, d.next_std_price).units(),
{
    let f = p.figures;
    let who = user_id(user.0 as nat);
    let a = exact_product(f.curr_stock, d.std_price);
    let b = exact_product(f.curr_stock, d.next_std_price);
    lemma_exact_product_wf(f.curr_stock, d.std_price);
    lemma_exact_product_wf(f.curr_stock, d.next_std_price);
    lemma_exact_sum(a, f.diff_to_stock);
    lemma_exact_difference(exact_sum(a, f.diff_to_stock), b);
    assert(f.next_diff == exact_difference(exact_sum(a, f.diff_to_stock), b));
    lemma_difference_moves_amount(p.stock_rows@, last_date_of(period), close_doc_text(period, material), material,
        f.diff_to_stock, LedgerAccount::Inventory, LedgerAccount::InventoryDiff, who);
    lemma_difference_moves_amount(p.next_rows@, first_date_of(next_of(period)), open_doc_text(next_of(period), material),
        material, f.next_diff, LedgerAccount::InventoryDiff, LedgerAccount::Inventory, who);
    lemma_net_to_concat(p.stock_rows@, p.next_rows@, LedgerAccount::Inventory);
}

/// When the whole stock of the period is consumed, none of the period's
/// price differences stays in stock: all of them go to cost of goods sold.
pub proof fn lemma_all_consumed_differences_to_cogs(d: ClosingData)
    requires
        d.wf(),
        closing_figures(d) matches Some(f) && f.curr_stock.mantissa == 0,
    ensures
        closing_figures(d).unwrap().diff_to_stock.units() == 0,
        closing_figures(d).unwrap().diff_to_cogs.units() == d.diff_amount.units(),
{
    let f = closing_figures(d).unwrap();
    let z = Dec { mantissa: 0, scale: 0 };
    let s = spec_add(d.prev_stock, d.receipt).unwrap();
    assert(spec_mul(d.diff_amount, f.curr_stock) == Some(z));
    assert(s.mantissa != 0);
    assert(f.diff_to_stock == z);
    crate::decimal::lemma_units_sign(z);
    crate::decimal::lemma_fits_own(d.diff_amount);
    crate::decimal::lemma_pow10_pos((crate::decimal::MAX_SCALE - d.diff_amount.scale) as nat);
    assert(sub_is_exact(d.diff_amount, z));
    lemma_exact_difference(d.diff_amount, z);
}

/// The stock at the end of the period is the stock before it, plus what was
/// received, plus what was consumed (negative), when these add up without
/// rounding.
pub proof fn lemma_closing_end_stock(d: ClosingData)
    requires
        d.wf(),
        closing_figures(d) is Some,
        add_is_exact(d.prev_stock, d.receipt),
        add_is_exact(exact_sum(d.prev_stock, d.receipt), d.consumption),
    ensures
        closing_figures(d).unwrap().curr_stock.units() == d.prev_stock.units() + d.receipt.units() + d.consumption.units(),
{
    lemma_exact_sum(d.prev_stock, d.receipt);
    lemma_exact_sum(exact_sum(d.prev_stock, d.receipt), d.consumption);
}

} // verus!
