//! A period's workload: the random draws that generate its operations, the
//! operations built from them, and the order in which users process them.

use vstd::prelude::*;
use crate::decimal::Dec;
use crate::domain::{Customer, Material, Vendor};
use crate::operation::{Cost, Operation, Purchase, Sale};
use crate::period::{Date, Period, days_in_month, period_text};
use crate::text::{padded, push_padded};
use crate::config::Config;

verus! {

/// Slot `a` comes before slot `b`: a smaller order, or the same order and
/// generated earlier.
pub open spec fn slot_before(keys: Seq<usize>, a: int, b: int) -> bool {
    keys[a] < keys[b] || (keys[a] == keys[b] && a < b)
}

/// `idx` lists every slot `0..keys.len()` once, by increasing order, slots
/// of equal order in the order they were generated: a stable sort by order.
pub open spec fn stable_order(idx: Seq<usize>, keys: Seq<usize>) -> bool {
    &&& idx.len() == keys.len()
    &&& forall|i: int| 0 <= i < idx.len() ==> #[trigger] idx[i] < keys.len()
    &&& forall|j: int| 0 <= j < keys.len() ==> #[trigger] idx.contains(j as usize)
    &&& forall|a: int, b: int| 0 <= a < b < idx.len() ==> slot_before(keys, #[trigger] idx[a] as int, #[trigger] idx[b] as int)
}

/// `s` lists slots in strictly increasing stable order.
pub open spec fn slots_sorted(keys: Seq<usize>, s: Seq<usize>) -> bool {
    forall|a: int, b: int| 0 <= a < b < s.len() ==> slot_before(keys, #[trigger] s[a] as int, #[trigger] s[b] as int)
}

/// `s` lists exactly the slots `lo..hi`.
pub open spec fn lists_range(s: Seq<usize>, lo: nat, hi: nat) -> bool {
    &&& s.len() == hi - lo
    &&& forall|i: int| 0 <= i < s.len() ==> lo <= #[trigger] s[i] < hi
    &&& forall|v: int| lo <= v < hi ==> #[trigger] s.contains(v as usize)
}

/// Appending keeps what a sequence contains.
proof fn lemma_push_contains(s: Seq<usize>, x: usize, v: usize)
    requires
        s.contains(v),
    ensures
        s.push(x).contains(v),
{
    let q = choose|q: int| 0 <= q < s.len() && s[q] == v;
    assert(s.push(x)[q] == v);
}

/// Merges two sorted runs of slots, the first from `lo..mid`, the second
/// from `mid..hi`, into one sorted run of `lo..hi`.
fn merge_slots(keys: &Vec<usize>, left: &Vec<usize>, right: &Vec<usize>, lo: Ghost<nat>, mid: Ghost<nat>,
    hi: Ghost<nat>) -> (merged: Vec<usize>)
    requires
        lo@ <= mid@ <= hi@ <= keys.len(),
        lists_range(left@, lo@, mid@),
        lists_range(right@, mid@, hi@),
        slots_sorted(keys@, left@),
        slots_sorted(keys@, right@),
    ensures
        lists_range(merged@, lo@, hi@),
        slots_sorted(keys@, merged@),
{
    let mut merged: Vec<usize> = Vec::new();
    let mut i: usize = 0;
    let mut j: usize = 0;
    while i < left.len() || j < right.len()
        invariant
            lo@ <= mid@ <= hi@ <= keys.len(),
            lists_range(left@, lo@, mid@),
            lists_range(right@, mid@, hi@),
            slots_sorted(keys@, left@),
            slots_sorted(keys@, right@),
            i <= left.len(),
            j <= right.len(),
            merged.len() == i + j,
            forall|q: int| 0 <= q < merged.len() ==> lo@ <= #[trigger] merged[q] < hi@,
            forall|p: int| 0 <= p < i ==> #[trigger] merged@.contains(left@[p]),
            forall|p: int| 0 <= p < j ==> #[trigger] merged@.contains(right@[p]),
            slots_sorted(keys@, merged@),
            merged.len() > 0 ==> forall|p: int| i <= p < left.len()
                ==> slot_before(keys@, merged@.last() as int, #[trigger] left@[p] as int),
            merged.len() > 0 ==> forall|p: int| j <= p < right.len()
                ==> slot_before(keys@, merged@.last() as int, #[trigger] right@[p] as int),
        decreases left.len() + right.len() - i - j,
    {
        let take_left = if i < left.len() && j < right.len() {
            let x = left[i];
            let y = right[j];
            keys[x] < keys[y] || (keys[x] == keys[y] && x < y)
        } else {
            i < left.len()
        };
        let ghost before = merged@;
        if take_left {
            let x = left[i];
            merged.push(x);
            proof {
                assert forall|p: int| 0 <= p < i implies #[trigger] merged@.contains(left@[p]) by {
                    lemma_push_contains(before, x, left@[p]);
                }
                assert forall|p: int| 0 <= p < j implies #[trigger] merged@.contains(right@[p]) by {
                    lemma_push_contains(before, x, right@[p]);
                }
                assert(merged@[merged.len() - 1] == x);
                if j < right.len() {
                    assert(slot_before(keys@, x as int, right@[j as int] as int));
                }
            }
            i = i + 1;
        } else {
            let y = right[j];
            merged.push(y);
            proof {
                assert forall|p: int| 0 <= p < i implies #[trigger] merged@.contains(left@[p]) by {
                    lemma_push_contains(before, y, left@[p]);
                }
                assert forall|p: int| 0 <= p < j implies #[trigger] merged@.contains(right@[p]) by {
                    lemma_push_contains(before, y, right@[p]);
                }
                assert(merged@[merged.len() - 1] == y);
                if i < left.len() {
                    assert(left@[i as int] != y);
                    assert(slot_before(keys@, y as int, left@[i as int] as int));
                }
            }
            j = j + 1;
        }
    }
    proof {
        assert forall|v: int| lo@ <= v < hi@ implies #[trigger] merged@.contains(v as usize) by {
            if v < mid@ {
                assert(left@.contains(v as usize));
                let p = choose|p: int| 0 <= p < left.len() && left@[p] == v as usize;
                assert(merged@.contains(left@[p]));
            } else {
                assert(right@.contains(v as usize));
                let p = choose|p: int| 0 <= p < right.len() && right@[p] == v as usize;
                assert(merged@.contains(right@[p]));
            }
        }
    }
    merged
}

/// The slots `lo..hi` in a stable order by `keys` (merge sort).
fn sort_slots(keys: &Vec<usize>, lo: usize, hi: usize) -> (sorted: Vec<usize>)
    requires
        lo <= hi <= keys.len(),
    ensures
        lists_range(sorted@, lo as nat, hi as nat),
        slots_sorted(keys@, sorted@),
    decreases hi - lo,
{
    if hi - lo <= 1 {
        let mut single: Vec<usize> = Vec::new();
        if hi - lo == 1 {
            single.push(lo);
            assert(single@[0] == lo);
        }
        return single;
    }
    let mid = lo + (hi - lo) / 2;
    let left = sort_slots(keys, lo, mid);
    let right = sort_slots(keys, mid, hi);
    merge_slots(keys, &left, &right, Ghost(lo as nat), Ghost(mid as nat), Ghost(hi as nat))
}

/// The slots `0..keys.len()` in a stable order by `keys`.
pub fn order_slots(keys: &Vec<usize>) -> (idx: Vec<usize>)
    ensures
        stable_order(idx@, keys@),
{
    sort_slots(keys, 0, keys.len())
}

/// The draws that generate one operation of a period's workload: its order
/// (when in the period it runs), the material, the business partner, the
/// value (the quantity of a purchase or a sale, the amount of a cost) and
/// the price of a purchase. Reports use only the order.
#[derive(Clone, Copy, Debug, PartialEq, Eq)]
pub struct Draw {
    pub order: usize,
    pub material: u32,
    pub partner: u32,
    pub value: u32,
    pub price: u32,
}

/// Period reports: 20 % of the operations.
pub open spec fn period_report_count(ops: nat) -> nat {
    ops * 20 / 100
}

/// Year reports: 10 % of the operations.
pub open spec fn year_report_count(ops: nat) -> nat {
    ops * 10 / 100
}

/// Costs: 20 % of the operations.
pub open spec fn cost_count(ops: nat) -> nat {
    ops * 20 / 100
}

/// Purchases: 25 % of the operations.
pub open spec fn purchase_count(ops: nat) -> nat {
    ops * 25 / 100
}

/// Sales: 25 % of the operations.
pub open spec fn sale_count(ops: nat) -> nat {
    ops * 25 / 100
}

/// Where the year reports start among the generated operations.
pub open spec fn year_reports_start(ops: nat) -> nat {
    period_report_count(ops)
}

/// Where the costs start.
pub open spec fn costs_start(ops: nat) -> nat {
    year_reports_start(ops) + year_report_count(ops)
}

/// Where the purchases start.
pub open spec fn purchases_start(ops: nat) -> nat {
    costs_start(ops) + cost_count(ops)
}

/// Where the sales start.
pub open spec fn sales_start(ops: nat) -> nat {
    purchases_start(ops) + purchase_count(ops)
}

/// The number of operations generated from draws; the opening and the
/// closing of a period follow them.
pub open spec fn drawn_count(ops: nat) -> nat {
    sales_start(ops) + sale_count(ops)
}

/// The kinds of operations, in the order they are generated.
#[derive(Clone, Copy, Debug, PartialEq, Eq)]
pub enum WorkKind {
    PeriodReport,
    YearReport,
    Cost,
    Purchase,
    Sale,
    OpenPeriod,
    ClosePeriod,
}

/// The kind of the `j`-th generated operation.
pub open spec fn kind_at(ops: nat, j: int) -> WorkKind {
    if j < year_reports_start(ops) {
        WorkKind::PeriodReport
    } else if j < costs_start(ops) {
        WorkKind::YearReport
    } else if j < purchases_start(ops) {
        WorkKind::Cost
    } else if j < sales_start(ops) {
        WorkKind::Purchase
    } else if j < drawn_count(ops) {
        WorkKind::Sale
    } else if j == drawn_count(ops) {
        WorkKind::OpenPeriod
    } else {
        WorkKind::ClosePeriod
    }
}

/// The number of the `j`-th generated operation among those of its kind.
pub open spec fn number_at(ops: nat, j: int) -> int {
    match kind_at(ops, j) {
        WorkKind::PeriodReport => j,
        WorkKind::YearReport => j - year_reports_start(ops),
        WorkKind::Cost => j - costs_start(ops),
        WorkKind::Purchase => j - purchases_start(ops),
        WorkKind::Sale => j - sales_start(ops),
        _ => 0,
    }
}

/// A draw that the random generator can give for an operation of `kind` in
/// a workload of `ops` operations over `materials` materials, `vendors`
/// vendors and `customers` customers.
pub open spec fn draw_in_range(kind: WorkKind, d: Draw, ops: nat, materials: nat, vendors: nat, customers: nat) -> bool {
    &&& d.order < ops
    &&& match kind {
        WorkKind::Cost => d.material < materials && d.partner < vendors && 1000 <= d.value < 2000,
        WorkKind::Purchase => d.material < materials && d.partner < vendors && 1000 <= d.value < 2000
            && 100 <= d.price < 200,
        WorkKind::Sale => d.material < materials && d.partner < customers && 100 <= d.value < 200,
        _ => true,
    }
}

/// Draws for every generated operation of a workload.
pub open spec fn valid_draws(ops: nat, materials: nat, vendors: nat, customers: nat, draws: Seq<Draw>) -> bool {
    &&& draws.len() == drawn_count(ops)
    &&& forall|j: int| 0 <= j < draws.len()
        ==> draw_in_range(kind_at(ops, j), #[trigger] draws[j], ops, materials, vendors, customers)
}

/// The order at which the closing of the previous period runs: a fifth to
/// five fifths of the operations of the period's first five days.
pub open spec fn close_order_of(factor: nat, ops: nat, last_day: nat) -> nat {
    factor * ops / last_day
}

/// The orders of all slots: the drawn orders, then the opening at the end
/// of the period and the closing of the previous period.
pub open spec fn workload_keys(p: Period, ops: nat, draws: Seq<Draw>, close_factor: nat) -> Seq<usize> {
    Seq::new(drawn_count(ops) + 2, |j: int|
        if j < drawn_count(ops) {
            draws[j].order
        } else if j == drawn_count(ops) {
            ops as usize
        } else {
            close_order_of(close_factor, ops, days_in_month(p.0 as int, p.1 as int) as nat) as usize
        })
}

/// The posting date of an operation at `order`: the day of the period in
/// proportion to the order, at least the first day.
pub open spec fn posting_date_of(p: Period, ops: nat, order: nat) -> Date {
    let day = order * days_in_month(p.0 as int, p.1 as int) / ops as int;
    Date { year: p.0, month: p.1 as u32, day: if day < 1 { 1 } else { day as u32 } }
}

/// `{prefix}{period}-{n:08}`: the document number of the `n`-th operation
/// of a kind in a period.
pub open spec fn work_doc_text(prefix: Seq<char>, p: Period, n: nat) -> Seq<char> {
    prefix + period_text(p) + seq!['-'] + padded(n, 8)
}

/// `op` is the `j`-th operation generated for period `p` from `draws`.
pub open spec fn operation_is(op: Operation, p: Period, ops: nat, draws: Seq<Draw>, j: int) -> bool {
    let n = number_at(ops, j) as nat;
    match kind_at(ops, j) {
        WorkKind::PeriodReport => op == Operation::PeriodReport(p),
        WorkKind::YearReport => op == Operation::YearReport(p),
        WorkKind::OpenPeriod => op == Operation::OpenPeriod(p),
        WorkKind::ClosePeriod => op == Operation::ClosePeriod(p),
        WorkKind::Cost => op matches Operation::Cost(c) && {
            &&& c.material == Material(draws[j].material)
            &&& c.vendor == Vendor(draws[j].partner)
            &&& c.amount == (Dec { mantissa: draws[j].value as i128, scale: 0 })
            &&& c.doc_no@ == work_doc_text(seq!['C', 'O', 'S', 'T', '-'], p, n)
            &&& c.posting_date == posting_date_of(p, ops, draws[j].order as nat)
        },
        WorkKind::Purchase => op matches Operation::Purchase(c) && {
            &&& c.material == Material(draws[j].material)
            &&& c.vendor == Vendor(draws[j].partner)
            &&& c.quantity == (Dec { mantissa: draws[j].value as i128, scale: 0 })
            &&& c.price == (Dec { mantissa: draws[j].price as i128, scale: 0 })
            &&& c.doc_no@ == work_doc_text(seq!['P', 'U', 'R', 'C', 'H', '-'], p, n)
            &&& c.posting_date == posting_date_of(p, ops, draws[j].order as nat)
        },
        WorkKind::Sale => op matches Operation::Sale(c) && {
            &&& c.material == Material(draws[j].material)
            &&& c.customer == Customer(draws[j].partner)
            &&& c.quantity == (Dec { mantissa: draws[j].value as i128, scale: 0 })
            &&& c.sale_doc_no@ == work_doc_text(seq!['S', 'A', 'L', 'E', '-'], p, n)
            &&& c.cogs_doc_no@ == work_doc_text(seq!['C', 'O', 'G', 'S', '-'], p, n)
            &&& c.posting_date == posting_date_of(p, ops, draws[j].order as nat)
        },
    }
}

/// A workload size whose day arithmetic fits in `u32`.
pub open spec fn workload_fits(ops: nat) -> bool {
    ops * 31 <= u32::MAX
}

/// `{prefix}{period}-{n:08}`.
fn work_doc_no(prefix: &str, p: &Period, n: usize) -> (s: String)
    ensures
        s@ == work_doc_text(prefix@, *p, n as nat),
{
    let mut s = String::from_str(prefix);
    let text = p.fmt();
    s.append(text.as_str());
    proof { reveal_strlit("-"); }
    s.append("-");
    push_padded(&mut s, n as u64, 8);
    assert(s@ =~= work_doc_text(prefix@, *p, n as nat));
    s
}

/// The `j`-th operation generated for period `p` from `draws`.
pub fn build_operation(p: &Period, ops: usize, draws: &Vec<Draw>, j: usize) -> (op: Operation)
    requires
        p.valid_month(),
        p.date_year(),
        workload_fits(ops as nat),
        draws.len() == drawn_count(ops as nat),
        forall|k: int| 0 <= k < draws.len() ==> #[trigger] draws[k].order < ops,
        j < drawn_count(ops as nat) + 2,
    ensures
        operation_is(op, *p, ops as nat, draws@, j as int),
{
    let yr = ops * 20 / 100;
    let cs = yr + ops * 10 / 100;
    let ps = cs + ops * 20 / 100;
    let ss = ps + ops * 25 / 100;
    let dc = ss + ops * 25 / 100;
    if j < yr {
        Operation::PeriodReport(*p)
    } else if j < cs {
        Operation::YearReport(*p)
    } else if j < dc {
        let d = draws[j];
        let last = p.last_day();
        assert(d.order * last <= ops * 31 && (d.order * last) / (ops as int) <= last) by (nonlinear_arith)
            requires
                d.order < ops,
                last <= 31,
        {
            assert(d.order * last <= ops * last);
            assert(ops * last <= ops * 31);
        }
        let day = (d.order as u32) * last / (ops as u32);
        let posting_date = p.date(day);
        assert(posting_date == posting_date_of(*p, ops as nat, d.order as nat));
        if j < ps {
            proof {
                reveal_strlit("COST-");
                assert("COST-"@ =~= seq!['C', 'O', 'S', 'T', '-']);
            }
            Operation::Cost(Cost {
                material: Material(d.material),
                vendor: Vendor(d.partner),
                amount: Dec::from_int(d.value as i64),
                doc_no: work_doc_no("COST-", p, j - cs),
                posting_date,
            })
        } else if j < ss {
            proof {
                reveal_strlit("PURCH-");
                assert("PURCH-"@ =~= seq!['P', 'U', 'R', 'C', 'H', '-']);
            }
            Operation::Purchase(Purchase {
                material: Material(d.material),
                vendor: Vendor(d.partner),
                quantity: Dec::from_int(d.value as i64),
                price: Dec::from_int(d.price as i64),
                doc_no: work_doc_no("PURCH-", p, j - ps),
                posting_date,
            })
        } else {
            proof {
                reveal_strlit("SALE-");
                reveal_strlit("COGS-");
                assert("SALE-"@ =~= seq!['S', 'A', 'L', 'E', '-']);
                assert("COGS-"@ =~= seq!['C', 'O', 'G', 'S', '-']);
            }
            Operation::Sale(Sale {
                material: Material(d.material),
                customer: Customer(d.partner),
                quantity: Dec::from_int(d.value as i64),
                sale_doc_no: work_doc_no("SALE-", p, j - ss),
                cogs_doc_no: work_doc_no("COGS-", p, j - ss),
                posting_date,
            })
        }
    } else if j == dc {
        Operation::OpenPeriod(*p)
    } else {
        Operation::ClosePeriod(*p)
    }
}

/// `out` lists the operations generated from `draws` in the stable order
/// `idx` of their orders.
pub open spec fn arranged_as(out: Seq<Operation>, idx: Seq<usize>, p: Period, ops: nat, draws: Seq<Draw>,
    close_factor: nat) -> bool {
    &&& stable_order(idx, workload_keys(p, ops, draws, close_factor))
    &&& out.len() == idx.len()
    &&& forall|i: int| 0 <= i < out.len() ==> operation_is(#[trigger] out[i], p, ops, draws, idx[i] as int)
}

/// `out` is the workload generated from `draws`, ordered by order, ties in
/// the order of generation.
pub open spec fn arranged(out: Seq<Operation>, p: Period, ops: nat, draws: Seq<Draw>, close_factor: nat) -> bool {
    exists|idx: Seq<usize>| #[trigger] arranged_as(out, idx, p, ops, draws, close_factor)
}

/// The operations of period `p` generated from `draws`, followed by the
/// opening of the next period at the period's end and the closing of the
/// previous period at order `close_factor * ops / last_day`, in a stable
/// order by order.
pub fn arrange_operations(p: &Period, ops: usize, draws: &Vec<Draw>, close_factor: usize) -> (out: Vec<Operation>)
    requires
        p.valid_month(),
        p.date_year(),
        workload_fits(ops as nat),
        draws.len() == drawn_count(ops as nat),
        forall|k: int| 0 <= k < draws.len() ==> #[trigger] draws[k].order < ops,
        close_factor <= 5,
    ensures
        arranged(out@, *p, ops as nat, draws@, close_factor as nat),
{
    let dc = draws.len();
    let ghost key_seq = workload_keys(*p, ops as nat, draws@, close_factor as nat);
    let mut keys: Vec<usize> = Vec::new();
    let mut j: usize = 0;
    while j < dc
        invariant
            j <= dc,
            dc == draws.len(),
            dc == drawn_count(ops as nat),
            key_seq == workload_keys(*p, ops as nat, draws@, close_factor as nat),
            keys@ == key_seq.take(j as int),
        decreases dc - j,
    {
        keys.push(draws[j].order);
        j = j + 1;
        assert(keys@ =~= key_seq.take(j as int));
    }
    keys.push(ops);
    let last = p.last_day();
    assert(close_factor * ops <= 5 * ops) by (nonlinear_arith)
        requires
            close_factor <= 5,
    ;
    keys.push(close_factor * ops / (last as usize));
    assert(keys@ =~= key_seq);
    let idx = order_slots(&keys);
    let mut out: Vec<Operation> = Vec::new();
    let mut i: usize = 0;
    while i < idx.len()
        invariant
            i <= idx.len(),
            p.valid_month(),
            p.date_year(),
            workload_fits(ops as nat),
            draws.len() == drawn_count(ops as nat),
            forall|k: int| 0 <= k < draws.len() ==> #[trigger] draws[k].order < ops,
            stable_order(idx@, key_seq),
            key_seq.len() == drawn_count(ops as nat) + 2,
            out.len() == i,
            forall|k: int| 0 <= k < i ==> operation_is(#[trigger] out[k], *p, ops as nat, draws@, idx[k] as int),
        decreases idx.len() - i,
    {
        let slot = idx[i];
        assert(slot < key_seq.len());
        out.push(build_operation(p, ops, draws, slot));
        i = i + 1;
    }
    assert(arranged_as(out@, idx@, *p, ops as nat, draws@, close_factor as nat));
    out
}

/// Calls `rand::random_range` on `lo..hi` with the thread-local generator.
/// Claimed: the value lies in the range, which `random_range` asserts is not
/// empty. Which value comes is chance; nothing more is claimed.
#[verifier::external_body]
pub(crate) fn random_in(lo: u64, hi: u64) -> (r: u64)
    requires
        lo < hi,
    ensures
        lo <= r < hi,
{
    rand::random_range(lo..hi)
}

/// Draws can be made for every kind of operation that a workload of `ops`
/// operations generates: costs and purchases need materials and vendors,
/// sales need materials and customers.
pub open spec fn drawable(ops: nat, materials: nat, vendors: nat, customers: nat) -> bool {
    &&& cost_count(ops) + purchase_count(ops) > 0 ==> materials > 0 && vendors > 0
    &&& sale_count(ops) > 0 ==> materials > 0 && customers > 0
}

/// Random draws for a workload of `ops` operations, and the factor
/// (`1..=5`) of the order of the closing of the previous period.
pub fn draw_workload(ops: usize, materials: u32, vendors: u32, customers: u32) -> (res: (Vec<Draw>, usize))
    requires
        workload_fits(ops as nat),
        drawable(ops as nat, materials as nat, vendors as nat, customers as nat),
    ensures
        valid_draws(ops as nat, materials as nat, vendors as nat, customers as nat, res.0@),
        1 <= res.1 <= 5,
{
    let yr = ops * 20 / 100;
    let cs = yr + ops * 10 / 100;
    let ps = cs + ops * 20 / 100;
    let ss = ps + ops * 25 / 100;
    let dc = ss + ops * 25 / 100;
    let mut draws: Vec<Draw> = Vec::new();
    let mut j: usize = 0;
    while j < dc
        invariant
            j <= dc,
            dc == drawn_count(ops as nat),
            yr == year_reports_start(ops as nat),
            cs == costs_start(ops as nat),
            ps == purchases_start(ops as nat),
            ss == sales_start(ops as nat),
            workload_fits(ops as nat),
            drawable(ops as nat, materials as nat, vendors as nat, customers as nat),
            draws.len() == j,
            forall|k: int| 0 <= k < j ==> draw_in_range(kind_at(ops as nat, k), #[trigger] draws[k], ops as nat,
                materials as nat, vendors as nat, customers as nat),
        decreases dc - j,
    {
        let order = random_in(0, ops as u64) as usize;
        let d = if j < cs {
            Draw { order, material: 0, partner: 0, value: 0, price: 0 }
        } else if j < ps {
            let material = random_in(0, materials as u64) as u32;
            let partner = random_in(0, vendors as u64) as u32;
            let value = random_in(1000, 2000) as u32;
            Draw { order, material, partner, value, price: 0 }
        } else if j < ss {
            let material = random_in(0, materials as u64) as u32;
            let partner = random_in(0, vendors as u64) as u32;
            let value = random_in(1000, 2000) as u32;
            let price = random_in(100, 200) as u32;
            Draw { order, material, partner, value, price }
        } else {
            let material = random_in(0, materials as u64) as u32;
            let partner = random_in(0, customers as u64) as u32;
            let value = random_in(100, 200) as u32;
            Draw { order, material, partner, value, price: 0 }
        };
        draws.push(d);
        j = j + 1;
    }
    let close_factor = random_in(1, 6) as usize;
    (draws, close_factor)
}

/// The workload of period `p` under `config`: random draws, arranged in
/// the order users process them.
pub fn prepare_operations(p: Period, config: &Config) -> (out: Vec<Operation>)
    requires
        p.valid_month(),
        p.date_year(),
        workload_fits(config.operations as nat),
        drawable(config.operations as nat, config.materials as nat, config.vendors as nat, config.customers as nat),
    ensures
        exists|draws: Seq<Draw>, close_factor: nat| {
            &&& valid_draws(config.operations as nat, config.materials as nat, config.vendors as nat,
                    config.customers as nat, draws)
            &&& 1 <= close_factor <= 5
            &&& #[trigger] arranged(out@, p, config.operations as nat, draws, close_factor)
        },
{
    let (draws, close_factor) = draw_workload(config.operations, config.materials, config.vendors, config.customers);
    assert forall|k: int| 0 <= k < draws.len() implies #[trigger] draws[k].order < config.operations by {
        assert(draw_in_range(kind_at(config.operations as nat, k), draws[k], config.operations as nat,
            config.materials as nat, config.vendors as nat, config.customers as nat));
    }
    let out = arrange_operations(&p, config.operations, &draws, close_factor);
    assert(arranged(out@, p, config.operations as nat, draws@, close_factor as nat));
    out
}

/// The opening of the next period is the last operation of a period's
/// workload: every drawn operation and the closing of the previous period
/// come before the period's end.
pub proof fn lemma_open_period_last(out: Seq<Operation>, idx: Seq<usize>, p: Period, ops: nat, draws: Seq<Draw>,
    close_factor: nat)
    requires
        p.valid_month(),
        ops >= 1,
        workload_fits(ops),
        close_factor <= 5,
        forall|k: int| 0 <= k < draws.len() ==> #[trigger] draws[k].order < ops,
        draws.len() == drawn_count(ops),
        arranged_as(out, idx, p, ops, draws, close_factor),
    ensures
        out.len() == drawn_count(ops) + 2,
        out.last() == Operation::OpenPeriod(p),
{
    let keys = workload_keys(p, ops, draws, close_factor);
    let n = idx.len();
    let dc = drawn_count(ops);
    let last_day = days_in_month(p.0 as int, p.1 as int) as nat;
    assert(close_factor * ops / last_day < ops) by (nonlinear_arith)
        requires
            close_factor <= 5,
            last_day >= 28,
            ops >= 1,
    {
        assert(close_factor * ops <= 5 * ops);
        assert(5 * ops < last_day * ops);
    }
    assert(idx.contains(dc as usize));
    let q = choose|q: int| 0 <= q < n && idx[q] == dc as usize;
    if q < n - 1 {
        let r = idx[n - 1] as int;
        assert(slot_before(keys, idx[q] as int, idx[n - 1] as int));
        assert(keys[dc as int] == ops);
        if r < dc {
            assert(keys[r] == draws[r].order);
        } else {
            assert(r == dc + 1);
        }
        assert(false);
    }
    assert(idx[n - 1] == dc as usize);
    assert(operation_is(out[n - 1], p, ops, draws, idx[n - 1] as int));
}

/// The posting date of a business operation, none for the others.
pub open spec fn posting_date_opt(op: Operation) -> Option<Date> {
    match op {
        Operation::Cost(c) => Some(c.posting_date),
        Operation::Purchase(c) => Some(c.posting_date),
        Operation::Sale(c) => Some(c.posting_date),
        _ => None,
    }
}

/// The day of an operation at a later order is no earlier.
proof fn lemma_posting_day_monotone(p: Period, ops: nat, o1: nat, o2: nat)
    requires
        p.valid_month(),
        o1 <= o2 < ops,
    ensures
        posting_date_of(p, ops, o1).day <= posting_date_of(p, ops, o2).day,
        posting_date_of(p, ops, o1).year == posting_date_of(p, ops, o2).year,
        posting_date_of(p, ops, o1).month == posting_date_of(p, ops, o2).month,
{
    let dim = days_in_month(p.0 as int, p.1 as int);
    vstd::arithmetic::mul::lemma_mul_inequality(o1 as int, o2 as int, dim);
    vstd::arithmetic::div_mod::lemma_div_is_ordered(o1 * dim, o2 * dim, ops as int);
    assert(o2 * dim / (ops as int) <= dim) by (nonlinear_arith)
        requires
            o2 < ops,
            0 <= dim <= 31,
    {
        assert(o2 * dim <= ops * dim);
    }
    assert(0 <= o1 * dim / (ops as int)) by (nonlinear_arith)
        requires
            o1 >= 0,
            dim >= 0,
            ops >= 1,
    ;
}

/// The business operations of a period's workload come in the order of
/// their posting dates: the workload runs through the period day by day.
pub proof fn lemma_posting_dates_in_order(out: Seq<Operation>, idx: Seq<usize>, p: Period, ops: nat, draws: Seq<Draw>,
    close_factor: nat, i: int, j: int)
    requires
        p.valid_month(),
        workload_fits(ops),
        draws.len() == drawn_count(ops),
        forall|k: int| 0 <= k < draws.len() ==> #[trigger] draws[k].order < ops,
        arranged_as(out, idx, p, ops, draws, close_factor),
        0 <= i < j < out.len(),
        posting_date_opt(out[i]) is Some,
        posting_date_opt(out[j]) is Some,
    ensures
        posting_date_opt(out[i]).unwrap().day <= posting_date_opt(out[j]).unwrap().day,
{
    let keys = workload_keys(p, ops, draws, close_factor);
    let a = idx[i] as int;
    let b = idx[j] as int;
    assert(operation_is(out[i], p, ops, draws, a));
    assert(operation_is(out[j], p, ops, draws, b));
    assert(slot_before(keys, a, b));
    assert(a < drawn_count(ops)) by {
        if a >= drawn_count(ops) {
            assert(kind_at(ops, a) is OpenPeriod || kind_at(ops, a) is ClosePeriod);
        }
    }
    assert(b < drawn_count(ops)) by {
        if b >= drawn_count(ops) {
            assert(kind_at(ops, b) is OpenPeriod || kind_at(ops, b) is ClosePeriod);
        }
    }
    assert(keys[a] == draws[a].order && keys[b] == draws[b].order);
    assert(posting_date_opt(out[i]) == Some(posting_date_of(p, ops, draws[a].order as nat)));
    assert(posting_date_opt(out[j]) == Some(posting_date_of(p, ops, draws[b].order as nat)));
    lemma_posting_day_monotone(p, ops, draws[a].order as nat, draws[b].order as nat);
}

/// The document numbers that an operation posts under.
pub open spec fn doc_numbers(op: Operation) -> Seq<Seq<char>> {
    match op {
        Operation::Cost(c) => seq![c.doc_no@],
        Operation::Purchase(c) => seq![c.doc_no@],
        Operation::Sale(c) => seq![c.sale_doc_no@, c.cogs_doc_no@],
        _ => Seq::empty(),
    }
}

/// The prefix of the `k`-th document number of an operation of `kind`.
pub open spec fn doc_prefix(kind: WorkKind, k: int) -> Seq<char> {
    match kind {
        WorkKind::Cost => seq!['C', 'O', 'S', 'T', '-'],
        WorkKind::Purchase => seq!['P', 'U', 'R', 'C', 'H', '-'],
        WorkKind::Sale => if k == 0 { seq!['S', 'A', 'L', 'E', '-'] } else { seq!['C', 'O', 'G', 'S', '-'] },
        _ => Seq::empty(),
    }
}

/// Equal document numbers of one prefix and period have equal numbers.
proof fn lemma_work_doc_text_injective(prefix: Seq<char>, p: Period, n1: nat, n2: nat)
    requires
        work_doc_text(prefix, p, n1) == work_doc_text(prefix, p, n2),
    ensures
        n1 == n2,
{
    let head = prefix + period_text(p) + seq!['-'];
    let t1 = work_doc_text(prefix, p, n1);
    let t2 = work_doc_text(prefix, p, n2);
    assert(t1 =~= head + padded(n1, 8));
    assert(t2 =~= head + padded(n2, 8));
    assert(t1.subrange(head.len() as int, t1.len() as int) =~= padded(n1, 8));
    assert(t2.subrange(head.len() as int, t2.len() as int) =~= padded(n2, 8));
    crate::domain::lemma_padded_injective(n1, n2, 8);
}

/// Document numbers whose prefixes differ in their first three characters
/// differ.
proof fn lemma_work_doc_prefixes_differ(a: Seq<char>, b: Seq<char>, p: Period, n1: nat, n2: nat, k: int)
    requires
        0 <= k < a.len(),
        k < b.len(),
        a[k] != b[k],
    ensures
        work_doc_text(a, p, n1) != work_doc_text(b, p, n2),
{
    let t1 = work_doc_text(a, p, n1);
    let t2 = work_doc_text(b, p, n2);
    assert(t1[k] == a[k]);
    assert(t2[k] == b[k]);
}

/// The document numbers of the operation generated at slot `j`.
pub open spec fn slot_doc_text(p: Period, ops: nat, j: int, k: int) -> Seq<char> {
    work_doc_text(doc_prefix(kind_at(ops, j), k), p, number_at(ops, j) as nat)
}

/// A business kind of operation posts documents.
pub open spec fn posts_documents(kind: WorkKind) -> bool {
    kind is Cost || kind is Purchase || kind is Sale
}

/// The number of documents an operation of `kind` posts.
pub open spec fn doc_count(kind: WorkKind) -> int {
    match kind {
        WorkKind::Cost => 1,
        WorkKind::Purchase => 1,
        WorkKind::Sale => 2,
        _ => 0,
    }
}

/// Different documents of a period's workload have different numbers.
proof fn lemma_slot_docs_distinct(p: Period, ops: nat, j1: int, k1: int, j2: int, k2: int)
    requires
        0 <= j1 < drawn_count(ops),
        0 <= j2 < drawn_count(ops),
        0 <= k1 < doc_count(kind_at(ops, j1)),
        0 <= k2 < doc_count(kind_at(ops, j2)),
        j1 != j2 || k1 != k2,
    ensures
        slot_doc_text(p, ops, j1, k1) != slot_doc_text(p, ops, j2, k2),
{
    let a = doc_prefix(kind_at(ops, j1), k1);
    let b = doc_prefix(kind_at(ops, j2), k2);
    let n1 = number_at(ops, j1) as nat;
    let n2 = number_at(ops, j2) as nat;
    if a == b {
        if slot_doc_text(p, ops, j1, k1) == slot_doc_text(p, ops, j2, k2) {
            lemma_work_doc_text_injective(a, p, n1, n2);
            assert(kind_at(ops, j1) == kind_at(ops, j2) && k1 == k2);
            assert(false);
        }
    } else if a[0] != b[0] {
        lemma_work_doc_prefixes_differ(a, b, p, n1, n2, 0);
    } else {
        lemma_work_doc_prefixes_differ(a, b, p, n1, n2, 2);
    }
}

/// Every document of a period's workload has a number of its own: no two
/// operations, and not the two documents of a sale, share a number.
pub proof fn lemma_workload_doc_numbers_distinct(out: Seq<Operation>, idx: Seq<usize>, p: Period, ops: nat,
    draws: Seq<Draw>, close_factor: nat, i: int, k1: int, j: int, k2: int)
    requires
        arranged_as(out, idx, p, ops, draws, close_factor),
        0 <= i < out.len(),
        0 <= j < out.len(),
        0 <= k1 < doc_numbers(out[i]).len(),
        0 <= k2 < doc_numbers(out[j]).len(),
        i != j || k1 != k2,
    ensures
        doc_numbers(out[i])[k1] != doc_numbers(out[j])[k2],
{
    let keys = workload_keys(p, ops, draws, close_factor);
    let a = idx[i] as int;
    let b = idx[j] as int;
    assert(operation_is(out[i], p, ops, draws, a));
    assert(operation_is(out[j], p, ops, draws, b));
    if i < j {
        assert(slot_before(keys, a, b));
    } else if j < i {
        assert(slot_before(keys, b, a));
    }
    assert(a < drawn_count(ops) && doc_numbers(out[i])[k1] == slot_doc_text(p, ops, a, k1)
        && k1 < doc_count(kind_at(ops, a)));
    assert(b < drawn_count(ops) && doc_numbers(out[j])[k2] == slot_doc_text(p, ops, b, k2)
        && k2 < doc_count(kind_at(ops, b)));
    lemma_slot_docs_distinct(p, ops, a, k1, b, k2);
}

} // verus!
