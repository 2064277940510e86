//! What a benchmark run loads before its first period: business partners,
//! materials with their opening period row, and the opening purchases.

use vstd::prelude::*;
use crate::decimal::{Dec, dec_mul, exact_product, mul_is_exact};
use crate::domain::{Customer, Material, Vendor, customer_id, vendor_id, material_id};
use crate::inventory::PeriodRow;
use crate::operation::Purchase;
use crate::period::{Date, Period, MAX_DATE_YEAR};
use crate::text::{padded, push_padded};
use crate::workload::random_in;

verus! {

/// A business partner as stored: its key and its name.
#[derive(Clone, Debug)]
pub struct PartnerRecord {
    pub id: String,
    pub name: String,
}

/// The `i`-th business partner loaded: the customers first, then the vendors.
pub open spec fn partner_record_is(r: PartnerRecord, customers: nat, i: int) -> bool {
    if i < customers {
        &&& r.id@ == customer_id(i as nat)
        &&& r.name@ == seq!['C', 'u', 's', 't', 'o', 'm', 'e', 'r', ' '] + padded(i as nat, 5)
    } else {
        &&& r.id@ == vendor_id((i - customers) as nat)
        &&& r.name@ == seq!['V', 'e', 'n', 'd', 'o', 'r', ' '] + padded((i - customers) as nat, 5)
    }
}

/// The business partners of a run: customers `0..customers`, then vendors
/// `0..vendors`.
pub fn load_business_partners(customers: u32, vendors: u32) -> (v: Vec<PartnerRecord>)
    ensures
        v.len() == customers + vendors,
        forall|i: int| 0 <= i < v.len() ==> partner_record_is(#[trigger] v[i], customers as nat, i),
{
    let mut v: Vec<PartnerRecord> = Vec::new();
    let mut i: u32 = 0;
    while i < customers
        invariant
            i <= customers,
            v.len() == i,
            forall|k: int| 0 <= k < v.len() ==> partner_record_is(#[trigger] v[k], customers as nat, k),
        decreases customers - i,
    {
        let customer = Customer(i);
        v.push(PartnerRecord { id: customer.id(), name: customer.name() });
        i = i + 1;
    }
    let mut j: u32 = 0;
    while j < vendors
        invariant
            j <= vendors,
            v.len() == customers + j,
            forall|k: int| 0 <= k < v.len() ==> partner_record_is(#[trigger] v[k], customers as nat, k),
        decreases vendors - j,
    {
        let vendor = Vendor(j);
        v.push(PartnerRecord { id: vendor.id(), name: vendor.name() });
        j = j + 1;
    }
    v
}

/// A material as loaded: its key, its name, its next standard price, and
/// its row for the period before the first one.
#[derive(Clone, Debug)]
pub struct MaterialSetup {
    pub id: String,
    pub name: String,
    pub next_std_price: Dec,
    pub period: i32,
    pub row: PeriodRow,
}

/// The `yyyymm` key of the period before January of `start_year`.
pub open spec fn opening_key(start_year: nat) -> int {
    (start_year - 1) * 100 + 12
}

/// A start year whose opening key is an `i32`.
pub open spec fn opening_key_fits(start_year: nat) -> bool {
    1 <= start_year <= 21474836
}

/// `m` is the setup of `material` at standard price `std_price`: every price
/// of its opening row is the standard price but the sell price, which is
/// twice that, and the stock is zero.
pub open spec fn material_setup_is(m: MaterialSetup, material: Material, std_price: nat, period: int) -> bool {
    &&& m.id@ == material_id(material.0 as nat)
    &&& m.name@ == seq!['M', 'a', 't', 'e', 'r', 'i', 'a', 'l', ' '] + padded(material.0 as nat, 5)
    &&& m.next_std_price == (Dec { mantissa: std_price as i128, scale: 0 })
    &&& m.period == period
    &&& m.row == (PeriodRow {
        std_price: Dec { mantissa: std_price as i128, scale: 0 },
        mov_avg_price: Dec { mantissa: std_price as i128, scale: 0 },
        actual_price: Dec { mantissa: std_price as i128, scale: 0 },
        sell_price: Dec { mantissa: (2 * std_price) as i128, scale: 0 },
        stock: Dec { mantissa: 0, scale: 0 },
    })
}

/// `m` is the setup of `material` at some standard price in `100..200`.
pub open spec fn material_setup_drawn(m: MaterialSetup, material: Material, period: int) -> bool {
    exists|p: nat| 100 <= p < 200 && #[trigger] material_setup_is(m, material, p, period)
}

/// The setup of `material` at standard price `std_price` in period `period`.
pub fn material_setup(material: Material, std_price: u32, period: i32) -> (m: MaterialSetup)
    ensures
        material_setup_is(m, material, std_price as nat, period as int),
{
    let std = Dec::from_int(std_price as i64);
    let two = Dec::from_int(2);
    assert(mul_is_exact(std, two));
    let sell_price = match dec_mul(std, two) {
        Some(s) => s,
        None => {
            proof { assert(false); }
            two
        },
    };
    assert(sell_price == exact_product(std, two));
    MaterialSetup {
        id: material.id(),
        name: material.name(),
        next_std_price: std,
        period,
        row: PeriodRow {
            std_price: std,
            mov_avg_price: std,
            actual_price: std,
            sell_price,
            stock: Dec::zero(),
        },
    }
}

/// The materials `0..materials` of a run, each at a random standard price
/// in `100..200`, with a row in the period before January of `start_year`.
pub fn load_materials(materials: u32, start_year: u32) -> (v: Vec<MaterialSetup>)
    requires
        opening_key_fits(start_year as nat),
    ensures
        v.len() == materials,
        forall|i: int| 0 <= i < v.len()
            ==> material_setup_drawn(#[trigger] v[i], Material(i as u32), opening_key(start_year as nat)),
{
    let first = Period::new(start_year as i32, 1);
    let before = first.prev_period();
    let period_yp = before.year_period();
    let mut v: Vec<MaterialSetup> = Vec::new();
    let mut i: u32 = 0;
    while i < materials
        invariant
            i <= materials,
            v.len() == i,
            period_yp == opening_key(start_year as nat),
            forall|k: int| 0 <= k < v.len()
                ==> material_setup_drawn(#[trigger] v[k], Material(k as u32), opening_key(start_year as nat)),
        decreases materials - i,
    {
        let std_price = random_in(100, 200) as u32;
        let m = material_setup(Material(i), std_price, period_yp);
        assert(material_setup_is(m, Material(i), std_price as nat, opening_key(start_year as nat)));
        v.push(m);
        i = i + 1;
    }
    v
}

/// The draws of an opening purchase: the vendor, the price and the number
/// of thousands bought.
#[derive(Clone, Copy, Debug, PartialEq, Eq)]
pub struct InitDraw {
    pub vendor: u32,
    pub price: u32,
    pub thousands: u32,
}

/// `p` is the opening purchase of material `i` from `d`: bought on the last
/// day of the year before `start_year`, under `INIT-{i:08}`.
pub open spec fn init_purchase_is(p: Purchase, start_year: nat, i: nat, d: InitDraw) -> bool {
    &&& p.material == Material(i as u32)
    &&& p.vendor == Vendor(d.vendor)
    &&& p.price == (Dec { mantissa: d.price as i128, scale: 0 })
    &&& p.quantity == (Dec { mantissa: (1000 * d.thousands) as i128, scale: 0 })
    &&& p.posting_date == (Date { year: (start_year - 1) as i32, month: 12, day: 31 })
    &&& p.doc_no@ == seq!['I', 'N', 'I', 'T', '-'] + padded(i, 8)
}

/// `p` is the opening purchase of material `i` from draws that the random
/// generator can give: a vendor below `vendors`, a price and a number of
/// thousands in `100..200`.
pub open spec fn init_purchase_drawn(p: Purchase, start_year: nat, i: nat, vendors: nat) -> bool {
    exists|d: InitDraw| d.vendor < vendors && 100 <= d.price < 200 && 100 <= d.thousands < 200
        && #[trigger] init_purchase_is(p, start_year, i, d)
}

/// A start year whose previous year `chrono` represents.
pub open spec fn init_year_ok(start_year: nat) -> bool {
    1 <= start_year <= MAX_DATE_YEAR + 1
}

/// The opening purchases of materials `0..draws.len()`.
pub fn init_purchases_from(start_year: u32, draws: &Vec<InitDraw>) -> (v: Vec<Purchase>)
    requires
        init_year_ok(start_year as nat),
        forall|i: int| 0 <= i < draws.len() ==> #[trigger] draws[i].thousands < 1000000,
    ensures
        v.len() == draws.len(),
        forall|i: int| 0 <= i < v.len() ==> init_purchase_is(#[trigger] v[i], start_year as nat, i as nat, draws[i]),
{
    let posting_date = match Date::from_ymd_opt(start_year as i32 - 1, 12, 31) {
        Some(d) => d,
        None => {
            proof { assert(false); }
            Date { year: 0, month: 12, day: 31 }
        },
    };
    let mut v: Vec<Purchase> = Vec::new();
    let mut i: usize = 0;
    while i < draws.len()
        invariant
            i <= draws.len(),
            v.len() == i,
            posting_date == (Date { year: (start_year - 1) as i32, month: 12, day: 31 }),
            forall|k: int| 0 <= k < draws.len() ==> #[trigger] draws[k].thousands < 1000000,
            forall|k: int| 0 <= k < v.len() ==> init_purchase_is(#[trigger] v[k], start_year as nat, k as nat, draws[k]),
        decreases draws.len() - i,
    {
        let d = draws[i];
        proof { reveal_strlit("INIT-"); }
        let mut doc_no = String::from_str("INIT-");
        push_padded(&mut doc_no, i as u64, 8);
        assert(doc_no@ =~= seq!['I', 'N', 'I', 'T', '-'] + padded(i as nat, 8));
        v.push(Purchase {
            material: Material(i as u32),
            vendor: Vendor(d.vendor),
            quantity: Dec::from_int(1000 * d.thousands as i64),
            price: Dec::from_int(d.price as i64),
            doc_no,
            posting_date,
        });
        i = i + 1;
    }
    v
}

/// The opening purchases of a run: one per material, from a random vendor,
/// at a random price in `100..200`, of a random number of thousands in
/// `100..200`.
pub fn init_purchases(start_year: u32, vendors: u32, materials: u32) -> (v: Vec<Purchase>)
    requires
        init_year_ok(start_year as nat),
        materials > 0 ==> vendors > 0,
    ensures
        v.len() == materials,
        forall|i: int| 0 <= i < v.len() ==> init_purchase_drawn(#[trigger] v[i], start_year as nat, i as nat, vendors as nat),
{
    let mut draws: Vec<InitDraw> = Vec::new();
    let mut i: u32 = 0;
    while i < materials
        invariant
            i <= materials,
            materials > 0 ==> vendors > 0,
            draws.len() == i,
            forall|k: int| 0 <= k < draws.len() ==> #[trigger] draws[k].vendor < vendors
                && 100 <= draws[k].price < 200 && 100 <= draws[k].thousands < 200,
        decreases materials - i,
    {
        let vendor = random_in(0, vendors as u64) as u32;
        let price = random_in(100, 200) as u32;
        let thousands = random_in(100, 200) as u32;
        draws.push(InitDraw { vendor, price, thousands });
        i = i + 1;
    }
    assert forall|k: int| 0 <= k < draws.len() implies #[trigger] draws[k].thousands < 1000000 by {
        assert(draws[k].vendor < vendors);
    }
    let v = init_purchases_from(start_year, &draws);
    assert forall|k: int| 0 <= k < v.len() implies init_purchase_drawn(#[trigger] v[k], start_year as nat, k as nat,
        vendors as nat) by {
        assert(init_purchase_is(v[k], start_year as nat, k as nat, draws[k]));
    }
    v
}

} // verus!
