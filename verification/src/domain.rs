//! Master data of the ledger: business partners, materials, users and the
//! chart of accounts, with the textual keys under which they are stored.

use vstd::prelude::*;
use crate::text::{padded, push_padded, digits, zeros, parse_digits, digit_char, digit_value};

verus! {

/// `CUST-` followed by the number zero padded to five digits.
pub open spec fn customer_id(n: nat) -> Seq<char> {
    seq!['C', 'U', 'S', 'T', '-'] + padded(n, 5)
}

/// `VEND-` followed by the number zero padded to five digits.
pub open spec fn vendor_id(n: nat) -> Seq<char> {
    seq!['V', 'E', 'N', 'D', '-'] + padded(n, 5)
}

/// `MAT-` followed by the number zero padded to five digits.
pub open spec fn material_id(n: nat) -> Seq<char> {
    seq!['M', 'A', 'T', '-'] + padded(n, 5)
}

/// `USER-` followed by the number zero padded to five digits.
pub open spec fn user_id(n: nat) -> Seq<char> {
    seq!['U', 'S', 'E', 'R', '-'] + padded(n, 5)
}

/// A customer, by number.
#[derive(Clone, Copy, Debug, PartialEq, Eq)]
pub struct Customer(pub u32);

/// A vendor, by number.
#[derive(Clone, Copy, Debug, PartialEq, Eq)]
pub struct Vendor(pub u32);

/// A material, by number.
#[derive(Clone, Copy, Debug, PartialEq, Eq)]
pub struct Material(pub u32);

/// A system user, by number.
#[derive(Clone, Copy, Debug, PartialEq, Eq)]
pub struct User(pub u32);

impl Customer {
    /// The key `CUST-nnnnn`.
    pub fn id(&self) -> (s: String)
        ensures
            s@ == customer_id(self.0 as nat),
    {
        proof { reveal_strlit("CUST-"); }
        let mut s = String::from_str("CUST-");
        push_padded(&mut s, self.0 as u64, 5);
        s
    }

    /// The name `Customer nnnnn`.
    pub fn name(&self) -> (s: String)
        ensures
            s@ == seq!['C', 'u', 's', 't', 'o', 'm', 'e', 'r', ' '] + padded(self.0 as nat, 5),
    {
        proof { reveal_strlit("Customer "); }
        let mut s = String::from_str("Customer ");
        push_padded(&mut s, self.0 as u64, 5);
        s
    }
}

impl Vendor {
    /// The key `VEND-nnnnn`.
    pub fn id(&self) -> (s: String)
        ensures
            s@ == vendor_id(self.0 as nat),
    {
        proof { reveal_strlit("VEND-"); }
        let mut s = String::from_str("VEND-");
        push_padded(&mut s, self.0 as u64, 5);
        s
    }

    /// The name `Vendor nnnnn`.
    pub fn name(&self) -> (s: String)
        ensures
            s@ == seq!['V', 'e', 'n', 'd', 'o', 'r', ' '] + padded(self.0 as nat, 5),
    {
        proof { reveal_strlit("Vendor "); }
        let mut s = String::from_str("Vendor ");
        push_padded(&mut s, self.0 as u64, 5);
        s
    }
}

impl Material {
    /// The key `MAT-nnnnn`.
    pub fn id(&self) -> (s: String)
        ensures
            s@ == material_id(self.0 as nat),
    {
        proof { reveal_strlit("MAT-"); }
        let mut s = String::from_str("MAT-");
        push_padded(&mut s, self.0 as u64, 5);
        s
    }

    /// The name `Material nnnnn`.
    pub fn name(&self) -> (s: String)
        ensures
            s@ == seq!['M', 'a', 't', 'e', 'r', 'i', 'a', 'l', ' '] + padded(self.0 as nat, 5),
    {
        proof { reveal_strlit("Material "); }
        let mut s = String::from_str("Material ");
        push_padded(&mut s, self.0 as u64, 5);
        s
    }
}

impl User {
    /// The key `USER-nnnnn`.
    pub fn id(&self) -> (s: String)
        ensures
            s@ == user_id(self.0 as nat),
    {
        proof { reveal_strlit("USER-"); }
        let mut s = String::from_str("USER-");
        push_padded(&mut s, self.0 as u64, 5);
        s
    }
}

/// The counterpart of a ledger line: a customer or a vendor.
#[derive(Clone, Copy, Debug, PartialEq, Eq)]
pub enum BusinessPartner {
    Customer(Customer),
    Vendor(Vendor),
}

/// The key of a business partner.
pub open spec fn partner_id(bp: BusinessPartner) -> Seq<char> {
    match bp {
        BusinessPartner::Customer(c) => customer_id(c.0 as nat),
        BusinessPartner::Vendor(v) => vendor_id(v.0 as nat),
    }
}

impl BusinessPartner {
    /// The key of the customer or vendor.
    pub fn id(&self) -> (s: String)
        ensures
            s@ == partner_id(*self),
    {
        match self {
            BusinessPartner::Customer(customer) => customer.id(),
            BusinessPartner::Vendor(vendor) => vendor.id(),
        }
    }
}

/// Key of the inventory account.
pub const INVENTORY_ACCOUNT: &'static str = "10.01";
/// Key of the inventory price differences account.
pub const INVENTORY_DIFF_ACCOUNT: &'static str = "10.02";
/// Key of the accounts receivable account.
pub const RECEIVABLE_ACCOUNT: &'static str = "62.01";
/// Key of the accounts payable account.
pub const PAYABLE_ACCOUNT: &'static str = "60.01";
/// Key of the sales account.
pub const SALES_ACCOUNT: &'static str = "90.01";
/// Key of the cost of goods sold account.
pub const COGS_ACCOUNT: &'static str = "90.02";

/// Debit marker of a ledger line.
pub const DEBT: &'static str = "D";
/// Credit marker of a ledger line.
pub const CREDIT: &'static str = "C";

/// The accounts that documents post to.
#[derive(Clone, Copy, Debug, PartialEq, Eq)]
pub enum LedgerAccount {
    Inventory,
    InventoryDiff,
    Receivable,
    Payable,
    Sales,
    Cogs,
}

/// The key of a ledger account.
pub open spec fn account_key(a: LedgerAccount) -> Seq<char> {
    match a {
        LedgerAccount::Inventory => seq!['1', '0', '.', '0', '1'],
        LedgerAccount::InventoryDiff => seq!['1', '0', '.', '0', '2'],
        LedgerAccount::Receivable => seq!['6', '2', '.', '0', '1'],
        LedgerAccount::Payable => seq!['6', '0', '.', '0', '1'],
        LedgerAccount::Sales => seq!['9', '0', '.', '0', '1'],
        LedgerAccount::Cogs => seq!['9', '0', '.', '0', '2'],
    }
}

impl LedgerAccount {
    /// The account's key.
    pub fn id(&self) -> (s: &'static str)
        ensures
            s@ == account_key(*self),
    {
        match self {
            LedgerAccount::Inventory => {
                proof { reveal_strlit("10.01"); }
                "10.01"
            },
            LedgerAccount::InventoryDiff => {
                proof { reveal_strlit("10.02"); }
                "10.02"
            },
            LedgerAccount::Receivable => {
                proof { reveal_strlit("62.01"); }
                "62.01"
            },
            LedgerAccount::Payable => {
                proof { reveal_strlit("60.01"); }
                "60.01"
            },
            LedgerAccount::Sales => {
                proof { reveal_strlit("90.01"); }
                "90.01"
            },
            LedgerAccount::Cogs => {
                proof { reveal_strlit("90.02"); }
                "90.02"
            },
        }
    }
}

/// An account of the chart of accounts.
#[derive(Clone, Debug)]
pub struct Account {
    pub id: String,
    pub name: String,
}

impl Account {
    pub fn new(aid: &str, aname: &str) -> (a: Account)
        ensures
            a.id@ == aid@,
            a.name@ == aname@,
    {
        Account { id: String::from_str(aid), name: String::from_str(aname) }
    }

    /// The six accounts that the workload posts to.
    pub fn chart_of_accounts() -> (v: Vec<Account>)
        ensures
            v.len() == 6,
            v[0].id@ == account_key(LedgerAccount::Inventory),
            v[0].name@ == "Inventory"@,
            v[1].id@ == account_key(LedgerAccount::InventoryDiff),
            v[1].name@ == "Inventory differences"@,
            v[2].id@ == account_key(LedgerAccount::Receivable),
            v[2].name@ == "Account receivable"@,
            v[3].id@ == account_key(LedgerAccount::Payable),
            v[3].name@ == "Account payable"@,
            v[4].id@ == account_key(LedgerAccount::Sales),
            v[4].name@ == "Sales"@,
            v[5].id@ == account_key(LedgerAccount::Cogs),
            v[5].name@ == "Cost of goods sold"@,
    {
        let mut v: Vec<Account> = Vec::new();
        v.push(Account::new(LedgerAccount::Inventory.id(), "Inventory"));
        v.push(Account::new(LedgerAccount::InventoryDiff.id(), "Inventory differences"));
        v.push(Account::new(LedgerAccount::Receivable.id(), "Account receivable"));
        v.push(Account::new(LedgerAccount::Payable.id(), "Account payable"));
        v.push(Account::new(LedgerAccount::Sales.id(), "Sales"));
        v.push(Account::new(LedgerAccount::Cogs.id(), "Cost of goods sold"));
        v
    }
}

/// The side of a ledger line.
#[derive(Clone, Copy, Debug, PartialEq, Eq)]
pub enum DebtCredit {
    Debt,
    Credit,
}

impl DebtCredit {
    /// `D` for debit, `C` for credit.
    pub fn to_db_option(&self) -> (s: &'static str)
        ensures
            s@ == (match *self {
                DebtCredit::Debt => seq!['D'],
                DebtCredit::Credit => seq!['C'],
            }),
    {
        match self {
            DebtCredit::Debt => {
                proof { reveal_strlit("D"); }
                "D"
            },
            DebtCredit::Credit => {
                proof { reveal_strlit("C"); }
                "C"
            },
        }
    }
}

/// Reading the digits of a number back gives the number.
pub proof fn lemma_parse_digits(n: nat)
    ensures
        parse_digits(digits(n)) == n,
    decreases n,
{
    let d = digits(n);
    if n < 10 {
        assert(d.drop_last() =~= Seq::<char>::empty());
        assert(parse_digits(d.drop_last()) == 0);
        assert(d.last() == digit_char(n));
        assert(digit_value(digit_char(n)) == n);
        assert(parse_digits(d) == parse_digits(d.drop_last()) * 10 + digit_value(d.last()));
    } else {
        lemma_parse_digits(n / 10);
        assert(d.drop_last() =~= digits(n / 10));
        assert(d.last() == digit_char(n % 10));
        assert(digit_value(digit_char(n % 10)) == n % 10);
        assert(parse_digits(d) == parse_digits(d.drop_last()) * 10 + digit_value(d.last()));
        assert((n / 10) * 10 + n % 10 == n);
    }
}

/// Leading zeros do not change the number that digits denote.
pub proof fn lemma_parse_leading_zeros(k: nat, t: Seq<char>)
    ensures
        parse_digits(zeros(k) + t) == parse_digits(t),
    decreases t.len(), k,
{
    if t.len() == 0 {
        assert(zeros(k) + t =~= zeros(k));
        if k > 0 {
            assert(zeros(k).drop_last() =~= zeros((k - 1) as nat));
            lemma_parse_leading_zeros((k - 1) as nat, t);
            assert(zeros((k - 1) as nat) + t =~= zeros((k - 1) as nat));
        } else {
            assert(zeros(k) =~= Seq::<char>::empty());
        }
    } else {
        lemma_parse_leading_zeros(k, t.drop_last());
        assert((zeros(k) + t).drop_last() =~= zeros(k) + t.drop_last());
        assert((zeros(k) + t).last() == t.last());
    }
}

/// Zero padding keeps the number readable: the padded text of `n` denotes `n`.
pub proof fn lemma_parse_padded(n: nat, width: nat)
    ensures
        parse_digits(padded(n, width)) == n,
{
    lemma_parse_digits(n);
    if digits(n).len() < width {
        lemma_parse_leading_zeros((width - digits(n).len()) as nat, digits(n));
    }
}

/// Distinct numbers have distinct padded texts.
pub proof fn lemma_padded_injective(a: nat, b: nat, width: nat)
    requires
        padded(a, width) == padded(b, width),
    ensures
        a == b,
{
    lemma_parse_padded(a, width);
    lemma_parse_padded(b, width);
}

/// Customer keys identify customers, vendor keys identify vendors, and no
/// customer shares its key with a vendor, so both kinds of partner can be
/// stored under their keys in one table.
pub proof fn lemma_partner_ids_distinct(a: BusinessPartner, b: BusinessPartner)
    requires
        a != b,
    ensures
        partner_id(a) != partner_id(b),
{
    match (a, b) {
        (BusinessPartner::Customer(x), BusinessPartner::Customer(y)) => {
            if customer_id(x.0 as nat) == customer_id(y.0 as nat) {
                assert(padded(x.0 as nat, 5) =~= customer_id(x.0 as nat).subrange(5, customer_id(x.0 as nat).len() as int));
                assert(padded(y.0 as nat, 5) =~= customer_id(y.0 as nat).subrange(5, customer_id(y.0 as nat).len() as int));
                lemma_padded_injective(x.0 as nat, y.0 as nat, 5);
            }
        },
        (BusinessPartner::Vendor(x), BusinessPartner::Vendor(y)) => {
            if vendor_id(x.0 as nat) == vendor_id(y.0 as nat) {
                assert(padded(x.0 as nat, 5) =~= vendor_id(x.0 as nat).subrange(5, vendor_id(x.0 as nat).len() as int));
                assert(padded(y.0 as nat, 5) =~= vendor_id(y.0 as nat).subrange(5, vendor_id(y.0 as nat).len() as int));
                lemma_padded_injective(x.0 as nat, y.0 as nat, 5);
            }
        },
        (BusinessPartner::Customer(x), BusinessPartner::Vendor(y)) => {
            assert(customer_id(x.0 as nat)[0] != vendor_id(y.0 as nat)[0]);
        },
        (BusinessPartner::Vendor(x), BusinessPartner::Customer(y)) => {
            assert(customer_id(y.0 as nat)[0] != vendor_id(x.0 as nat)[0]);
        },
    }
}

/// Distinct materials have distinct keys.
pub proof fn lemma_material_ids_distinct(a: Material, b: Material)
    requires
        a != b,
    ensures
        material_id(a.0 as nat) != material_id(b.0 as nat),
{
    if material_id(a.0 as nat) == material_id(b.0 as nat) {
        assert(padded(a.0 as nat, 5) =~= material_id(a.0 as nat).subrange(4, material_id(a.0 as nat).len() as int));
        assert(padded(b.0 as nat, 5) =~= material_id(b.0 as nat).subrange(4, material_id(b.0 as nat).len() as int));
        lemma_padded_injective(a.0 as nat, b.0 as nat, 5);
    }
}

/// Distinct users have distinct keys.
pub proof fn lemma_user_ids_distinct(a: User, b: User)
    requires
        a != b,
    ensures
        user_id(a.0 as nat) != user_id(b.0 as nat),
{
    if user_id(a.0 as nat) == user_id(b.0 as nat) {
        assert(padded(a.0 as nat, 5) =~= user_id(a.0 as nat).subrange(5, user_id(a.0 as nat).len() as int));
        assert(padded(b.0 as nat, 5) =~= user_id(b.0 as nat).subrange(5, user_id(b.0 as nat).len() as int));
        lemma_padded_injective(a.0 as nat, b.0 as nat, 5);
    }
}

} // verus!
