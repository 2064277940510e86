use bench_pg_rs::domain::{Account, BusinessPartner, Customer, DebtCredit, LedgerAccount, Material, User, Vendor};

#[test]
fn keys_are_zero_padded() {
    assert_eq!(Customer(7).id(), "CUST-00007");
    assert_eq!(Vendor(12).id(), "VEND-00012");
    assert_eq!(Material(123).id(), "MAT-00123");
    assert_eq!(User(0).id(), "USER-00000");
    assert_eq!(Material(123456).id(), "MAT-123456");
}

#[test]
fn names_are_zero_padded() {
    assert_eq!(Customer(7).name(), "Customer 00007");
    assert_eq!(Vendor(99).name(), "Vendor 00099");
    assert_eq!(Material(1).name(), "Material 00001");
}

#[test]
fn partner_key_follows_its_kind() {
    assert_eq!(BusinessPartner::Customer(Customer(3)).id(), "CUST-00003");
    assert_eq!(BusinessPartner::Vendor(Vendor(3)).id(), "VEND-00003");
}

#[test]
fn chart_of_accounts_lists_six_accounts() {
    let accounts = Account::chart_of_accounts();
    let expected = [
        ("10.01", "Inventory"),
        ("10.02", "Inventory differences"),
        ("62.01", "Account receivable"),
        ("60.01", "Account payable"),
        ("90.01", "Sales"),
        ("90.02", "Cost of goods sold"),
    ];
    assert_eq!(accounts.len(), 6);
    for (a, (id, name)) in accounts.iter().zip(expected.iter()) {
        assert_eq!(a.id, *id);
        assert_eq!(a.name, *name);
    }
}

#[test]
fn account_new_keeps_id_and_name() {
    let a = Account::new("10.01", "Inventory");
    assert_eq!(a.id, "10.01");
    assert_eq!(a.name, "Inventory");
}

#[test]
fn ledger_account_keys() {
    assert_eq!(LedgerAccount::Inventory.id(), "10.01");
    assert_eq!(LedgerAccount::Cogs.id(), "90.02");
}

#[test]
fn debit_credit_codes() {
    assert_eq!(DebtCredit::Debt.to_db_option(), "D");
    assert_eq!(DebtCredit::Credit.to_db_option(), "C");
}

#[test]
fn distinct_partners_have_distinct_keys() {
    let mut keys = Vec::new();
    for i in 0..50 {
        keys.push(Customer(i).id());
        keys.push(Vendor(i).id());
    }
    let mut sorted = keys.clone();
    sorted.sort();
    sorted.dedup();
    assert_eq!(sorted.len(), keys.len());
}
