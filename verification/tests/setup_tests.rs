use bench_pg_rs::config::{Config, DbLib};
use bench_pg_rs::decimal::Dec;
use bench_pg_rs::domain::{Material, Vendor};
use bench_pg_rs::period::Date;
use bench_pg_rs::setup::{init_purchases, init_purchases_from, load_business_partners, load_materials, material_setup,
    InitDraw};

#[test]
fn partners_are_customers_then_vendors() {
    let v = load_business_partners(2, 3);
    let ids: Vec<&str> = v.iter().map(|p| p.id.as_str()).collect();
    assert_eq!(ids, vec!["CUST-00000", "CUST-00001", "VEND-00000", "VEND-00001", "VEND-00002"]);
    assert_eq!(v[1].name, "Customer 00001");
    assert_eq!(v[4].name, "Vendor 00002");
}

#[test]
fn material_row_sells_at_twice_the_standard_price() {
    let m = material_setup(Material(4), 150, 202412);
    assert_eq!(m.id, "MAT-00004");
    assert_eq!(m.name, "Material 00004");
    assert_eq!(m.next_std_price, Dec::from_int(150));
    assert_eq!(m.period, 202412);
    assert_eq!(m.row.std_price, Dec::from_int(150));
    assert_eq!(m.row.mov_avg_price, Dec::from_int(150));
    assert_eq!(m.row.actual_price, Dec::from_int(150));
    assert_eq!(m.row.sell_price, Dec::from_int(300));
    assert_eq!(m.row.stock, Dec::zero());
}

#[test]
fn materials_start_in_december_before_the_start_year() {
    let v = load_materials(5, 2025);
    assert_eq!(v.len(), 5);
    for (i, m) in v.iter().enumerate() {
        assert_eq!(m.id, Material(i as u32).id());
        assert_eq!(m.period, 202412);
        assert!(m.next_std_price.scale == 0 && (100..200).contains(&m.next_std_price.mantissa));
        assert_eq!(m.row.sell_price.mantissa, 2 * m.next_std_price.mantissa);
    }
}

#[test]
fn opening_purchases_are_dated_new_years_eve() {
    let draws = vec![InitDraw { vendor: 3, price: 120, thousands: 150 }, InitDraw { vendor: 0, price: 199, thousands: 100 }];
    let v = init_purchases_from(2025, &draws);
    assert_eq!(v.len(), 2);
    assert_eq!(v[0].material, Material(0));
    assert_eq!(v[0].vendor, Vendor(3));
    assert_eq!(v[0].price, Dec::from_int(120));
    assert_eq!(v[0].quantity, Dec::from_int(150000));
    assert_eq!(v[0].posting_date, Date { year: 2024, month: 12, day: 31 });
    assert_eq!(v[1].doc_no, "INIT-00000001");
}

#[test]
fn random_opening_purchases_stay_in_range() {
    let v = init_purchases(2025, 7, 20);
    assert_eq!(v.len(), 20);
    for (i, p) in v.iter().enumerate() {
        assert_eq!(p.material, Material(i as u32));
        assert!(p.vendor.0 < 7);
        assert!((100..200).contains(&p.price.mantissa));
        assert_eq!(p.quantity.mantissa % 1000, 0);
        assert!((100_000..200_000).contains(&p.quantity.mantissa));
    }
}

fn parsed(name: &str) -> Config {
    Config {
        username: "postgres".to_string(),
        password: "postgres".to_string(),
        host: "localhost".to_string(),
        port: 5432,
        connections: 40,
        db: "benchmark".to_string(),
        lib: DbLib::Sqlx,
        customers: 100,
        vendors: 100,
        materials: 100,
        users: 40,
        start_year: 2025,
        years: 3,
        operations: 10000,
        name: name.to_string(),
    }
}

#[test]
fn empty_name_gets_a_descriptive_default() {
    let c = Config::new(parsed(""));
    assert_eq!(c.name, "Benchmark Sqlx with 40 users, 10000 operations, 100 materials, 3 years");
    assert_eq!(c.operations, 10000);
}

#[test]
fn given_name_is_kept() {
    let c = Config::new(parsed("sqlx-50conn-50kops"));
    assert_eq!(c.name, "sqlx-50conn-50kops");
}

#[test]
fn library_names_print_as_debug() {
    assert_eq!(DbLib::Tokio.debug_name(), format!("{:?}", DbLib::Tokio));
    assert_eq!(DbLib::Diesel.debug_name(), "Diesel");
}
