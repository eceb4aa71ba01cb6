use sql_generator::table::{read_row, FromRow, IndexKey, PrimaryKey, Table};
use sql_generator::tables::{
    Customer, District, Item, ItemTable, Neworder, Order, Orderline, Stock, Warehouse,
    WarehouseTable,
};
use sql_generator::numeric::Numeric;

fn fields(line: &str) -> Vec<String> {
    line.split('|').map(|f| f.to_string()).collect()
}

#[test]
fn warehouse_from_row() {
    let row = fields("1|ABC|Main St 1|Suite 2|Munich|BY|800001111|.1234|3000000.00");
    assert!(Warehouse::check_row(&row));
    let w = Warehouse::from_row(&row);
    assert_eq!(w.w_id, 1);
    assert_eq!(w.w_name, "ABC");
    assert_eq!(w.w_street_1, "Main St 1");
    assert_eq!(w.w_street_2, "Suite 2");
    assert_eq!(w.w_city, "Munich");
    assert_eq!(w.w_state, "BY");
    assert_eq!(w.w_zip, "800001111");
    assert_eq!(format!("{:?}", w.w_tax), "Numeric { value: 1234, len: 4, precision: 4 }");
    assert_eq!(format!("{:?}", w.w_ytd), "Numeric { value: 300000000, len: 12, precision: 2 }");
    assert_eq!(w.primary_key(), 1);
}

#[test]
fn rows_that_are_not_accepted() {
    assert!(!Warehouse::check_row(&fields("1|ABC|Main St 1|Suite 2|Munich|BY|800001111|.1234")));
    assert!(!Warehouse::check_row(&fields("x|ABC|Main St 1|Suite 2|Munich|BY|800001111|.1234|1.0")));
    assert!(!Warehouse::check_row(&fields("1|ABC|Main St 1|Suite 2|Munich|BY|800001111|0.1234|1.0")));
    assert!(!Warehouse::check_row(&fields("1|ABC|Main St 1|Suite 2|Munich|BY|800001111|.1234|")));
    assert!(!Neworder::check_row(&fields("1|2")));
    assert!(!Neworder::check_row(&fields("1|2|99999999999")));
    assert!(read_row::<Neworder>(&fields("1|2")).is_none());
    assert!(read_row::<Item>(&fields("1|2|name|12345.67|data")).is_none());
}

#[test]
fn read_row_reads_accepted_rows() {
    let n: Neworder = read_row(&fields("2101|1|5|more")).unwrap();
    assert_eq!((n.no_o_id, n.no_d_id, n.no_w_id), (2101, 1, 5));
    assert_eq!(n.primary_key(), (5, 1, 2101));
}

#[test]
fn district_from_row() {
    let d = District::from_row(&fields("3|1|north|a|b|c|NY|123456789|.0500|30000.5|3001"));
    assert_eq!((d.d_id, d.d_w_id, d.d_next_o_id), (3, 1, 3001));
    assert_eq!(d.d_name, "north");
    assert_eq!(d.d_zip, "123456789");
    assert_eq!(d.d_tax, Numeric::new(500, 4, 4));
    assert_eq!(d.d_ytd, Numeric::new(3000050, 12, 2));
    assert_eq!(d.primary_key(), (1, 3));
}

#[test]
fn customer_from_row() {
    let c = Customer::from_row(&fields(
        "7|2|1|Ann|OE|BARBAR|s1|s2|city|CA|123451111|0123456789012345|20140101|GC|50000.00|.25|-10.00|10.00|1|0|data",
    ));
    assert_eq!((c.c_id, c.c_d_id, c.c_w_id, c.c_since), (7, 2, 1, 20140101));
    assert_eq!(c.c_first, "Ann");
    assert_eq!(c.c_middle, "OE");
    assert_eq!(c.c_last, "BARBAR");
    assert_eq!(c.c_phone, "0123456789012345");
    assert_eq!(c.c_credit, "GC");
    assert_eq!(c.c_credit_lim, Numeric::new(5000000, 12, 2));
    assert_eq!(c.c_discount, Numeric::new(2500, 4, 4));
    assert_eq!(c.c_balance, Numeric::new(-1000, 12, 2));
    assert_eq!(c.c_ytd_paymenr, Numeric::new(1000, 12, 2));
    assert_eq!(c.c_payment_cnt, Numeric::new(1, 4, 0));
    assert_eq!(c.c_delivery_cnt, Numeric::new(0, 4, 0));
    assert_eq!(c.c_data, "data");
    assert_eq!(c.primary_key(), (1, 2, 7));
}

#[test]
fn order_and_orderline_from_row() {
    let o = Order::from_row(&fields("10|2|1|7|1400000000000|3|12|1"));
    assert_eq!((o.o_id, o.o_d_id, o.o_w_id, o.o_c_id, o.o_carrier_id), (10, 2, 1, 7, 3));
    assert_eq!(o.o_entry_d, 1400000000000);
    assert_eq!(o.o_ol_cnt, Numeric::new(12, 2, 0));
    assert_eq!(o.o_all_local, Numeric::new(1, 1, 0));
    assert_eq!(o.primary_key(), (1, 2, 10));
    let l = Orderline::from_row(&fields("10|2|1|4|555|1|0|5|123.45|info"));
    assert_eq!(
        (l.ol_o_id, l.ol_d_id, l.ol_w_id, l.ol_number, l.ol_i_id, l.ol_supply_w_id, l.ol_delivery_d),
        (10, 2, 1, 4, 555, 1, 0)
    );
    assert_eq!(l.ol_quantity, Numeric::new(5, 2, 0));
    assert_eq!(l.ol_amount, Numeric::new(12345, 6, 2));
    assert_eq!(l.ol_dist_info, "info");
    assert_eq!(l.primary_key(), (1, 2, 10, 4));
}

#[test]
fn item_and_stock_from_row() {
    let i = Item::from_row(&fields("5|77|thing|12.5|about"));
    assert_eq!((i.i_id, i.i_im_id), (5, 77));
    assert_eq!(i.i_name, "thing");
    assert_eq!(i.i_price, Numeric::new(1250, 5, 2));
    assert_eq!(i.i_data, "about");
    assert_eq!(i.primary_key(), 5);
    let s = Stock::from_row(&fields("5|1|91|a|b|c|d|e|f|g|h|i|j|1000|3|2|data"));
    assert_eq!((s.s_i_id, s.s_w_id), (5, 1));
    assert_eq!(s.s_quantity, Numeric::new(91, 4, 0));
    assert_eq!(s.s_dist_01, "a");
    assert_eq!(s.s_dist_05, "e");
    assert_eq!(s.s_dist_10, "j");
    assert_eq!(s.s_ytd, Numeric::new(1000, 8, 0));
    assert_eq!(s.s_order_cnt, Numeric::new(3, 4, 0));
    assert_eq!(s.s_remote_cnt, Numeric::new(2, 4, 0));
    assert_eq!(s.s_data, "data");
    assert_eq!(s.primary_key(), (1, 5));
}

#[test]
fn table_finds_rows_by_primary_key() {
    let mut table: ItemTable = Table::new();
    assert_eq!(table.size(), 0);
    table.insert(Item::from_row(&fields("5|77|thing|12.5|about")));
    table.insert(Item::from_row(&fields("9|78|other|1.25|more")));
    assert_eq!(table.size(), 2);
    assert_eq!(table.lookup(9).i_name, "other");
    assert_eq!(table.lookup(5).i_name, "thing");
    table.lookup_mut(5).i_name = "changed".to_string();
    assert_eq!(table.lookup(5).i_name, "changed");
    assert_eq!(table.lookup(9).i_name, "other");
    assert_eq!(table.size(), 2);
}

#[test]
fn table_index_knows_the_last_row_of_a_key() {
    let mut table: WarehouseTable = Table::new();
    table.insert(Warehouse::from_row(&fields("1|first|a|b|c|d|e|.1|1")));
    table.insert(Warehouse::from_row(&fields("1|second|a|b|c|d|e|.1|1")));
    assert_eq!(table.size(), 2);
    assert_eq!(table.lookup(1).w_name, "second");
}

#[test]
fn table_with_composite_keys() {
    let mut table: Table<Neworder, (i32, i32, i32)> = Table::new();
    table.insert(Neworder { no_o_id: 1, no_d_id: 2, no_w_id: 3 });
    table.insert(Neworder { no_o_id: 4, no_d_id: 2, no_w_id: 3 });
    assert_eq!(table.lookup((3, 2, 4)).no_o_id, 4);
    assert_eq!(table.lookup((3, 2, 1)).no_o_id, 1);
}

#[test]
fn rows_are_cloned_field_by_field() {
    let w = Warehouse::from_row(&fields("1|ABC|Main St 1|Suite 2|Munich|BY|800001111|.1234|3000000.00"));
    let c = w.clone();
    assert_eq!(format!("{:?}", c), format!("{:?}", w));
    let n = Neworder { no_o_id: 1, no_d_id: 2, no_w_id: 3 };
    assert_eq!(format!("{:?}", n.clone()), "Neworder { no_o_id: 1, no_d_id: 2, no_w_id: 3 }");
}

#[test]
fn keys_have_codes_of_their_own() {
    assert_eq!(i32::MIN.encode(), 0);
    assert_eq!(0i32.encode(), 2147483648);
    assert_eq!(i32::MAX.encode(), 4294967295);
    assert_eq!((i32::MIN, i32::MIN).encode(), 0);
    assert_eq!((i32::MIN, 0).encode(), 2147483648);
    assert_eq!((0, i32::MIN).encode(), 2147483648u128 << 32);
    assert_ne!((1, 2).encode(), (2, 1).encode());
    assert_ne!((1, 2, 3).encode(), (1, 3, 2).encode());
    assert_ne!((-1, 0, 0, 0).encode(), (0, 0, 0, -1).encode());
    assert_eq!(
        (i32::MAX, i32::MAX, i32::MAX, i32::MAX).encode(),
        u128::MAX
    );
}
