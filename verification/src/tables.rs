//! The rows of the order-processing tables, and how each is read from the
//! fields of a line of text.

use crate::fields::{
    holds_numeric, i32_value, i64_value, numeric_of, numeric_value, parse_i32, parse_i64,
    read_i32, read_i64, read_numeric, texts,
};
use crate::numeric::Numeric;
use crate::table::{FromRow, PrimaryKey, Table};
use vstd::prelude::*;

verus! {

/// A warehouse.
#[derive(Debug)]
pub struct Warehouse {
    pub w_id: i32,
    pub w_name: String,
    pub w_street_1: String,
    pub w_street_2: String,
    pub w_city: String,
    pub w_state: String,
    pub w_zip: String,
    /// A number of 4 digits, 4 of them after the decimal point.
    pub w_tax: Numeric,
    /// A number of 12 digits, 2 of them after the decimal point.
    pub w_ytd: Numeric,
}

impl Clone for Warehouse {
    fn clone(&self) -> (r: Warehouse)
        ensures
            r == *self,
    {
        Warehouse {
            w_id: self.w_id,
            w_name: self.w_name.clone(),
            w_street_1: self.w_street_1.clone(),
            w_street_2: self.w_street_2.clone(),
            w_city: self.w_city.clone(),
            w_state: self.w_state.clone(),
            w_zip: self.w_zip.clone(),
            w_tax: self.w_tax,
            w_ytd: self.w_ytd,
        }
    }
}

impl PrimaryKey<i32> for Warehouse {
    open spec fn key(&self) -> i32 {
        self.w_id
    }

    fn primary_key(&self) -> (r: i32) {
        self.w_id
    }
}

impl FromRow for Warehouse {
    open spec fn accepts(row: Seq<Seq<char>>) -> bool {
        &&& row.len() >= 9
        &&& i32_value(row[0]) is Some
        &&& numeric_value(row[7], 4, 4) is Some
        &&& numeric_value(row[8], 12, 2) is Some
    }

    open spec fn reads(&self, row: Seq<Seq<char>>) -> bool {
        &&& Some(self.w_id) == i32_value(row[0])
        &&& self.w_name@ == row[1]
        &&& self.w_street_1@ == row[2]
        &&& self.w_street_2@ == row[3]
        &&& self.w_city@ == row[4]
        &&& self.w_state@ == row[5]
        &&& self.w_zip@ == row[6]
        &&& self.w_tax@ == numeric_of(row[7], 4, 4)
        &&& self.w_ytd@ == numeric_of(row[8], 12, 2)
    }

    fn check_row(row: &Vec<String>) -> (r: bool) {
        row.len() >= 9
            && parse_i32(row[0].as_str()).is_some()
            && holds_numeric(row[7].as_str(), 4, 4)
            && holds_numeric(row[8].as_str(), 12, 2)
    }

    fn from_row(row: &Vec<String>) -> (r: Warehouse) {
        Warehouse {
            w_id: read_i32(row[0].as_str()),
            w_name: row[1].clone(),
            w_street_1: row[2].clone(),
            w_street_2: row[3].clone(),
            w_city: row[4].clone(),
            w_state: row[5].clone(),
            w_zip: row[6].clone(),
            w_tax: read_numeric(row[7].as_str(), 4, 4),
            w_ytd: read_numeric(row[8].as_str(), 12, 2),
        }
    }
}

pub type WarehouseTable = Table<Warehouse, i32>;

/// A district of a warehouse.
#[derive(Debug)]
pub struct District {
    pub d_id: i32,
    pub d_w_id: i32,
    pub d_name: String,
    pub d_street_1: String,
    pub d_street_2: String,
    pub d_city: String,
    pub d_state: String,
    pub d_zip: String,
    /// A number of 4 digits, 4 of them after the decimal point.
    pub d_tax: Numeric,
    /// A number of 12 digits, 2 of them after the decimal point.
    pub d_ytd: Numeric,
    pub d_next_o_id: i32,
}

impl Clone for District {
    fn clone(&self) -> (r: District)
        ensures
            r == *self,
    {
        District {
            d_id: self.d_id,
            d_w_id: self.d_w_id,
            d_name: self.d_name.clone(),
            d_street_1: self.d_street_1.clone(),
            d_street_2: self.d_street_2.clone(),
            d_city: self.d_city.clone(),
            d_state: self.d_state.clone(),
            d_zip: self.d_zip.clone(),
            d_tax: self.d_tax,
            d_ytd: self.d_ytd,
            d_next_o_id: self.d_next_o_id,
        }
    }
}

impl PrimaryKey<(i32, i32)> for District {
    open spec fn key(&self) -> (i32, i32) {
        (self.d_w_id, self.d_id)
    }

    fn primary_key(&self) -> (r: (i32, i32)) {
        (self.d_w_id, self.d_id)
    }
}

impl FromRow for District {
    open spec fn accepts(row: Seq<Seq<char>>) -> bool {
        &&& row.len() >= 11
        &&& i32_value(row[0]) is Some
        &&& i32_value(row[1]) is Some
        &&& numeric_value(row[8], 4, 4) is Some
        &&& numeric_value(row[9], 12, 2) is Some
        &&& i32_value(row[10]) is Some
    }

    open spec fn reads(&self, row: Seq<Seq<char>>) -> bool {
        &&& Some(self.d_id) == i32_value(row[0])
        &&& Some(self.d_w_id) == i32_value(row[1])
        &&& self.d_name@ == row[2]
        &&& self.d_street_1@ == row[3]
        &&& self.d_street_2@ == row[4]
        &&& self.d_city@ == row[5]
        &&& self.d_state@ == row[6]
        &&& self.d_zip@ == row[7]
        &&& self.d_tax@ == numeric_of(row[8], 4, 4)
        &&& self.d_ytd@ == numeric_of(row[9], 12, 2)
        &&& Some(self.d_next_o_id) == i32_value(row[10])
    }

    fn check_row(row: &Vec<String>) -> (r: bool) {
        row.len() >= 11
            && parse_i32(row[0].as_str()).is_some()
            && parse_i32(row[1].as_str()).is_some()
            && holds_numeric(row[8].as_str(), 4, 4)
            && holds_numeric(row[9].as_str(), 12, 2)
            && parse_i32(row[10].as_str()).is_some()
    }

    fn from_row(row: &Vec<String>) -> (r: District) {
        District {
            d_id: read_i32(row[0].as_str()),
            d_w_id: read_i32(row[1].as_str()),
            d_name: row[2].clone(),
            d_street_1: row[3].clone(),
            d_street_2: row[4].clone(),
            d_city: row[5].clone(),
            d_state: row[6].clone(),
            d_zip: row[7].clone(),
            d_tax: read_numeric(row[8].as_str(), 4, 4),
            d_ytd: read_numeric(row[9].as_str(), 12, 2),
            d_next_o_id: read_i32(row[10].as_str()),
        }
    }
}

pub type DistrictTable = Table<District, (i32, i32)>;

/// A customer of a district.
#[derive(Debug)]
pub struct Customer {
    pub c_id: i32,
    pub c_d_id: i32,
    pub c_w_id: i32,
    pub c_first: String,
    pub c_middle: String,
    pub c_last: String,
    pub c_street_1: String,
    pub c_street_2: String,
    pub c_city: String,
    pub c_state: String,
    pub c_zip: String,
    pub c_phone: String,
    pub c_since: i32,
    pub c_credit: String,
    /// A number of 12 digits, 2 of them after the decimal point.
    pub c_credit_lim: Numeric,
    /// A number of 4 digits, 4 of them after the decimal point.
    pub c_discount: Numeric,
    /// A number of 12 digits, 2 of them after the decimal point.
    pub c_balance: Numeric,
    /// A number of 12 digits, 2 of them after the decimal point.
    pub c_ytd_paymenr: Numeric,
    /// A number of 4 digits, 0 of them after the decimal point.
    pub c_payment_cnt: Numeric,
    /// A number of 4 digits, 0 of them after the decimal point.
    pub c_delivery_cnt: Numeric,
    pub c_data: String,
}

impl Clone for Customer {
    fn clone(&self) -> (r: Customer)
        ensures
            r == *self,
    {
        Customer {
            c_id: self.c_id,
            c_d_id: self.c_d_id,
            c_w_id: self.c_w_id,
            c_first: self.c_first.clone(),
            c_middle: self.c_middle.clone(),
            c_last: self.c_last.clone(),
            c_street_1: self.c_street_1.clone(),
            c_street_2: self.c_street_2.clone(),
            c_city: self.c_city.clone(),
            c_state: self.c_state.clone(),
            c_zip: self.c_zip.clone(),
            c_phone: self.c_phone.clone(),
            c_since: self.c_since,
            c_credit: self.c_credit.clone(),
            c_credit_lim: self.c_credit_lim,
            c_discount: self.c_discount,
            c_balance: self.c_balance,
            c_ytd_paymenr: self.c_ytd_paymenr,
            c_payment_cnt: self.c_payment_cnt,
            c_delivery_cnt: self.c_delivery_cnt,
            c_data: self.c_data.clone(),
        }
    }
}

impl PrimaryKey<(i32, i32, i32)> for Customer {
    open spec fn key(&self) -> (i32, i32, i32) {
        (self.c_w_id, self.c_d_id, self.c_id)
    }

    fn primary_key(&self) -> (r: (i32, i32, i32)) {
        (self.c_w_id, self.c_d_id, self.c_id)
    }
}

impl FromRow for Customer {
    open spec fn accepts(row: Seq<Seq<char>>) -> bool {
        &&& row.len() >= 21
        &&& i32_value(row[0]) is Some
        &&& i32_value(row[1]) is Some
        &&& i32_value(row[2]) is Some
        &&& i32_value(row[12]) is Some
        &&& numeric_value(row[14], 12, 2) is Some
        &&& numeric_value(row[15], 4, 4) is Some
        &&& numeric_value(row[16], 12, 2) is Some
        &&& numeric_value(row[17], 12, 2) is Some
        &&& numeric_value(row[18], 4, 0) is Some
        &&& numeric_value(row[19], 4, 0) is Some
    }

    open spec fn reads(&self, row: Seq<Seq<char>>) -> bool {
        &&& Some(self.c_id) == i32_value(row[0])
        &&& Some(self.c_d_id) == i32_value(row[1])
        &&& Some(self.c_w_id) == i32_value(row[2])
        &&& self.c_first@ == row[3]
        &&& self.c_middle@ == row[4]
        &&& self.c_last@ == row[5]
        &&& self.c_street_1@ == row[6]
        &&& self.c_street_2@ == row[7]
        &&& self.c_city@ == row[8]
        &&& self.c_state@ == row[9]
        &&& self.c_zip@ == row[10]
        &&& self.c_phone@ == row[11]
        &&& Some(self.c_since) == i32_value(row[12])
        &&& self.c_credit@ == row[13]
        &&& self.c_credit_lim@ == numeric_of(row[14], 12, 2)
        &&& self.c_discount@ == numeric_of(row[15], 4, 4)
        &&& self.c_balance@ == numeric_of(row[16], 12, 2)
        &&& self.c_ytd_paymenr@ == numeric_of(row[17], 12, 2)
        &&& self.c_payment_cnt@ == numeric_of(row[18], 4, 0)
        &&& self.c_delivery_cnt@ == numeric_of(row[19], 4, 0)
        &&& self.c_data@ == row[20]
    }

    fn check_row(row: &Vec<String>) -> (r: bool) {
        row.len() >= 21
            && parse_i32(row[0].as_str()).is_some()
            && parse_i32(row[1].as_str()).is_some()
            && parse_i32(row[2].as_str()).is_some()
            && parse_i32(row[12].as_str()).is_some()
            && holds_numeric(row[14].as_str(), 12, 2)
            && holds_numeric(row[15].as_str(), 4, 4)
            && holds_numeric(row[16].as_str(), 12, 2)
            && holds_numeric(row[17].as_str(), 12, 2)
            && holds_numeric(row[18].as_str(), 4, 0)
            && holds_numeric(row[19].as_str(), 4, 0)
    }

    fn from_row(row: &Vec<String>) -> (r: Customer) {
        Customer {
            c_id: read_i32(row[0].as_str()),
            c_d_id: read_i32(row[1].as_str()),
            c_w_id: read_i32(row[2].as_str()),
            c_first: row[3].clone(),
            c_middle: row[4].clone(),
            c_last: row[5].clone(),
            c_street_1: row[6].clone(),
            c_street_2: row[7].clone(),
            c_city: row[8].clone(),
            c_state: row[9].clone(),
            c_zip: row[10].clone(),
            c_phone: row[11].clone(),
            c_since: read_i32(row[12].as_str()),
            c_credit: row[13].clone(),
            c_credit_lim: read_numeric(row[14].as_str(), 12, 2),
            c_discount: read_numeric(row[15].as_str(), 4, 4),
            c_balance: read_numeric(row[16].as_str(), 12, 2),
            c_ytd_paymenr: read_numeric(row[17].as_str(), 12, 2),
            c_payment_cnt: read_numeric(row[18].as_str(), 4, 0),
            c_delivery_cnt: read_numeric(row[19].as_str(), 4, 0),
            c_data: row[20].clone(),
        }
    }
}

pub type CustomerTable = Table<Customer, (i32, i32, i32)>;

/// An order that has not been delivered.
#[derive(Debug)]
pub struct Neworder {
    pub no_o_id: i32,
    pub no_d_id: i32,
    pub no_w_id: i32,
}

impl Clone for Neworder {
    fn clone(&self) -> (r: Neworder)
        ensures
            r == *self,
    {
        Neworder {
            no_o_id: self.no_o_id,
            no_d_id: self.no_d_id,
            no_w_id: self.no_w_id,
        }
    }
}

impl PrimaryKey<(i32, i32, i32)> for Neworder {
    open spec fn key(&self) -> (i32, i32, i32) {
        (self.no_w_id, self.no_d_id, self.no_o_id)
    }

    fn primary_key(&self) -> (r: (i32, i32, i32)) {
        (self.no_w_id, self.no_d_id, self.no_o_id)
    }
}

impl FromRow for Neworder {
    open spec fn accepts(row: Seq<Seq<char>>) -> bool {
        &&& row.len() >= 3
        &&& i32_value(row[0]) is Some
        &&& i32_value(row[1]) is Some
        &&& i32_value(row[2]) is Some
    }

    open spec fn reads(&self, row: Seq<Seq<char>>) -> bool {
        &&& Some(self.no_o_id) == i32_value(row[0])
        &&& Some(self.no_d_id) == i32_value(row[1])
        &&& Some(self.no_w_id) == i32_value(row[2])
    }

    fn check_row(row: &Vec<String>) -> (r: bool) {
        row.len() >= 3
            && parse_i32(row[0].as_str()).is_some()
            && parse_i32(row[1].as_str()).is_some()
            && parse_i32(row[2].as_str()).is_some()
    }

    fn from_row(row: &Vec<String>) -> (r: Neworder) {
        Neworder {
            no_o_id: read_i32(row[0].as_str()),
            no_d_id: read_i32(row[1].as_str()),
            no_w_id: read_i32(row[2].as_str()),
        }
    }
}

pub type NeworderTable = Table<Neworder, (i32, i32, i32)>;

/// An order of a customer.
#[derive(Debug)]
pub struct Order {
    pub o_id: i32,
    pub o_d_id: i32,
    pub o_w_id: i32,
    pub o_c_id: i32,
    pub o_entry_d: i64,
    pub o_carrier_id: i32,
    /// A number of 2 digits, 0 of them after the decimal point.
    pub o_ol_cnt: Numeric,
    /// A number of 1 digits, 0 of them after the decimal point.
    pub o_all_local: Numeric,
}

impl Clone for Order {
    fn clone(&self) -> (r: Order)
        ensures
            r == *self,
    {
        Order {
            o_id: self.o_id,
            o_d_id: self.o_d_id,
            o_w_id: self.o_w_id,
            o_c_id: self.o_c_id,
            o_entry_d: self.o_entry_d,
            o_carrier_id: self.o_carrier_id,
            o_ol_cnt: self.o_ol_cnt,
            o_all_local: self.o_all_local,
        }
    }
}

impl PrimaryKey<(i32, i32, i32)> for Order {
    open spec fn key(&self) -> (i32, i32, i32) {
        (self.o_w_id, self.o_d_id, self.o_id)
    }

    fn primary_key(&self) -> (r: (i32, i32, i32)) {
        (self.o_w_id, self.o_d_id, self.o_id)
    }
}

impl FromRow for Order {
    open spec fn accepts(row: Seq<Seq<char>>) -> bool {
        &&& row.len() >= 8
        &&& i32_value(row[0]) is Some
        &&& i32_value(row[1]) is Some
        &&& i32_value(row[2]) is Some
        &&& i32_value(row[3]) is Some
        &&& i64_value(row[4]) is Some
        &&& i32_value(row[5]) is Some
        &&& numeric_value(row[6], 2, 0) is Some
        &&& numeric_value(row[7], 1, 0) is Some
    }

    open spec fn reads(&self, row: Seq<Seq<char>>) -> bool {
        &&& Some(self.o_id) == i32_value(row[0])
        &&& Some(self.o_d_id) == i32_value(row[1])
        &&& Some(self.o_w_id) == i32_value(row[2])
        &&& Some(self.o_c_id) == i32_value(row[3])
        &&& Some(self.o_entry_d) == i64_value(row[4])
        &&& Some(self.o_carrier_id) == i32_value(row[5])
        &&& self.o_ol_cnt@ == numeric_of(row[6], 2, 0)
        &&& self.o_all_local@ == numeric_of(row[7], 1, 0)
    }

    fn check_row(row: &Vec<String>) -> (r: bool) {
        row.len() >= 8
            && parse_i32(row[0].as_str()).is_some()
            && parse_i32(row[1].as_str()).is_some()
            && parse_i32(row[2].as_str()).is_some()
            && parse_i32(row[3].as_str()).is_some()
            && parse_i64(row[4].as_str()).is_some()
            && parse_i32(row[5].as_str()).is_some()
            && holds_numeric(row[6].as_str(), 2, 0)
            && holds_numeric(row[7].as_str(), 1, 0)
    }

    fn from_row(row: &Vec<String>) -> (r: Order) {
        Order {
            o_id: read_i32(row[0].as_str()),
            o_d_id: read_i32(row[1].as_str()),
            o_w_id: read_i32(row[2].as_str()),
            o_c_id: read_i32(row[3].as_str()),
            o_entry_d: read_i64(row[4].as_str()),
            o_carrier_id: read_i32(row[5].as_str()),
            o_ol_cnt: read_numeric(row[6].as_str(), 2, 0),
            o_all_local: read_numeric(row[7].as_str(), 1, 0),
        }
    }
}

pub type OrderTable = Table<Order, (i32, i32, i32)>;

/// One line of an order.
#[derive(Debug)]
pub struct Orderline {
    pub ol_o_id: i32,
    pub ol_d_id: i32,
    pub ol_w_id: i32,
    pub ol_number: i32,
    pub ol_i_id: i32,
    pub ol_supply_w_id: i32,
    pub ol_delivery_d: i32,
    /// A number of 2 digits, 0 of them after the decimal point.
    pub ol_quantity: Numeric,
    /// A number of 6 digits, 2 of them after the decimal point.
    pub ol_amount: Numeric,
    pub ol_dist_info: String,
}

impl Clone for Orderline {
    fn clone(&self) -> (r: Orderline)
        ensures
            r == *self,
    {
        Orderline {
            ol_o_id: self.ol_o_id,
            ol_d_id: self.ol_d_id,
            ol_w_id: self.ol_w_id,
            ol_number: self.ol_number,
            ol_i_id: self.ol_i_id,
            ol_supply_w_id: self.ol_supply_w_id,
            ol_delivery_d: self.ol_delivery_d,
            ol_quantity: self.ol_quantity,
            ol_amount: self.ol_amount,
            ol_dist_info: self.ol_dist_info.clone(),
        }
    }
}

impl PrimaryKey<(i32, i32, i32, i32)> for Orderline {
    open spec fn key(&self) -> (i32, i32, i32, i32) {
        (self.ol_w_id, self.ol_d_id, self.ol_o_id, self.ol_number)
    }

    fn primary_key(&self) -> (r: (i32, i32, i32, i32)) {
        (self.ol_w_id, self.ol_d_id, self.ol_o_id, self.ol_number)
    }
}

impl FromRow for Orderline {
    open spec fn accepts(row: Seq<Seq<char>>) -> bool {
        &&& row.len() >= 10
        &&& i32_value(row[0]) is Some
        &&& i32_value(row[1]) is Some
        &&& i32_value(row[2]) is Some
        &&& i32_value(row[3]) is Some
        &&& i32_value(row[4]) is Some
        &&& i32_value(row[5]) is Some
        &&& i32_value(row[6]) is Some
        &&& numeric_value(row[7], 2, 0) is Some
        &&& numeric_value(row[8], 6, 2) is Some
    }

    open spec fn reads(&self, row: Seq<Seq<char>>) -> bool {
        &&& Some(self.ol_o_id) == i32_value(row[0])
        &&& Some(self.ol_d_id) == i32_value(row[1])
        &&& Some(self.ol_w_id) == i32_value(row[2])
        &&& Some(self.ol_number) == i32_value(row[3])
        &&& Some(self.ol_i_id) == i32_value(row[4])
        &&& Some(self.ol_supply_w_id) == i32_value(row[5])
        &&& Some(self.ol_delivery_d) == i32_value(row[6])
        &&& self.ol_quantity@ == numeric_of(row[7], 2, 0)
        &&& self.ol_amount@ == numeric_of(row[8], 6, 2)
        &&& self.ol_dist_info@ == row[9]
    }

    fn check_row(row: &Vec<String>) -> (r: bool) {
        row.len() >= 10
            && parse_i32(row[0].as_str()).is_some()
            && parse_i32(row[1].as_str()).is_some()
            && parse_i32(row[2].as_str()).is_some()
            && parse_i32(row[3].as_str()).is_some()
            && parse_i32(row[4].as_str()).is_some()
            && parse_i32(row[5].as_str()).is_some()
            && parse_i32(row[6].as_str()).is_some()
            && holds_numeric(row[7].as_str(), 2, 0)
            && holds_numeric(row[8].as_str(), 6, 2)
    }

    fn from_row(row: &Vec<String>) -> (r: Orderline) {
        Orderline {
            ol_o_id: read_i32(row[0].as_str()),
            ol_d_id: read_i32(row[1].as_str()),
            ol_w_id: read_i32(row[2].as_str()),
            ol_number: read_i32(row[3].as_str()),
            ol_i_id: read_i32(row[4].as_str()),
            ol_supply_w_id: read_i32(row[5].as_str()),
            ol_delivery_d: read_i32(row[6].as_str()),
            ol_quantity: read_numeric(row[7].as_str(), 2, 0),
            ol_amount: read_numeric(row[8].as_str(), 6, 2),
            ol_dist_info: row[9].clone(),
        }
    }
}

pub type OrderlineTable = Table<Orderline, (i32, i32, i32, i32)>;

/// An item that can be ordered.
#[derive(Debug)]
pub struct Item {
    pub i_id: i32,
    pub i_im_id: i32,
    pub i_name: String,
    /// A number of 5 digits, 2 of them after the decimal point.
    pub i_price: Numeric,
    pub i_data: String,
}

impl Clone for Item {
    fn clone(&self) -> (r: Item)
        ensures
            r == *self,
    {
        Item {
            i_id: self.i_id,
            i_im_id: self.i_im_id,
            i_name: self.i_name.clone(),
            i_price: self.i_price,
            i_data: self.i_data.clone(),
        }
    }
}

impl PrimaryKey<i32> for Item {
    open spec fn key(&self) -> i32 {
        self.i_id
    }

    fn primary_key(&self) -> (r: i32) {
        self.i_id
    }
}

impl FromRow for Item {
    open spec fn accepts(row: Seq<Seq<char>>) -> bool {
        &&& row.len() >= 5
        &&& i32_value(row[0]) is Some
        &&& i32_value(row[1]) is Some
        &&& numeric_value(row[3], 5, 2) is Some
    }

    open spec fn reads(&self, row: Seq<Seq<char>>) -> bool {
        &&& Some(self.i_id) == i32_value(row[0])
        &&& Some(self.i_im_id) == i32_value(row[1])
        &&& self.i_name@ == row[2]
        &&& self.i_price@ == numeric_of(row[3], 5, 2)
        &&& self.i_data@ == row[4]
    }

    fn check_row(row: &Vec<String>) -> (r: bool) {
        row.len() >= 5
            && parse_i32(row[0].as_str()).is_some()
            && parse_i32(row[1].as_str()).is_some()
            && holds_numeric(row[3].as_str(), 5, 2)
    }

    fn from_row(row: &Vec<String>) -> (r: Item) {
        Item {
            i_id: read_i32(row[0].as_str()),
            i_im_id: read_i32(row[1].as_str()),
            i_name: row[2].clone(),
            i_price: read_numeric(row[3].as_str(), 5, 2),
            i_data: row[4].clone(),
        }
    }
}

pub type ItemTable = Table<Item, i32>;

/// The stock of an item in a warehouse.
#[derive(Debug)]
pub struct Stock {
    pub s_i_id: i32,
    pub s_w_id: i32,
    /// A number of 4 digits, 0 of them after the decimal point.
    pub s_quantity: Numeric,
    pub s_dist_01: String,
    pub s_dist_02: String,
    pub s_dist_03: String,
    pub s_dist_04: String,
    pub s_dist_05: String,
    pub s_dist_06: String,
    pub s_dist_07: String,
    pub s_dist_08: String,
    pub s_dist_09: String,
    pub s_dist_10: String,
    /// A number of 8 digits, 0 of them after the decimal point.
    pub s_ytd: Numeric,
    /// A number of 4 digits, 0 of them after the decimal point.
    pub s_order_cnt: Numeric,
    /// A number of 4 digits, 0 of them after the decimal point.
    pub s_remote_cnt: Numeric,
    pub s_data: String,
}

impl Clone for Stock {
    fn clone(&self) -> (r: Stock)
        ensures
            r == *self,
    {
        Stock {
            s_i_id: self.s_i_id,
            s_w_id: self.s_w_id,
            s_quantity: self.s_quantity,
            s_dist_01: self.s_dist_01.clone(),
            s_dist_02: self.s_dist_02.clone(),
            s_dist_03: self.s_dist_03.clone(),
            s_dist_04: self.s_dist_04.clone(),
            s_dist_05: self.s_dist_05.clone(),
            s_dist_06: self.s_dist_06.clone(),
            s_dist_07: self.s_dist_07.clone(),
            s_dist_08: self.s_dist_08.clone(),
            s_dist_09: self.s_dist_09.clone(),
            s_dist_10: self.s_dist_10.clone(),
            s_ytd: self.s_ytd,
            s_order_cnt: self.s_order_cnt,
            s_remote_cnt: self.s_remote_cnt,
            s_data: self.s_data.clone(),
        }
    }
}

impl PrimaryKey<(i32, i32)> for Stock {
    open spec fn key(&self) -> (i32, i32) {
        (self.s_w_id, self.s_i_id)
    }

    fn primary_key(&self) -> (r: (i32, i32)) {
        (self.s_w_id, self.s_i_id)
    }
}

impl FromRow for Stock {
    open spec fn accepts(row: Seq<Seq<char>>) -> bool {
        &&& row.len() >= 17
        &&& i32_value(row[0]) is Some
        &&& i32_value(row[1]) is Some
        &&& numeric_value(row[2], 4, 0) is Some
        &&& numeric_value(row[13], 8, 0) is Some
        &&& numeric_value(row[14], 4, 0) is Some
        &&& numeric_value(row[15], 4, 0) is Some
    }

    open spec fn reads(&self, row: Seq<Seq<char>>) -> bool {
        &&& Some(self.s_i_id) == i32_value(row[0])
        &&& Some(self.s_w_id) == i32_value(row[1])
        &&& self.s_quantity@ == numeric_of(row[2], 4, 0)
        &&& self.s_dist_01@ == row[3]
        &&& self.s_dist_02@ == row[4]
        &&& self.s_dist_03@ == row[5]
        &&& self.s_dist_04@ == row[6]
        &&& self.s_dist_05@ == row[7]
        &&& self.s_dist_06@ == row[8]
        &&& self.s_dist_07@ == row[9]
        &&& self.s_dist_08@ == row[10]
        &&& self.s_dist_09@ == row[11]
        &&& self.s_dist_10@ == row[12]
        &&& self.s_ytd@ == numeric_of(row[13], 8, 0)
        &&& self.s_order_cnt@ == numeric_of(row[14], 4, 0)
        &&& self.s_remote_cnt@ == numeric_of(row[15], 4, 0)
        &&& self.s_data@ == row[16]
    }

    fn check_row(row: &Vec<String>) -> (r: bool) {
        row.len() >= 17
            && parse_i32(row[0].as_str()).is_some()
            && parse_i32(row[1].as_str()).is_some()
            && holds_numeric(row[2].as_str(), 4, 0)
            && holds_numeric(row[13].as_str(), 8, 0)
            && holds_numeric(row[14].as_str(), 4, 0)
            && holds_numeric(row[15].as_str(), 4, 0)
    }

    fn from_row(row: &Vec<String>) -> (r: Stock) {
        Stock {
            s_i_id: read_i32(row[0].as_str()),
            s_w_id: read_i32(row[1].as_str()),
            s_quantity: read_numeric(row[2].as_str(), 4, 0),
            s_dist_01: row[3].clone(),
            s_dist_02: row[4].clone(),
            s_dist_03: row[5].clone(),
            s_dist_04: row[6].clone(),
            s_dist_05: row[7].clone(),
            s_dist_06: row[8].clone(),
            s_dist_07: row[9].clone(),
            s_dist_08: row[10].clone(),
            s_dist_09: row[11].clone(),
            s_dist_10: row[12].clone(),
            s_ytd: read_numeric(row[13].as_str(), 8, 0),
            s_order_cnt: read_numeric(row[14].as_str(), 4, 0),
            s_remote_cnt: read_numeric(row[15].as_str(), 4, 0),
            s_data: row[16].clone(),
        }
    }
}

pub type StockTable = Table<Stock, (i32, i32)>;

} // verus!
