//! Tables of rows in memory, with an index from primary key to row.

use crate::fields::texts;
use std::collections::HashMap;
use std::marker::PhantomData;
use vstd::prelude::*;

verus! {

/// A row that has a primary key of type `T`.
pub trait PrimaryKey<T> {
    /// The row's primary key.
    spec fn key(&self) -> T;

    /// The row's primary key.
    fn primary_key(&self) -> (r: T)
        ensures
            r == self.key(),
    ;
}

/// A row that can be read from the fields of one line of text.
pub trait FromRow: Sized {
    /// Whether `row` holds the fields of such a row: it has enough fields,
    /// and each of them writes a value of its column's type.
    spec fn accepts(row: Seq<Seq<char>>) -> bool;

    /// Whether this is the row that the fields of `row` write.
    spec fn reads(&self, row: Seq<Seq<char>>) -> bool;

    /// Says whether `row` holds the fields of such a row.
    fn check_row(row: &Vec<String>) -> (r: bool)
        ensures
            r == Self::accepts(texts(row@)),
    ;

    /// Reads the row that the fields of `row` write. Fields beyond those of
    /// the row's columns are not looked at.
    fn from_row(row: &Vec<String>) -> (r: Self)
        requires
            Self::accepts(texts(row@)),
        ensures
            r.reads(texts(row@)),
    ;
}

/// Reads a row from the fields of `row`, or `None` where they do not hold
/// such a row.
pub fn read_row<Data: FromRow>(row: &Vec<String>) -> (r: Option<Data>)
    ensures
        match r {
            Some(data) => Data::accepts(texts(row@)) && data.reads(texts(row@)),
            None => !Data::accepts(texts(row@)),
        },
{
    if Data::check_row(row) {
        Some(Data::from_row(row))
    } else {
        None
    }
}

/// A primary key that one integer can stand for, a different integer for
/// each key. The index of a table finds rows by that integer.
pub trait IndexKey: Sized {
    /// The integer that stands for the key.
    spec fn code(&self) -> u128;

    /// The integer that stands for the key.
    fn encode(&self) -> (r: u128)
        ensures
            r == self.code(),
    ;

    /// Keys with the same code are the same key.
    proof fn code_is_injective(&self, other: &Self)
        requires
            self.code() == other.code(),
        ensures
            self == other,
    ;
}

/// The place of `x` among the 32-bit integers, counted from the least.
pub open spec fn rank(x: i32) -> int {
    x - i32::MIN
}

/// The code of a key of several parts: the code of the parts before the
/// last, and the last part.
pub open spec fn joined(before: int, last: i32) -> int {
    before * 0x1_0000_0000 + rank(last)
}

/// The place of `x` among the 32-bit integers, counted from the least.
fn rank_of(x: i32) -> (r: u128)
    ensures
        r == rank(x),
{
    let shifted: i64 = x as i64 + 2147483648;
    shifted as u128
}

/// The code of a key of several parts.
fn join(before: u128, last: i32) -> (r: u128)
    requires
        before < 0x1_0000_0000_0000_0000_0000_0000,
    ensures
        r == joined(before as int, last),
{
    before * 0x1_0000_0000 + rank_of(last)
}

impl IndexKey for i32 {
    open spec fn code(&self) -> u128 {
        rank(*self) as u128
    }

    /// The integer that stands for the key.
    fn encode(&self) -> (r: u128) {
        rank_of(*self)
    }

    proof fn code_is_injective(&self, other: &i32) {
    }
}

impl IndexKey for (i32, i32) {
    open spec fn code(&self) -> u128 {
        joined(rank(self.0), self.1) as u128
    }

    /// The integer that stands for the key.
    fn encode(&self) -> (r: u128) {
        join(rank_of(self.0), self.1)
    }

    proof fn code_is_injective(&self, other: &(i32, i32)) {
    }
}

impl IndexKey for (i32, i32, i32) {
    open spec fn code(&self) -> u128 {
        joined(joined(rank(self.0), self.1), self.2) as u128
    }

    /// The integer that stands for the key.
    fn encode(&self) -> (r: u128) {
        join(join(rank_of(self.0), self.1), self.2)
    }

    proof fn code_is_injective(&self, other: &(i32, i32, i32)) {
    }
}

impl IndexKey for (i32, i32, i32, i32) {
    open spec fn code(&self) -> u128 {
        joined(joined(joined(rank(self.0), self.1), self.2), self.3) as u128
    }

    /// The integer that stands for the key.
    fn encode(&self) -> (r: u128) {
        join(join(join(rank_of(self.0), self.1), self.2), self.3)
    }

    proof fn code_is_injective(&self, other: &(i32, i32, i32, i32)) {
    }
}

/// Rows in the order in which they were inserted, and an index that finds a
/// row by its primary key. Of rows with the same key the index knows the
/// one that was inserted last.
pub struct Table<Data, Index> {
    rows: Vec<Data>,
    index: HashMap<u128, usize>,
    key: PhantomData<Index>,
}

impl<Data: PrimaryKey<Index>, Index: IndexKey> Table<Data, Index> {
    /// The rows, in the order in which they were inserted.
    pub closed spec fn rows(&self) -> Seq<Data> {
        self.rows@
    }

    /// For each primary key that finds a row, the place of that row among
    /// the rows.
    pub closed spec fn index(&self) -> Map<Index, usize> {
        Map::new(
            |k: Index| self.index@.contains_key(k.code()),
            |k: Index| self.index@[k.code()],
        )
    }

    /// Every key of the index finds a row, and that row has this key.
    pub open spec fn well_formed(&self) -> bool {
        forall|k: Index| #[trigger]
            self.index().contains_key(k) ==> self.index()[k] < self.rows().len()
                && self.rows()[self.index()[k] as int].key() == k
    }

    /// A table without rows.
    pub fn new() -> (r: Table<Data, Index>)
        ensures
            r.rows() == Seq::<Data>::empty(),
            r.index() == Map::<Index, usize>::empty(),
            r.well_formed(),
    {
        let r = Table { rows: Vec::new(), index: HashMap::new(), key: PhantomData };
        assert(r.index() =~= Map::<Index, usize>::empty());
        r
    }

    /// Appends a row, and lets its primary key find it.
    pub fn insert(&mut self, data: Data)
        requires
            old(self).well_formed(),
        ensures
            final(self).rows() == old(self).rows().push(data),
            final(self).index() == old(self).index().insert(
                data.key(),
                old(self).rows().len() as usize,
            ),
            final(self).well_formed(),
    {
        let key = data.primary_key();
        let place = self.rows.len();
        self.rows.push(data);
        self.index.insert(key.encode(), place);
        proof {
            assert forall|k: Index| k.code() == key.code() implies k == key by {
                k.code_is_injective(&key);
            }
            assert(self.index() =~= old(self).index().insert(key, place));
        }
    }

    /// The row that the primary key `index_elem` finds.
    pub fn lookup(&self, index_elem: Index) -> (r: &Data)
        requires
            self.well_formed(),
            self.index().contains_key(index_elem),
        ensures
            *r == self.rows()[self.index()[index_elem] as int],
            r.key() == index_elem,
    {
        let code = index_elem.encode();
        let place = *self.index.get(&code).unwrap();
        &self.rows[place]
    }

    /// The row that the primary key `index_elem` finds, to be changed. The
    /// table stays well formed where the change keeps the row's primary
    /// key.
    pub fn lookup_mut(&mut self, index_elem: Index) -> (r: &mut Data)
        requires
            old(self).well_formed(),
            old(self).index().contains_key(index_elem),
        ensures
            *r == old(self).rows()[old(self).index()[index_elem] as int],
            final(self).rows() == old(self).rows().update(
                old(self).index()[index_elem] as int,
                *final(r),
            ),
            final(self).index() == old(self).index(),
    {
        let code = index_elem.encode();
        let place = *self.index.get(&code).unwrap();
        &mut self.rows[place]
    }

    /// The number of rows.
    pub fn size(&self) -> (r: usize)
        ensures
            r == self.rows().len(),
    {
        self.rows.len()
    }
}

} // verus!
