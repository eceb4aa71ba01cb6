//! The schema that a parse builds: relations, each with its columns in the
//! order in which they were declared.

use vstd::prelude::*;

verus! {

/// A column of a relation. Only its name is kept.
#[derive(Debug, PartialEq, Eq)]
pub struct Column {
    pub name: String,
}

/// A table definition: its name and its columns, in declaration order.
#[derive(Debug, PartialEq, Eq)]
pub struct Relation {
    pub name: String,
    pub columns: Vec<Column>,
}

/// All relations of one parse, in the order of their statements.
#[derive(Debug, PartialEq, Eq)]
pub struct Schema {
    pub relations: Vec<Relation>,
}

/// The mathematical value of a [`Relation`]: its name and its columns' names.
pub struct RelationView {
    pub name: Seq<char>,
    pub columns: Seq<Seq<char>>,
}

impl View for Column {
    type V = Seq<char>;

    open spec fn view(&self) -> Seq<char> {
        self.name@
    }
}

impl View for Relation {
    type V = RelationView;

    open spec fn view(&self) -> RelationView {
        RelationView { name: self.name@, columns: self.columns@.map_values(|c: Column| c@) }
    }
}

impl View for Schema {
    type V = Seq<RelationView>;

    open spec fn view(&self) -> Seq<RelationView> {
        self.relations@.map_values(|r: Relation| r@)
    }
}

/// `schema` with a new relation `name`, without columns, at its end.
pub open spec fn with_relation(schema: Seq<RelationView>, name: Seq<char>) -> Seq<RelationView> {
    schema.push(RelationView { name, columns: Seq::empty() })
}

/// `schema` with a new column `name` at the end of its last relation.
pub open spec fn with_column(schema: Seq<RelationView>, name: Seq<char>) -> Seq<RelationView>
    recommends
        schema.len() > 0,
{
    let last = schema.last();
    schema.update(
        schema.len() - 1,
        RelationView { name: last.name, columns: last.columns.push(name) },
    )
}

impl Column {
    /// A column named `name`.
    pub fn new(name: String) -> (r: Column)
        ensures
            r@ == name@,
    {
        Column { name }
    }
}

impl Relation {
    /// A relation without columns.
    pub fn new(name: String) -> (r: Relation)
        ensures
            r@ == (RelationView { name: name@, columns: Seq::empty() }),
    {
        let r = Relation { name, columns: Vec::new() };
        assert(r@.columns =~= Seq::empty());
        r
    }

    /// Appends a column.
    pub fn push(&mut self, column: Column)
        ensures
            final(self)@ == (RelationView {
                name: old(self)@.name,
                columns: old(self)@.columns.push(column@),
            }),
    {
        self.columns.push(column);
        assert(self@.columns =~= old(self)@.columns.push(column@));
    }
}

impl Schema {
    /// A schema without relations.
    pub fn new() -> (r: Schema)
        ensures
            r@ == Seq::<RelationView>::empty(),
    {
        let r = Schema { relations: Vec::new() };
        assert(r@ =~= Seq::empty());
        r
    }

    /// Appends a relation without columns.
    pub fn add_relation(&mut self, name: String)
        ensures
            final(self)@ == with_relation(old(self)@, name@),
    {
        self.relations.push(Relation::new(name));
        assert(self@ =~= with_relation(old(self)@, name@));
    }

    /// Appends a column to the last relation.
    pub fn add_column(&mut self, name: String)
        requires
            old(self)@.len() > 0,
        ensures
            final(self)@ == with_column(old(self)@, name@),
    {
        let last = self.relations.len() - 1;
        self.relations[last].push(Column::new(name));
        assert(self@ =~= with_column(old(self)@, name@));
    }
}

} // verus!
