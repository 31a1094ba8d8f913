use sqlcore::backend::Pg;
use sqlcore::deserialize::{DeserializeError, FromSqlRow};
use sqlcore::expression::{Expression, NonAggregate, SelectableExpression};
use sqlcore::pg::PgValue;
use sqlcore::query_builder::{AsQuery, UpdateTarget};
use sqlcore::query_source::{build_record, Column, QuerySource, Queryable, Table};
use sqlcore::sql_types::{BigInt, Integer, Nullable, SmallInt};

#[derive(Debug, Default, Clone, Copy, PartialEq)]
struct Users;

#[derive(Debug, Default, Clone, Copy, PartialEq)]
struct Id;

#[derive(Debug, Default, Clone, Copy, PartialEq)]
struct Age;

impl Expression for Id {
    type SqlType = Integer;
}

impl NonAggregate for Id {}

impl SelectableExpression<Users> for Id {}

impl Column for Id {
    type Table = Users;

    fn name() -> &'static str {
        "id"
    }
}

impl Expression for Age {
    type SqlType = SmallInt;
}

impl NonAggregate for Age {}

impl SelectableExpression<Users> for Age {}

impl Column for Age {
    type Table = Users;

    fn name() -> &'static str {
        "age"
    }
}

impl QuerySource for Users {
    type FromClause = &'static str;

    fn from_clause(&self) -> &'static str {
        "users"
    }
}

impl AsQuery for Users {
    type SqlType = (Integer, SmallInt);
    type Query = (&'static str, (Id, Age));

    fn as_query(self) -> Self::Query {
        (self.from_clause(), Users::all_columns())
    }
}

impl Table for Users {
    type PrimaryKey = Id;
    type AllColumns = (Id, Age);

    fn name() -> &'static str {
        "users"
    }

    fn primary_key(&self) -> Id {
        Id
    }

    fn all_columns() -> (Id, Age) {
        (Id, Age)
    }
}

#[derive(Debug, PartialEq)]
struct User {
    id: i32,
    age: i16,
}

impl Queryable<(Integer, SmallInt), Pg> for User {
    type Row = (i32, i16);

    fn build(row: (i32, i16)) -> User {
        User { id: row.0, age: row.1 }
    }
}

#[test]
fn a_table_is_updated_as_a_whole_by_default() {
    assert_eq!(UpdateTarget::where_clause(&Users), None);
}

#[test]
fn a_table_exposes_its_name_key_and_columns() {
    assert_eq!(<Users as Table>::name(), "users");
    assert_eq!(Users.primary_key(), Id);
    assert_eq!(<<Users as Table>::PrimaryKey as Column>::name(), "id");
    assert_eq!(Users::all_columns(), (Id, Age));
    assert_eq!(<Age as Column>::name(), "age");
    assert_eq!(Users.as_query(), ("users", (Id, Age)));
}

#[test]
fn a_record_is_built_from_a_row() {
    let id = [0u8, 0, 1, 0];
    let age = [0u8, 33];
    let row = [Some(PgValue::new(&id)), Some(PgValue::new(&age))];
    assert_eq!(
        build_record::<(Integer, SmallInt), Pg, User>(&row),
        Ok(User { id: 256, age: 33 })
    );
}

#[test]
fn a_row_decodes_as_a_whole_or_not_at_all() {
    let id = [0u8, 0, 1, 0];
    let age = [0u8, 33];
    let long = [0u8, 0, 33];

    let row = [Some(PgValue::new(&id)), None];
    assert_eq!(
        build_record::<(Integer, SmallInt), Pg, User>(&row),
        Err(DeserializeError::UnexpectedNull)
    );
    let row = [Some(PgValue::new(&age)), None];
    assert_eq!(
        build_record::<(Integer, SmallInt), Pg, User>(&row),
        Err(DeserializeError::TooFewBytes)
    );
    let row = [Some(PgValue::new(&id)), Some(PgValue::new(&long))];
    assert_eq!(
        build_record::<(Integer, SmallInt), Pg, User>(&row),
        Err(DeserializeError::TooManyBytes)
    );
}

#[test]
fn row_tuples_take_their_columns_in_order() {
    assert_eq!(<(i16,) as FromSqlRow<(SmallInt,), Pg>>::fields_needed(), 1);
    assert_eq!(<(i32, i16) as FromSqlRow<(Integer, SmallInt), Pg>>::fields_needed(), 2);
    assert_eq!(
        <(i64, Option<i32>, i16) as FromSqlRow<(BigInt, Nullable<Integer>, SmallInt), Pg>>::fields_needed(),
        3
    );

    let a = [0u8, 0, 0, 0, 0, 0, 0, 5];
    let c = [255u8, 255];
    let row = [Some(PgValue::new(&a)), None, Some(PgValue::new(&c))];
    assert_eq!(
        <(i64, Option<i32>, i16) as FromSqlRow<(BigInt, Nullable<Integer>, SmallInt), Pg>>::build_from_row(&row),
        Ok((5, None, -1))
    );
    let row = [Some(PgValue::new(&c))];
    assert_eq!(<(i16,) as FromSqlRow<(SmallInt,), Pg>>::build_from_row(&row), Ok((-1,)));
}
