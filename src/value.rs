//! The typed cell that every value between HTTP, SQL and JSON is turned into.

use vstd::prelude::*;
use crate::text::str_eq;

verus! {

/// A JSON document held as plain values. Numbers keep their decimal text.
#[derive(Debug, PartialEq)]
pub enum JsonValue {
    Null,
    Bool(bool),
    Number(String),
    String(String),
    Array(Vec<JsonValue>),
    Object(Vec<(String, JsonValue)>),
}

/// A typed cell. Every variant may be absent (`None`) while keeping its tag,
/// so a NULL column still says which type the column has.
/// Reals keep their shortest decimal text; dates and times their ISO-8601 text.
#[derive(Debug, PartialEq)]
pub enum ColType {
    Integer(Option<i64>),
    Real(Option<String>),
    UnsignedInteger(Option<u64>),
    String(Option<String>),
    Bool(Option<bool>),
    Date(Option<String>),
    Time(Option<String>),
    Datetime(Option<String>),
    Json(Option<String>),
    Array(Option<Vec<ColType>>),
    Object(Option<Vec<(String, ColType)>>),
}

/// The tag of a cell, without its value.
#[derive(Debug, Clone, Copy, PartialEq, Eq, Structural)]
pub enum CellKind {
    Integer,
    Real,
    UnsignedInteger,
    String,
    Bool,
    Date,
    Time,
    Datetime,
    Json,
    Array,
    Object,
}

impl ColType {
    pub open spec fn spec_kind(&self) -> CellKind {
        match self {
            ColType::Integer(_) => CellKind::Integer,
            ColType::Real(_) => CellKind::Real,
            ColType::UnsignedInteger(_) => CellKind::UnsignedInteger,
            ColType::String(_) => CellKind::String,
            ColType::Bool(_) => CellKind::Bool,
            ColType::Date(_) => CellKind::Date,
            ColType::Time(_) => CellKind::Time,
            ColType::Datetime(_) => CellKind::Datetime,
            ColType::Json(_) => CellKind::Json,
            ColType::Array(_) => CellKind::Array,
            ColType::Object(_) => CellKind::Object,
        }
    }

    /// The tag of this cell.
    pub fn kind(&self) -> (r: CellKind)
        ensures
            r == self.spec_kind(),
    {
        match self {
            ColType::Integer(_) => CellKind::Integer,
            ColType::Real(_) => CellKind::Real,
            ColType::UnsignedInteger(_) => CellKind::UnsignedInteger,
            ColType::String(_) => CellKind::String,
            ColType::Bool(_) => CellKind::Bool,
            ColType::Date(_) => CellKind::Date,
            ColType::Time(_) => CellKind::Time,
            ColType::Datetime(_) => CellKind::Datetime,
            ColType::Json(_) => CellKind::Json,
            ColType::Array(_) => CellKind::Array,
            ColType::Object(_) => CellKind::Object,
        }
    }
}


/// `c` is the cell that the JSON value `v` turns into: `null` an absent
/// `Bool`, a number a `Real`, arrays and objects element by element.
pub open spec fn json_cell(v: JsonValue, c: ColType) -> bool
    decreases v,
{
    match v {
        JsonValue::Null => c == ColType::Bool(None),
        JsonValue::Bool(b) => c == ColType::Bool(Some(b)),
        JsonValue::Number(t) => c matches ColType::Real(Some(u)) && u@ == t@,
        JsonValue::String(t) => c matches ColType::String(Some(u)) && u@ == t@,
        JsonValue::Array(xs) => match c {
            ColType::Array(Some(ys)) => xs.len() == ys.len() && forall|i: int|
                0 <= i < xs.len() ==> json_cell(#[trigger] xs[i], ys[i]),
            _ => false,
        },
        JsonValue::Object(xs) => match c {
            ColType::Object(Some(ys)) => xs.len() == ys.len() && forall|i: int|
                0 <= i < xs.len() ==> (#[trigger] xs[i]).0@ == ys[i].0@ && json_cell(xs[i].1, ys[i].1),
            _ => false,
        },
    }
}

/// The cell for a JSON value taken from a request or from a result.
pub fn cell_of_json(val: &JsonValue) -> (r: ColType)
    ensures
        json_cell(*val, r),
    decreases val,
{
    broadcast use vstd::std_specs::vec::group_vec_axioms;
    match val {
        JsonValue::Null => ColType::Bool(None),
        JsonValue::Bool(b) => ColType::Bool(Some(*b)),
        JsonValue::Number(t) => ColType::Real(Some(t.clone())),
        JsonValue::String(t) => ColType::String(Some(t.clone())),
        JsonValue::Array(xs) => {
            let mut ys: Vec<ColType> = Vec::new();
            let mut i: usize = 0;
            while i < xs.len()
                invariant
                    *val is Array,
                    (*val)->Array_0 == *xs,
                    i <= xs@.len(),
                    ys@.len() == i,
                    forall|k: int| 0 <= k < i ==> json_cell(#[trigger] xs@[k], ys@[k]),
                decreases xs@.len() - i,
            {
                proof {
                    assert(decreases_to!(*val => (*val)->Array_0));
                    assert(decreases_to!((*val)->Array_0 => (*val)->Array_0[i as int]));
                }
                let y = cell_of_json(&xs[i]);
                ys.push(y);
                i = i + 1;
            }
            ColType::Array(Some(ys))
        },
        JsonValue::Object(xs) => {
            let mut ys: Vec<(String, ColType)> = Vec::new();
            let mut i: usize = 0;
            while i < xs.len()
                invariant
                    *val is Object,
                    (*val)->Object_0 == *xs,
                    i <= xs@.len(),
                    ys@.len() == i,
                    forall|k: int| 0 <= k < i ==> (#[trigger] xs@[k]).0@ == ys@[k].0@
                        && json_cell(xs@[k].1, ys@[k].1),
                decreases xs@.len() - i,
            {
                proof {
                    assert(decreases_to!(*val => (*val)->Object_0));
                    assert(decreases_to!((*val)->Object_0 => (*val)->Object_0[i as int]));
                    assert(decreases_to!((*val)->Object_0[i as int] => (*val)->Object_0[i as int].1));
                }
                let y = cell_of_json(&xs[i].1);
                ys.push((xs[i].0.clone(), y));
                i = i + 1;
            }
            ColType::Object(Some(ys))
        },
    }
}

impl ColType {
    /// The cell for a JSON value.
    pub fn get_col_type_from_value(val: JsonValue) -> (r: ColType)
        ensures
            json_cell(val, r),
    {
        cell_of_json(&val)
    }
}


/// The two database engines that a connection can speak to.
#[derive(Debug, Clone, Copy, PartialEq, Eq, Structural)]
pub enum DbType {
    Sqlite,
    Mysql,
}

impl Default for DbType {
    fn default() -> (r: DbType)
        ensures
            r == DbType::Sqlite,
    {
        DbType::Sqlite
    }
}

impl DbType {
    /// The engine's name as shown to an administrator.
    pub fn label(&self) -> (r: &'static str)
        ensures
            r@ == (match self {
                DbType::Sqlite => "SQLITE"@,
                DbType::Mysql => "MYSQL"@,
            }),
    {
        match self {
            DbType::Sqlite => "SQLITE",
            DbType::Mysql => "MYSQL",
        }
    }
}

/// The columns of a table as the engine describes them.
#[derive(Debug, Clone)]
pub struct ColInfo {
    pub cid: i64,
    pub name: String,
    pub ctype: String,
    pub notnull: bool,
    pub dflt_value: Option<String>,
    pub pk: bool,
}

/// A database adapter's state: the engine it speaks to and, where the
/// connection could not be established, the fault every operation reports
/// instead of attempting I/O.
#[derive(Debug, Clone)]
pub struct Conn {
    pub dbtype: DbType,
    pub err: Option<String>,
}

impl Conn {
    /// An adapter for `dbtype`, faulted with `err` if connecting failed.
    pub fn new(dbtype: DbType, err: Option<String>) -> (r: Conn)
        ensures
            r.dbtype == dbtype,
            r.err == err,
    {
        Conn { dbtype, err }
    }

    /// The engine to run on, or the stored fault: a faulted adapter fails fast.
    pub fn ready(&self) -> (r: Result<DbType, String>)
        ensures
            match self.err {
                Some(e) => r matches Err(x) && x == e,
                None => r == Ok::<DbType, String>(self.dbtype),
            },
    {
        match &self.err {
            Some(e) => Err(e.clone()),
            None => Ok(self.dbtype),
        }
    }
}

/// Faults of the value model.
#[derive(Debug, PartialEq, Eq, Structural)]
pub enum CellError {
    /// The engine reported a column type outside the fixed table.
    UnsupportedColumnType,
    /// The raw value read from a column does not have the column's type.
    ValueMismatch,
    /// The argument at this position cannot be bound to a statement.
    UnsupportedBindType(usize),
}

/// A column value as the driver hands it over, before it gets its tag.
#[derive(Debug)]
pub enum RawValue {
    Null,
    Int(i64),
    UInt(u64),
    Real(String),
    Text(String),
    Bool(bool),
}

/// The fixed table from the first engine's column type names to tags.
pub open spec fn sqlite_column_kind(n: Seq<char>) -> Option<CellKind> {
    if n == "TEXT"@ || n == "VARCHAR"@ {
        Some(CellKind::String)
    } else if n == "INTEGER"@ {
        Some(CellKind::Integer)
    } else if n == "REAL"@ || n == "NUMERIC"@ {
        Some(CellKind::Real)
    } else if n == "BOOLEAN"@ {
        Some(CellKind::Bool)
    } else if n == "DATETIME"@ {
        Some(CellKind::Datetime)
    } else if n == "DATE"@ {
        Some(CellKind::Date)
    } else if n == "TIME"@ {
        Some(CellKind::Time)
    } else {
        None
    }
}

/// The fixed table from the second engine's column type names to tags.
pub open spec fn mysql_column_kind(n: Seq<char>) -> Option<CellKind> {
    if n == "TEXT"@ || n == "VARCHAR"@ || n == "ENUM"@ || n == "TINYTEXT"@ || n == "CHAR"@ {
        Some(CellKind::String)
    } else if n == "INTEGER"@ || n == "INT"@ || n == "BIGINT"@ || n == "TINYINT"@ || n
        == "SMALLINT"@ || n == "MEDIUMINT"@ || n == "DECIMAL"@ {
        Some(CellKind::Integer)
    } else if n == "BIGINT UNSIGNED"@ || n == "TINYINT UNSIGNED"@ || n == "SMALLINT UNSIGNED"@ || n
        == "INT UNSIGNED"@ || n == "MEDIUMINT UNSIGNED"@ || n == "TIMESTAMP"@ {
        Some(CellKind::UnsignedInteger)
    } else if n == "FLOAT"@ || n == "DOUBLE"@ {
        Some(CellKind::Real)
    } else if n == "BOOLEAN"@ {
        Some(CellKind::Bool)
    } else if n == "DATETIME"@ {
        Some(CellKind::Datetime)
    } else if n == "TIME"@ {
        Some(CellKind::Time)
    } else if n == "JSON"@ {
        Some(CellKind::Json)
    } else {
        None
    }
}

pub open spec fn column_kind_spec(db: DbType, n: Seq<char>) -> Option<CellKind> {
    match db {
        DbType::Sqlite => sqlite_column_kind(n),
        DbType::Mysql => mysql_column_kind(n),
    }
}

fn any_of(n: &str, names: &[&str]) -> (r: bool)
    ensures
        r == exists|k: int| 0 <= k < names@.len() && n@ == (#[trigger] names@[k])@,
{
    let mut k: usize = 0;
    while k < names.len()
        invariant
            k <= names@.len(),
            forall|m: int| 0 <= m < k ==> n@ != (#[trigger] names@[m])@,
        decreases names@.len() - k,
    {
        if str_eq(n, names[k]) {
            return true;
        }
        k = k + 1;
    }
    false
}

/// The tag that a column of the named type decodes to, by the engine's table.
pub fn column_kind(db: DbType, col_type: &str) -> (r: Result<CellKind, CellError>)
    ensures
        match column_kind_spec(db, col_type@) {
            Some(k) => r == Ok::<CellKind, CellError>(k),
            None => r == Err::<CellKind, CellError>(CellError::UnsupportedColumnType),
        },
{
    let n = col_type;
    match db {
        DbType::Sqlite => {
            if any_of(n, &["TEXT", "VARCHAR"]) {
                Ok(CellKind::String)
            } else if str_eq(n, "INTEGER") {
                Ok(CellKind::Integer)
            } else if any_of(n, &["REAL", "NUMERIC"]) {
                Ok(CellKind::Real)
            } else if str_eq(n, "BOOLEAN") {
                Ok(CellKind::Bool)
            } else if str_eq(n, "DATETIME") {
                Ok(CellKind::Datetime)
            } else if str_eq(n, "DATE") {
                Ok(CellKind::Date)
            } else if str_eq(n, "TIME") {
                Ok(CellKind::Time)
            } else {
                Err(CellError::UnsupportedColumnType)
            }
        },
        DbType::Mysql => {
            if any_of(n, &["TEXT", "VARCHAR", "ENUM", "TINYTEXT", "CHAR"]) {
                Ok(CellKind::String)
            } else if any_of(
                n,
                &["INTEGER", "INT", "BIGINT", "TINYINT", "SMALLINT", "MEDIUMINT", "DECIMAL"],
            ) {
                Ok(CellKind::Integer)
            } else if any_of(
                n,
                &[
                    "BIGINT UNSIGNED",
                    "TINYINT UNSIGNED",
                    "SMALLINT UNSIGNED",
                    "INT UNSIGNED",
                    "MEDIUMINT UNSIGNED",
                    "TIMESTAMP",
                ],
            ) {
                Ok(CellKind::UnsignedInteger)
            } else if any_of(n, &["FLOAT", "DOUBLE"]) {
                Ok(CellKind::Real)
            } else if str_eq(n, "BOOLEAN") {
                Ok(CellKind::Bool)
            } else if str_eq(n, "DATETIME") {
                Ok(CellKind::Datetime)
            } else if str_eq(n, "TIME") {
                Ok(CellKind::Time)
            } else if str_eq(n, "JSON") {
                Ok(CellKind::Json)
            } else {
                Err(CellError::UnsupportedColumnType)
            }
        },
    }
}


/// The absent cell of a tag.
pub open spec fn absent_cell(k: CellKind) -> ColType {
    match k {
        CellKind::Integer => ColType::Integer(None),
        CellKind::Real => ColType::Real(None),
        CellKind::UnsignedInteger => ColType::UnsignedInteger(None),
        CellKind::String => ColType::String(None),
        CellKind::Bool => ColType::Bool(None),
        CellKind::Date => ColType::Date(None),
        CellKind::Time => ColType::Time(None),
        CellKind::Datetime => ColType::Datetime(None),
        CellKind::Json => ColType::Json(None),
        CellKind::Array => ColType::Array(None),
        CellKind::Object => ColType::Object(None),
    }
}

/// The cell of tag `k` that holds `raw`, where `raw` fits the tag: NULL fits
/// every tag, text fits strings, dates, times and JSON.
pub open spec fn cell_from_raw(k: CellKind, raw: RawValue) -> Option<ColType> {
    match raw {
        RawValue::Null => Some(absent_cell(k)),
        RawValue::Int(v) => if k == CellKind::Integer { Some(ColType::Integer(Some(v))) } else { None },
        RawValue::UInt(v) => if k == CellKind::UnsignedInteger {
            Some(ColType::UnsignedInteger(Some(v)))
        } else {
            None
        },
        RawValue::Real(t) => if k == CellKind::Real { Some(ColType::Real(Some(t))) } else { None },
        RawValue::Bool(b) => if k == CellKind::Bool { Some(ColType::Bool(Some(b))) } else { None },
        RawValue::Text(t) => match k {
            CellKind::String => Some(ColType::String(Some(t))),
            CellKind::Date => Some(ColType::Date(Some(t))),
            CellKind::Time => Some(ColType::Time(Some(t))),
            CellKind::Datetime => Some(ColType::Datetime(Some(t))),
            CellKind::Json => Some(ColType::Json(Some(t))),
            _ => None,
        },
    }
}

pub open spec fn decode_spec(db: DbType, col_type: Seq<char>, raw: RawValue) -> Result<ColType, CellError> {
    match column_kind_spec(db, col_type) {
        None => Err(CellError::UnsupportedColumnType),
        Some(k) => match cell_from_raw(k, raw) {
            Some(c) => Ok(c),
            None => Err(CellError::ValueMismatch),
        },
    }
}

fn absent_of(k: CellKind) -> (r: ColType)
    ensures
        r == absent_cell(k),
{
    match k {
        CellKind::Integer => ColType::Integer(None),
        CellKind::Real => ColType::Real(None),
        CellKind::UnsignedInteger => ColType::UnsignedInteger(None),
        CellKind::String => ColType::String(None),
        CellKind::Bool => ColType::Bool(None),
        CellKind::Date => ColType::Date(None),
        CellKind::Time => ColType::Time(None),
        CellKind::Datetime => ColType::Datetime(None),
        CellKind::Json => ColType::Json(None),
        CellKind::Array => ColType::Array(None),
        CellKind::Object => ColType::Object(None),
    }
}

/// Decodes one column value: the tag comes from the column's type name alone,
/// never from the value; a NULL keeps the tag.
pub fn decode(db: DbType, col_type: &str, raw: RawValue) -> (r: Result<ColType, CellError>)
    ensures
        r == decode_spec(db, col_type@, raw),
{
    let k = match column_kind(db, col_type) {
        Ok(k) => k,
        Err(e) => return Err(e),
    };
    match raw {
        RawValue::Null => Ok(absent_of(k)),
        RawValue::Int(v) => if k == CellKind::Integer {
            Ok(ColType::Integer(Some(v)))
        } else {
            Err(CellError::ValueMismatch)
        },
        RawValue::UInt(v) => if k == CellKind::UnsignedInteger {
            Ok(ColType::UnsignedInteger(Some(v)))
        } else {
            Err(CellError::ValueMismatch)
        },
        RawValue::Real(t) => if k == CellKind::Real {
            Ok(ColType::Real(Some(t)))
        } else {
            Err(CellError::ValueMismatch)
        },
        RawValue::Bool(b) => if k == CellKind::Bool {
            Ok(ColType::Bool(Some(b)))
        } else {
            Err(CellError::ValueMismatch)
        },
        RawValue::Text(t) => match k {
            CellKind::String => Ok(ColType::String(Some(t))),
            CellKind::Date => Ok(ColType::Date(Some(t))),
            CellKind::Time => Ok(ColType::Time(Some(t))),
            CellKind::Datetime => Ok(ColType::Datetime(Some(t))),
            CellKind::Json => Ok(ColType::Json(Some(t))),
            _ => Err(CellError::ValueMismatch),
        },
    }
}

/// The first engine's table, name by name.
#[verifier::rlimit(60)]
pub proof fn lemma_sqlite_table()
    ensures
        sqlite_column_kind("TEXT"@) == Some(CellKind::String),
        sqlite_column_kind("VARCHAR"@) == Some(CellKind::String),
        sqlite_column_kind("INTEGER"@) == Some(CellKind::Integer),
        sqlite_column_kind("REAL"@) == Some(CellKind::Real),
        sqlite_column_kind("NUMERIC"@) == Some(CellKind::Real),
        sqlite_column_kind("BOOLEAN"@) == Some(CellKind::Bool),
        sqlite_column_kind("DATETIME"@) == Some(CellKind::Datetime),
        sqlite_column_kind("DATE"@) == Some(CellKind::Date),
        sqlite_column_kind("TIME"@) == Some(CellKind::Time),
{
    reveal_strlit("BIGINT");
    reveal_strlit("BIGINT UNSIGNED");
    reveal_strlit("BOOLEAN");
    reveal_strlit("CHAR");
    reveal_strlit("DATE");
    reveal_strlit("DATETIME");
    reveal_strlit("DECIMAL");
    reveal_strlit("DOUBLE");
    reveal_strlit("ENUM");
    reveal_strlit("FLOAT");
    reveal_strlit("INT");
    reveal_strlit("INT UNSIGNED");
    reveal_strlit("INTEGER");
    reveal_strlit("JSON");
    reveal_strlit("MEDIUMINT");
    reveal_strlit("MEDIUMINT UNSIGNED");
    reveal_strlit("NUMERIC");
    reveal_strlit("REAL");
    reveal_strlit("SMALLINT");
    reveal_strlit("SMALLINT UNSIGNED");
    reveal_strlit("TEXT");
    reveal_strlit("TIME");
    reveal_strlit("TIMESTAMP");
    reveal_strlit("TINYINT");
    reveal_strlit("TINYINT UNSIGNED");
    reveal_strlit("TINYTEXT");
    reveal_strlit("VARCHAR");
    assert("TEXT"@[0] != "CHAR"@[0]);
    assert("TEXT"@[0] != "DATE"@[0]);
    assert("TEXT"@[0] != "ENUM"@[0]);
    assert("TEXT"@[0] != "JSON"@[0]);
    assert("TEXT"@[0] != "REAL"@[0]);
    assert("TEXT"@[1] != "TIME"@[1]);
    assert("VARCHAR"@[0] != "BOOLEAN"@[0]);
    assert("VARCHAR"@[0] != "DECIMAL"@[0]);
    assert("VARCHAR"@[0] != "INTEGER"@[0]);
    assert("VARCHAR"@[0] != "NUMERIC"@[0]);
    assert("VARCHAR"@[0] != "TINYINT"@[0]);
    assert("INTEGER"@[0] != "BOOLEAN"@[0]);
    assert("INTEGER"@[0] != "DECIMAL"@[0]);
    assert("INTEGER"@[0] != "NUMERIC"@[0]);
    assert("INTEGER"@[0] != "TINYINT"@[0]);
    assert("INTEGER"@[0] != "VARCHAR"@[0]);
    assert("REAL"@[0] != "CHAR"@[0]);
    assert("REAL"@[0] != "DATE"@[0]);
    assert("REAL"@[0] != "ENUM"@[0]);
    assert("REAL"@[0] != "JSON"@[0]);
    assert("REAL"@[0] != "TEXT"@[0]);
    assert("REAL"@[0] != "TIME"@[0]);
    assert("NUMERIC"@[0] != "BOOLEAN"@[0]);
    assert("NUMERIC"@[0] != "DECIMAL"@[0]);
    assert("NUMERIC"@[0] != "INTEGER"@[0]);
    assert("NUMERIC"@[0] != "TINYINT"@[0]);
    assert("NUMERIC"@[0] != "VARCHAR"@[0]);
    assert("BOOLEAN"@[0] != "DECIMAL"@[0]);
    assert("BOOLEAN"@[0] != "INTEGER"@[0]);
    assert("BOOLEAN"@[0] != "NUMERIC"@[0]);
    assert("BOOLEAN"@[0] != "TINYINT"@[0]);
    assert("BOOLEAN"@[0] != "VARCHAR"@[0]);
    assert("DATETIME"@[0] != "SMALLINT"@[0]);
    assert("DATETIME"@[0] != "TINYTEXT"@[0]);
    assert("DATE"@[0] != "CHAR"@[0]);
    assert("DATE"@[0] != "ENUM"@[0]);
    assert("DATE"@[0] != "JSON"@[0]);
    assert("DATE"@[0] != "REAL"@[0]);
    assert("DATE"@[0] != "TEXT"@[0]);
    assert("DATE"@[0] != "TIME"@[0]);
    assert("TIME"@[0] != "CHAR"@[0]);
    assert("TIME"@[0] != "DATE"@[0]);
    assert("TIME"@[0] != "ENUM"@[0]);
    assert("TIME"@[0] != "JSON"@[0]);
    assert("TIME"@[0] != "REAL"@[0]);
    assert("TIME"@[1] != "TEXT"@[1]);
    assert("BIGINT"@.len() == 6);
    assert("BIGINT UNSIGNED"@.len() == 15);
    assert("BOOLEAN"@.len() == 7);
    assert("CHAR"@.len() == 4);
    assert("DATE"@.len() == 4);
    assert("DATETIME"@.len() == 8);
    assert("DECIMAL"@.len() == 7);
    assert("DOUBLE"@.len() == 6);
    assert("ENUM"@.len() == 4);
    assert("FLOAT"@.len() == 5);
    assert("INT"@.len() == 3);
    assert("INT UNSIGNED"@.len() == 12);
    assert("INTEGER"@.len() == 7);
    assert("JSON"@.len() == 4);
    assert("MEDIUMINT"@.len() == 9);
    assert("MEDIUMINT UNSIGNED"@.len() == 18);
    assert("NUMERIC"@.len() == 7);
    assert("REAL"@.len() == 4);
    assert("SMALLINT"@.len() == 8);
    assert("SMALLINT UNSIGNED"@.len() == 17);
    assert("TEXT"@.len() == 4);
    assert("TIME"@.len() == 4);
    assert("TIMESTAMP"@.len() == 9);
    assert("TINYINT"@.len() == 7);
    assert("TINYINT UNSIGNED"@.len() == 16);
    assert("TINYTEXT"@.len() == 8);
    assert("VARCHAR"@.len() == 7);
}

/// The second engine's table, name by name.
#[verifier::rlimit(60)]
pub proof fn lemma_mysql_table()
    ensures
        mysql_column_kind("TEXT"@) == Some(CellKind::String),
        mysql_column_kind("VARCHAR"@) == Some(CellKind::String),
        mysql_column_kind("ENUM"@) == Some(CellKind::String),
        mysql_column_kind("TINYTEXT"@) == Some(CellKind::String),
        mysql_column_kind("CHAR"@) == Some(CellKind::String),
        mysql_column_kind("INTEGER"@) == Some(CellKind::Integer),
        mysql_column_kind("INT"@) == Some(CellKind::Integer),
        mysql_column_kind("BIGINT"@) == Some(CellKind::Integer),
        mysql_column_kind("TINYINT"@) == Some(CellKind::Integer),
        mysql_column_kind("SMALLINT"@) == Some(CellKind::Integer),
        mysql_column_kind("MEDIUMINT"@) == Some(CellKind::Integer),
        mysql_column_kind("DECIMAL"@) == Some(CellKind::Integer),
        mysql_column_kind("BIGINT UNSIGNED"@) == Some(CellKind::UnsignedInteger),
        mysql_column_kind("TINYINT UNSIGNED"@) == Some(CellKind::UnsignedInteger),
        mysql_column_kind("SMALLINT UNSIGNED"@) == Some(CellKind::UnsignedInteger),
        mysql_column_kind("INT UNSIGNED"@) == Some(CellKind::UnsignedInteger),
        mysql_column_kind("MEDIUMINT UNSIGNED"@) == Some(CellKind::UnsignedInteger),
        mysql_column_kind("TIMESTAMP"@) == Some(CellKind::UnsignedInteger),
        mysql_column_kind("FLOAT"@) == Some(CellKind::Real),
        mysql_column_kind("DOUBLE"@) == Some(CellKind::Real),
        mysql_column_kind("BOOLEAN"@) == Some(CellKind::Bool),
        mysql_column_kind("DATETIME"@) == Some(CellKind::Datetime),
        mysql_column_kind("TIME"@) == Some(CellKind::Time),
        mysql_column_kind("JSON"@) == Some(CellKind::Json),
{
    reveal_strlit("BIGINT");
    reveal_strlit("BIGINT UNSIGNED");
    reveal_strlit("BOOLEAN");
    reveal_strlit("CHAR");
    reveal_strlit("DATE");
    reveal_strlit("DATETIME");
    reveal_strlit("DECIMAL");
    reveal_strlit("DOUBLE");
    reveal_strlit("ENUM");
    reveal_strlit("FLOAT");
    reveal_strlit("INT");
    reveal_strlit("INT UNSIGNED");
    reveal_strlit("INTEGER");
    reveal_strlit("JSON");
    reveal_strlit("MEDIUMINT");
    reveal_strlit("MEDIUMINT UNSIGNED");
    reveal_strlit("NUMERIC");
    reveal_strlit("REAL");
    reveal_strlit("SMALLINT");
    reveal_strlit("SMALLINT UNSIGNED");
    reveal_strlit("TEXT");
    reveal_strlit("TIME");
    reveal_strlit("TIMESTAMP");
    reveal_strlit("TINYINT");
    reveal_strlit("TINYINT UNSIGNED");
    reveal_strlit("TINYTEXT");
    reveal_strlit("VARCHAR");
    assert("TEXT"@[0] != "CHAR"@[0]);
    assert("TEXT"@[0] != "DATE"@[0]);
    assert("TEXT"@[0] != "ENUM"@[0]);
    assert("TEXT"@[0] != "JSON"@[0]);
    assert("TEXT"@[0] != "REAL"@[0]);
    assert("TEXT"@[1] != "TIME"@[1]);
    assert("VARCHAR"@[0] != "BOOLEAN"@[0]);
    assert("VARCHAR"@[0] != "DECIMAL"@[0]);
    assert("VARCHAR"@[0] != "INTEGER"@[0]);
    assert("VARCHAR"@[0] != "NUMERIC"@[0]);
    assert("VARCHAR"@[0] != "TINYINT"@[0]);
    assert("ENUM"@[0] != "CHAR"@[0]);
    assert("ENUM"@[0] != "DATE"@[0]);
    assert("ENUM"@[0] != "JSON"@[0]);
    assert("ENUM"@[0] != "REAL"@[0]);
    assert("ENUM"@[0] != "TEXT"@[0]);
    assert("ENUM"@[0] != "TIME"@[0]);
    assert("TINYTEXT"@[0] != "DATETIME"@[0]);
    assert("TINYTEXT"@[0] != "SMALLINT"@[0]);
    assert("CHAR"@[0] != "DATE"@[0]);
    assert("CHAR"@[0] != "ENUM"@[0]);
    assert("CHAR"@[0] != "JSON"@[0]);
    assert("CHAR"@[0] != "REAL"@[0]);
    assert("CHAR"@[0] != "TEXT"@[0]);
    assert("CHAR"@[0] != "TIME"@[0]);
    assert("INTEGER"@[0] != "BOOLEAN"@[0]);
    assert("INTEGER"@[0] != "DECIMAL"@[0]);
    assert("INTEGER"@[0] != "NUMERIC"@[0]);
    assert("INTEGER"@[0] != "TINYINT"@[0]);
    assert("INTEGER"@[0] != "VARCHAR"@[0]);
    assert("BIGINT"@[0] != "DOUBLE"@[0]);
    assert("TINYINT"@[0] != "BOOLEAN"@[0]);
    assert("TINYINT"@[0] != "DECIMAL"@[0]);
    assert("TINYINT"@[0] != "INTEGER"@[0]);
    assert("TINYINT"@[0] != "NUMERIC"@[0]);
    assert("TINYINT"@[0] != "VARCHAR"@[0]);
    assert("SMALLINT"@[0] != "DATETIME"@[0]);
    assert("SMALLINT"@[0] != "TINYTEXT"@[0]);
    assert("MEDIUMINT"@[0] != "TIMESTAMP"@[0]);
    assert("DECIMAL"@[0] != "BOOLEAN"@[0]);
    assert("DECIMAL"@[0] != "INTEGER"@[0]);
    assert("DECIMAL"@[0] != "NUMERIC"@[0]);
    assert("DECIMAL"@[0] != "TINYINT"@[0]);
    assert("DECIMAL"@[0] != "VARCHAR"@[0]);
    assert("TIMESTAMP"@[0] != "MEDIUMINT"@[0]);
    assert("DOUBLE"@[0] != "BIGINT"@[0]);
    assert("BOOLEAN"@[0] != "DECIMAL"@[0]);
    assert("BOOLEAN"@[0] != "INTEGER"@[0]);
    assert("BOOLEAN"@[0] != "NUMERIC"@[0]);
    assert("BOOLEAN"@[0] != "TINYINT"@[0]);
    assert("BOOLEAN"@[0] != "VARCHAR"@[0]);
    assert("DATETIME"@[0] != "SMALLINT"@[0]);
    assert("DATETIME"@[0] != "TINYTEXT"@[0]);
    assert("TIME"@[0] != "CHAR"@[0]);
    assert("TIME"@[0] != "DATE"@[0]);
    assert("TIME"@[0] != "ENUM"@[0]);
    assert("TIME"@[0] != "JSON"@[0]);
    assert("TIME"@[0] != "REAL"@[0]);
    assert("TIME"@[1] != "TEXT"@[1]);
    assert("JSON"@[0] != "CHAR"@[0]);
    assert("JSON"@[0] != "DATE"@[0]);
    assert("JSON"@[0] != "ENUM"@[0]);
    assert("JSON"@[0] != "REAL"@[0]);
    assert("JSON"@[0] != "TEXT"@[0]);
    assert("JSON"@[0] != "TIME"@[0]);
    assert("BIGINT"@.len() == 6);
    assert("BIGINT UNSIGNED"@.len() == 15);
    assert("BOOLEAN"@.len() == 7);
    assert("CHAR"@.len() == 4);
    assert("DATE"@.len() == 4);
    assert("DATETIME"@.len() == 8);
    assert("DECIMAL"@.len() == 7);
    assert("DOUBLE"@.len() == 6);
    assert("ENUM"@.len() == 4);
    assert("FLOAT"@.len() == 5);
    assert("INT"@.len() == 3);
    assert("INT UNSIGNED"@.len() == 12);
    assert("INTEGER"@.len() == 7);
    assert("JSON"@.len() == 4);
    assert("MEDIUMINT"@.len() == 9);
    assert("MEDIUMINT UNSIGNED"@.len() == 18);
    assert("NUMERIC"@.len() == 7);
    assert("REAL"@.len() == 4);
    assert("SMALLINT"@.len() == 8);
    assert("SMALLINT UNSIGNED"@.len() == 17);
    assert("TEXT"@.len() == 4);
    assert("TIME"@.len() == 4);
    assert("TIMESTAMP"@.len() == 9);
    assert("TINYINT"@.len() == 7);
    assert("TINYINT UNSIGNED"@.len() == 16);
    assert("TINYTEXT"@.len() == 8);
    assert("VARCHAR"@.len() == 7);
}

/// Every name in an engine's table decodes to its tag, both for a NULL and
/// for a value of that tag; every other name is refused, whatever the value.
pub proof fn lemma_decode_total(db: DbType, col_type: Seq<char>, raw: RawValue)
    ensures
        column_kind_spec(db, col_type) matches Some(k) ==> decode_spec(db, col_type, RawValue::Null)
            == Ok::<ColType, CellError>(absent_cell(k)) && absent_cell(k).spec_kind() == k,
        column_kind_spec(db, col_type) matches Some(k) ==> (decode_spec(db, col_type, raw) matches Ok(
            c,
        ) ==> c.spec_kind() == k),
        column_kind_spec(db, col_type) matches Some(k) ==> (cell_from_raw(k, raw) matches Some(c) ==> decode_spec(
            db,
            col_type,
            raw,
        ) == Ok::<ColType, CellError>(c) && c.spec_kind() == k),
        column_kind_spec(db, col_type) is None ==> decode_spec(db, col_type, raw) == Err::<
            ColType,
            CellError,
        >(CellError::UnsupportedColumnType),
{
}

/// How a statement runs: reads return rows, the other statements a count.
#[derive(Debug, Clone, Copy, PartialEq, Eq, Structural)]
pub enum Dispatch {
    QueryAll,
    Execute,
}

/// Whether an engine takes a cell of this tag as a parameter of a statement
/// that runs as `dispatch`. The first engine takes integers, reals, strings,
/// booleans, dates, times and date-times. The second also takes unsigned
/// integers; reads take dates but no JSON, other statements JSON but no dates.
/// Arrays and objects are never taken.
pub open spec fn bindable(db: DbType, dispatch: Dispatch, k: CellKind) -> bool {
    match k {
        CellKind::Integer | CellKind::Real | CellKind::String | CellKind::Bool | CellKind::Time
        | CellKind::Datetime => true,
        CellKind::Date => db == DbType::Sqlite || dispatch == Dispatch::QueryAll,
        CellKind::UnsignedInteger => db == DbType::Mysql,
        CellKind::Json => db == DbType::Mysql && dispatch == Dispatch::Execute,
        CellKind::Array | CellKind::Object => false,
    }
}

fn bindable_kind(db: DbType, dispatch: Dispatch, k: CellKind) -> (r: bool)
    ensures
        r == bindable(db, dispatch, k),
{
    match k {
        CellKind::Integer | CellKind::Real | CellKind::String | CellKind::Bool | CellKind::Time
        | CellKind::Datetime => true,
        CellKind::Date => db == DbType::Sqlite || dispatch == Dispatch::QueryAll,
        CellKind::UnsignedInteger => db == DbType::Mysql,
        CellKind::Json => db == DbType::Mysql && dispatch == Dispatch::Execute,
        CellKind::Array | CellKind::Object => false,
    }
}

/// Checks, before anything is bound, that every argument can be bound; the
/// error names the first one that cannot.
pub fn check_bindable(db: DbType, dispatch: Dispatch, args: &Vec<ColType>) -> (r: Result<(), CellError>)
    ensures
        r is Ok <==> forall|i: int|
            0 <= i < args@.len() ==> bindable(db, dispatch, (#[trigger] args@[i]).spec_kind()),
        r matches Err(e) ==> e matches CellError::UnsupportedBindType(i) && i < args@.len()
            && !bindable(db, dispatch, args@[i as int].spec_kind()) && forall|j: int|
            0 <= j < i ==> bindable(db, dispatch, (#[trigger] args@[j]).spec_kind()),
{
    let mut i: usize = 0;
    while i < args.len()
        invariant
            i <= args@.len(),
            forall|j: int| 0 <= j < i ==> bindable(db, dispatch, (#[trigger] args@[j]).spec_kind()),
        decreases args@.len() - i,
    {
        if !bindable_kind(db, dispatch, args[i].kind()) {
            return Err(CellError::UnsupportedBindType(i));
        }
        i = i + 1;
    }
    Ok(())
}

} // verus!
