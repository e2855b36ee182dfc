//! The value model shared by every backend: errors, bind values, column
//! descriptors and result metadata.
use vstd::prelude::*;

verus! {

/// The single error kind of the library: a diagnostic message.
#[derive(Debug)]
pub enum Error {
    General(String),
}

impl Error {
    /// The diagnostic text carried by the error.
    pub open spec fn message(&self) -> Seq<char> {
        match self {
            Error::General(m) => m@,
        }
    }
}

/// A bindable scalar value, passed positionally as a statement parameter.
/// There is no coercion between variants: a caller binds the variant that
/// the parameter's type asks for.
#[derive(Debug, Clone, PartialEq, Eq)]
pub enum Value {
    Int32(i32),
    UInt32(u32),
    String(String),
}

/// The data types a column can be reported with.
#[derive(Debug, Copy, Clone, PartialEq, Eq, Structural)]
pub enum DataType {
    Bool,
    Byte,
    Char,
    Short,
    Integer,
    Float,
    Double,
    Decimal,
    Date,
    Time,
    Datetime,
    Utf8,
    Binary,
}

/// An immutable column descriptor: a name and a data type.
#[derive(Debug, Clone)]
pub struct Column {
    name: String,
    data_type: DataType,
}

impl Column {
    /// The column's name.
    pub closed spec fn spec_name(&self) -> Seq<char> {
        self.name@
    }

    /// The column's data type.
    pub closed spec fn spec_data_type(&self) -> DataType {
        self.data_type
    }

    pub fn new(name: &str, data_type: DataType) -> (r: Self)
        ensures
            r.spec_name() == name@,
            r.spec_data_type() == data_type,
    {
        Column { name: name.to_owned(), data_type }
    }

    /// The column's name.
    pub fn name(&self) -> (r: String)
        ensures
            r@ == self.spec_name(),
    {
        self.name.clone()
    }

    /// The column's data type.
    pub fn data_type(&self) -> (r: DataType)
        ensures
            r == self.spec_data_type(),
    {
        self.data_type
    }
}

/// Column descriptors of a result: indices `0 .. num_columns()` are valid and
/// stable for the lifetime of the metadata.
pub trait ResultSetMetaData {
    /// The columns described, in order.
    spec fn columns(&self) -> Seq<Column>;

    fn num_columns(&self) -> (r: u64)
        ensures
            r == self.columns().len(),
    ;

    fn column_name(&self, i: u64) -> (r: String)
        requires
            i < self.columns().len(),
        ensures
            r@ == self.columns()[i as int].spec_name(),
    ;

    fn column_type(&self, i: u64) -> (r: DataType)
        requires
            i < self.columns().len(),
        ensures
            r == self.columns()[i as int].spec_data_type(),
    ;
}

impl ResultSetMetaData for Vec<Column> {
    open spec fn columns(&self) -> Seq<Column> {
        self@
    }

    fn num_columns(&self) -> (r: u64) {
        self.len() as u64
    }

    fn column_name(&self, i: u64) -> (r: String) {
        let n = self.len();
        assert(i < n);
        self[i as usize].name()
    }

    fn column_type(&self, i: u64) -> (r: DataType) {
        let n = self.len();
        assert(i < n);
        self[i as usize].data_type()
    }
}

} // verus!
