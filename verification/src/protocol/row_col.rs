use vstd::prelude::*;
use vstd::string::*;

verus! {

/// One cell as SQLite hands it back. A `REAL` is carried as the bit pattern
/// of its IEEE-754 binary64 value.
#[derive(Debug, Clone, PartialEq)]
pub enum Col {
    Null,
    Integer(i64),
    Real(u64),
    Text(String),
    Blob(Vec<u8>),
}

/// The mathematical value of a [`Col`].
pub enum ColValue {
    Null,
    Integer(i64),
    Real(u64),
    Text(Seq<char>),
    Blob(Seq<u8>),
}

impl View for Col {
    type V = ColValue;

    open spec fn view(&self) -> ColValue {
        match self {
            Col::Null => ColValue::Null,
            Col::Integer(i) => ColValue::Integer(*i),
            Col::Real(r) => ColValue::Real(*r),
            Col::Text(s) => ColValue::Text(s@),
            Col::Blob(b) => ColValue::Blob(b@),
        }
    }
}

/// One result row: its cells in column order.
#[derive(Debug, Clone, PartialEq)]
pub struct Row {
    pub cols: Vec<Col>,
}

impl View for Row {
    type V = Seq<ColValue>;

    open spec fn view(&self) -> Seq<ColValue> {
        self.cols@.map_values(|c: Col| c@)
    }
}

impl Col {
    /// A copy of this cell.
    pub fn duplicate(&self) -> (r: Col)
        ensures
            r@ == self@,
    {
        match self {
            Col::Null => Col::Null,
            Col::Integer(i) => Col::Integer(*i),
            Col::Real(x) => Col::Real(*x),
            Col::Text(s) => Col::Text(s.clone()),
            Col::Blob(b) => {
                let c = b.clone();
                assert(c@ =~= b@);
                Col::Blob(c)
            },
        }
    }

    /// The text of a `Text` cell.
    pub fn as_str(&self) -> (r: Result<&str, String>)
        ensures
            match self@ {
                ColValue::Text(t) => r matches Ok(s) && s@ == t,
                _ => r matches Err(m) && m@ == "failed to convert to string"@,
            },
    {
        match self {
            Col::Text(s) => Ok(s.as_str()),
            _ => Err(String::from_str("failed to convert to string")),
        }
    }

    /// The value of an `Integer` cell.
    pub fn as_int(&self) -> (r: Result<&i64, String>)
        ensures
            match self@ {
                ColValue::Integer(i) => r matches Ok(v) && *v == i,
                _ => r matches Err(m) && m@ == "failed to convert to integer"@,
            },
    {
        match self {
            Col::Integer(i) => Ok(i),
            _ => Err(String::from_str("failed to convert to integer")),
        }
    }

    /// The value of a `Real` cell, as its IEEE-754 bit pattern.
    pub fn as_real(&self) -> (r: Result<&u64, String>)
        ensures
            match self@ {
                ColValue::Real(x) => r matches Ok(v) && *v == x,
                _ => r matches Err(m) && m@ == "failed to convert to real"@,
            },
    {
        match self {
            Col::Real(x) => Ok(x),
            _ => Err(String::from_str("failed to convert to real")),
        }
    }

    /// The bytes of a `Blob` cell.
    pub fn as_blob(&self) -> (r: Result<&[u8], String>)
        ensures
            match self@ {
                ColValue::Blob(b) => r matches Ok(v) && v@ == b,
                _ => r matches Err(m) && m@ == "failed to convert to blob"@,
            },
    {
        match self {
            Col::Blob(b) => Ok(b.as_slice()),
            _ => Err(String::from_str("failed to convert to blob")),
        }
    }
}

} // verus!
