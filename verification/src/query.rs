//! What is known of one column of a query.
use crate::enums::{ODPINativeTypeNum, ODPIOracleTypeNum};
use crate::objecttype::ObjectType;
use vstd::prelude::*;

verus! {

/// What is known of one column of a query, once the statement has been executed.
#[derive(Debug)]
pub struct Info {
    /// The name of the column.
    pub name: String,
    /// The database type of the column.
    pub oracle_type_num: ODPIOracleTypeNum,
    /// The representation in which values of the column are fetched.
    pub default_native_type_num: ODPINativeTypeNum,
    /// The width of the column in the database, in bytes; zero for other than text.
    pub db_size_in_bytes: u32,
    /// The width of the column on the client, in bytes; zero for other than text.
    pub client_size_in_bytes: u32,
    /// The width of the column in characters; zero for other than text.
    pub size_in_chars: u32,
    /// The precision of a numeric column.
    pub precision: i16,
    /// The scale of a numeric column.
    pub scale: i8,
    /// Whether the column may hold null.
    pub null_ok: bool,
    /// The object type of a column of objects.
    pub object_type: Option<ObjectType>,
}

impl Info {
    /// The name of the column.
    pub fn name(&self) -> (r: String)
        ensures
            r == self.name,
    {
        self.name.clone()
    }

    /// The database type of the column.
    pub fn oracle_type_num(&self) -> (r: ODPIOracleTypeNum)
        ensures
            r == self.oracle_type_num,
    {
        self.oracle_type_num
    }

    /// The representation in which values of the column are fetched.
    pub fn default_native_type_num(&self) -> (r: ODPINativeTypeNum)
        ensures
            r == self.default_native_type_num,
    {
        self.default_native_type_num
    }

    /// The width of the column in the database, in bytes.
    pub fn db_size_in_bytes(&self) -> (r: u32)
        ensures
            r == self.db_size_in_bytes,
    {
        self.db_size_in_bytes
    }

    /// The width of the column on the client, in bytes.
    pub fn client_size_in_bytes(&self) -> (r: u32)
        ensures
            r == self.client_size_in_bytes,
    {
        self.client_size_in_bytes
    }

    /// The width of the column in characters.
    pub fn size_in_chars(&self) -> (r: u32)
        ensures
            r == self.size_in_chars,
    {
        self.size_in_chars
    }

    /// The precision of a numeric column.
    pub fn precision(&self) -> (r: i16)
        ensures
            r == self.precision,
    {
        self.precision
    }

    /// The scale of a numeric column.
    pub fn scale(&self) -> (r: i8)
        ensures
            r == self.scale,
    {
        self.scale
    }

    /// Whether the column may hold null.
    pub fn null_ok(&self) -> (r: bool)
        ensures
            r == self.null_ok,
    {
        self.null_ok
    }

    /// The object type of a column of objects.
    pub fn object_type(&self) -> (r: Option<&ObjectType>)
        ensures
            self.object_type matches Some(t) ==> r == Some(&t),
            self.object_type is None ==> r is None,
    {
        self.object_type.as_ref()
    }
}

} // verus!
