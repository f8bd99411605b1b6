//! Variables: the buffers through which values are bound to a statement and fetched
//! from it.
//!
//! A variable holds an array of data cells, all of one representation. The array has
//! as many cells as the variable was created with; for a PL/SQL index-by table a
//! separate count says how many of them are in use.
use crate::enums::{ODPINativeTypeNum, ODPIOracleTypeNum};
use crate::error::{ErrorKind, Info as ErrorInfo, Operation, Reason};
use crate::handle::HandleRef;
use crate::lob::Lob;
use crate::object::Object;
use crate::rowid::Rowid;
use crate::statement::Statement;
use crate::structs::{
    cells_view, NativeCell, NativeValue, ODPIBytes, ODPIData, ODPIDataValueUnion,
};
use crate::util::{bytes_from_text, lemma_text_round_trip, text_of};
use vstd::prelude::*;
use vstd::string::*;
use vstd::utf8::*;

verus! {

/// Whether values of the database type are byte strings whose width is chosen when a
/// variable is created.
pub open spec fn spec_is_sized_type(oracle_type: ODPIOracleTypeNum) -> bool {
    oracle_type == ODPIOracleTypeNum::Varchar || oracle_type == ODPIOracleTypeNum::NVarchar
        || oracle_type == ODPIOracleTypeNum::Char || oracle_type == ODPIOracleTypeNum::NChar
        || oracle_type == ODPIOracleTypeNum::Raw || oracle_type == ODPIOracleTypeNum::LongVarchar
        || oracle_type == ODPIOracleTypeNum::LongRaw
}

/// Whether values of the database type are text, whose width can be given in
/// characters.
pub open spec fn spec_is_text_type(oracle_type: ODPIOracleTypeNum) -> bool {
    oracle_type == ODPIOracleTypeNum::Varchar || oracle_type == ODPIOracleTypeNum::NVarchar
        || oracle_type == ODPIOracleTypeNum::Char || oracle_type == ODPIOracleTypeNum::NChar
        || oracle_type == ODPIOracleTypeNum::LongVarchar
}

/// Whether values of the database type are text in the national character set.
pub open spec fn spec_is_national_type(oracle_type: ODPIOracleTypeNum) -> bool {
    oracle_type == ODPIOracleTypeNum::NVarchar || oracle_type == ODPIOracleTypeNum::NChar
}

/// The width in bytes of one element of a database type whose width is fixed; zero for
/// the types that have none.
pub open spec fn spec_fixed_width(oracle_type: ODPIOracleTypeNum) -> u32 {
    match oracle_type {
        ODPIOracleTypeNum::NativeFloat => 4,
        ODPIOracleTypeNum::Boolean => 4,
        ODPIOracleTypeNum::Number => 22,
        ODPIOracleTypeNum::TypeNone => 0,
        ODPIOracleTypeNum::Max => 0,
        ODPIOracleTypeNum::Varchar => 0,
        ODPIOracleTypeNum::NVarchar => 0,
        ODPIOracleTypeNum::Char => 0,
        ODPIOracleTypeNum::NChar => 0,
        ODPIOracleTypeNum::Raw => 0,
        ODPIOracleTypeNum::LongVarchar => 0,
        ODPIOracleTypeNum::LongRaw => 0,
        _ => 8,
    }
}

/// The width in bytes of one element of a variable: for a byte string the width asked
/// for, which for text that is measured in characters is the number of characters
/// times the most bytes that a character of the encoding takes; for every other type
/// its fixed width.
pub open spec fn spec_element_width(
    oracle_type: ODPIOracleTypeNum,
    size: u32,
    size_is_bytes: bool,
    max_bytes_per_char: u32,
    nchar_max_bytes_per_char: u32,
) -> int {
    if spec_is_sized_type(oracle_type) {
        if size_is_bytes || !spec_is_text_type(oracle_type) {
            size as int
        } else if spec_is_national_type(oracle_type) {
            size * nchar_max_bytes_per_char
        } else {
            size * max_bytes_per_char
        }
    } else {
        spec_fixed_width(oracle_type) as int
    }
}

/// The width in bytes of one element of a variable, or `None` where it does not fit 32
/// bits.
pub fn element_width(
    oracle_type: ODPIOracleTypeNum,
    size: u32,
    size_is_bytes: bool,
    max_bytes_per_char: u32,
    nchar_max_bytes_per_char: u32,
) -> (r: Option<u32>)
    ensures
        spec_element_width(
            oracle_type,
            size,
            size_is_bytes,
            max_bytes_per_char,
            nchar_max_bytes_per_char,
        ) <= u32::MAX ==> r == Some(
            spec_element_width(
                oracle_type,
                size,
                size_is_bytes,
                max_bytes_per_char,
                nchar_max_bytes_per_char,
            ) as u32,
        ),
        spec_element_width(
            oracle_type,
            size,
            size_is_bytes,
            max_bytes_per_char,
            nchar_max_bytes_per_char,
        ) > u32::MAX ==> r is None,
{
    match oracle_type {
        ODPIOracleTypeNum::Varchar | ODPIOracleTypeNum::Char | ODPIOracleTypeNum::LongVarchar => {
            if size_is_bytes {
                Some(size)
            } else {
                size.checked_mul(max_bytes_per_char)
            }
        },
        ODPIOracleTypeNum::NVarchar | ODPIOracleTypeNum::NChar => {
            if size_is_bytes {
                Some(size)
            } else {
                size.checked_mul(nchar_max_bytes_per_char)
            }
        },
        ODPIOracleTypeNum::Raw | ODPIOracleTypeNum::LongRaw => Some(size),
        ODPIOracleTypeNum::NativeFloat | ODPIOracleTypeNum::Boolean => Some(4),
        ODPIOracleTypeNum::Number => Some(22),
        ODPIOracleTypeNum::TypeNone | ODPIOracleTypeNum::Max => Some(0),
        _ => Some(8),
    }
}

/// A variable as a mathematical value.
pub struct VarView {
    /// The reference to the native variable.
    pub handle: HandleRef,
    /// The database type of the values.
    pub oracle_type: ODPIOracleTypeNum,
    /// The representation of the values in the cells.
    pub native_type: ODPINativeTypeNum,
    /// The width in bytes of one element.
    pub size_in_bytes: u32,
    /// Whether the variable is a PL/SQL index-by table.
    pub is_array: bool,
    /// The number of cells that are in use.
    pub num_elements: u32,
    /// The name of the encoding of the byte strings in the cells.
    pub encoding: Seq<char>,
    /// The cells.
    pub cells: Seq<NativeCell>,
}

impl VarView {
    /// The number of cells that the variable was created with.
    pub open spec fn max_array_size(self) -> nat {
        self.cells.len()
    }

    /// The number of cells as the native library counts it, in 32 bits.
    pub open spec fn array_size(self) -> u32 {
        if self.cells.len() <= u32::MAX {
            self.cells.len() as u32
        } else {
            u32::MAX
        }
    }

    /// What holds of every variable that `Var::create` has made, whatever was done with
    /// it since: it has at least one cell, every cell holds a payload of the variable's
    /// representation, every byte string fits the width of an element, and no more
    /// cells are in use than there are.
    pub open spec fn wf(self) -> bool {
        &&& 1 <= self.cells.len() <= u32::MAX
        &&& self.num_elements <= self.cells.len()
        &&& self.native_type != ODPINativeTypeNum::Invalid
        &&& forall|i: int|
            0 <= i < self.cells.len() ==> (#[trigger] self.cells[i]).value.native_type()
                == self.native_type
        &&& forall|i: int|
            0 <= i < self.cells.len()
                ==> ((#[trigger] self.cells[i]).value matches NativeValue::ByteString {
                bytes,
                ..
            } ==> bytes.len() <= self.size_in_bytes)
    }

    /// The error with which a cell cannot be written through the representation
    /// `native_type` at `pos`, if there is one.
    pub open spec fn write_error(self, pos: u32, native_type: ODPINativeTypeNum) -> Option<
        ErrorKind,
    > {
        if !self.handle.spec_is_live() {
            Some(ErrorKind::InvalidArgument { reason: Reason::HandleNotLive })
        } else if pos >= self.cells.len() {
            Some(ErrorKind::InvalidArgument { reason: Reason::IndexOutOfRange })
        } else if self.native_type != native_type {
            Some(ErrorKind::UncheckedVariantAccess)
        } else {
            None
        }
    }

    /// The variable with the cell at `pos` replaced by `cell`.
    pub open spec fn with_cell(self, pos: int, cell: NativeCell) -> VarView {
        VarView { cells: self.cells.update(pos, cell), ..self }
    }
}

/// A variable.
#[derive(Debug)]
pub struct Var {
    handle: HandleRef,
    oracle_type: ODPIOracleTypeNum,
    native_type: ODPINativeTypeNum,
    size_in_bytes: u32,
    is_array: bool,
    num_elements: u32,
    encoding: String,
    cells: Vec<ODPIData>,
}

impl View for Var {
    type V = VarView;

    closed spec fn view(&self) -> VarView {
        VarView {
            handle: self.handle,
            oracle_type: self.oracle_type,
            native_type: self.native_type,
            size_in_bytes: self.size_in_bytes,
            is_array: self.is_array,
            num_elements: self.num_elements,
            encoding: self.encoding@,
            cells: cells_view(self.cells@),
        }
    }
}

/// The variable that `Var::create` makes.
pub open spec fn created_var(
    inner: u64,
    oracle_type: ODPIOracleTypeNum,
    native_type: ODPINativeTypeNum,
    max_array_size: u32,
    size_in_bytes: u32,
    is_array: bool,
    encoding: Seq<char>,
) -> VarView {
    VarView {
        handle: HandleRef::minted(inner),
        oracle_type,
        native_type,
        size_in_bytes,
        is_array,
        num_elements: if is_array {
            0
        } else {
            max_array_size
        },
        encoding,
        cells: Seq::new(max_array_size as nat, |i: int| ODPIData::null_cell(native_type)),
    }
}

impl Var {
    /// Makes the variable for the native handle `inner`, with `max_array_size` null
    /// cells of the representation `native_type` and elements of `size_in_bytes` bytes.
    /// Of a PL/SQL index-by table no cell is in use at first, of any other variable all
    /// are.
    ///
    /// Refused are a null handle, an array without cells, and `Invalid` as the
    /// representation, in this order.
    pub fn create(
        inner: u64,
        oracle_type: ODPIOracleTypeNum,
        native_type: ODPINativeTypeNum,
        max_array_size: u32,
        size_in_bytes: u32,
        is_array: bool,
        encoding: &str,
    ) -> (r: Result<Var, ErrorKind>)
        ensures
            inner == 0 ==> r matches Err(ErrorKind::InvalidArgument { reason: Reason::NullHandle }),
            inner != 0 && max_array_size == 0 ==> r matches Err(
                ErrorKind::InvalidArgument { reason: Reason::ZeroArraySize },
            ),
            inner != 0 && max_array_size != 0 && native_type == ODPINativeTypeNum::Invalid ==> r
                matches Err(ErrorKind::UncheckedVariantAccess),
            inner != 0 && max_array_size != 0 && native_type != ODPINativeTypeNum::Invalid ==> (r
                matches Ok(v) && v@ == created_var(
                inner,
                oracle_type,
                native_type,
                max_array_size,
                size_in_bytes,
                is_array,
                encoding@,
            ) && v@.wf() && v@.cells.len() == max_array_size && v@.handle.spec_is_live()),
    {
        if inner == 0 {
            return Err(ErrorKind::InvalidArgument { reason: Reason::NullHandle });
        }
        if max_array_size == 0 {
            return Err(ErrorKind::InvalidArgument { reason: Reason::ZeroArraySize });
        }
        if native_type == ODPINativeTypeNum::Invalid {
            return Err(ErrorKind::UncheckedVariantAccess);
        }
        let mut cells: Vec<ODPIData> = Vec::new();
        let mut i: u32 = 0;
        while i < max_array_size
            invariant
                i <= max_array_size,
                native_type != ODPINativeTypeNum::Invalid,
                cells@.len() == i,
                forall|k: int| 0 <= k < i
                    ==> (#[trigger] cells@[k])@ == ODPIData::null_cell(native_type),
            decreases max_array_size - i,
        {
            match ODPIData::null(native_type) {
                Some(cell) => {
                    cells.push(cell);
                },
                None => {},
            }
            i = i + 1;
        }
        let var = Var {
            handle: HandleRef::new(inner),
            oracle_type,
            native_type,
            size_in_bytes,
            is_array,
            num_elements: if is_array {
                0
            } else {
                max_array_size
            },
            encoding: encoding.to_owned(),
            cells,
        };
        assert(var@.cells =~= created_var(
            inner,
            oracle_type,
            native_type,
            max_array_size,
            size_in_bytes,
            is_array,
            encoding@,
        ).cells);
        Ok(var)
    }

    /// Whether the variable can be used: a native handle is bound, no close has ended the
    /// use, and a reference is held.
    pub fn is_live(&self) -> (r: bool)
        ensures
            r == self@.handle.spec_is_live(),
    {
        self.handle.is_live()
    }

    /// The native handle of the variable.
    pub fn inner(&self) -> (r: u64)
        ensures
            r == self@.handle.spec_inner(),
    {
        self.handle.inner()
    }

    /// The reference to the native variable.
    pub fn handle(&self) -> (h: HandleRef)
        ensures
            h == self@.handle,
    {
        self.handle
    }

    /// The number of cells that the variable was created with.
    pub fn max_array_size(&self) -> (r: u32)
        ensures
            r == self@.array_size(),
    {
        if self.cells.len() <= u32::MAX as usize {
            self.cells.len() as u32
        } else {
            u32::MAX
        }
    }

    /// Adds a reference to the variable. `reply` is the answer of the native library.
    /// Refused are, in this order, a reference to what is not live, a count that cannot
    /// grow, and a call that failed.
    pub fn add_ref(&mut self, reply: Result<(), ErrorInfo>) -> (r: Result<(), ErrorKind>)
        ensures
            (final(self)@.handle, r) == old(self)@.handle.after_add_ref(
                Operation::VarAddRef,
                reply,
            ),
            final(self)@ == (VarView { handle: final(self)@.handle, ..old(self)@ }),
    {
        self.handle.add_ref(Operation::VarAddRef, reply)
    }

    /// Releases a reference to the variable. `reply` is the answer of the native library.
    /// With the last release the use of the variable ends: nothing is accepted any more, a
    /// further release included. Refused are a release where no reference is held, and a
    /// call that failed.
    pub fn release(&mut self, reply: Result<(), ErrorInfo>) -> (r: Result<(), ErrorKind>)
        ensures
            (final(self)@.handle, r) == old(self)@.handle.after_release(
                Operation::VarRelease,
                reply,
            ),
            final(self)@ == (VarView { handle: final(self)@.handle, ..old(self)@ }),
    {
        self.handle.release(Operation::VarRelease, reply)
    }

    /// The cells of the variable: as many as it was created with.
    pub fn get_data(&self) -> (r: Result<&Vec<ODPIData>, ErrorKind>)
        ensures
            self@.handle.spec_is_live() ==> (r matches Ok(cells) && cells_view(cells@)
                == self@.cells && cells@.len() == self@.max_array_size() && forall|i: int|
                0 <= i < cells@.len() ==> (#[trigger] cells@[i])@ == self@.cells[i]),
            !self@.handle.spec_is_live() ==> r matches Err(
                ErrorKind::InvalidArgument { reason: Reason::HandleNotLive },
            ),
    {
        if !self.handle.is_live() {
            return Err(ErrorKind::InvalidArgument { reason: Reason::HandleNotLive });
        }
        Ok(&self.cells)
    }

    /// The number of cells that are in use: for a PL/SQL index-by table the number that
    /// was set last, none at first; for any other variable the number of cells it was
    /// created with.
    pub fn get_num_elements_in_array(&self) -> (r: Result<u32, ErrorKind>)
        ensures
            self@.handle.spec_is_live() ==> r == Ok::<u32, ErrorKind>(self@.num_elements),
            !self@.handle.spec_is_live() ==> r == Err::<u32, ErrorKind>(
                ErrorKind::InvalidArgument { reason: Reason::HandleNotLive },
            ),
    {
        if !self.handle.is_live() {
            return Err(ErrorKind::InvalidArgument { reason: Reason::HandleNotLive });
        }
        Ok(self.num_elements)
    }

    /// The width in bytes of one element.
    pub fn get_size_in_bytes(&self) -> (r: Result<u32, ErrorKind>)
        ensures
            self@.handle.spec_is_live() ==> r == Ok::<u32, ErrorKind>(self@.size_in_bytes),
            !self@.handle.spec_is_live() ==> r == Err::<u32, ErrorKind>(
                ErrorKind::InvalidArgument { reason: Reason::HandleNotLive },
            ),
    {
        if !self.handle.is_live() {
            return Err(ErrorKind::InvalidArgument { reason: Reason::HandleNotLive });
        }
        Ok(self.size_in_bytes)
    }

    /// Sets the number of cells that are in use. More than the variable has cells is
    /// refused.
    pub fn set_num_elements_in_array(&mut self, num_elements: u32) -> (r: Result<(), ErrorKind>)
        ensures
            !old(self)@.handle.spec_is_live() ==> r == Err::<(), ErrorKind>(
                ErrorKind::InvalidArgument { reason: Reason::HandleNotLive },
            ),
            old(self)@.handle.spec_is_live() && num_elements > old(self)@.cells.len()
                ==> r == Err::<
                (),
                ErrorKind,
            >(ErrorKind::InvalidArgument { reason: Reason::ArrayTooSmall }),
            old(self)@.handle.spec_is_live() && num_elements <= old(self)@.cells.len()
                ==> r == Ok::<
                (),
                ErrorKind,
            >(()) && final(self)@ == (VarView { num_elements, ..old(self)@ }),
            r is Err ==> final(self)@ == old(self)@,
            old(self)@.wf() ==> final(self)@.wf(),
    {
        if !self.handle.is_live() {
            return Err(ErrorKind::InvalidArgument { reason: Reason::HandleNotLive });
        }
        if num_elements as usize > self.cells.len() {
            return Err(ErrorKind::InvalidArgument { reason: Reason::ArrayTooSmall });
        }
        self.num_elements = num_elements;
        Ok(())
    }

    /// Writes `cell` at `pos`. Refused are, in this order, a variable that is not live,
    /// a position outside the array, a payload of another representation than the
    /// variable's, and a byte string that is wider than an element.
    pub fn set_data(&mut self, pos: u32, cell: ODPIData) -> (r: Result<(), ErrorKind>)
        ensures
            old(self)@.write_error(pos, cell@.value.native_type()) matches Some(e) ==> r == Err::<
                (),
                ErrorKind,
            >(e),
            old(self)@.write_error(pos, cell@.value.native_type()) is None ==> (
            if cell@.value matches NativeValue::ByteString { bytes, .. } && bytes.len() > old(
                self,
            )@.size_in_bytes {
                r == Err::<(), ErrorKind>(
                    ErrorKind::InvalidArgument { reason: Reason::ValueTooLarge },
                )
            } else {
                r == Ok::<(), ErrorKind>(()) && final(self)@ == old(self)@.with_cell(
                    pos as int,
                    cell@,
                )
            }),
            r is Err ==> final(self)@ == old(self)@,
            old(self)@.wf() ==> final(self)@.wf(),
    {
        if !self.handle.is_live() {
            return Err(ErrorKind::InvalidArgument { reason: Reason::HandleNotLive });
        }
        if pos as usize >= self.cells.len() {
            return Err(ErrorKind::InvalidArgument { reason: Reason::IndexOutOfRange });
        }
        if cell.native_type() != self.native_type {
            return Err(ErrorKind::UncheckedVariantAccess);
        }
        match &cell.value {
            ODPIDataValueUnion::Bytes(b) => {
                if b.bytes.len() > self.size_in_bytes as usize {
                    return Err(ErrorKind::InvalidArgument { reason: Reason::ValueTooLarge });
                }
            },
            _ => {},
        }
        let ghost before = self@;
        self.cells.set(pos as usize, cell);
        assert(self@.cells =~= before.with_cell(pos as int, cell@).cells);
        Ok(())
    }

    /// Writes the text `value` at `pos`: the cell then holds the bytes of `value`, not
    /// null. Refused are, in this order, a variable that is not live, a position outside
    /// the array, a variable whose representation is not the byte string, and a text of
    /// more bytes than an element is wide.
    pub fn set_from_bytes(&mut self, pos: u32, value: &str) -> (r: Result<(), ErrorKind>)
        ensures
            old(self)@.write_error(pos, ODPINativeTypeNum::Bytes) matches Some(e) ==> r == Err::<
                (),
                ErrorKind,
            >(e),
            old(self)@.write_error(pos, ODPINativeTypeNum::Bytes) is None && encode_utf8(
                value@,
            ).len() > old(self)@.size_in_bytes ==> r == Err::<(), ErrorKind>(
                ErrorKind::InvalidArgument { reason: Reason::ValueTooLarge },
            ),
            old(self)@.write_error(pos, ODPINativeTypeNum::Bytes) is None && encode_utf8(
                value@,
            ).len() <= old(self)@.size_in_bytes ==> r == Ok::<(), ErrorKind>(()) && final(self)@
                == old(self)@.with_cell(
                pos as int,
                NativeCell {
                    is_null: false,
                    value: NativeValue::ByteString {
                        bytes: encode_utf8(value@),
                        encoding: old(self)@.encoding,
                    },
                },
            ),
            r is Err ==> final(self)@ == old(self)@,
            old(self)@.wf() ==> final(self)@.wf(),
    {
        if !self.handle.is_live() {
            return Err(ErrorKind::InvalidArgument { reason: Reason::HandleNotLive });
        }
        if pos as usize >= self.cells.len() {
            return Err(ErrorKind::InvalidArgument { reason: Reason::IndexOutOfRange });
        }
        if self.native_type != ODPINativeTypeNum::Bytes {
            return Err(ErrorKind::UncheckedVariantAccess);
        }
        if value.len() > self.size_in_bytes as usize {
            return Err(ErrorKind::InvalidArgument { reason: Reason::ValueTooLarge });
        }
        let cell = ODPIData {
            is_null: false,
            value: ODPIDataValueUnion::Bytes(
                ODPIBytes { bytes: bytes_from_text(value), encoding: self.encoding.clone() },
            ),
        };
        self.set_data(pos, cell)
    }

    /// Writes a reference to LOB `lob` at `pos`: the cell then holds its
    /// native handle, not null. Refused are, in this order, a variable that is not
    /// live, a position outside the array, a variable of another representation, and
    /// a LOB that is not live.
    pub fn set_from_lob(&mut self, pos: u32, lob: &Lob) -> (r: Result<(), ErrorKind>)
        ensures
            old(self)@.write_error(pos, ODPINativeTypeNum::Lob) matches Some(e) ==> r == Err::<
                (),
                ErrorKind,
            >(e),
            old(self)@.write_error(pos, ODPINativeTypeNum::Lob) is None
                && !lob@.handle.spec_is_live() ==> r == Err::<(), ErrorKind>(
                ErrorKind::InvalidArgument { reason: Reason::HandleNotLive },
            ),
            old(self)@.write_error(pos, ODPINativeTypeNum::Lob) is None
                && lob@.handle.spec_is_live() ==> r == Ok::<(), ErrorKind>(()) && final(self)@
                == old(self)@.with_cell(
                pos as int,
                NativeCell {
                    is_null: false,
                    value: NativeValue::LobRef(lob@.handle.spec_inner()),
                },
            ),
            r is Err ==> final(self)@ == old(self)@,
            old(self)@.wf() ==> final(self)@.wf(),
    {
        if !self.handle.is_live() {
            return Err(ErrorKind::InvalidArgument { reason: Reason::HandleNotLive });
        }
        if pos as usize >= self.cells.len() {
            return Err(ErrorKind::InvalidArgument { reason: Reason::IndexOutOfRange });
        }
        if self.native_type != ODPINativeTypeNum::Lob {
            return Err(ErrorKind::UncheckedVariantAccess);
        }
        if !lob.is_live() {
            return Err(ErrorKind::InvalidArgument { reason: Reason::HandleNotLive });
        }
        self.set_data(
            pos,
            ODPIData { is_null: false, value: ODPIDataValueUnion::Lob(lob.inner()) },
        )
    }

    /// Writes a reference to object `obj` at `pos`: the cell then holds its
    /// native handle, not null. Refused are, in this order, a variable that is not
    /// live, a position outside the array, a variable of another representation, and
    /// an object that is not live.
    pub fn set_from_object(&mut self, pos: u32, obj: &Object) -> (r: Result<(), ErrorKind>)
        ensures
            old(self)@.write_error(pos, ODPINativeTypeNum::Object) matches Some(e) ==> r == Err::<
                (),
                ErrorKind,
            >(e),
            old(self)@.write_error(pos, ODPINativeTypeNum::Object) is None
                && !obj@.handle.spec_is_live() ==> r == Err::<(), ErrorKind>(
                ErrorKind::InvalidArgument { reason: Reason::HandleNotLive },
            ),
            old(self)@.write_error(pos, ODPINativeTypeNum::Object) is None
                && obj@.handle.spec_is_live() ==> r == Ok::<(), ErrorKind>(()) && final(self)@
                == old(self)@.with_cell(
                pos as int,
                NativeCell {
                    is_null: false,
                    value: NativeValue::ObjectRef(obj@.handle.spec_inner()),
                },
            ),
            r is Err ==> final(self)@ == old(self)@,
            old(self)@.wf() ==> final(self)@.wf(),
    {
        if !self.handle.is_live() {
            return Err(ErrorKind::InvalidArgument { reason: Reason::HandleNotLive });
        }
        if pos as usize >= self.cells.len() {
            return Err(ErrorKind::InvalidArgument { reason: Reason::IndexOutOfRange });
        }
        if self.native_type != ODPINativeTypeNum::Object {
            return Err(ErrorKind::UncheckedVariantAccess);
        }
        if !obj.is_live() {
            return Err(ErrorKind::InvalidArgument { reason: Reason::HandleNotLive });
        }
        self.set_data(
            pos,
            ODPIData { is_null: false, value: ODPIDataValueUnion::Object(obj.inner()) },
        )
    }

    /// Writes a reference to row identifier `rowid` at `pos`: the cell then holds its
    /// native handle, not null. Refused are, in this order, a variable that is not
    /// live, a position outside the array, a variable of another representation, and
    /// a row identifier that is not live.
    pub fn set_from_rowid(&mut self, pos: u32, rowid: &Rowid) -> (r: Result<(), ErrorKind>)
        ensures
            old(self)@.write_error(pos, ODPINativeTypeNum::Rowid) matches Some(e) ==> r == Err::<
                (),
                ErrorKind,
            >(e),
            old(self)@.write_error(pos, ODPINativeTypeNum::Rowid) is None
                && !rowid@.handle.spec_is_live() ==> r == Err::<(), ErrorKind>(
                ErrorKind::InvalidArgument { reason: Reason::HandleNotLive },
            ),
            old(self)@.write_error(pos, ODPINativeTypeNum::Rowid) is None
                && rowid@.handle.spec_is_live() ==> r == Ok::<(), ErrorKind>(()) && final(self)@
                == old(self)@.with_cell(
                pos as int,
                NativeCell {
                    is_null: false,
                    value: NativeValue::RowidRef(rowid@.handle.spec_inner()),
                },
            ),
            r is Err ==> final(self)@ == old(self)@,
            old(self)@.wf() ==> final(self)@.wf(),
    {
        if !self.handle.is_live() {
            return Err(ErrorKind::InvalidArgument { reason: Reason::HandleNotLive });
        }
        if pos as usize >= self.cells.len() {
            return Err(ErrorKind::InvalidArgument { reason: Reason::IndexOutOfRange });
        }
        if self.native_type != ODPINativeTypeNum::Rowid {
            return Err(ErrorKind::UncheckedVariantAccess);
        }
        if !rowid.is_live() {
            return Err(ErrorKind::InvalidArgument { reason: Reason::HandleNotLive });
        }
        self.set_data(
            pos,
            ODPIData { is_null: false, value: ODPIDataValueUnion::Rowid(rowid.inner()) },
        )
    }

    /// Writes a reference to statement `stmt` at `pos`: the cell then holds its
    /// native handle, not null. Refused are, in this order, a variable that is not
    /// live, a position outside the array, a variable of another representation, and
    /// a statement that is not live.
    pub fn set_from_stmt(&mut self, pos: u32, stmt: &Statement) -> (r: Result<(), ErrorKind>)
        ensures
            old(self)@.write_error(pos, ODPINativeTypeNum::Stmt) matches Some(e) ==> r == Err::<
                (),
                ErrorKind,
            >(e),
            old(self)@.write_error(pos, ODPINativeTypeNum::Stmt) is None
                && !stmt@.handle.spec_is_live() ==> r == Err::<(), ErrorKind>(
                ErrorKind::InvalidArgument { reason: Reason::HandleNotLive },
            ),
            old(self)@.write_error(pos, ODPINativeTypeNum::Stmt) is None
                && stmt@.handle.spec_is_live() ==> r == Ok::<(), ErrorKind>(()) && final(self)@
                == old(self)@.with_cell(
                pos as int,
                NativeCell {
                    is_null: false,
                    value: NativeValue::StatementRef(stmt@.handle.spec_inner()),
                },
            ),
            r is Err ==> final(self)@ == old(self)@,
            old(self)@.wf() ==> final(self)@.wf(),
    {
        if !self.handle.is_live() {
            return Err(ErrorKind::InvalidArgument { reason: Reason::HandleNotLive });
        }
        if pos as usize >= self.cells.len() {
            return Err(ErrorKind::InvalidArgument { reason: Reason::IndexOutOfRange });
        }
        if self.native_type != ODPINativeTypeNum::Stmt {
            return Err(ErrorKind::UncheckedVariantAccess);
        }
        if !stmt.is_live() {
            return Err(ErrorKind::InvalidArgument { reason: Reason::HandleNotLive });
        }
        self.set_data(
            pos,
            ODPIData { is_null: false, value: ODPIDataValueUnion::Stmt(stmt.inner()) },
        )
    }

    /// Copies the cell at `src_pos` of this variable to `dst_pos` of `dst`. Refused are,
    /// in this order, a source that is not live, a source position outside its array,
    /// and whatever `set_data` refuses of the copy on `dst`.
    pub fn copy_data(&self, src_pos: u32, dst: &mut Var, dst_pos: u32) -> (r: Result<
        (),
        ErrorKind,
    >)
        ensures
            !self@.handle.spec_is_live() ==> r == Err::<(), ErrorKind>(
                ErrorKind::InvalidArgument { reason: Reason::HandleNotLive },
            ),
            self@.handle.spec_is_live() && src_pos >= self@.cells.len() ==> r == Err::<
                (),
                ErrorKind,
            >(ErrorKind::InvalidArgument { reason: Reason::IndexOutOfRange }),
            self@.handle.spec_is_live() && src_pos < self@.cells.len() ==> {
                let cell = self@.cells[src_pos as int];
                &&& (old(dst)@.write_error(dst_pos, cell.value.native_type()) matches Some(e)
                    ==> r == Err::<(), ErrorKind>(e))
                &&& (old(dst)@.write_error(dst_pos, cell.value.native_type()) is None ==> (
                if cell.value matches NativeValue::ByteString { bytes, .. } && bytes.len() > old(
                    dst,
                )@.size_in_bytes {
                    r == Err::<(), ErrorKind>(
                        ErrorKind::InvalidArgument { reason: Reason::ValueTooLarge },
                    )
                } else {
                    r == Ok::<(), ErrorKind>(()) && final(dst)@ == old(dst)@.with_cell(
                        dst_pos as int,
                        cell,
                    )
                }))
            },
            r is Err ==> final(dst)@ == old(dst)@,
            old(dst)@.wf() ==> final(dst)@.wf(),
    {
        if !self.handle.is_live() {
            return Err(ErrorKind::InvalidArgument { reason: Reason::HandleNotLive });
        }
        if src_pos as usize >= self.cells.len() {
            return Err(ErrorKind::InvalidArgument { reason: Reason::IndexOutOfRange });
        }
        let cell = self.cells[src_pos as usize].duplicate();
        dst.set_data(dst_pos, cell)
    }

    /// Takes over the cells that the native library has put in place of those of the
    /// variable, as it does for the out variables of a statement with a returning
    /// clause: the variable then has as many cells as there are, all of them in use.
    /// Refused are, in this order, a variable that is not live, no cells or more than
    /// 32 bits can count, and cells that do not fit the variable: a payload of another
    /// representation, or a byte string that is wider than an element.
    pub fn reallocated(&mut self, cells: Vec<ODPIData>) -> (r: Result<(), ErrorKind>)
        ensures
            !old(self)@.handle.spec_is_live() ==> r == Err::<(), ErrorKind>(
                ErrorKind::InvalidArgument { reason: Reason::HandleNotLive },
            ),
            old(self)@.handle.spec_is_live() && !(1 <= cells@.len() <= u32::MAX) ==> r == Err::<
                (),
                ErrorKind,
            >(ErrorKind::InvalidArgument { reason: Reason::ZeroArraySize }),
            old(self)@.handle.spec_is_live() && 1 <= cells@.len() <= u32::MAX ==> (if (VarView {
                cells: cells_view(cells@),
                num_elements: cells@.len() as u32,
                ..old(self)@
            }).wf() {
                r == Ok::<(), ErrorKind>(()) && final(self)@ == (VarView {
                    cells: cells_view(cells@),
                    num_elements: cells@.len() as u32,
                    ..old(self)@
                })
            } else {
                r == Err::<(), ErrorKind>(
                    ErrorKind::InvalidArgument { reason: Reason::InconsistentReply },
                )
            }),
            r is Err ==> final(self)@ == old(self)@,
            r is Ok ==> final(self)@.wf() && final(self)@.cells.len() == cells@.len(),
    {
        if !self.handle.is_live() {
            return Err(ErrorKind::InvalidArgument { reason: Reason::HandleNotLive });
        }
        if cells.len() == 0 || cells.len() > u32::MAX as usize {
            return Err(ErrorKind::InvalidArgument { reason: Reason::ZeroArraySize });
        }
        let ghost target = VarView {
            cells: cells_view(cells@),
            num_elements: cells@.len() as u32,
            ..self@
        };
        if self.native_type == ODPINativeTypeNum::Invalid {
            return Err(ErrorKind::InvalidArgument { reason: Reason::InconsistentReply });
        }
        let mut i: usize = 0;
        while i < cells.len()
            invariant
                i <= cells.len(),
                1 <= cells@.len() <= u32::MAX,
                *self == *old(self),
                self.handle.spec_is_live(),
                self.native_type != ODPINativeTypeNum::Invalid,
                target == (VarView {
                    cells: cells_view(cells@),
                    num_elements: cells@.len() as u32,
                    ..old(self)@
                }),
                target.cells == cells_view(cells@),
                target.native_type == self.native_type,
                target.size_in_bytes == self.size_in_bytes,
                forall|k: int|
                    0 <= k < i ==> (#[trigger] target.cells[k]).value.native_type()
                        == self.native_type,
                forall|k: int|
                    0 <= k < i
                        ==> ((#[trigger] target.cells[k]).value matches NativeValue::ByteString {
                        bytes,
                        ..
                    } ==> bytes.len() <= self.size_in_bytes),
            decreases cells.len() - i,
        {
            let fits = match &cells[i].value {
                ODPIDataValueUnion::Bytes(b) => b.bytes.len() <= self.size_in_bytes as usize,
                _ => true,
            };
            if cells[i].native_type() != self.native_type || !fits {
                assert(target.cells[i as int] == cells@[i as int]@);
                assert(!target.wf());
                return Err(ErrorKind::InvalidArgument { reason: Reason::InconsistentReply });
            }
            assert(target.cells[i as int] == cells@[i as int]@);
            i = i + 1;
        }
        self.num_elements = cells.len() as u32;
        self.cells = cells;
        Ok(())
    }

    /// A text that is written into a cell of a variable is read back from that cell
    /// unchanged, and the other cells stay as they were.
    pub proof fn lemma_written_text_is_read_back(v: VarView, pos: u32, text: Seq<char>)
        requires
            v.write_error(pos, ODPINativeTypeNum::Bytes) is None,
        ensures
            ({
                let after = v.with_cell(
                    pos as int,
                    NativeCell {
                        is_null: false,
                        value: NativeValue::ByteString {
                            bytes: encode_utf8(text),
                            encoding: v.encoding,
                        },
                    },
                );
                &&& after.cells.len() == v.cells.len()
                &&& after.cells[pos as int].value matches NativeValue::ByteString { bytes, .. }
                &&& text_of(bytes) == text
                &&& forall|k: int| 0 <= k < v.cells.len() && k != pos
                    ==> after.cells[k] == v.cells[k]
            }),
    {
        lemma_text_round_trip(text);
    }

    /// A variable has, right after it was created and ever after, as many cells as it
    /// was created with.
    pub proof fn lemma_created_length(
        inner: u64,
        oracle_type: ODPIOracleTypeNum,
        native_type: ODPINativeTypeNum,
        max_array_size: u32,
        size_in_bytes: u32,
        is_array: bool,
        encoding: Seq<char>,
    )
        ensures
            created_var(
                inner,
                oracle_type,
                native_type,
                max_array_size,
                size_in_bytes,
                is_array,
                encoding,
            ).cells.len() == max_array_size,
    {
    }
}

} // verus!
