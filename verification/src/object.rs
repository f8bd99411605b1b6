//! Objects: the instances of object types.
//!
//! An object holds one data cell for each attribute of its type. An object of a
//! collection type also holds elements under indices from zero on. Deleting an element
//! leaves a hole: the other elements keep their indices.
use crate::data::Data;
use crate::enums::ODPINativeTypeNum;
use crate::error::{ErrorKind, Info, Operation, Reason};
use crate::handle::HandleRef;
use crate::objectattr::ObjectAttr;
use crate::structs::{cells_view, NativeCell, ODPIData, ODPIObjectAttrInfo};
use vstd::prelude::*;

verus! {

/// The elements of `elements` as mathematical values.
pub open spec fn elements_view(elements: Seq<Option<ODPIData>>) -> Seq<Option<NativeCell>> {
    Seq::new(
        elements.len(),
        |i: int|
            match elements[i] {
                Some(c) => Some(c@),
                None => None,
            },
    )
}

/// An object as a mathematical value.
pub struct ObjectView {
    /// The reference to the native object.
    pub handle: HandleRef,
    /// The native handle of the object's type.
    pub type_handle: u64,
    /// Whether the type is a collection.
    pub is_collection: bool,
    /// The representation of the elements of a collection.
    pub element_native_type: ODPINativeTypeNum,
    /// The values of the attributes, in the order of the type's attributes.
    pub attrs: Seq<NativeCell>,
    /// The slots of the collection. A slot without a value is a hole.
    pub elements: Seq<Option<NativeCell>>,
}

impl ObjectView {
    /// Whether the collection has an element at `index`.
    pub open spec fn exists_at(self, index: int) -> bool {
        0 <= index < self.elements.len() && self.elements[index] is Some
    }

    /// The error with which an operation on the elements is refused before it looks at
    /// them, if there is one.
    pub open spec fn collection_error(self) -> Option<ErrorKind> {
        if !self.handle.spec_is_live() {
            Some(ErrorKind::InvalidArgument { reason: Reason::HandleNotLive })
        } else if !self.is_collection {
            Some(ErrorKind::InvalidArgument { reason: Reason::NotACollection })
        } else if self.elements.len() > i32::MAX {
            Some(ErrorKind::InvalidArgument { reason: Reason::ValueTooLarge })
        } else {
            None
        }
    }

    /// What holds of every object that the library has made: its slots can be counted
    /// in 32 bits.
    pub open spec fn wf(self) -> bool {
        self.elements.len() <= i32::MAX
    }

    /// The error with which `attr` cannot be used on the object through the
    /// representation `native_type`, if there is one.
    pub open spec fn attribute_error(
        self,
        owner: u64,
        index: u16,
        native_type: ODPINativeTypeNum,
    ) -> Option<ErrorKind> {
        if !self.handle.spec_is_live() {
            Some(ErrorKind::InvalidArgument { reason: Reason::HandleNotLive })
        } else if owner != self.type_handle || index >= self.attrs.len() {
            Some(ErrorKind::InvalidArgument { reason: Reason::ForeignAttribute })
        } else if self.attrs[index as int].value.native_type() != native_type {
            Some(ErrorKind::UncheckedVariantAccess)
        } else {
            None
        }
    }

    /// Whether `idx` is the least index of an element above `after`.
    pub open spec fn is_next(self, after: int, idx: int) -> bool {
        &&& after < idx
        &&& self.exists_at(idx)
        &&& forall|j: int| after < j < idx ==> !self.exists_at(j)
    }

    /// Whether `idx` is the greatest index of an element below `before`.
    pub open spec fn is_prev(self, before: int, idx: int) -> bool {
        &&& idx < before
        &&& self.exists_at(idx)
        &&& forall|j: int| idx < j < before ==> !self.exists_at(j)
    }

    /// Whether the collection has an element above `after`.
    pub open spec fn any_above(self, after: int) -> bool {
        exists|j: int| after < j && self.exists_at(j)
    }

    /// Whether the collection has an element below `before`.
    pub open spec fn any_below(self, before: int) -> bool {
        exists|j: int| j < before && self.exists_at(j)
    }
}

/// An object.
#[derive(Debug)]
pub struct Object {
    handle: HandleRef,
    type_handle: u64,
    is_collection: bool,
    element_native_type: ODPINativeTypeNum,
    attrs: Vec<ODPIData>,
    elements: Vec<Option<ODPIData>>,
}

impl View for Object {
    type V = ObjectView;

    closed spec fn view(&self) -> ObjectView {
        ObjectView {
            handle: self.handle,
            type_handle: self.type_handle,
            is_collection: self.is_collection,
            element_native_type: self.element_native_type,
            attrs: cells_view(self.attrs@),
            elements: elements_view(self.elements@),
        }
    }
}

/// A copy of `cells`.
fn copy_cells(cells: &Vec<ODPIData>) -> (r: Vec<ODPIData>)
    ensures
        cells_view(r@) == cells_view(cells@),
{
    let mut out: Vec<ODPIData> = Vec::new();
    let mut i: usize = 0;
    while i < cells.len()
        invariant
            i <= cells.len(),
            out@.len() == i,
            forall|k: int| 0 <= k < i ==> (#[trigger] out@[k])@ == cells@[k]@,
        decreases cells.len() - i,
    {
        out.push(cells[i].duplicate());
        i = i + 1;
    }
    assert(cells_view(out@) =~= cells_view(cells@));
    out
}

/// A copy of `elements`.
fn copy_elements(elements: &Vec<Option<ODPIData>>) -> (r: Vec<Option<ODPIData>>)
    ensures
        elements_view(r@) == elements_view(elements@),
        r@.len() == elements@.len(),
{
    let mut out: Vec<Option<ODPIData>> = Vec::new();
    let mut i: usize = 0;
    while i < elements.len()
        invariant
            i <= elements.len(),
            out@.len() == i,
            forall|k: int|
                0 <= k < i ==> elements_view(out@)[k] == #[trigger] elements_view(elements@)[k],
        decreases elements.len() - i,
    {
        let ghost before = out@;
        let copy = match &elements[i] {
            Some(c) => Some(c.duplicate()),
            None => None,
        };
        out.push(copy);
        assert(forall|k: int| 0 <= k < i ==> out@[k] == before[k]);
        i = i + 1;
    }
    assert(elements_view(out@) =~= elements_view(elements@));
    out
}

impl Object {
    /// The object that a type makes for the native handle `inner`: every attribute is
    /// a null cell of its representation, and a collection has no element. An
    /// attribute without a representation is refused.
    pub fn new(
        inner: u64,
        type_handle: u64,
        is_collection: bool,
        element_native_type: ODPINativeTypeNum,
        attr_types: &Vec<ODPINativeTypeNum>,
    ) -> (r: Result<Object, ErrorKind>)
        ensures
            (exists|i: int|
                0 <= i < attr_types@.len() && attr_types@[i] == ODPINativeTypeNum::Invalid) ==> r
                matches Err(ErrorKind::UncheckedVariantAccess),
            (forall|i: int|
                0 <= i < attr_types@.len() ==> attr_types@[i] != ODPINativeTypeNum::Invalid) ==> (r
                matches Ok(o) && o@ == (ObjectView {
                handle: HandleRef::minted(inner),
                type_handle,
                is_collection,
                element_native_type,
                attrs: Seq::new(
                    attr_types@.len(),
                    |i: int| ODPIData::null_cell(attr_types@[i]),
                ),
                elements: Seq::empty(),
            }) && o@.wf() && (inner != 0 ==> o@.handle.spec_is_live())),
    {
        let mut attrs: Vec<ODPIData> = Vec::new();
        let mut i: usize = 0;
        while i < attr_types.len()
            invariant
                i <= attr_types.len(),
                attrs@.len() == i,
                forall|k: int| 0 <= k < i ==> attr_types@[k] != ODPINativeTypeNum::Invalid,
                forall|k: int|
                    0 <= k < i ==> (#[trigger] attrs@[k])@ == ODPIData::null_cell(attr_types@[k]),
            decreases attr_types.len() - i,
        {
            match ODPIData::null(attr_types[i]) {
                Some(cell) => {
                    attrs.push(cell);
                },
                None => {
                    return Err(ErrorKind::UncheckedVariantAccess);
                },
            }
            i = i + 1;
        }
        let elements: Vec<Option<ODPIData>> = Vec::new();
        let object = Object {
            handle: HandleRef::new(inner),
            type_handle,
            is_collection,
            element_native_type,
            attrs,
            elements,
        };
        assert(object@.attrs =~= Seq::new(
            attr_types@.len(),
            |i: int| ODPIData::null_cell(attr_types@[i]),
        ));
        assert(object@.elements =~= Seq::empty());
        Ok(object)
    }

    /// `Ok` where the elements of the object can be looked at; otherwise the error with
    /// which every operation on them fails.
    fn check_collection(&self) -> (r: Result<(), ErrorKind>)
        ensures
            self@.collection_error() matches Some(e) ==> r == Err::<(), ErrorKind>(e),
            self@.collection_error() is None ==> r == Ok::<(), ErrorKind>(()),
            r is Ok ==> self.elements@.len() <= i32::MAX,
    {
        if !self.handle.is_live() {
            return Err(ErrorKind::InvalidArgument { reason: Reason::HandleNotLive });
        }
        if !self.is_collection {
            return Err(ErrorKind::InvalidArgument { reason: Reason::NotACollection });
        }
        if self.elements.len() > i32::MAX as usize {
            return Err(ErrorKind::InvalidArgument { reason: Reason::ValueTooLarge });
        }
        Ok(())
    }

    /// Whether the object can be used: a native handle is bound, no close has ended the
    /// use, and a reference is held.
    pub fn is_live(&self) -> (r: bool)
        ensures
            r == self@.handle.spec_is_live(),
    {
        self.handle.is_live()
    }

    /// The native handle of the object.
    pub fn inner(&self) -> (r: u64)
        ensures
            r == self@.handle.spec_inner(),
    {
        self.handle.inner()
    }

    /// Adds a reference to the object. `reply` is the answer of the native library. Refused
    /// are, in this order, a reference to what is not live, a count that cannot grow, and a
    /// call that failed.
    pub fn add_ref(&mut self, reply: Result<(), Info>) -> (r: Result<(), ErrorKind>)
        ensures
            (final(self)@.handle, r) == old(self)@.handle.after_add_ref(
                Operation::ObjectAddRef,
                reply,
            ),
            final(self)@ == (ObjectView { handle: final(self)@.handle, ..old(self)@ }),
    {
        self.handle.add_ref(Operation::ObjectAddRef, reply)
    }

    /// Releases a reference to the object. `reply` is the answer of the native library.
    /// With the last release the use of the object ends: nothing is accepted any more, a
    /// further release included. Refused are a release where no reference is held, and a
    /// call that failed.
    pub fn release(&mut self, reply: Result<(), Info>) -> (r: Result<(), ErrorKind>)
        ensures
            (final(self)@.handle, r) == old(self)@.handle.after_release(
                Operation::ObjectRelease,
                reply,
            ),
            final(self)@ == (ObjectView { handle: final(self)@.handle, ..old(self)@ }),
    {
        self.handle.release(Operation::ObjectRelease, reply)
    }

    /// Appends a copy of `data` as the last element of the collection. Refused are, in
    /// this order, an object that is not live, one that is no collection, a
    /// representation other than that of the elements, whether named by `native_type`
    /// or held by `data`, and a collection that is full.
    pub fn append_element(&mut self, native_type: ODPINativeTypeNum, data: &ODPIData) -> (r:
        Result<(), ErrorKind>)
        ensures
            old(self)@.collection_error() matches Some(e) ==> r == Err::<(), ErrorKind>(e),
            old(self)@.collection_error() is None && (native_type != old(
                self,
            )@.element_native_type || data@.value.native_type() != native_type) ==> r == Err::<
                (),
                ErrorKind,
            >(ErrorKind::UncheckedVariantAccess),
            old(self)@.collection_error() is None && native_type == old(self)@.element_native_type
                && data@.value.native_type() == native_type ==> (if old(self)@.elements.len()
                < i32::MAX {
                r == Ok::<(), ErrorKind>(()) && final(self)@ == (ObjectView {
                    elements: old(self)@.elements.push(Some(data@)),
                    ..old(self)@
                })
            } else {
                r == Err::<(), ErrorKind>(
                    ErrorKind::InvalidArgument { reason: Reason::ValueTooLarge },
                )
            }),
            r is Err ==> final(self)@ == old(self)@,
            old(self)@.wf() ==> final(self)@.wf(),
    {
        match self.check_collection() {
            Err(e) => {
                return Err(e);
            },
            Ok(()) => {},
        }
        if native_type != self.element_native_type || data.native_type() != native_type {
            return Err(ErrorKind::UncheckedVariantAccess);
        }
        if self.elements.len() >= i32::MAX as usize {
            return Err(ErrorKind::InvalidArgument { reason: Reason::ValueTooLarge });
        }
        let ghost before = self@;
        self.elements.push(Some(data.duplicate()));
        assert(self@.elements =~= before.elements.push(Some(data@)));
        Ok(())
    }

    /// Makes a copy of the object, under the native handle that the native library
    /// answered with. The copy has the attributes and the elements of the object, and
    /// one reference of its own.
    pub fn copy_object(&self, reply: Result<u64, Info>) -> (r: Result<Object, ErrorKind>)
        ensures
            !self@.handle.spec_is_live() ==> r matches Err(
                ErrorKind::InvalidArgument { reason: Reason::HandleNotLive },
            ),
            self@.handle.spec_is_live() ==> match reply {
                Err(info) => r matches Err(
                    ErrorKind::NativeCallFailed { operation: Operation::ObjectCopy, info: i },
                ) && i == info,
                Ok(inner) => if inner == 0 {
                    r matches Err(ErrorKind::InvalidArgument { reason: Reason::NullHandle })
                } else {
                    r matches Ok(o) && o@ == (ObjectView {
                        handle: HandleRef::minted(inner),
                        ..self@
                    }) && o@.handle.spec_is_live() && (self@.wf() ==> o@.wf())
                },
            },
    {
        if !self.handle.is_live() {
            return Err(ErrorKind::InvalidArgument { reason: Reason::HandleNotLive });
        }
        match reply {
            Err(info) => Err(
                ErrorKind::NativeCallFailed { operation: Operation::ObjectCopy, info },
            ),
            Ok(inner) => {
                if inner == 0 {
                    return Err(ErrorKind::InvalidArgument { reason: Reason::NullHandle });
                }
                Ok(
                    Object {
                        handle: HandleRef::new(inner),
                        type_handle: self.type_handle,
                        is_collection: self.is_collection,
                        element_native_type: self.element_native_type,
                        attrs: copy_cells(&self.attrs),
                        elements: copy_elements(&self.elements),
                    },
                )
            },
        }
    }

    /// Deletes the element at `index` and leaves a hole there. Refused are, in this
    /// order, an object that is not live, one that is no collection, and an index at
    /// which there is no element.
    pub fn delete_element_by_index(&mut self, index: i32) -> (r: Result<(), ErrorKind>)
        ensures
            old(self)@.collection_error() matches Some(e) ==> r == Err::<(), ErrorKind>(e),
            old(self)@.collection_error() is None && !old(self)@.exists_at(index as int) ==> r
                == Err::<(), ErrorKind>(
                ErrorKind::InvalidArgument { reason: Reason::NoSuchElement },
            ),
            old(self)@.collection_error() is None && old(self)@.exists_at(index as int) ==> r
                == Ok::<(), ErrorKind>(()) && final(self)@ == (ObjectView {
                elements: old(self)@.elements.update(index as int, None),
                ..old(self)@
            }),
            r is Err ==> final(self)@ == old(self)@,
            old(self)@.wf() ==> final(self)@.wf(),
    {
        match self.check_collection() {
            Err(e) => {
                return Err(e);
            },
            Ok(()) => {},
        }
        if index < 0 || index as usize >= self.elements.len()
            || self.elements[index as usize].is_none() {
            return Err(ErrorKind::InvalidArgument { reason: Reason::NoSuchElement });
        }
        let ghost before = self@;
        self.elements.set(index as usize, None);
        assert(self@.elements =~= before.elements.update(index as int, None));
        Ok(())
    }

    /// A copy of the value of the attribute `attr`, read through the representation
    /// that `info` names for it. Refused are, in this order, an object that is not
    /// live, an attribute of another type than the object's, and a representation other
    /// than the attribute's.
    pub fn get_attribute_value(&self, attr: &ObjectAttr, info: &ODPIObjectAttrInfo) -> (r: Result<
        ODPIData,
        ErrorKind,
    >)
        ensures
            self@.attribute_error(
                attr@.owner,
                attr@.index,
                info.default_native_type_num,
            ) matches Some(e) ==> r == Err::<ODPIData, ErrorKind>(e),
            self@.attribute_error(attr@.owner, attr@.index, info.default_native_type_num) is None
                ==> (r matches Ok(c) && c@ == self@.attrs[attr@.index as int]),
    {
        if !self.handle.is_live() {
            return Err(ErrorKind::InvalidArgument { reason: Reason::HandleNotLive });
        }
        if attr.owner() != self.type_handle || attr.index() as usize >= self.attrs.len() {
            return Err(ErrorKind::InvalidArgument { reason: Reason::ForeignAttribute });
        }
        let cell = &self.attrs[attr.index() as usize];
        if cell.native_type() != info.default_native_type_num {
            return Err(ErrorKind::UncheckedVariantAccess);
        }
        Ok(cell.duplicate())
    }

    /// Whether the collection has an element at `index`.
    pub fn get_element_exists_by_index(&self, index: i32) -> (r: Result<bool, ErrorKind>)
        ensures
            self@.collection_error() matches Some(e) ==> r == Err::<bool, ErrorKind>(e),
            self@.collection_error() is None ==> r == Ok::<bool, ErrorKind>(
                self@.exists_at(index as int),
            ),
    {
        match self.check_collection() {
            Err(e) => {
                return Err(e);
            },
            Ok(()) => {},
        }
        Ok(
            index >= 0 && (index as usize) < self.elements.len()
                && self.elements[index as usize].is_some(),
        )
    }

    /// A copy of the element at `index`, read through the representation
    /// `native_type`. Refused are, in this order, an object that is not live, one that
    /// is no collection, an index at which there is no element, and a representation
    /// other than the element's.
    pub fn get_element_value_by_index(&self, index: i32, native_type: ODPINativeTypeNum) -> (r:
        Result<ODPIData, ErrorKind>)
        ensures
            self@.collection_error() matches Some(e) ==> r == Err::<ODPIData, ErrorKind>(e),
            self@.collection_error() is None && !self@.exists_at(index as int) ==> r == Err::<
                ODPIData,
                ErrorKind,
            >(ErrorKind::InvalidArgument { reason: Reason::NoSuchElement }),
            self@.collection_error() is None && self@.exists_at(index as int) ==> (
            if self@.elements[index as int]->0.value.native_type() == native_type {
                r matches Ok(c) && Some(c@) == self@.elements[index as int]
            } else {
                r == Err::<ODPIData, ErrorKind>(ErrorKind::UncheckedVariantAccess)
            }),
    {
        match self.check_collection() {
            Err(e) => {
                return Err(e);
            },
            Ok(()) => {},
        }
        if index < 0 || index as usize >= self.elements.len() {
            return Err(ErrorKind::InvalidArgument { reason: Reason::NoSuchElement });
        }
        match &self.elements[index as usize] {
            None => Err(ErrorKind::InvalidArgument { reason: Reason::NoSuchElement }),
            Some(cell) => {
                if cell.native_type() != native_type {
                    Err(ErrorKind::UncheckedVariantAccess)
                } else {
                    Ok(cell.duplicate())
                }
            },
        }
    }

    /// The least index of an element above `after`, with `true`; or zero with `false`
    /// where there is none.
    fn scan_up(&self, after: i64) -> (r: (i32, bool))
        requires
            -1 <= after <= i32::MAX,
            self.elements@.len() <= i32::MAX,
        ensures
            r.1 <==> self@.any_above(after as int),
            r.1 ==> self@.is_next(after as int, r.0 as int),
            !r.1 ==> r.0 == 0,
    {
        let mut i: usize = (after + 1) as usize;
        while i < self.elements.len()
            invariant
                after < i,
                self.elements@.len() <= i32::MAX,
                forall|j: int| after < j < i ==> !self@.exists_at(j),
            decreases self.elements.len() - i,
        {
            if self.elements[i].is_some() {
                assert(self@.exists_at(i as int));
                return (i as i32, true);
            }
            i = i + 1;
        }
        (0, false)
    }

    /// The greatest index of an element below `before`, with `true`; or zero with
    /// `false` where there is none.
    fn scan_down(&self, before: i64) -> (r: (i32, bool))
        requires
            0 <= before <= self.elements@.len(),
            self.elements@.len() <= i32::MAX,
        ensures
            r.1 <==> self@.any_below(before as int),
            r.1 ==> self@.is_prev(before as int, r.0 as int),
            !r.1 ==> r.0 == 0,
    {
        let mut i: usize = before as usize;
        while i > 0
            invariant
                i <= before,
                before <= self.elements@.len(),
                self.elements@.len() <= i32::MAX,
                forall|j: int| i <= j < before ==> !self@.exists_at(j),
            decreases i,
        {
            i = i - 1;
            if self.elements[i].is_some() {
                assert(self@.exists_at(i as int));
                return (i as i32, true);
            }
        }
        (0, false)
    }

    /// The index of the first element of the collection and `true`; where the
    /// collection has no element, zero and `false`.
    pub fn get_first_index(&self) -> (r: Result<(i32, bool), ErrorKind>)
        ensures
            self@.collection_error() matches Some(e) ==> r == Err::<(i32, bool), ErrorKind>(e),
            self@.collection_error() is None ==> (r matches Ok(p) && (p.1 <==> self@.any_above(-1))
                && (p.1 ==> self@.is_next(-1, p.0 as int)) && (!p.1 ==> p.0 == 0)),
    {
        match self.check_collection() {
            Err(e) => {
                return Err(e);
            },
            Ok(()) => {},
        }
        Ok(self.scan_up(-1))
    }

    /// The index of the last element of the collection and `true`; where the
    /// collection has no element, zero and `false`.
    pub fn get_last_index(&self) -> (r: Result<(i32, bool), ErrorKind>)
        ensures
            self@.collection_error() matches Some(e) ==> r == Err::<(i32, bool), ErrorKind>(e),
            self@.collection_error() is None ==> (r matches Ok(p) && (p.1 <==> self@.any_below(
                self@.elements.len() as int,
            )) && (p.1 ==> self@.is_prev(self@.elements.len() as int, p.0 as int)) && (!p.1
                ==> p.0 == 0)),
    {
        match self.check_collection() {
            Err(e) => {
                return Err(e);
            },
            Ok(()) => {},
        }
        Ok(self.scan_down(self.elements.len() as i64))
    }

    /// The index of the first element after `index` and `true`; where no element
    /// follows, zero and `false`.
    pub fn get_next_index(&self, index: i32) -> (r: Result<(i32, bool), ErrorKind>)
        ensures
            self@.collection_error() matches Some(e) ==> r == Err::<(i32, bool), ErrorKind>(e),
            self@.collection_error() is None ==> (r matches Ok(p) && (p.1 <==> self@.any_above(
                index as int,
            )) && (p.1 ==> self@.is_next(index as int, p.0 as int)) && (!p.1 ==> p.0 == 0)),
    {
        match self.check_collection() {
            Err(e) => {
                return Err(e);
            },
            Ok(()) => {},
        }
        if index < 0 {
            let found = self.scan_up(-1);
            proof {
                assert(self@.any_above(-1) <==> self@.any_above(index as int)) by {
                    if self@.any_above(-1) {
                        let j = choose|j: int| -1 < j && self@.exists_at(j);
                        assert(index < j && self@.exists_at(j));
                    }
                    if self@.any_above(index as int) {
                        let j = choose|j: int| index < j && self@.exists_at(j);
                        assert(-1 < j && self@.exists_at(j));
                    }
                }
            }
            Ok(found)
        } else {
            Ok(self.scan_up(index as i64))
        }
    }

    /// The index of the last element before `index` and `true`; where no element
    /// precedes, zero and `false`.
    pub fn get_prev_index(&self, index: i32) -> (r: Result<(i32, bool), ErrorKind>)
        ensures
            self@.collection_error() matches Some(e) ==> r == Err::<(i32, bool), ErrorKind>(e),
            self@.collection_error() is None ==> (r matches Ok(p) && (p.1 <==> self@.any_below(
                index as int,
            )) && (p.1 ==> self@.is_prev(index as int, p.0 as int)) && (!p.1 ==> p.0 == 0)),
    {
        match self.check_collection() {
            Err(e) => {
                return Err(e);
            },
            Ok(()) => {},
        }
        if index <= 0 {
            proof {
                assert(!self@.any_below(index as int));
            }
            Ok((0, false))
        } else if index as usize > self.elements.len() {
            let found = self.scan_down(self.elements.len() as i64);
            proof {
                let top = self@.elements.len() as int;
                assert(self@.any_below(top) <==> self@.any_below(index as int)) by {
                    if self@.any_below(top) {
                        let j = choose|j: int| j < top && self@.exists_at(j);
                        assert(j < index && self@.exists_at(j));
                    }
                    if self@.any_below(index as int) {
                        let j = choose|j: int| j < index && self@.exists_at(j);
                        assert(j < top && self@.exists_at(j));
                    }
                }
            }
            Ok(found)
        } else {
            Ok(self.scan_down(index as i64))
        }
    }

    /// The number of slots of the collection, holes included: one more than the
    /// greatest index that was ever filled and not trimmed away.
    pub fn get_size(&self) -> (r: Result<i32, ErrorKind>)
        ensures
            self@.collection_error() matches Some(e) ==> r == Err::<i32, ErrorKind>(e),
            self@.collection_error() is None ==> r == Ok::<i32, ErrorKind>(
                self@.elements.len() as i32,
            ) && self@.elements.len() <= i32::MAX,
    {
        match self.check_collection() {
            Err(e) => {
                return Err(e);
            },
            Ok(()) => {},
        }
        Ok(self.elements.len() as i32)
    }

    /// Sets the attribute `attribute` to `value`, which is written through the
    /// representation `native_type`. Refused are, in this order, an object that is not
    /// live, an attribute of another type than the object's, a representation other
    /// than the attribute's, and a value of another representation than
    /// `native_type`.
    pub fn set_attribute_value(
        &mut self,
        attribute: &ObjectAttr,
        native_type: ODPINativeTypeNum,
        value: Data,
    ) -> (r: Result<(), ErrorKind>)
        ensures
            old(self)@.attribute_error(
                attribute@.owner,
                attribute@.index,
                native_type,
            ) matches Some(e) ==> r == Err::<(), ErrorKind>(e),
            old(self)@.attribute_error(attribute@.owner, attribute@.index, native_type) is None
                ==> (if value@.value.native_type() == native_type {
                r == Ok::<(), ErrorKind>(()) && final(self)@ == (ObjectView {
                    attrs: old(self)@.attrs.update(attribute@.index as int, value@),
                    ..old(self)@
                })
            } else {
                r == Err::<(), ErrorKind>(ErrorKind::UncheckedVariantAccess)
            }),
            r is Err ==> final(self)@ == old(self)@,
    {
        if !self.handle.is_live() {
            return Err(ErrorKind::InvalidArgument { reason: Reason::HandleNotLive });
        }
        if attribute.owner() != self.type_handle || attribute.index() as usize >= self.attrs.len() {
            return Err(ErrorKind::InvalidArgument { reason: Reason::ForeignAttribute });
        }
        if self.attrs[attribute.index() as usize].native_type() != native_type {
            return Err(ErrorKind::UncheckedVariantAccess);
        }
        if value.native_type() != native_type {
            return Err(ErrorKind::UncheckedVariantAccess);
        }
        let ghost before = self@;
        let ghost cell = value@;
        self.attrs.set(attribute.index() as usize, value.into_cell());
        assert(self@.attrs =~= before.attrs.update(attribute@.index as int, cell));
        Ok(())
    }

    /// Sets the slot at `index` to `value`, which is written through the
    /// representation `native_type`; a hole at `index` is filled. Refused are, in this
    /// order, an object that is not live, one that is no collection, an index outside
    /// the slots, and a representation other than that of the elements, whether named
    /// by `native_type` or held by `value`.
    pub fn set_element_value_by_index(
        &mut self,
        index: i32,
        native_type: ODPINativeTypeNum,
        value: Data,
    ) -> (r: Result<(), ErrorKind>)
        ensures
            old(self)@.collection_error() matches Some(e) ==> r == Err::<(), ErrorKind>(e),
            old(self)@.collection_error() is None && !(0 <= index < old(self)@.elements.len())
                ==> r == Err::<(), ErrorKind>(
                ErrorKind::InvalidArgument { reason: Reason::IndexOutOfRange },
            ),
            old(self)@.collection_error() is None && 0 <= index < old(self)@.elements.len() ==> (
            if native_type == old(self)@.element_native_type && value@.value.native_type()
                == native_type {
                r == Ok::<(), ErrorKind>(()) && final(self)@ == (ObjectView {
                    elements: old(self)@.elements.update(index as int, Some(value@)),
                    ..old(self)@
                })
            } else {
                r == Err::<(), ErrorKind>(ErrorKind::UncheckedVariantAccess)
            }),
            r is Err ==> final(self)@ == old(self)@,
            old(self)@.wf() ==> final(self)@.wf(),
    {
        match self.check_collection() {
            Err(e) => {
                return Err(e);
            },
            Ok(()) => {},
        }
        if index < 0 || index as usize >= self.elements.len() {
            return Err(ErrorKind::InvalidArgument { reason: Reason::IndexOutOfRange });
        }
        if native_type != self.element_native_type || value.native_type() != native_type {
            return Err(ErrorKind::UncheckedVariantAccess);
        }
        let ghost before = self@;
        let ghost cell = value@;
        self.elements.set(index as usize, Some(value.into_cell()));
        assert(self@.elements =~= before.elements.update(index as int, Some(cell)));
        Ok(())
    }

    /// Removes the last `num_to_trim` slots of the collection, holes included. Refused
    /// are, in this order, an object that is not live, one that is no collection, and a
    /// number above the number of slots.
    pub fn trim(&mut self, num_to_trim: u32) -> (r: Result<(), ErrorKind>)
        ensures
            old(self)@.collection_error() matches Some(e) ==> r == Err::<(), ErrorKind>(e),
            old(self)@.collection_error() is None && num_to_trim > old(self)@.elements.len() ==> r
                == Err::<(), ErrorKind>(
                ErrorKind::InvalidArgument { reason: Reason::IndexOutOfRange },
            ),
            old(self)@.collection_error() is None && num_to_trim <= old(self)@.elements.len()
                ==> r == Ok::<(), ErrorKind>(()) && final(self)@ == (ObjectView {
                elements: old(self)@.elements.take(old(self)@.elements.len() - num_to_trim),
                ..old(self)@
            }),
            r is Err ==> final(self)@ == old(self)@,
            old(self)@.wf() ==> final(self)@.wf(),
    {
        match self.check_collection() {
            Err(e) => {
                return Err(e);
            },
            Ok(()) => {},
        }
        if num_to_trim as usize > self.elements.len() {
            return Err(ErrorKind::InvalidArgument { reason: Reason::IndexOutOfRange });
        }
        let ghost before = self@;
        let keep: usize = self.elements.len() - num_to_trim as usize;
        self.elements.truncate(keep);
        assert(self@.elements =~= before.elements.take(before.elements.len() - num_to_trim));
        Ok(())
    }
}

} // verus!
