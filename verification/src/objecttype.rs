//! Object types, and the catalog in which the types that were looked up are kept.
//!
//! A type says of each attribute, and a collection type of its elements, which
//! representation the values have and, where they are objects themselves, the handle
//! of their own type. That type is not described along with it: a reader who needs it
//! looks it up in turn, one level at a time.
use crate::enums::ODPINativeTypeNum;
use crate::error::{ErrorKind, Info, Operation, Reason};
use crate::handle::HandleRef;
use crate::object::{Object, ObjectView};
use crate::objectattr::{ObjectAttr, ObjectAttrView};
use crate::structs::{ODPIData, ODPIObjectAttrInfo, ODPIObjectTypeInfo};
use crate::util::same_text;
use vstd::prelude::*;

verus! {

/// What the native library reports of one attribute of a type.
#[derive(Clone, Debug, PartialEq, Eq)]
pub struct AttrDescription {
    /// The native handle of the attribute.
    pub handle: u64,
    /// What is known of the attribute.
    pub info: ODPIObjectAttrInfo,
}

/// What the native library reports of a type that was looked up.
#[derive(Clone, Debug, PartialEq, Eq)]
pub struct TypeDescription {
    /// The native handle of the type.
    pub handle: u64,
    /// What is known of the type.
    pub info: ODPIObjectTypeInfo,
    /// The attributes of the type, in their order.
    pub attributes: Vec<AttrDescription>,
}

/// An object type as a mathematical value.
pub struct ObjectTypeView {
    /// The reference to the native type.
    pub handle: HandleRef,
    /// What is known of the type.
    pub info: ODPIObjectTypeInfo,
    /// The attributes of the type, in their order.
    pub attributes: Seq<AttrDescription>,
}

impl ObjectTypeView {
    /// The attribute that `get_attributes` makes of the attribute at `i`.
    pub open spec fn attribute(self, i: int) -> ObjectAttrView {
        ObjectAttrView {
            handle: HandleRef::minted(self.attributes[i].handle),
            owner: self.handle.spec_inner(),
            index: i as u16,
            info: self.attributes[i].info,
        }
    }

    /// The object that `create` makes under the native handle `inner`.
    pub open spec fn instance(self, inner: u64) -> ObjectView {
        ObjectView {
            handle: HandleRef::minted(inner),
            type_handle: self.handle.spec_inner(),
            is_collection: self.info.is_collection,
            element_native_type: self.info.element_default_native_type_num,
            attrs: Seq::new(
                self.attributes.len(),
                |i: int| ODPIData::null_cell(self.attributes[i].info.default_native_type_num),
            ),
            elements: Seq::empty(),
        }
    }

    /// Whether every attribute has a representation.
    pub open spec fn attributes_typed(self) -> bool {
        forall|i: int|
            0 <= i < self.attributes.len() ==> (
            #[trigger] self.attributes[i]).info.default_native_type_num
                != ODPINativeTypeNum::Invalid
    }
}

/// An object type.
#[derive(Debug)]
pub struct ObjectType {
    handle: HandleRef,
    info: ODPIObjectTypeInfo,
    attributes: Vec<AttrDescription>,
}

impl View for ObjectType {
    type V = ObjectTypeView;

    closed spec fn view(&self) -> ObjectTypeView {
        ObjectTypeView { handle: self.handle, info: self.info, attributes: self.attributes@ }
    }
}

impl ObjectType {
    /// The type that the native library described. Refused are a null handle, and a
    /// description whose attributes are not as many as it says.
    pub fn describe(description: TypeDescription) -> (r: Result<ObjectType, ErrorKind>)
        ensures
            description.handle == 0 ==> r matches Err(
                ErrorKind::InvalidArgument { reason: Reason::NullHandle },
            ),
            description.handle != 0 && description.attributes@.len()
                != description.info.num_attributes ==> r matches Err(
                ErrorKind::InvalidArgument { reason: Reason::InconsistentReply },
            ),
            description.handle != 0 && description.attributes@.len()
                == description.info.num_attributes ==> (r matches Ok(t) && t@ == (ObjectTypeView {
                handle: HandleRef::minted(description.handle),
                info: description.info,
                attributes: description.attributes@,
            }) && t@.handle.spec_is_live()),
    {
        if description.handle == 0 {
            return Err(ErrorKind::InvalidArgument { reason: Reason::NullHandle });
        }
        if description.attributes.len() != description.info.num_attributes as usize {
            return Err(ErrorKind::InvalidArgument { reason: Reason::InconsistentReply });
        }
        Ok(
            ObjectType {
                handle: HandleRef::new(description.handle),
                info: description.info,
                attributes: description.attributes,
            },
        )
    }

    /// Whether the type can be used: a native handle is bound, no close has ended the
    /// use, and a reference is held.
    pub fn is_live(&self) -> (r: bool)
        ensures
            r == self@.handle.spec_is_live(),
    {
        self.handle.is_live()
    }

    /// The native handle of the type.
    pub fn inner(&self) -> (r: u64)
        ensures
            r == self@.handle.spec_inner(),
    {
        self.handle.inner()
    }

    /// Adds a reference to the type. `reply` is the answer of the native library. Refused
    /// are, in this order, a reference to what is not live, a count that cannot grow, and a
    /// call that failed.
    pub fn add_ref(&mut self, reply: Result<(), Info>) -> (r: Result<(), ErrorKind>)
        ensures
            (final(self)@.handle, r) == old(self)@.handle.after_add_ref(
                Operation::ObjectTypeAddRef,
                reply,
            ),
            final(self)@ == (ObjectTypeView { handle: final(self)@.handle, ..old(self)@ }),
    {
        self.handle.add_ref(Operation::ObjectTypeAddRef, reply)
    }

    /// Releases a reference to the type. `reply` is the answer of the native library. With
    /// the last release the use of the type ends: nothing is accepted any more, a further
    /// release included. Refused are a release where no reference is held, and a call that
    /// failed.
    pub fn release(&mut self, reply: Result<(), Info>) -> (r: Result<(), ErrorKind>)
        ensures
            (final(self)@.handle, r) == old(self)@.handle.after_release(
                Operation::ObjectTypeRelease,
                reply,
            ),
            final(self)@ == (ObjectTypeView { handle: final(self)@.handle, ..old(self)@ }),
    {
        self.handle.release(Operation::ObjectTypeRelease, reply)
    }

    /// Creates an object of the type, under the native handle that the native library
    /// answered with: every attribute is null, and a collection is empty. Refused are,
    /// in this order, a type that is not live, a call that failed, a null handle, and
    /// a type with an attribute that has no representation.
    pub fn create(&self, reply: Result<u64, Info>) -> (r: Result<Object, ErrorKind>)
        ensures
            !self@.handle.spec_is_live() ==> r matches Err(
                ErrorKind::InvalidArgument { reason: Reason::HandleNotLive },
            ),
            self@.handle.spec_is_live() ==> match reply {
                Err(info) => r matches Err(
                    ErrorKind::NativeCallFailed {
                        operation: Operation::ObjectTypeCreateObject,
                        info: i,
                    },
                ) && i == info,
                Ok(inner) => if inner == 0 {
                    r matches Err(ErrorKind::InvalidArgument { reason: Reason::NullHandle })
                } else if self@.attributes_typed() {
                    r matches Ok(o) && o@ == self@.instance(inner) && o@.wf()
                        && o@.handle.spec_is_live()
                } else {
                    r matches Err(ErrorKind::UncheckedVariantAccess)
                },
            },
    {
        if !self.handle.is_live() {
            return Err(ErrorKind::InvalidArgument { reason: Reason::HandleNotLive });
        }
        match reply {
            Err(info) => Err(
                ErrorKind::NativeCallFailed { operation: Operation::ObjectTypeCreateObject, info },
            ),
            Ok(inner) => {
                if inner == 0 {
                    return Err(ErrorKind::InvalidArgument { reason: Reason::NullHandle });
                }
                let mut types: Vec<ODPINativeTypeNum> = Vec::new();
                let mut i: usize = 0;
                while i < self.attributes.len()
                    invariant
                        i <= self.attributes.len(),
                        types@.len() == i,
                        forall|k: int|
                            0 <= k < i ==> #[trigger] types@[k]
                                == self.attributes@[k].info.default_native_type_num,
                    decreases self.attributes.len() - i,
                {
                    types.push(self.attributes[i].info.default_native_type_num);
                    i = i + 1;
                }
                let made = Object::new(
                    inner,
                    self.handle.inner(),
                    self.info.is_collection,
                    self.info.element_default_native_type_num,
                    &types,
                );
                proof {
                    if self@.attributes_typed() {
                        assert forall|k: int| 0 <= k < types@.len() implies types@[k]
                            != ODPINativeTypeNum::Invalid by {
                            assert(self@.attributes[k].info.default_native_type_num
                                != ODPINativeTypeNum::Invalid);
                        }
                        assert(Seq::new(types@.len(), |i: int| ODPIData::null_cell(types@[i]))
                            =~= self@.instance(inner).attrs);
                    } else {
                        let k = choose|k: int|
                            0 <= k < self@.attributes.len() && (
                            #[trigger] self@.attributes[k]).info.default_native_type_num
                                == ODPINativeTypeNum::Invalid;
                        assert(types@[k] == ODPINativeTypeNum::Invalid);
                    }
                }
                made
            },
        }
    }

    /// The attributes of the type, in their order, each with one reference of its own.
    /// `length` is the number of attributes that the caller has room for. Refused are a
    /// type that is not live, and room for fewer attributes than the type has.
    pub fn get_attributes(&self, length: u16) -> (r: Result<Vec<ObjectAttr>, ErrorKind>)
        ensures
            !self@.handle.spec_is_live() ==> r matches Err(
                ErrorKind::InvalidArgument { reason: Reason::HandleNotLive },
            ),
            self@.handle.spec_is_live() && length < self@.attributes.len() ==> r matches Err(
                ErrorKind::InvalidArgument { reason: Reason::ArrayTooSmall },
            ),
            self@.handle.spec_is_live() && length >= self@.attributes.len() ==> (r matches Ok(v)
                && v@.len() == self@.attributes.len() && forall|i: int|
                0 <= i < v@.len() ==> (#[trigger] v@[i])@ == self@.attribute(i)),
    {
        if !self.handle.is_live() {
            return Err(ErrorKind::InvalidArgument { reason: Reason::HandleNotLive });
        }
        if (length as usize) < self.attributes.len() {
            return Err(ErrorKind::InvalidArgument { reason: Reason::ArrayTooSmall });
        }
        let mut out: Vec<ObjectAttr> = Vec::new();
        let mut i: usize = 0;
        while i < self.attributes.len()
            invariant
                i <= self.attributes.len(),
                self.attributes.len() <= length,
                out@.len() == i,
                forall|k: int| 0 <= k < i ==> (#[trigger] out@[k])@ == self@.attribute(k),
            decreases self.attributes.len() - i,
        {
            let described = &self.attributes[i];
            out.push(
                ObjectAttr::new(
                    described.handle,
                    self.handle.inner(),
                    i as u16,
                    described.info.duplicate(),
                ),
            );
            i = i + 1;
        }
        Ok(out)
    }

    /// What is known of the type: its schema and name, whether it is a collection, for
    /// a collection the types of its elements, and the number of its attributes.
    pub fn get_info(&self) -> (r: Result<ODPIObjectTypeInfo, ErrorKind>)
        ensures
            self@.handle.spec_is_live() ==> r == Ok::<ODPIObjectTypeInfo, ErrorKind>(self@.info),
            !self@.handle.spec_is_live() ==> r == Err::<ODPIObjectTypeInfo, ErrorKind>(
                ErrorKind::InvalidArgument { reason: Reason::HandleNotLive },
            ),
    {
        if !self.handle.is_live() {
            return Err(ErrorKind::InvalidArgument { reason: Reason::HandleNotLive });
        }
        Ok(self.info.duplicate())
    }
}

/// The types that were looked up, each kept under its schema and name and found again
/// without a further question to the database.
#[derive(Debug)]
pub struct TypeCatalog {
    types: Vec<ObjectType>,
}

impl View for TypeCatalog {
    type V = Seq<ObjectTypeView>;

    closed spec fn view(&self) -> Seq<ObjectTypeView> {
        Seq::new(self.types@.len(), |i: int| self.types@[i]@)
    }
}

/// Whether the type `t` is the one named `name` in the schema `schema`.
pub open spec fn is_named(t: ObjectTypeView, schema: Seq<char>, name: Seq<char>) -> bool {
    t.info.schema@ == schema && t.info.name@ == name
}

/// Whether `at` is the first place in `types` of a type named `name` in `schema`.
pub open spec fn is_first_named(
    types: Seq<ObjectTypeView>,
    schema: Seq<char>,
    name: Seq<char>,
    at: int,
) -> bool {
    &&& 0 <= at < types.len()
    &&& is_named(types[at], schema, name)
    &&& forall|j: int| 0 <= j < at ==> !is_named(#[trigger] types[j], schema, name)
}

/// Whether `at` is the first place in `types` of a type with the native handle
/// `inner`.
pub open spec fn is_first_with_handle(types: Seq<ObjectTypeView>, inner: u64, at: int) -> bool {
    &&& 0 <= at < types.len()
    &&& types[at].handle.spec_inner() == inner
    &&& forall|j: int| 0 <= j < at ==> (#[trigger] types[j]).handle.spec_inner() != inner
}

/// Whether no two types of `types` have the same schema and name.
pub open spec fn names_unique(types: Seq<ObjectTypeView>) -> bool {
    forall|i: int, j: int|
        0 <= i < j < types.len() ==> !is_named(
            #[trigger] types[i],
            (#[trigger] types[j]).info.schema@,
            types[j].info.name@,
        )
}

impl TypeCatalog {
    /// The empty catalog.
    pub fn new() -> (c: TypeCatalog)
        ensures
            c@ == Seq::<ObjectTypeView>::empty(),
            names_unique(c@),
    {
        let c = TypeCatalog { types: Vec::new() };
        assert(c@ =~= Seq::<ObjectTypeView>::empty());
        c
    }

    /// The number of types in the catalog.
    pub fn len(&self) -> (n: usize)
        ensures
            n == self@.len(),
    {
        self.types.len()
    }

    /// The type at the place `at`, if there is one.
    pub fn get(&self, at: usize) -> (r: Option<&ObjectType>)
        ensures
            at < self@.len() ==> (r matches Some(t) && t@ == self@[at as int]),
            at >= self@.len() ==> r is None,
    {
        if at < self.types.len() {
            Some(&self.types[at])
        } else {
            None
        }
    }

    /// The place of the type named `name` in the schema `schema`, if the catalog holds
    /// it.
    pub fn find_by_name(&self, schema: &str, name: &str) -> (r: Option<usize>)
        ensures
            r matches Some(at) ==> is_first_named(self@, schema@, name@, at as int),
            r is None ==> forall|j: int|
                0 <= j < self@.len() ==> !is_named(#[trigger] self@[j], schema@, name@),
    {
        let mut i: usize = 0;
        while i < self.types.len()
            invariant
                i <= self.types.len(),
                forall|j: int| 0 <= j < i ==> !is_named(#[trigger] self@[j], schema@, name@),
            decreases self.types.len() - i,
        {
            let t = &self.types[i];
            assert(t@ == self@[i as int]);
            if same_text(&t.info.schema, schema) && same_text(&t.info.name, name) {
                return Some(i);
            }
            i = i + 1;
        }
        None
    }

    /// The place of the type with the native handle `inner`, if the catalog holds it.
    /// This is how the type of a nested attribute, or of the elements of a collection,
    /// is resolved: by one further look.
    pub fn find_by_handle(&self, inner: u64) -> (r: Option<usize>)
        ensures
            r matches Some(at) ==> is_first_with_handle(self@, inner, at as int),
            r is None ==> forall|j: int|
                0 <= j < self@.len() ==> (#[trigger] self@[j]).handle.spec_inner() != inner,
    {
        let mut i: usize = 0;
        while i < self.types.len()
            invariant
                i <= self.types.len(),
                forall|j: int| 0 <= j < i ==> (#[trigger] self@[j]).handle.spec_inner() != inner,
            decreases self.types.len() - i,
        {
            let t = &self.types[i];
            assert(t@ == self@[i as int]);
            if t.inner() == inner {
                return Some(i);
            }
            i = i + 1;
        }
        None
    }

    /// The type of the attribute that `info` describes, where the attribute is an object
    /// or a collection and the catalog holds its type: one further look, and no
    /// deeper.
    pub fn nested_type(&self, info: &ODPIObjectAttrInfo) -> (r: Option<&ObjectType>)
        ensures
            !info.spec_is_nested() ==> r is None,
            info.spec_is_nested() ==> (match r {
                Some(t) => exists|at: int|
                    is_first_with_handle(self@, info.object_type, at) && t@ == self@[at],
                None => forall|j: int|
                    0 <= j < self@.len() ==> (#[trigger] self@[j]).handle.spec_inner()
                        != info.object_type,
            }),
    {
        if !info.is_nested() {
            return None;
        }
        match self.find_by_handle(info.object_type) {
            Some(at) => self.get(at),
            None => None,
        }
    }

    /// The type of the elements of the collection that `info` describes, where they are
    /// objects and the catalog holds their type: one further look, and no deeper.
    pub fn element_type(&self, info: &ODPIObjectTypeInfo) -> (r: Option<&ObjectType>)
        ensures
            !info.spec_has_nested_elements() ==> r is None,
            info.spec_has_nested_elements() ==> (match r {
                Some(t) => exists|at: int|
                    is_first_with_handle(self@, info.element_object_type, at) && t@ == self@[at],
                None => forall|j: int|
                    0 <= j < self@.len() ==> (#[trigger] self@[j]).handle.spec_inner()
                        != info.element_object_type,
            }),
    {
        if !info.has_nested_elements() {
            return None;
        }
        match self.find_by_handle(info.element_object_type) {
            Some(at) => self.get(at),
            None => None,
        }
    }

    /// Looks the type named `name` in the schema `schema` up. A type that the catalog
    /// holds is found there, and the answer of the native library is not looked at.
    /// Otherwise the type is the one that the native library described in `fetched`;
    /// it is kept in the catalog where it has the name that was asked for. The result
    /// is the place of the type in the catalog.
    pub fn lookup_by_name(
        &mut self,
        schema: &str,
        name: &str,
        fetched: Result<TypeDescription, Info>,
    ) -> (r: Result<usize, ErrorKind>)
        ensures
            (exists|at: int| is_first_named(old(self)@, schema@, name@, at)) ==> (r matches Ok(at)
                && is_first_named(old(self)@, schema@, name@, at as int) && final(self)@ == old(
                self,
            )@),
            !(exists|at: int| is_first_named(old(self)@, schema@, name@, at)) ==> match fetched {
                Err(info) => r matches Err(
                    ErrorKind::NativeCallFailed {
                        operation: Operation::ConnGetObjectType,
                        info: i,
                    },
                ) && i == info && final(self)@ == old(self)@,
                Ok(d) => if d.handle == 0 {
                    r matches Err(ErrorKind::InvalidArgument { reason: Reason::NullHandle })
                        && final(self)@ == old(self)@
                } else if d.attributes@.len() != d.info.num_attributes || d.info.schema@ != schema@
                    || d.info.name@ != name@ {
                    r matches Err(ErrorKind::InvalidArgument { reason: Reason::InconsistentReply })
                        && final(self)@ == old(self)@
                } else {
                    r == Ok::<usize, ErrorKind>(old(self)@.len() as usize) && final(self)@ == old(
                        self,
                    )@.push(
                        ObjectTypeView {
                            handle: HandleRef::minted(d.handle),
                            info: d.info,
                            attributes: d.attributes@,
                        },
                    )
                },
            },
            names_unique(old(self)@) ==> names_unique(final(self)@),
    {
        match self.find_by_name(schema, name) {
            Some(at) => {
                return Ok(at);
            },
            None => {},
        }
        assert(!(exists|at: int| is_first_named(self@, schema@, name@, at)));
        match fetched {
            Err(info) => Err(
                ErrorKind::NativeCallFailed { operation: Operation::ConnGetObjectType, info },
            ),
            Ok(d) => {
                if d.handle == 0 {
                    return Err(ErrorKind::InvalidArgument { reason: Reason::NullHandle });
                }
                if d.attributes.len() != d.info.num_attributes as usize || !same_text(
                    &d.info.schema,
                    schema,
                ) || !same_text(&d.info.name, name) {
                    return Err(ErrorKind::InvalidArgument { reason: Reason::InconsistentReply });
                }
                let ghost before = self@;
                let at = self.types.len();
                match ObjectType::describe(d) {
                    Ok(t) => {
                        let ghost tv = t@;
                        self.types.push(t);
                        assert(self@ =~= before.push(tv));
                        Ok(at)
                    },
                    Err(e) => Err(e),
                }
            },
        }
    }
}

} // verus!
