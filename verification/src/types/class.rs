//! The class record.

use vstd::prelude::*;
use crate::types::access_flags::AccessFlags;
use crate::types::annotations::{AnnotationsDirectory, AnnotationsDirectoryView};
use crate::types::descriptor::{Type, TypeView};
use crate::types::model::{option_ref_view, option_view, views};
use crate::types::value::{zero_value, Array, Value, ValueView};

verus! {

/// A class definition, as it is assembled from the container.
///
/// `D` is the type of the class body (fields, methods and code). The record
/// carries a body and never looks into it.
#[derive(Debug)]
pub struct Class<D> {
    class_index: u32,
    access_flags: AccessFlags,
    superclass_index: Option<u32>,
    interfaces: Vec<Type>,
    source_file_index: Option<u32>,
    annotations: Option<AnnotationsDirectory>,
    class_data: Option<D>,
    static_values: Option<Array>,
}

/// Mathematical model of [`Class`].
pub struct ClassView<D> {
    pub class_index: u32,
    pub access_flags: u32,
    pub superclass_index: Option<u32>,
    pub interfaces: Seq<TypeView>,
    pub source_file_index: Option<u32>,
    pub annotations: Option<AnnotationsDirectoryView>,
    pub class_data: Option<D>,
    pub static_values: Option<Seq<ValueView>>,
}

impl<D> ClassView<D> {
    /// Whether the record is as the container format has it: every
    /// interface is a reference type, and the indexed collections of the
    /// annotations, if there are annotations, are sorted.
    pub open spec fn well_formed(self) -> bool {
        &&& forall|i: int|
            0 <= i < self.interfaces.len() ==> (#[trigger] self.interfaces[i]) is FullyQualifiedName
        &&& self.annotations matches Some(annotations) ==> annotations.sorted()
    }

    /// The initial value of the static field at `position` of the class
    /// body, a field of type `field_type`: the value at that position of
    /// the static values, and the zero value of the type where the static
    /// values are absent or end before the position.
    pub open spec fn static_value(self, position: int, field_type: TypeView) -> Option<ValueView> {
        match self.static_values {
            Some(values) => if 0 <= position < values.len() {
                Some(values[position])
            } else {
                zero_value(field_type)
            },
            None => zero_value(field_type),
        }
    }
}

impl<D> View for Class<D> {
    type V = ClassView<D>;

    closed spec fn view(&self) -> ClassView<D> {
        ClassView {
            class_index: self.class_index,
            access_flags: self.access_flags@,
            superclass_index: self.superclass_index,
            interfaces: views(self.interfaces@),
            source_file_index: self.source_file_index,
            annotations: option_view(self.annotations),
            class_data: self.class_data,
            static_values: option_view(self.static_values),
        }
    }
}

impl<D> Class<D> {
    /// The class record of these eight parts, each as it is given. An
    /// absent part stays absent; nothing is checked.
    pub fn new(
        class_index: u32,
        access_flags: AccessFlags,
        superclass_index: Option<u32>,
        interfaces: Vec<Type>,
        source_file_index: Option<u32>,
        annotations: Option<AnnotationsDirectory>,
        class_data: Option<D>,
        static_values: Option<Array>,
    ) -> (class: Class<D>)
        ensures
            class@ == (ClassView {
                class_index,
                access_flags: access_flags@,
                superclass_index,
                interfaces: views(interfaces@),
                source_file_index,
                annotations: option_view(annotations),
                class_data,
                static_values: option_view(static_values),
            }),
    {
        Class {
            class_index,
            access_flags,
            superclass_index,
            interfaces,
            source_file_index,
            annotations,
            class_data,
            static_values,
        }
    }

    /// The index of the class in the list of type identifiers.
    pub fn class_index(&self) -> (index: u32)
        ensures
            index == self@.class_index,
    {
        self.class_index
    }

    /// The access flags of the class.
    pub fn access_flags(&self) -> (flags: AccessFlags)
        ensures
            flags@ == self@.access_flags,
    {
        self.access_flags
    }

    /// The index of the superclass in the list of type identifiers; none
    /// for the root class.
    pub fn superclass_index(&self) -> (index: Option<u32>)
        ensures
            index == self@.superclass_index,
    {
        self.superclass_index
    }

    /// The interfaces that the class implements, in the order in which it
    /// declares them.
    pub fn interfaces(&self) -> (interfaces: &[Type])
        ensures
            views(interfaces@) == self@.interfaces,
    {
        self.interfaces.as_slice()
    }

    /// The index of the source file's name in the list of string
    /// identifiers, if it is known.
    pub fn source_file_index(&self) -> (index: Option<u32>)
        ensures
            index == self@.source_file_index,
    {
        self.source_file_index
    }

    /// The annotations of the class, if it has any.
    pub fn annotations(&self) -> (annotations: Option<&AnnotationsDirectory>)
        ensures
            option_ref_view(annotations) == self@.annotations,
    {
        self.annotations.as_ref()
    }

    /// The body of the class, if it has one.
    pub fn class_data(&self) -> (class_data: Option<&D>)
        ensures
            match class_data {
                Some(body) => self@.class_data == Some(*body),
                None => self@.class_data is None,
            },
    {
        self.class_data.as_ref()
    }

    /// The initial values of the static fields.
    ///
    /// The values are in the order of the static fields of the class body.
    /// The array may be shorter than the list of static fields: a field
    /// without a value starts as zero or null, as its type has it.
    pub fn static_values(&self) -> (values: Option<&Array>)
        ensures
            option_ref_view(values) == self@.static_values,
    {
        self.static_values.as_ref()
    }

    /// Tells whether the record is as the container format has it: every
    /// interface is a reference type, and the indexed collections of the
    /// annotations, if there are annotations, are sorted.
    pub fn is_well_formed(&self) -> (well_formed: bool)
        ensures
            well_formed == self@.well_formed(),
    {
        let mut i: usize = 0;
        while i < self.interfaces.len()
            invariant
                i <= self.interfaces.len(),
                self@.interfaces == views(self.interfaces@),
                forall|j: int| 0 <= j < i ==> (#[trigger] self@.interfaces[j]) is FullyQualifiedName,
            decreases self.interfaces.len() - i,
        {
            let named = match &self.interfaces[i] {
                Type::FullyQualifiedName(_) => true,
                _ => false,
            };
            if !named {
                assert(!(self@.interfaces[i as int] is FullyQualifiedName));
                return false;
            }
            i += 1;
        }
        match &self.annotations {
            Some(annotations) => annotations.is_sorted(),
            None => true,
        }
    }

    /// The initial value of the static field at `position` of the class
    /// body, a field of type `field_type`. The static values are a prefix
    /// of the fields' values: a field behind their end starts as the zero
    /// value of its type. No field is of type `void`.
    pub fn static_value(&self, position: usize, field_type: &Type) -> (value: Option<Value>)
        ensures
            option_view(value) == self@.static_value(position as int, field_type@),
    {
        match &self.static_values {
            Some(values) => {
                if position < values.len() {
                    let stored = values.values();
                    Some(stored[position].clone())
                } else {
                    Value::zero_of(field_type)
                }
            },
            None => Value::zero_of(field_type),
        }
    }
}

/// A class gives back each of the parts that it was made of. A part that
/// was absent is reported as absent, and static values that were given
/// come back as they were given.
pub proof fn lemma_class_returns_its_parts<D>(
    class_index: u32,
    access_flags: AccessFlags,
    superclass_index: Option<u32>,
    interfaces: Vec<Type>,
    source_file_index: Option<u32>,
    annotations: Option<AnnotationsDirectory>,
    class_data: Option<D>,
    static_values: Option<Array>,
    class: Class<D>,
)
    requires
        call_ensures(
            Class::<D>::new,
            (
                class_index,
                access_flags,
                superclass_index,
                interfaces,
                source_file_index,
                annotations,
                class_data,
                static_values,
            ),
            class,
        ),
    ensures
        forall|got: u32|
            call_ensures(Class::<D>::class_index, (&class,), got) ==> got == class_index,
        forall|got: AccessFlags|
            call_ensures(Class::<D>::access_flags, (&class,), got) ==> got@ == access_flags@,
        forall|got: Option<u32>|
            call_ensures(Class::<D>::superclass_index, (&class,), got) ==> got
                == superclass_index,
        forall|got: &[Type]|
            call_ensures(Class::<D>::interfaces, (&class,), got) ==> views(got@) == views(
                interfaces@,
            ),
        forall|got: Option<u32>|
            call_ensures(Class::<D>::source_file_index, (&class,), got) ==> got
                == source_file_index,
        forall|got: Option<&AnnotationsDirectory>|
            call_ensures(Class::<D>::annotations, (&class,), got) ==> option_ref_view(got)
                == option_view(annotations),
        forall|got: Option<&D>|
            call_ensures(Class::<D>::class_data, (&class,), got) ==> (got is Some
                <==> class_data is Some) && (got is Some ==> *got->0 == class_data->0),
        forall|got: Option<&Array>|
            call_ensures(Class::<D>::static_values, (&class,), got) ==> option_ref_view(got)
                == option_view(static_values),
{
}

} // verus!
