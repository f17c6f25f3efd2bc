//! Method prototypes.

use vstd::prelude::*;
use crate::types::descriptor::{Type, TypeView};
use crate::types::model::views;
use crate::types::shorty::{
    field_kind, return_kind, ShortyDescriptor, ShortyDescriptorView, ShortyFieldType,
    ShortyReturnType,
};

verus! {

/// A method prototype: the shorty descriptor of a signature beside its
/// return type and its parameter types in full.
#[derive(Debug)]
pub struct Prototype {
    descriptor: ShortyDescriptor,
    return_type: Type,
    parameters: Option<Vec<Type>>,
}

/// Mathematical model of [`Prototype`].
pub struct PrototypeView {
    pub descriptor: ShortyDescriptorView,
    pub return_type: TypeView,
    pub parameters: Option<Seq<TypeView>>,
}

impl PrototypeView {
    /// Whether the shorty descriptor agrees with the full types: its return
    /// kind is the kind of the return type, and it has one parameter kind
    /// for each parameter type, the kind of that type. An absent parameter
    /// list is a list of no parameters.
    pub open spec fn consistent(self) -> bool {
        &&& self.descriptor.return_type == return_kind(self.return_type)
        &&& match self.parameters {
            None => self.descriptor.field_types.len() == 0,
            Some(parameters) => {
                &&& parameters.len() == self.descriptor.field_types.len()
                &&& forall|i: int|
                    0 <= i < parameters.len() ==> field_kind(#[trigger] parameters[i]) == Some(
                        self.descriptor.field_types[i],
                    )
            },
        }
    }
}

impl View for Prototype {
    type V = PrototypeView;

    closed spec fn view(&self) -> PrototypeView {
        PrototypeView {
            descriptor: self.descriptor@,
            return_type: self.return_type@,
            parameters: match self.parameters {
                Some(parameters) => Some(views(parameters@)),
                None => None,
            },
        }
    }
}

impl Prototype {
    /// Puts a prototype together. Nothing is checked: whether the
    /// descriptor agrees with the types is what [`Self::is_consistent`]
    /// tells.
    pub fn new(
        descriptor: ShortyDescriptor,
        return_type: Type,
        parameters: Option<Vec<Type>>,
    ) -> (prototype: Prototype)
        ensures
            prototype@.descriptor == descriptor@,
            prototype@.return_type == return_type@,
            prototype@.parameters == match parameters {
                Some(parameters) => Some(views(parameters@)),
                None => None,
            },
    {
        Prototype { descriptor, return_type, parameters }
    }

    /// The shorty descriptor.
    pub fn descriptor(&self) -> (descriptor: &ShortyDescriptor)
        ensures
            descriptor@ == self@.descriptor,
    {
        &self.descriptor
    }

    /// The return type.
    pub fn return_type(&self) -> (return_type: &Type)
        ensures
            return_type@ == self@.return_type,
    {
        &self.return_type
    }

    /// The parameter types, in order, if the prototype has a parameter
    /// list.
    pub fn parameters(&self) -> (parameters: Option<&[Type]>)
        ensures
            self@.parameters == match parameters {
                Some(parameters) => Some(views(parameters@)),
                None => None,
            },
    {
        match &self.parameters {
            Some(parameters) => Some(parameters.as_slice()),
            None => None,
        }
    }

    /// Checks the shorty descriptor against the full types.
    pub fn is_consistent(&self) -> (consistent: bool)
        ensures
            consistent == self@.consistent(),
    {
        if self.descriptor.return_type() != ShortyReturnType::of(&self.return_type) {
            return false;
        }
        let kinds = self.descriptor.field_types();
        match &self.parameters {
            None => kinds.len() == 0,
            Some(parameters) => {
                if parameters.len() != kinds.len() {
                    return false;
                }
                let mut i: usize = 0;
                while i < parameters.len()
                    invariant
                        i <= parameters.len(),
                        parameters.len() == kinds.len(),
                        kinds@ == self@.descriptor.field_types,
                        self@.parameters == Some(views(parameters@)),
                        forall|j: int|
                            0 <= j < i ==> field_kind(#[trigger] views(parameters@)[j]) == Some(
                                kinds@[j],
                            ),
                    decreases parameters.len() - i,
                {
                    let agrees = match ShortyFieldType::of(&parameters[i]) {
                        Some(kind) => kind == kinds[i],
                        None => false,
                    };
                    if !agrees {
                        assert(field_kind(views(parameters@)[i as int]) != Some(kinds@[i as int]));
                        return false;
                    }
                    i += 1;
                }
                true
            },
        }
    }
}

} // verus!
