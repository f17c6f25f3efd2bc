//! The types of the data model.

pub mod access_flags;
pub mod annotations;
pub mod class;
pub mod descriptor;
pub mod model;
pub mod order;
pub mod prototype;
pub mod shorty;
pub mod text;
pub mod value;

pub use self::access_flags::{AccessFlags, FlagOwner};
pub use self::annotations::{
    Annotation, AnnotationView, AnnotationsDirectory, AnnotationsDirectoryView, FieldAnnotations,
    FieldAnnotationsView, MethodAnnotations, MethodAnnotationsView, ParameterAnnotations,
    ParameterAnnotationsView, Visibility,
};
pub use self::class::{Class, ClassView};
pub use self::descriptor::{Type, TypeView};
pub use self::prototype::{Prototype, PrototypeView};
pub use self::shorty::{ShortyDescriptor, ShortyDescriptorView, ShortyFieldType, ShortyReturnType};
pub use self::value::{
    AnnotationElement, AnnotationElementView, Array, EncodedAnnotation, EncodedAnnotationView, Value,
    ValueView,
};
