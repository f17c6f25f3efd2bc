//! Annotations and the annotations directory of a class.

use vstd::prelude::*;
use crate::types::model::views;
use crate::types::order::{is_strictly_increasing, keys, strictly_increasing, Keyed};
use crate::types::value::{EncodedAnnotation, EncodedAnnotationView};

verus! {

/// Annotation visibility.
#[derive(Debug, Clone, Copy, PartialEq, Eq, Structural)]
pub enum Visibility {
    /// Build time visibility.
    Build,
    /// Runtime visibility.
    Runtime,
    /// System visibility.
    System,
}

impl View for Visibility {
    type V = Visibility;

    open spec fn view(&self) -> Visibility {
        *self
    }
}

/// An annotation item: an annotation and who can see it.
#[derive(Debug)]
pub struct Annotation {
    visibility: Visibility,
    annotation: EncodedAnnotation,
}

/// Mathematical model of [`Annotation`].
pub struct AnnotationView {
    pub visibility: Visibility,
    pub annotation: EncodedAnnotationView,
}

impl View for Annotation {
    type V = AnnotationView;

    closed spec fn view(&self) -> AnnotationView {
        AnnotationView { visibility: self.visibility, annotation: self.annotation@ }
    }
}

impl Annotation {
    /// The annotation item with this visibility and this annotation.
    pub fn new(visibility: Visibility, annotation: EncodedAnnotation) -> (item: Annotation)
        ensures
            item@ == (AnnotationView { visibility, annotation: annotation@ }),
    {
        Annotation { visibility, annotation }
    }

    /// The visibility of the annotation item.
    pub fn visibility(&self) -> (visibility: Visibility)
        ensures
            visibility == self@.visibility,
    {
        self.visibility
    }

    /// The annotation.
    pub fn annotation(&self) -> (annotation: &EncodedAnnotation)
        ensures
            annotation@ == self@.annotation,
    {
        &self.annotation
    }
}

impl Clone for Annotation {
    fn clone(&self) -> (copy: Annotation)
        ensures
            copy@ == self@,
    {
        Annotation { visibility: self.visibility, annotation: self.annotation.clone() }
    }
}

impl core::ops::Deref for Annotation {
    type Target = EncodedAnnotation;

    fn deref(&self) -> (annotation: &EncodedAnnotation)
        ensures
            annotation@ == self@.annotation,
    {
        &self.annotation
    }
}

/// An item that can be copied with its model kept.
trait Replicate: View + Sized {
    /// A copy with the same model.
    fn replicate(&self) -> (copy: Self)
        ensures
            copy@ == self@,
    ;
}

/// Copies a list item by item.
fn replicate_all<T: Replicate>(items: &Vec<T>) -> (copy: Vec<T>)
    ensures
        views(copy@) == views(items@),
{
    let mut copy: Vec<T> = Vec::new();
    let mut i: usize = 0;
    while i < items.len()
        invariant
            i <= items.len(),
            copy@.len() == i,
            forall|j: int| 0 <= j < i ==> copy@[j]@ == items@[j]@,
        decreases items.len() - i,
    {
        copy.push(items[i].replicate());
        i += 1;
    }
    assert(views(copy@) =~= views(items@));
    copy
}

impl Replicate for Annotation {
    fn replicate(&self) -> (copy: Annotation) {
        self.clone()
    }
}

/// The annotations of a field.
#[derive(Debug)]
pub struct FieldAnnotations {
    field_id: u32,
    annotations: Vec<Annotation>,
}

/// Mathematical model of [`FieldAnnotations`].
pub struct FieldAnnotationsView {
    pub field_id: u32,
    pub annotations: Seq<AnnotationView>,
}

impl View for FieldAnnotations {
    type V = FieldAnnotationsView;

    closed spec fn view(&self) -> FieldAnnotationsView {
        FieldAnnotationsView { field_id: self.field_id, annotations: views(self.annotations@) }
    }
}

impl FieldAnnotations {
    /// The annotations of the field at this index of the list of field
    /// identifiers.
    pub fn new(field_id: u32, annotations: Vec<Annotation>) -> (list: FieldAnnotations)
        ensures
            list@ == (FieldAnnotationsView { field_id, annotations: views(annotations@) }),
    {
        FieldAnnotations { field_id, annotations }
    }

    /// The index of the field in the list of field identifiers.
    pub fn field_index(&self) -> (index: u32)
        ensures
            index == self@.field_id,
    {
        self.field_id
    }

    /// The annotations, in order.
    pub fn annotations(&self) -> (annotations: &[Annotation])
        ensures
            views(annotations@) == self@.annotations,
    {
        self.annotations.as_slice()
    }
}

impl Clone for FieldAnnotations {
    fn clone(&self) -> (copy: FieldAnnotations)
        ensures
            copy@ == self@,
    {
        FieldAnnotations { field_id: self.field_id, annotations: replicate_all(&self.annotations) }
    }
}

impl Replicate for FieldAnnotations {
    fn replicate(&self) -> (copy: FieldAnnotations) {
        self.clone()
    }
}

impl Keyed for FieldAnnotations {
    closed spec fn key_of(&self) -> u32 {
        self.field_id
    }

    fn key(&self) -> (key: u32) {
        self.field_id
    }
}

/// The annotations of a method.
#[derive(Debug)]
pub struct MethodAnnotations {
    method_id: u32,
    annotations: Vec<Annotation>,
}

/// Mathematical model of [`MethodAnnotations`].
pub struct MethodAnnotationsView {
    pub method_id: u32,
    pub annotations: Seq<AnnotationView>,
}

impl View for MethodAnnotations {
    type V = MethodAnnotationsView;

    closed spec fn view(&self) -> MethodAnnotationsView {
        MethodAnnotationsView { method_id: self.method_id, annotations: views(self.annotations@) }
    }
}

impl MethodAnnotations {
    /// The annotations of the method at this index of the list of method
    /// identifiers.
    pub fn new(method_id: u32, annotations: Vec<Annotation>) -> (list: MethodAnnotations)
        ensures
            list@ == (MethodAnnotationsView { method_id, annotations: views(annotations@) }),
    {
        MethodAnnotations { method_id, annotations }
    }

    /// The index of the method in the list of method identifiers.
    pub fn method_index(&self) -> (index: u32)
        ensures
            index == self@.method_id,
    {
        self.method_id
    }

    /// The annotations, in order.
    pub fn annotations(&self) -> (annotations: &[Annotation])
        ensures
            views(annotations@) == self@.annotations,
    {
        self.annotations.as_slice()
    }
}

impl Clone for MethodAnnotations {
    fn clone(&self) -> (copy: MethodAnnotations)
        ensures
            copy@ == self@,
    {
        MethodAnnotations { method_id: self.method_id, annotations: replicate_all(&self.annotations) }
    }
}

impl Replicate for MethodAnnotations {
    fn replicate(&self) -> (copy: MethodAnnotations) {
        self.clone()
    }
}

impl Keyed for MethodAnnotations {
    closed spec fn key_of(&self) -> u32 {
        self.method_id
    }

    fn key(&self) -> (key: u32) {
        self.method_id
    }
}

/// The annotations of the parameters of a method.
#[derive(Debug)]
pub struct ParameterAnnotations {
    method_id: u32,
    annotations: Vec<Annotation>,
}

/// Mathematical model of [`ParameterAnnotations`].
pub struct ParameterAnnotationsView {
    pub method_id: u32,
    pub annotations: Seq<AnnotationView>,
}

impl View for ParameterAnnotations {
    type V = ParameterAnnotationsView;

    closed spec fn view(&self) -> ParameterAnnotationsView {
        ParameterAnnotationsView { method_id: self.method_id, annotations: views(self.annotations@) }
    }
}

impl ParameterAnnotations {
    /// The annotations of the parameters of the method at this index of the
    /// list of method identifiers.
    pub fn new(method_id: u32, annotations: Vec<Annotation>) -> (list: ParameterAnnotations)
        ensures
            list@ == (ParameterAnnotationsView { method_id, annotations: views(annotations@) }),
    {
        ParameterAnnotations { method_id, annotations }
    }

    /// The index of the method in the list of method identifiers.
    pub fn method_index(&self) -> (index: u32)
        ensures
            index == self@.method_id,
    {
        self.method_id
    }

    /// The annotations, in order.
    pub fn annotations(&self) -> (annotations: &[Annotation])
        ensures
            views(annotations@) == self@.annotations,
    {
        self.annotations.as_slice()
    }
}

impl Clone for ParameterAnnotations {
    fn clone(&self) -> (copy: ParameterAnnotations)
        ensures
            copy@ == self@,
    {
        ParameterAnnotations { method_id: self.method_id, annotations: replicate_all(&self.annotations) }
    }
}

impl Replicate for ParameterAnnotations {
    fn replicate(&self) -> (copy: ParameterAnnotations) {
        self.clone()
    }
}

impl Keyed for ParameterAnnotations {
    closed spec fn key_of(&self) -> u32 {
        self.method_id
    }

    fn key(&self) -> (key: u32) {
        self.method_id
    }
}

/// The annotations of a class: those of the class itself, of its fields, of
/// its methods and of the parameters of its methods.
#[derive(Debug)]
pub struct AnnotationsDirectory {
    class_annotations: Vec<Annotation>,
    field_annotations: Vec<FieldAnnotations>,
    method_annotations: Vec<MethodAnnotations>,
    parameter_annotations: Vec<ParameterAnnotations>,
}

/// Mathematical model of [`AnnotationsDirectory`].
pub struct AnnotationsDirectoryView {
    pub class_annotations: Seq<AnnotationView>,
    pub field_annotations: Seq<FieldAnnotationsView>,
    pub method_annotations: Seq<MethodAnnotationsView>,
    pub parameter_annotations: Seq<ParameterAnnotationsView>,
}

impl AnnotationsDirectoryView {
    /// The field indices of the field annotations, in order.
    pub open spec fn field_indices(self) -> Seq<u32> {
        self.field_annotations.map_values(|list: FieldAnnotationsView| list.field_id)
    }

    /// The method indices of the method annotations, in order.
    pub open spec fn method_indices(self) -> Seq<u32> {
        self.method_annotations.map_values(|list: MethodAnnotationsView| list.method_id)
    }

    /// The method indices of the parameter annotations, in order.
    pub open spec fn parameter_indices(self) -> Seq<u32> {
        self.parameter_annotations.map_values(|list: ParameterAnnotationsView| list.method_id)
    }

    /// Whether each of the three indexed collections is in ascending order
    /// of its index, with no index twice, as the container format has
    /// them.
    pub open spec fn sorted(self) -> bool {
        &&& strictly_increasing(self.field_indices())
        &&& strictly_increasing(self.method_indices())
        &&& strictly_increasing(self.parameter_indices())
    }
}

impl View for AnnotationsDirectory {
    type V = AnnotationsDirectoryView;

    closed spec fn view(&self) -> AnnotationsDirectoryView {
        AnnotationsDirectoryView {
            class_annotations: views(self.class_annotations@),
            field_annotations: views(self.field_annotations@),
            method_annotations: views(self.method_annotations@),
            parameter_annotations: views(self.parameter_annotations@),
        }
    }
}

impl AnnotationsDirectory {
    /// The directory of these four collections, each as it is given: the
    /// order is kept, and nothing is checked. Whether the indexed
    /// collections are ordered as the container format has them is what
    /// [`Self::is_sorted`] tells.
    pub fn new(
        class_annotations: Vec<Annotation>,
        field_annotations: Vec<FieldAnnotations>,
        method_annotations: Vec<MethodAnnotations>,
        parameter_annotations: Vec<ParameterAnnotations>,
    ) -> (directory: AnnotationsDirectory)
        ensures
            directory@ == (AnnotationsDirectoryView {
                class_annotations: views(class_annotations@),
                field_annotations: views(field_annotations@),
                method_annotations: views(method_annotations@),
                parameter_annotations: views(parameter_annotations@),
            }),
    {
        AnnotationsDirectory {
            class_annotations,
            field_annotations,
            method_annotations,
            parameter_annotations,
        }
    }

    /// The annotations of the class itself, in order.
    pub fn class_annotations(&self) -> (annotations: &[Annotation])
        ensures
            views(annotations@) == self@.class_annotations,
    {
        self.class_annotations.as_slice()
    }

    /// The annotations of the fields, in order.
    pub fn field_annotations(&self) -> (annotations: &[FieldAnnotations])
        ensures
            views(annotations@) == self@.field_annotations,
    {
        self.field_annotations.as_slice()
    }

    /// The annotations of the methods, in order.
    pub fn method_annotations(&self) -> (annotations: &[MethodAnnotations])
        ensures
            views(annotations@) == self@.method_annotations,
    {
        self.method_annotations.as_slice()
    }

    /// The annotations of the parameters of the methods, in order.
    pub fn parameter_annotations(&self) -> (annotations: &[ParameterAnnotations])
        ensures
            views(annotations@) == self@.parameter_annotations,
    {
        self.parameter_annotations.as_slice()
    }

    /// Tells whether each of the three indexed collections is in ascending
    /// order of its index, with no index twice.
    pub fn is_sorted(&self) -> (sorted: bool)
        ensures
            sorted == self@.sorted(),
    {
        assert(keys(self.field_annotations@) =~= self@.field_indices());
        assert(keys(self.method_annotations@) =~= self@.method_indices());
        assert(keys(self.parameter_annotations@) =~= self@.parameter_indices());
        is_strictly_increasing(self.field_annotations.as_slice()) && is_strictly_increasing(
            self.method_annotations.as_slice(),
        ) && is_strictly_increasing(self.parameter_annotations.as_slice())
    }
}

impl Clone for AnnotationsDirectory {
    fn clone(&self) -> (copy: AnnotationsDirectory)
        ensures
            copy@ == self@,
    {
        AnnotationsDirectory {
            class_annotations: replicate_all(&self.class_annotations),
            field_annotations: replicate_all(&self.field_annotations),
            method_annotations: replicate_all(&self.method_annotations),
            parameter_annotations: replicate_all(&self.parameter_annotations),
        }
    }
}

/// A directory gives back the four collections that it was made of, each
/// with its items in the order in which they were given.
pub proof fn lemma_directory_returns_its_collections(
    class_annotations: Vec<Annotation>,
    field_annotations: Vec<FieldAnnotations>,
    method_annotations: Vec<MethodAnnotations>,
    parameter_annotations: Vec<ParameterAnnotations>,
    directory: AnnotationsDirectory,
)
    requires
        call_ensures(
            AnnotationsDirectory::new,
            (class_annotations, field_annotations, method_annotations, parameter_annotations),
            directory,
        ),
    ensures
        forall|got: &[Annotation]|
            call_ensures(AnnotationsDirectory::class_annotations, (&directory,), got) ==> views(
                got@,
            ) == views(class_annotations@),
        forall|got: &[FieldAnnotations]|
            call_ensures(AnnotationsDirectory::field_annotations, (&directory,), got) ==> views(
                got@,
            ) == views(field_annotations@),
        forall|got: &[MethodAnnotations]|
            call_ensures(AnnotationsDirectory::method_annotations, (&directory,), got) ==> views(
                got@,
            ) == views(method_annotations@),
        forall|got: &[ParameterAnnotations]|
            call_ensures(AnnotationsDirectory::parameter_annotations, (&directory,), got)
                ==> views(got@) == views(parameter_annotations@),
{
}

} // verus!
