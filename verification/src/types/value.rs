//! Encoded values: constants, arrays of values and annotations, nested to
//! any depth.

use vstd::prelude::*;
use crate::types::descriptor::{Type, TypeView};
use crate::types::model::{option_view, views};
use crate::types::order::{is_strictly_increasing, keys, strictly_increasing, Keyed};

verus! {

/// An encoded value.
#[derive(Debug)]
pub enum Value {
    /// Byte.
    Byte(i8),
    /// Short (16 bits).
    Short(i16),
    /// Char (16 bits).
    Char(u16),
    /// Int (32 bits).
    Int(i32),
    /// Long (64 bits).
    Long(i64),
    /// Single-precision number, as its 32 bits in IEEE 754 layout.
    Float(u32),
    /// Double-precision number, as its 64 bits in IEEE 754 layout.
    Double(u64),
    /// String, as an index into the list of string identifiers.
    String(u32),
    /// Type, as an index into the list of type identifiers.
    Type(u32),
    /// Field, as an index into the list of field identifiers.
    Field(u32),
    /// Method, as an index into the list of method identifiers.
    Method(u32),
    /// Enumeration constant, as an index into the list of field identifiers.
    Enum(u32),
    /// An array of values, which need not be of one kind.
    Array(Array),
    /// An annotation.
    Annotation(EncodedAnnotation),
    /// Null.
    Null,
    /// Boolean.
    Boolean(bool),
}

/// An array of values.
#[derive(Debug)]
pub struct Array {
    inner: Vec<Value>,
}

/// An element of an annotation: a name and a value.
#[derive(Debug)]
pub struct AnnotationElement {
    name: u32,
    value: Value,
}

/// An annotation: its type and its elements.
#[derive(Debug)]
pub struct EncodedAnnotation {
    type_id: u32,
    elements: Vec<AnnotationElement>,
}

/// Mathematical model of [`Value`]. The model of an [`Array`] is the
/// sequence of the models of its values.
pub enum ValueView {
    Byte(i8),
    Short(i16),
    Char(u16),
    Int(i32),
    Long(i64),
    Float(u32),
    Double(u64),
    String(u32),
    Type(u32),
    Field(u32),
    Method(u32),
    Enum(u32),
    Array(Seq<ValueView>),
    Annotation(EncodedAnnotationView),
    Null,
    Boolean(bool),
}

/// Mathematical model of [`AnnotationElement`].
pub struct AnnotationElementView {
    pub name: u32,
    pub value: ValueView,
}

/// Mathematical model of [`EncodedAnnotation`].
pub struct EncodedAnnotationView {
    pub type_id: u32,
    pub elements: Seq<AnnotationElementView>,
}

impl ValueView {
    /// How deep the value nests: a value that holds no other is 0 deep, an
    /// array or an annotation is one deeper than the deepest value it
    /// holds.
    pub open spec fn depth(self) -> nat
        decreases self,
    {
        match self {
            ValueView::Array(values) => 1 + deepest(values),
            ValueView::Annotation(annotation) => 1 + deepest_element(annotation.elements),
            _ => 0,
        }
    }
}

/// The value that a field of a type holds when none is given for it: zero
/// for a number, `false` for a boolean, null for a reference. `void` is the
/// type of no field.
pub open spec fn zero_value(t: TypeView) -> Option<ValueView> {
    match t {
        TypeView::Void => None,
        TypeView::Boolean => Some(ValueView::Boolean(false)),
        TypeView::Byte => Some(ValueView::Byte(0)),
        TypeView::Short => Some(ValueView::Short(0)),
        TypeView::Char => Some(ValueView::Char(0)),
        TypeView::Int => Some(ValueView::Int(0)),
        TypeView::Long => Some(ValueView::Long(0)),
        TypeView::Float => Some(ValueView::Float(0)),
        TypeView::Double => Some(ValueView::Double(0)),
        TypeView::FullyQualifiedName(_) => Some(ValueView::Null),
        TypeView::Array { .. } => Some(ValueView::Null),
    }
}

/// The depth of the deepest of the values; 0 if there is none.
pub open spec fn deepest(values: Seq<ValueView>) -> nat
    decreases values,
{
    if values.len() == 0 {
        0
    } else {
        let last = values.last().depth();
        let before = deepest(values.drop_last());
        if last > before {
            last
        } else {
            before
        }
    }
}

/// The depth of the deepest value of the elements; 0 if there is none.
pub open spec fn deepest_element(elements: Seq<AnnotationElementView>) -> nat
    decreases elements,
{
    if elements.len() == 0 {
        0
    } else {
        let last = elements.last().value.depth();
        let before = deepest_element(elements.drop_last());
        if last > before {
            last
        } else {
            before
        }
    }
}

impl EncodedAnnotationView {
    /// The names of the elements, in order.
    pub open spec fn names(self) -> Seq<u32> {
        self.elements.map_values(|element: AnnotationElementView| element.name)
    }

    /// Whether the elements are in ascending order of their names, with no
    /// name twice.
    pub open spec fn sorted(self) -> bool {
        strictly_increasing(self.names())
    }
}

/// The deepest of some values is within a bound exactly if each of them is.
pub proof fn lemma_deepest_within(values: Seq<ValueView>, bound: nat)
    ensures
        deepest(values) <= bound <==> forall|i: int|
            0 <= i < values.len() ==> (#[trigger] values[i]).depth() <= bound,
    decreases values.len(),
{
    if values.len() > 0 {
        let before = values.drop_last();
        lemma_deepest_within(before, bound);
        if deepest(values) <= bound {
            assert forall|i: int| 0 <= i < values.len() implies (#[trigger] values[i]).depth()
                <= bound by {
                if i < values.len() - 1 {
                    assert(values[i] == before[i]);
                }
            }
        } else if values.last().depth() <= bound {
            let i = choose|i: int| 0 <= i < before.len() && !((#[trigger] before[i]).depth() <= bound);
            assert(before[i] == values[i]);
        }
    }
}

/// The deepest value of some elements is within a bound exactly if the
/// value of each of them is.
pub proof fn lemma_deepest_element_within(elements: Seq<AnnotationElementView>, bound: nat)
    ensures
        deepest_element(elements) <= bound <==> forall|i: int|
            0 <= i < elements.len() ==> (#[trigger] elements[i]).value.depth() <= bound,
    decreases elements.len(),
{
    if elements.len() > 0 {
        let before = elements.drop_last();
        lemma_deepest_element_within(before, bound);
        if deepest_element(elements) <= bound {
            assert forall|i: int| 0 <= i < elements.len() implies (
            #[trigger] elements[i]).value.depth() <= bound by {
                if i < elements.len() - 1 {
                    assert(elements[i] == before[i]);
                }
            }
        } else if elements.last().value.depth() <= bound {
            let i = choose|i: int|
                0 <= i < before.len() && !((#[trigger] before[i]).value.depth() <= bound);
            assert(before[i] == elements[i]);
        }
    }
}

/// An array that holds one annotation, whose one element holds a value,
/// nests two levels deeper than that value.
pub proof fn lemma_wrapping_adds_two_levels(type_id: u32, name: u32, value: ValueView)
    ensures
        ValueView::Array(
            seq![
                ValueView::Annotation(
                    EncodedAnnotationView {
                        type_id,
                        elements: seq![AnnotationElementView { name, value }],
                    },
                ),
            ],
        ).depth() == value.depth() + 2,
{
    let elements = seq![AnnotationElementView { name, value }];
    let annotation = ValueView::Annotation(EncodedAnnotationView { type_id, elements });
    let values = seq![annotation];
    assert(elements.drop_last() == Seq::<AnnotationElementView>::empty());
    assert(deepest_element(elements.drop_last()) == 0);
    assert(deepest_element(elements) == value.depth());
    assert(values.drop_last() == Seq::<ValueView>::empty());
    assert(deepest(values.drop_last()) == 0);
    assert(deepest(values) == annotation.depth());
}

impl View for Value {
    type V = ValueView;

    open spec fn view(&self) -> ValueView
        decreases self,
    {
        match self {
            Value::Byte(v) => ValueView::Byte(*v),
            Value::Short(v) => ValueView::Short(*v),
            Value::Char(v) => ValueView::Char(*v),
            Value::Int(v) => ValueView::Int(*v),
            Value::Long(v) => ValueView::Long(*v),
            Value::Float(bits) => ValueView::Float(*bits),
            Value::Double(bits) => ValueView::Double(*bits),
            Value::String(index) => ValueView::String(*index),
            Value::Type(index) => ValueView::Type(*index),
            Value::Field(index) => ValueView::Field(*index),
            Value::Method(index) => ValueView::Method(*index),
            Value::Enum(index) => ValueView::Enum(*index),
            Value::Array(array) => ValueView::Array(array.view()),
            Value::Annotation(annotation) => ValueView::Annotation(annotation.view()),
            Value::Null => ValueView::Null,
            Value::Boolean(v) => ValueView::Boolean(*v),
        }
    }
}

impl View for Array {
    type V = Seq<ValueView>;

    closed spec fn view(&self) -> Seq<ValueView>
        decreases self,
    {
        Seq::new(
            self.inner@.len(),
            |i: int|
                if 0 <= i < self.inner@.len() {
                    self.inner@[i].view()
                } else {
                    arbitrary()
                },
        )
    }
}

impl View for AnnotationElement {
    type V = AnnotationElementView;

    closed spec fn view(&self) -> AnnotationElementView
        decreases self,
    {
        AnnotationElementView { name: self.name, value: self.value.view() }
    }
}

impl View for EncodedAnnotation {
    type V = EncodedAnnotationView;

    closed spec fn view(&self) -> EncodedAnnotationView
        decreases self,
    {
        EncodedAnnotationView {
            type_id: self.type_id,
            elements: Seq::new(
                self.elements@.len(),
                |i: int|
                    if 0 <= i < self.elements@.len() {
                        self.elements@[i].view()
                    } else {
                        arbitrary()
                    },
            ),
        }
    }
}

impl Value {
    /// The nesting depth that values are expected to stay within.
    pub const MAX_DEPTH: usize = 1000;

    /// The value that a field of type `t` holds when none is given for it.
    pub fn zero_of(t: &Type) -> (value: Option<Value>)
        ensures
            option_view(value) == zero_value(t@),
    {
        match t {
            Type::Void => None,
            Type::Boolean => Some(Value::Boolean(false)),
            Type::Byte => Some(Value::Byte(0)),
            Type::Short => Some(Value::Short(0)),
            Type::Char => Some(Value::Char(0)),
            Type::Int => Some(Value::Int(0)),
            Type::Long => Some(Value::Long(0)),
            Type::Float => Some(Value::Float(0)),
            Type::Double => Some(Value::Double(0)),
            Type::FullyQualifiedName(_) => Some(Value::Null),
            Type::Array { .. } => Some(Value::Null),
        }
    }

    /// Tells whether the value nests no deeper than `limit`.
    ///
    /// The check descends at most `limit` levels into the value, however
    /// deep the value is, so that a caller can refuse a value before it
    /// walks it.
    pub fn nests_within(&self, limit: usize) -> (within: bool)
        ensures
            within == (self@.depth() <= limit),
        decreases limit, 0int,
    {
        match self {
            Value::Array(array) => {
                if limit == 0 {
                    false
                } else {
                    array.values_nest_within(limit - 1)
                }
            },
            Value::Annotation(annotation) => {
                if limit == 0 {
                    false
                } else {
                    annotation.values_nest_within(limit - 1)
                }
            },
            _ => true,
        }
    }
}

impl Clone for Value {
    fn clone(&self) -> (copy: Value)
        ensures
            copy@ == self@,
        decreases self,
    {
        match self {
            Value::Byte(v) => Value::Byte(*v),
            Value::Short(v) => Value::Short(*v),
            Value::Char(v) => Value::Char(*v),
            Value::Int(v) => Value::Int(*v),
            Value::Long(v) => Value::Long(*v),
            Value::Float(bits) => Value::Float(*bits),
            Value::Double(bits) => Value::Double(*bits),
            Value::String(index) => Value::String(*index),
            Value::Type(index) => Value::Type(*index),
            Value::Field(index) => Value::Field(*index),
            Value::Method(index) => Value::Method(*index),
            Value::Enum(index) => Value::Enum(*index),
            Value::Array(array) => Value::Array(array.clone()),
            Value::Annotation(annotation) => Value::Annotation(annotation.clone()),
            Value::Null => Value::Null,
            Value::Boolean(v) => Value::Boolean(*v),
        }
    }
}

impl Clone for Array {
    fn clone(&self) -> (copy: Array)
        ensures
            copy@ == self@,
        decreases self,
    {
        proof {
            reveal_with_fuel(<Array as View>::view, 2);
        }
        let mut inner: Vec<Value> = Vec::new();
        let mut i: usize = 0;
        while i < self.inner.len()
            invariant
                i <= self.inner.len(),
                inner@.len() == i,
                forall|j: int| 0 <= j < i ==> inner@[j]@ == self.inner@[j]@,
            decreases self.inner.len() - i,
        {
            inner.push(self.inner[i].clone());
            i += 1;
        }
        let copy = Array { inner };
        assert(copy@ =~= self@);
        copy
    }
}

impl Clone for AnnotationElement {
    fn clone(&self) -> (copy: AnnotationElement)
        ensures
            copy@ == self@,
        decreases self,
    {
        AnnotationElement { name: self.name, value: self.value.clone() }
    }
}

impl Clone for EncodedAnnotation {
    fn clone(&self) -> (copy: EncodedAnnotation)
        ensures
            copy@ == self@,
        decreases self,
    {
        proof {
            reveal_with_fuel(<EncodedAnnotation as View>::view, 2);
        }
        let mut elements: Vec<AnnotationElement> = Vec::new();
        let mut i: usize = 0;
        while i < self.elements.len()
            invariant
                i <= self.elements.len(),
                elements@.len() == i,
                forall|j: int| 0 <= j < i ==> elements@[j]@ == self.elements@[j]@,
            decreases self.elements.len() - i,
        {
            elements.push(self.elements[i].clone());
            i += 1;
        }
        let copy = EncodedAnnotation { type_id: self.type_id, elements };
        assert(copy@.elements =~= self@.elements);
        copy
    }
}

impl Keyed for AnnotationElement {
    closed spec fn key_of(&self) -> u32 {
        self.name
    }

    fn key(&self) -> (key: u32) {
        self.name
    }
}

impl Array {
    /// Tells whether every value of the array nests no deeper than `limit`.
    fn values_nest_within(&self, limit: usize) -> (within: bool)
        ensures
            within == (deepest(self@) <= limit),
        decreases limit, 1int,
    {
        proof {
            reveal_with_fuel(<Array as View>::view, 2);
            lemma_deepest_within(self@, limit as nat);
        }
        let mut i: usize = 0;
        while i < self.inner.len()
            invariant
                i <= self.inner.len(),
                self@.len() == self.inner@.len(),
                forall|j: int| 0 <= j < self.inner@.len() ==> self@[j] == self.inner@[j]@,
                forall|j: int| 0 <= j < i ==> (#[trigger] self@[j]).depth() <= limit,
                deepest(self@) <= limit <==> forall|j: int|
                    0 <= j < self@.len() ==> (#[trigger] self@[j]).depth() <= limit,
            decreases self.inner.len() - i,
        {
            if !self.inner[i].nests_within(limit) {
                assert(!(self@[i as int].depth() <= limit));
                return false;
            }
            i += 1;
        }
        true
    }

    /// The array of these values, in this order.
    pub fn new(values: Vec<Value>) -> (array: Array)
        ensures
            array@ == views(values@),
    {
        let array = Array { inner: values };
        proof {
            reveal_with_fuel(<Array as View>::view, 2);
        }
        assert(array@ =~= views(values@));
        array
    }

    /// The values, in order.
    pub fn values(&self) -> (values: &[Value])
        ensures
            views(values@) == self@,
    {
        let values = self.inner.as_slice();
        proof {
            reveal_with_fuel(<Array as View>::view, 2);
        }
        assert(views(values@) =~= self@);
        values
    }

    /// The number of values.
    pub fn len(&self) -> (len: usize)
        ensures
            len == self@.len(),
    {
        proof {
            reveal_with_fuel(<Array as View>::view, 2);
        }
        self.inner.len()
    }
}

impl AnnotationElement {
    /// The element with this name, given as an index into the list of
    /// string identifiers, and this value.
    pub fn new(name: u32, value: Value) -> (element: AnnotationElement)
        ensures
            element@ == (AnnotationElementView { name, value: value@ }),
    {
        AnnotationElement { name, value }
    }

    /// The index of the name in the list of string identifiers.
    pub fn name_index(&self) -> (name: u32)
        ensures
            name == self@.name,
    {
        self.name
    }

    /// The value.
    pub fn value(&self) -> (value: &Value)
        ensures
            value@ == self@.value,
    {
        &self.value
    }
}

impl core::ops::Deref for AnnotationElement {
    type Target = Value;

    fn deref(&self) -> (value: &Value)
        ensures
            value@ == self@.value,
    {
        &self.value
    }
}

impl EncodedAnnotation {
    /// Tells whether the value of every element nests no deeper than
    /// `limit`.
    fn values_nest_within(&self, limit: usize) -> (within: bool)
        ensures
            within == (deepest_element(self@.elements) <= limit),
        decreases limit, 1int,
    {
        proof {
            reveal_with_fuel(<EncodedAnnotation as View>::view, 2);
            reveal_with_fuel(<AnnotationElement as View>::view, 2);
            lemma_deepest_element_within(self@.elements, limit as nat);
        }
        let ghost elements = self@.elements;
        let mut i: usize = 0;
        while i < self.elements.len()
            invariant
                i <= self.elements.len(),
                elements == self@.elements,
                elements.len() == self.elements@.len(),
                forall|j: int|
                    0 <= j < self.elements@.len() ==> elements[j].value == self.elements@[j].value@,
                forall|j: int| 0 <= j < i ==> (#[trigger] elements[j]).value.depth() <= limit,
                deepest_element(elements) <= limit <==> forall|j: int|
                    0 <= j < elements.len() ==> (#[trigger] elements[j]).value.depth() <= limit,
            decreases self.elements.len() - i,
        {
            if !self.elements[i].value.nests_within(limit) {
                assert(!(elements[i as int].value.depth() <= limit));
                return false;
            }
            i += 1;
        }
        true
    }

    /// Tells whether the elements are in ascending order of their names,
    /// with no name twice, as the container format has them.
    pub fn is_sorted(&self) -> (sorted: bool)
        ensures
            sorted == self@.sorted(),
    {
        proof {
            reveal_with_fuel(<EncodedAnnotation as View>::view, 2);
            reveal_with_fuel(<AnnotationElement as View>::view, 2);
        }
        assert(keys(self.elements@) =~= self@.names());
        is_strictly_increasing(self.elements.as_slice())
    }

    /// The annotation of this type, given as an index into the list of type
    /// identifiers, with these elements in this order.
    pub fn new(type_id: u32, elements: Vec<AnnotationElement>) -> (annotation: EncodedAnnotation)
        ensures
            annotation@ == (EncodedAnnotationView { type_id, elements: views(elements@) }),
    {
        let annotation = EncodedAnnotation { type_id, elements };
        proof {
            reveal_with_fuel(<EncodedAnnotation as View>::view, 2);
        }
        assert(annotation@.elements =~= views(elements@));
        annotation
    }

    /// The index of the annotation's type in the list of type identifiers.
    pub fn type_index(&self) -> (type_id: u32)
        ensures
            type_id == self@.type_id,
    {
        self.type_id
    }

    /// The elements, in order.
    pub fn elements(&self) -> (elements: &[AnnotationElement])
        ensures
            views(elements@) == self@.elements,
    {
        let elements = self.elements.as_slice();
        proof {
            reveal_with_fuel(<EncodedAnnotation as View>::view, 2);
        }
        assert(views(elements@) =~= self@.elements);
        elements
    }
}

} // verus!
