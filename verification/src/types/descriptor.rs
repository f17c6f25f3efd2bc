//! Type descriptors: the types of the container format, how they are
//! parsed from descriptor strings and how they are rendered.

use vstd::prelude::*;
use vstd::std_specs::iter::IteratorSpec;
use crate::error::{outcome, Parse, ParseView};
use crate::types::text::{decimal, decimal_string};

verus! {

/// A type of the container format.
#[derive(Debug)]
pub enum Type {
    /// Void type.
    Void,
    /// Boolean.
    Boolean,
    /// Byte (8 bits).
    Byte,
    /// Short (16 bits).
    Short,
    /// Char (16 bits).
    Char,
    /// Int (32 bits).
    Int,
    /// Long (64 bits).
    Long,
    /// Float (32 bits).
    Float,
    /// Double (64 bits).
    Double,
    /// A reference type, by its fully qualified name.
    FullyQualifiedName(String),
    /// An array. Arrays of arrays are one array with more dimensions.
    Array {
        /// Number of dimensions.
        dimensions: usize,
        /// Type of the elements.
        array_type: Box<Type>,
    },
}

/// Mathematical model of [`Type`].
pub enum TypeView {
    Void,
    Boolean,
    Byte,
    Short,
    Char,
    Int,
    Long,
    Float,
    Double,
    FullyQualifiedName(Seq<char>),
    Array { dimensions: nat, array_type: Box<TypeView> },
}

impl View for Type {
    type V = TypeView;

    open spec fn view(&self) -> TypeView
        decreases self,
    {
        match self {
            Type::Void => TypeView::Void,
            Type::Boolean => TypeView::Boolean,
            Type::Byte => TypeView::Byte,
            Type::Short => TypeView::Short,
            Type::Char => TypeView::Char,
            Type::Int => TypeView::Int,
            Type::Long => TypeView::Long,
            Type::Float => TypeView::Float,
            Type::Double => TypeView::Double,
            Type::FullyQualifiedName(name) => TypeView::FullyQualifiedName(name@),
            Type::Array { dimensions, array_type } => TypeView::Array {
                dimensions: *dimensions as nat,
                array_type: Box::new((**array_type).view()),
            },
        }
    }
}

impl Clone for Type {
    fn clone(&self) -> (copy: Type)
        ensures
            copy@ == self@,
        decreases self,
    {
        match self {
            Type::Void => Type::Void,
            Type::Boolean => Type::Boolean,
            Type::Byte => Type::Byte,
            Type::Short => Type::Short,
            Type::Char => Type::Char,
            Type::Int => Type::Int,
            Type::Long => Type::Long,
            Type::Float => Type::Float,
            Type::Double => Type::Double,
            Type::FullyQualifiedName(name) => Type::FullyQualifiedName(name.clone()),
            Type::Array { dimensions, array_type } => Type::Array {
                dimensions: *dimensions,
                array_type: Box::new((**array_type).clone()),
            },
        }
    }
}

impl TypeView {
    /// The type of arrays of `self` with `count` dimensions; for an array,
    /// the array with `count` dimensions more.
    pub open spec fn array_of(self, count: nat) -> TypeView {
        match self {
            TypeView::Array { dimensions, array_type } => TypeView::Array {
                dimensions: count + dimensions,
                array_type,
            },
            _ => TypeView::Array { dimensions: count, array_type: Box::new(self) },
        }
    }

    /// An array has at least one dimension, and its elements are no arrays.
    pub open spec fn well_formed(self) -> bool {
        match self {
            TypeView::Array { dimensions, array_type } => dimensions >= 1 && !(*array_type is Array),
            _ => true,
        }
    }

    /// How the type is rendered: a primitive as its keyword, a reference
    /// type as its name, an array as its element type followed by the
    /// number of dimensions in square brackets.
    pub open spec fn rendering(self) -> Seq<char>
        decreases self,
    {
        match self {
            TypeView::Void => "void"@,
            TypeView::Boolean => "boolean"@,
            TypeView::Byte => "byte"@,
            TypeView::Short => "short"@,
            TypeView::Char => "char"@,
            TypeView::Int => "int"@,
            TypeView::Long => "long"@,
            TypeView::Float => "float"@,
            TypeView::Double => "double"@,
            TypeView::FullyQualifiedName(name) => name,
            TypeView::Array { dimensions, array_type } => array_type.rendering() + seq!['[']
                + decimal(dimensions) + seq![']'],
        }
    }
}

/// The primitive type that a tag character stands for.
pub open spec fn primitive(tag: char) -> Option<TypeView> {
    if tag == 'V' {
        Some(TypeView::Void)
    } else if tag == 'Z' {
        Some(TypeView::Boolean)
    } else if tag == 'B' {
        Some(TypeView::Byte)
    } else if tag == 'S' {
        Some(TypeView::Short)
    } else if tag == 'C' {
        Some(TypeView::Char)
    } else if tag == 'I' {
        Some(TypeView::Int)
    } else if tag == 'J' {
        Some(TypeView::Long)
    } else if tag == 'F' {
        Some(TypeView::Float)
    } else if tag == 'D' {
        Some(TypeView::Double)
    } else {
        None
    }
}

/// Number of `[` characters at the start of `s`.
pub open spec fn leading_brackets(s: Seq<char>) -> nat
    decreases s.len(),
{
    if s.len() > 0 && s[0] == '[' {
        1 + leading_brackets(s.drop_first())
    } else {
        0
    }
}

/// What a descriptor that does not start with `[` denotes. A primitive tag
/// denotes its type, whatever follows it; `L` denotes the reference type
/// named by all that follows it.
pub open spec fn parse_element(s: Seq<char>) -> Result<TypeView, ParseView> {
    if s.len() == 0 {
        Err(ParseView::InvalidTypeDescriptor(s))
    } else if primitive(s[0]) is Some {
        Ok(primitive(s[0])->0)
    } else if s[0] == 'L' {
        Ok(TypeView::FullyQualifiedName(s.drop_first()))
    } else {
        Err(ParseView::InvalidTypeDescriptor(s))
    }
}

/// What a descriptor denotes. Leading `[` characters count the dimensions
/// of an array, whose element type is what the rest denotes; an error in
/// the rest carries the rest.
pub open spec fn parse_type(s: Seq<char>) -> Result<TypeView, ParseView> {
    let dimensions = leading_brackets(s);
    if dimensions == 0 {
        parse_element(s)
    } else if dimensions == s.len() {
        Err(ParseView::InvalidTypeDescriptor(s))
    } else {
        match parse_element(s.skip(dimensions as int)) {
            Ok(element) => Ok(TypeView::Array { dimensions, array_type: Box::new(element) }),
            Err(e) => Err(e),
        }
    }
}

/// The keyword that the primitive type of a tag character is rendered as.
pub open spec fn primitive_keyword(tag: char) -> Seq<char> {
    if tag == 'V' {
        "void"@
    } else if tag == 'Z' {
        "boolean"@
    } else if tag == 'B' {
        "byte"@
    } else if tag == 'S' {
        "short"@
    } else if tag == 'C' {
        "char"@
    } else if tag == 'I' {
        "int"@
    } else if tag == 'J' {
        "long"@
    } else if tag == 'F' {
        "float"@
    } else {
        "double"@
    }
}

/// `count` characters `[`.
pub open spec fn brackets(count: nat) -> Seq<char> {
    Seq::new(count, |i: int| '[')
}

/// A run of `count` brackets that ends at the end of `s` or before another
/// character is all of the leading brackets of `s`.
proof fn lemma_leading_brackets(s: Seq<char>, count: nat)
    requires
        count <= s.len(),
        forall|j: int| 0 <= j < count ==> s[j] == '[',
        count == s.len() || s[count as int] != '[',
    ensures
        leading_brackets(s) == count,
    decreases count,
{
    if count > 0 {
        let rest = s.drop_first();
        assert forall|j: int| 0 <= j < count - 1 implies rest[j] == '[' by {
            assert(rest[j] == s[j + 1]);
        }
        lemma_leading_brackets(rest, (count - 1) as nat);
    }
}

/// The leading brackets of `s` are a run of brackets that ends at the end of
/// `s` or before another character.
proof fn lemma_leading_brackets_run(s: Seq<char>)
    ensures
        leading_brackets(s) <= s.len(),
        forall|j: int| 0 <= j < leading_brackets(s) ==> s[j] == '[',
        leading_brackets(s) == s.len() || s[leading_brackets(s) as int] != '[',
    decreases s.len(),
{
    if s.len() > 0 && s[0] == '[' {
        let rest = s.drop_first();
        lemma_leading_brackets_run(rest);
        assert forall|j: int| 0 <= j < leading_brackets(s) implies s[j] == '[' by {
            if j > 0 {
                assert(s[j] == rest[j - 1]);
            }
        }
        if leading_brackets(s) != s.len() {
            assert(s[leading_brackets(s) as int] == rest[leading_brackets(rest) as int]);
        }
    }
}

/// Every primitive tag is a descriptor of its own: it denotes its type, and
/// that type is rendered as its keyword.
pub proof fn lemma_primitive_round_trip(tag: char)
    requires
        primitive(tag) is Some,
    ensures
        parse_type(seq![tag]) == Ok::<TypeView, ParseView>(primitive(tag)->0),
        primitive(tag)->0.rendering() == primitive_keyword(tag),
{
    lemma_leading_brackets(seq![tag], 0);
}

/// Parsing the descriptor that is one primitive tag succeeds, and rendering
/// what was parsed gives the keyword of the tag.
pub proof fn lemma_primitive_descriptor_round_trip(s: &str, parsed: Result<Type, Parse>)
    requires
        s@.len() == 1,
        primitive(s@[0]) is Some,
        call_ensures(Type::from_str, (s,), parsed),
    ensures
        parsed is Ok,
        parsed->Ok_0@ == primitive(s@[0])->0,
        forall|text: String|
            call_ensures(Type::to_string, (&parsed->Ok_0,), text) ==> text@ == primitive_keyword(
                s@[0],
            ),
{
    assert(s@ == seq![s@[0]]);
    lemma_primitive_round_trip(s@[0]);
}

/// Brackets before a descriptor make arrays of what it denotes: one
/// dimension for each bracket, on top of the dimensions it already has.
/// Before a descriptor of a type that is no array, `count` brackets denote
/// the array of that type with `count` dimensions.
pub proof fn lemma_brackets_make_arrays(count: nat, d: Seq<char>)
    requires
        count >= 1,
        parse_type(d) is Ok,
    ensures
        parse_type(brackets(count) + d) == Ok::<TypeView, ParseView>(
            parse_type(d)->Ok_0.array_of(count),
        ),
        !(parse_type(d)->Ok_0 is Array) ==> parse_type(brackets(count) + d) == Ok::<
            TypeView,
            ParseView,
        >(TypeView::Array { dimensions: count, array_type: Box::new(parse_type(d)->Ok_0) }),
{
    let s = brackets(count) + d;
    let inner = leading_brackets(d);
    lemma_leading_brackets_run(d);
    lemma_leading_brackets(s, count + inner);
    assert(s.skip((count + inner) as int) == d.skip(inner as int));
    if inner == 0 {
        assert(d.skip(0) == d);
    }
}

/// `L` before a name denotes the reference type of that name: the name is
/// all that follows the `L`, with nothing taken from its end.
pub proof fn lemma_reference_keeps_name(name: Seq<char>)
    ensures
        parse_type(seq!['L'] + name) == Ok::<TypeView, ParseView>(
            TypeView::FullyQualifiedName(name),
        ),
{
    let s = seq!['L'] + name;
    lemma_leading_brackets(s, 0);
    assert(s.drop_first() == name);
}

/// What a descriptor denotes is well formed, and an array has as many
/// dimensions as the descriptor has leading brackets.
pub proof fn lemma_parsed_type_is_well_formed(s: Seq<char>)
    requires
        parse_type(s) is Ok,
    ensures
        parse_type(s)->Ok_0.well_formed(),
        parse_type(s)->Ok_0 matches TypeView::Array { dimensions, .. } ==> dimensions
            == leading_brackets(s),
        parse_type(s)->Ok_0 is Array <==> leading_brackets(s) > 0,
{
}

/// Counts the `[` characters at the start of `s`.
fn count_leading_brackets(s: &str) -> (count: usize)
    ensures
        count == leading_brackets(s@),
        count <= s@.len(),
{
    broadcast use vstd::string::group_string_axioms;

    let len = s.unicode_len();
    let mut chars = s.chars();
    let mut count: usize = 0;
    loop
        invariant_except_break
            chars.remaining() == s@.skip(count as int),
        invariant
            len == s@.len(),
            count <= len,
            forall|j: int| 0 <= j < count ==> s@[j] == '[',
        ensures
            count <= len,
            forall|j: int| 0 <= j < count ==> s@[j] == '[',
            count == len || s@[count as int] != '[',
        decreases len - count,
    {
        match chars.next() {
            Some(c) => {
                if c == '[' {
                    assert(s@.skip(count as int).drop_first() == s@.skip(count + 1));
                    count += 1;
                } else {
                    break ;
                }
            },
            None => {
                break ;
            },
        }
    }
    proof {
        lemma_leading_brackets(s@, count as nat);
    }
    count
}

/// Parses a descriptor that does not start with `[`.
fn element_from_str(s: &str) -> (parsed: Result<Type, Parse>)
    ensures
        outcome(parsed) == parse_element(s@),
{
    broadcast use vstd::string::group_string_axioms;

    let mut chars = s.chars();
    match chars.next() {
        None => Err(Parse::InvalidTypeDescriptor(s.to_owned())),
        Some(tag) => {
            if tag == 'V' {
                Ok(Type::Void)
            } else if tag == 'Z' {
                Ok(Type::Boolean)
            } else if tag == 'B' {
                Ok(Type::Byte)
            } else if tag == 'S' {
                Ok(Type::Short)
            } else if tag == 'C' {
                Ok(Type::Char)
            } else if tag == 'I' {
                Ok(Type::Int)
            } else if tag == 'J' {
                Ok(Type::Long)
            } else if tag == 'F' {
                Ok(Type::Float)
            } else if tag == 'D' {
                Ok(Type::Double)
            } else if tag == 'L' {
                let len = s.unicode_len();
                let name = s.substring_char(1, len);
                assert(name@ == s@.drop_first());
                Ok(Type::FullyQualifiedName(name.to_owned()))
            } else {
                Err(Parse::InvalidTypeDescriptor(s.to_owned()))
            }
        },
    }
}

impl core::str::FromStr for Type {
    type Err = Parse;

    /// Parses a type descriptor, as [`Type::from_str`] does.
    fn from_str(s: &str) -> (parsed: Result<Type, Parse>)
        ensures
            outcome(parsed) == parse_type(s@),
            parsed matches Ok(t) ==> t@.well_formed(),
    {
        Type::from_str(s)
    }
}

impl Type {
    /// Parses a type descriptor.
    ///
    /// The first character is a tag. A primitive tag gives its type, and
    /// what follows it is not looked at. `L` gives the reference type named
    /// by all that follows. Each leading `[` adds an array dimension to the
    /// type that the rest denotes. Anything else, the empty string and
    /// brackets with nothing behind them are errors.
    pub fn from_str(s: &str) -> (parsed: Result<Type, Parse>)
        ensures
            outcome(parsed) == parse_type(s@),
            parsed matches Ok(t) ==> t@.well_formed(),
    {
        let dimensions = count_leading_brackets(s);
        if dimensions == 0 {
            element_from_str(s)
        } else {
            let len = s.unicode_len();
            if dimensions == len {
                Err(Parse::InvalidTypeDescriptor(s.to_owned()))
            } else {
                let rest = s.substring_char(dimensions, len);
                match element_from_str(rest) {
                    Ok(element) => Ok(Type::Array { dimensions, array_type: Box::new(element) }),
                    Err(e) => Err(e),
                }
            }
        }
    }

    /// Tells whether the type is as the parser makes it: an array has at
    /// least one dimension, and its elements are no arrays.
    pub fn is_well_formed(&self) -> (well_formed: bool)
        ensures
            well_formed == self@.well_formed(),
    {
        proof {
            reveal_with_fuel(<Type as View>::view, 2);
        }
        match self {
            Type::Array { dimensions, array_type } => {
                let flat = match &**array_type {
                    Type::Array { .. } => false,
                    _ => true,
                };
                *dimensions >= 1 && flat
            },
            _ => true,
        }
    }

    /// Renders the type for a reader: a primitive as its keyword, a
    /// reference type as its name, an array as its element type followed by
    /// the number of dimensions in square brackets.
    pub fn to_string(&self) -> (text: String)
        ensures
            text@ == self@.rendering(),
        decreases self,
    {
        match self {
            Type::Void => String::from_str("void"),
            Type::Boolean => String::from_str("boolean"),
            Type::Byte => String::from_str("byte"),
            Type::Short => String::from_str("short"),
            Type::Char => String::from_str("char"),
            Type::Int => String::from_str("int"),
            Type::Long => String::from_str("long"),
            Type::Float => String::from_str("float"),
            Type::Double => String::from_str("double"),
            Type::FullyQualifiedName(name) => name.clone(),
            Type::Array { dimensions, array_type } => {
                proof {
                    reveal_strlit("[");
                    reveal_strlit("]");
                    assert("["@ == seq!['[']);
                    assert("]"@ == seq![']']);
                }
                let mut text = (**array_type).to_string();
                text.append("[");
                text.append(decimal_string(*dimensions).as_str());
                text.append("]");
                text
            },
        }
    }
}

} // verus!
