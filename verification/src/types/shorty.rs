//! Shorty descriptors: the compact form of a method signature, in which
//! every reference type is one tag.

use vstd::prelude::*;
use vstd::std_specs::convert::FromSpecImpl;
use vstd::std_specs::iter::IteratorSpec;
use crate::error::{outcome, Parse, ParseView};
use crate::types::descriptor::{Type, TypeView};

verus! {

/// The kind of value that a method returns.
#[derive(Debug, Clone, Copy, PartialEq, Eq, Structural)]
pub enum ShortyReturnType {
    Void,
    Boolean,
    Byte,
    Short,
    Char,
    Int,
    Long,
    Float,
    Double,
    /// Any reference type.
    Reference,
}

/// The kind of value that a parameter holds.
#[derive(Debug, Clone, Copy, PartialEq, Eq, Structural)]
pub enum ShortyFieldType {
    Boolean,
    Byte,
    Short,
    Char,
    Int,
    Long,
    Float,
    Double,
    /// Any reference type.
    Reference,
}

impl View for ShortyReturnType {
    type V = ShortyReturnType;

    open spec fn view(&self) -> ShortyReturnType {
        *self
    }
}

impl View for ShortyFieldType {
    type V = ShortyFieldType;

    open spec fn view(&self) -> ShortyFieldType {
        *self
    }
}

/// The return kind that is the same kind of value as a parameter kind.
pub open spec fn as_return(kind: ShortyFieldType) -> ShortyReturnType {
    match kind {
        ShortyFieldType::Boolean => ShortyReturnType::Boolean,
        ShortyFieldType::Byte => ShortyReturnType::Byte,
        ShortyFieldType::Short => ShortyReturnType::Short,
        ShortyFieldType::Char => ShortyReturnType::Char,
        ShortyFieldType::Int => ShortyReturnType::Int,
        ShortyFieldType::Long => ShortyReturnType::Long,
        ShortyFieldType::Float => ShortyReturnType::Float,
        ShortyFieldType::Double => ShortyReturnType::Double,
        ShortyFieldType::Reference => ShortyReturnType::Reference,
    }
}

/// The parameter kind of a type: every reference type and every array is a
/// reference; `void` is no kind of parameter.
pub open spec fn field_kind(t: TypeView) -> Option<ShortyFieldType> {
    match t {
        TypeView::Void => None,
        TypeView::Boolean => Some(ShortyFieldType::Boolean),
        TypeView::Byte => Some(ShortyFieldType::Byte),
        TypeView::Short => Some(ShortyFieldType::Short),
        TypeView::Char => Some(ShortyFieldType::Char),
        TypeView::Int => Some(ShortyFieldType::Int),
        TypeView::Long => Some(ShortyFieldType::Long),
        TypeView::Float => Some(ShortyFieldType::Float),
        TypeView::Double => Some(ShortyFieldType::Double),
        TypeView::FullyQualifiedName(_) => Some(ShortyFieldType::Reference),
        TypeView::Array { .. } => Some(ShortyFieldType::Reference),
    }
}

/// The return kind of a type: that of `void` is `Void`, that of any other
/// type is its parameter kind.
pub open spec fn return_kind(t: TypeView) -> ShortyReturnType {
    match field_kind(t) {
        Some(kind) => as_return(kind),
        None => ShortyReturnType::Void,
    }
}

/// What a character denotes at a parameter position of a shorty descriptor.
pub open spec fn parse_field_tag(c: char) -> Result<ShortyFieldType, ParseView> {
    if c == 'Z' {
        Ok(ShortyFieldType::Boolean)
    } else if c == 'B' {
        Ok(ShortyFieldType::Byte)
    } else if c == 'S' {
        Ok(ShortyFieldType::Short)
    } else if c == 'C' {
        Ok(ShortyFieldType::Char)
    } else if c == 'I' {
        Ok(ShortyFieldType::Int)
    } else if c == 'J' {
        Ok(ShortyFieldType::Long)
    } else if c == 'F' {
        Ok(ShortyFieldType::Float)
    } else if c == 'D' {
        Ok(ShortyFieldType::Double)
    } else if c == 'L' {
        Ok(ShortyFieldType::Reference)
    } else {
        Err(ParseView::InvalidShortyType(c))
    }
}

/// What a character denotes at the return position of a shorty descriptor:
/// `V` is `Void`, any other character is what it is as a parameter.
pub open spec fn parse_return_tag(c: char) -> Result<ShortyReturnType, ParseView> {
    if c == 'V' {
        Ok(ShortyReturnType::Void)
    } else {
        match parse_field_tag(c) {
            Ok(kind) => Ok(as_return(kind)),
            Err(e) => Err(e),
        }
    }
}

/// What a run of parameter characters denotes, read from left to right: the
/// first character that is no parameter tag is the error.
pub open spec fn parse_fields(p: Seq<char>) -> Result<Seq<ShortyFieldType>, ParseView>
    decreases p.len(),
{
    if p.len() == 0 {
        Ok(Seq::empty())
    } else {
        match parse_fields(p.drop_last()) {
            Err(e) => Err(e),
            Ok(kinds) => match parse_field_tag(p.last()) {
                Ok(kind) => Ok(kinds.push(kind)),
                Err(e) => Err(e),
            },
        }
    }
}

/// What a shorty descriptor denotes. The first character is the return
/// kind, each further one a parameter kind.
pub open spec fn parse_shorty(s: Seq<char>) -> Result<ShortyDescriptorView, ParseView> {
    if s.len() == 0 {
        Err(ParseView::InvalidShortyDescriptor(s))
    } else {
        match parse_return_tag(s[0]) {
            Err(e) => Err(e),
            Ok(return_type) => match parse_fields(s.drop_first()) {
                Err(e) => Err(e),
                Ok(field_types) => Ok(ShortyDescriptorView { return_type, field_types }),
            },
        }
    }
}

impl ShortyReturnType {
    /// Reads the return tag of a shorty descriptor.
    pub fn from_char(c: char) -> (tag: Result<ShortyReturnType, Parse>)
        ensures
            outcome(tag) == parse_return_tag(c),
    {
        if c == 'V' {
            Ok(ShortyReturnType::Void)
        } else if c == 'Z' {
            Ok(ShortyReturnType::Boolean)
        } else if c == 'B' {
            Ok(ShortyReturnType::Byte)
        } else if c == 'S' {
            Ok(ShortyReturnType::Short)
        } else if c == 'C' {
            Ok(ShortyReturnType::Char)
        } else if c == 'I' {
            Ok(ShortyReturnType::Int)
        } else if c == 'J' {
            Ok(ShortyReturnType::Long)
        } else if c == 'F' {
            Ok(ShortyReturnType::Float)
        } else if c == 'D' {
            Ok(ShortyReturnType::Double)
        } else if c == 'L' {
            Ok(ShortyReturnType::Reference)
        } else {
            Err(Parse::InvalidShortyType(c))
        }
    }

    /// The return kind of a type.
    pub fn of(t: &Type) -> (kind: ShortyReturnType)
        ensures
            kind == return_kind(t@),
    {
        match t {
            Type::Void => ShortyReturnType::Void,
            Type::Boolean => ShortyReturnType::Boolean,
            Type::Byte => ShortyReturnType::Byte,
            Type::Short => ShortyReturnType::Short,
            Type::Char => ShortyReturnType::Char,
            Type::Int => ShortyReturnType::Int,
            Type::Long => ShortyReturnType::Long,
            Type::Float => ShortyReturnType::Float,
            Type::Double => ShortyReturnType::Double,
            Type::FullyQualifiedName(_) => ShortyReturnType::Reference,
            Type::Array { .. } => ShortyReturnType::Reference,
        }
    }
}

impl From<Type> for ShortyReturnType {
    fn from(t: Type) -> (kind: ShortyReturnType) {
        ShortyReturnType::of(&t)
    }
}

impl FromSpecImpl<Type> for ShortyReturnType {
    open spec fn obeys_from_spec() -> bool {
        true
    }

    open spec fn from_spec(t: Type) -> ShortyReturnType {
        return_kind(t@)
    }
}

impl From<ShortyFieldType> for ShortyReturnType {
    fn from(kind: ShortyFieldType) -> (widened: ShortyReturnType) {
        match kind {
            ShortyFieldType::Boolean => ShortyReturnType::Boolean,
            ShortyFieldType::Byte => ShortyReturnType::Byte,
            ShortyFieldType::Short => ShortyReturnType::Short,
            ShortyFieldType::Char => ShortyReturnType::Char,
            ShortyFieldType::Int => ShortyReturnType::Int,
            ShortyFieldType::Long => ShortyReturnType::Long,
            ShortyFieldType::Float => ShortyReturnType::Float,
            ShortyFieldType::Double => ShortyReturnType::Double,
            ShortyFieldType::Reference => ShortyReturnType::Reference,
        }
    }
}

impl FromSpecImpl<ShortyFieldType> for ShortyReturnType {
    open spec fn obeys_from_spec() -> bool {
        true
    }

    open spec fn from_spec(kind: ShortyFieldType) -> ShortyReturnType {
        as_return(kind)
    }
}

impl ShortyFieldType {
    /// Reads a parameter tag of a shorty descriptor.
    pub fn from_char(c: char) -> (tag: Result<ShortyFieldType, Parse>)
        ensures
            outcome(tag) == parse_field_tag(c),
    {
        if c == 'Z' {
            Ok(ShortyFieldType::Boolean)
        } else if c == 'B' {
            Ok(ShortyFieldType::Byte)
        } else if c == 'S' {
            Ok(ShortyFieldType::Short)
        } else if c == 'C' {
            Ok(ShortyFieldType::Char)
        } else if c == 'I' {
            Ok(ShortyFieldType::Int)
        } else if c == 'J' {
            Ok(ShortyFieldType::Long)
        } else if c == 'F' {
            Ok(ShortyFieldType::Float)
        } else if c == 'D' {
            Ok(ShortyFieldType::Double)
        } else if c == 'L' {
            Ok(ShortyFieldType::Reference)
        } else {
            Err(Parse::InvalidShortyType(c))
        }
    }

    /// The parameter kind of a type; `void` has none.
    pub fn of(t: &Type) -> (kind: Option<ShortyFieldType>)
        ensures
            kind == field_kind(t@),
    {
        match t {
            Type::Void => None,
            Type::Boolean => Some(ShortyFieldType::Boolean),
            Type::Byte => Some(ShortyFieldType::Byte),
            Type::Short => Some(ShortyFieldType::Short),
            Type::Char => Some(ShortyFieldType::Char),
            Type::Int => Some(ShortyFieldType::Int),
            Type::Long => Some(ShortyFieldType::Long),
            Type::Float => Some(ShortyFieldType::Float),
            Type::Double => Some(ShortyFieldType::Double),
            Type::FullyQualifiedName(_) => Some(ShortyFieldType::Reference),
            Type::Array { .. } => Some(ShortyFieldType::Reference),
        }
    }
}

/// Short form of a method signature: the kind of value returned and the
/// kinds of the parameters, in order.
#[derive(Debug)]
pub struct ShortyDescriptor {
    return_type: ShortyReturnType,
    field_types: Vec<ShortyFieldType>,
}

/// Mathematical model of [`ShortyDescriptor`].
pub struct ShortyDescriptorView {
    pub return_type: ShortyReturnType,
    pub field_types: Seq<ShortyFieldType>,
}

impl View for ShortyDescriptor {
    type V = ShortyDescriptorView;

    closed spec fn view(&self) -> ShortyDescriptorView {
        ShortyDescriptorView { return_type: self.return_type, field_types: self.field_types@ }
    }
}

/// An error among the first characters of a run of parameter characters is
/// the error of the whole run.
proof fn lemma_parse_fields_prefix_error(p: Seq<char>, n: int)
    requires
        0 <= n <= p.len(),
        parse_fields(p.take(n)) is Err,
    ensures
        parse_fields(p) == parse_fields(p.take(n)),
    decreases p.len() - n,
{
    if n < p.len() {
        assert(p.take(n + 1).drop_last() == p.take(n));
        lemma_parse_fields_prefix_error(p, n + 1);
    } else {
        assert(p.take(n) == p);
    }
}

/// A run of parameter tags denotes the kinds of its characters, one for
/// one.
pub proof fn lemma_parse_fields_of_tags(p: Seq<char>)
    requires
        forall|i: int| 0 <= i < p.len() ==> parse_field_tag(p[i]) is Ok,
    ensures
        parse_fields(p) is Ok,
        parse_fields(p)->Ok_0.len() == p.len(),
        forall|i: int|
            0 <= i < p.len() ==> parse_field_tag(p[i]) == Ok::<ShortyFieldType, ParseView>(
                #[trigger] parse_fields(p)->Ok_0[i],
            ),
    decreases p.len(),
{
    if p.len() > 0 {
        lemma_parse_fields_of_tags(p.drop_last());
    }
}

/// A character behind the return tag that is no parameter tag makes the
/// descriptor invalid, and the error carries it, if every character
/// between the two is a parameter tag.
pub proof fn lemma_first_invalid_parameter(s: Seq<char>, i: int)
    requires
        1 <= i < s.len(),
        parse_return_tag(s[0]) is Ok,
        forall|j: int| 1 <= j < i ==> parse_field_tag(s[j]) is Ok,
        parse_field_tag(s[i]) is Err,
    ensures
        parse_shorty(s) == Err::<ShortyDescriptorView, ParseView>(
            ParseView::InvalidShortyType(s[i]),
        ),
{
    let p = s.drop_first();
    let before = p.take(i - 1);
    assert forall|j: int| 0 <= j < before.len() implies parse_field_tag(before[j]) is Ok by {
        assert(before[j] == s[j + 1]);
    }
    lemma_parse_fields_of_tags(before);
    assert(p.take(i).drop_last() == before);
    assert(p.take(i).last() == s[i]);
    lemma_parse_fields_prefix_error(p, i);
}

/// A character behind the return tag that is no parameter tag makes the
/// descriptor invalid: the error carries the first such character.
pub proof fn lemma_invalid_parameter_is_rejected(s: Seq<char>, i: int) -> (first: int)
    requires
        1 <= i < s.len(),
        parse_return_tag(s[0]) is Ok,
        parse_field_tag(s[i]) is Err,
    ensures
        1 <= first <= i,
        parse_field_tag(s[first]) is Err,
        parse_shorty(s) == Err::<ShortyDescriptorView, ParseView>(
            ParseView::InvalidShortyType(s[first]),
        ),
    decreases i,
{
    if exists|j: int| 1 <= j < i && parse_field_tag(s[j]) is Err {
        let j = choose|j: int| 1 <= j < i && parse_field_tag(s[j]) is Err;
        lemma_invalid_parameter_is_rejected(s, j)
    } else {
        lemma_first_invalid_parameter(s, i);
        i
    }
}

impl ShortyDescriptor {
    /// The kind of value returned.
    pub fn return_type(&self) -> (kind: ShortyReturnType)
        ensures
            kind == self@.return_type,
    {
        self.return_type
    }

    /// The kinds of the parameters, in order.
    pub fn field_types(&self) -> (kinds: &[ShortyFieldType])
        ensures
            kinds@ == self@.field_types,
    {
        self.field_types.as_slice()
    }
}

impl ShortyDescriptor {
    /// Parses a shorty descriptor.
    ///
    /// The first character is the return tag and must be there; every
    /// further character is a parameter tag. The first character that is no
    /// tag at its position is reported.
    pub fn from_str(s: &str) -> (parsed: Result<ShortyDescriptor, Parse>)
        ensures
            outcome(parsed) == parse_shorty(s@),
    {
        broadcast use vstd::string::group_string_axioms;

        let mut chars = s.chars();
        let return_type = match chars.next() {
            Some(c) => match ShortyReturnType::from_char(c) {
                Ok(tag) => tag,
                Err(e) => {
                    return Err(e);
                },
            },
            None => {
                return Err(Parse::InvalidShortyDescriptor(s.to_owned()));
            },
        };
        let ghost p = s@.drop_first();
        let mut field_types: Vec<ShortyFieldType> = Vec::new();
        assert(p.take(0) == Seq::<char>::empty());
        loop
            invariant_except_break
                chars.remaining() == p.skip(field_types@.len() as int),
            invariant
                s@.len() >= 1,
                parse_return_tag(s@[0]) == Ok::<ShortyReturnType, ParseView>(return_type),
                p == s@.drop_first(),
                field_types@.len() <= p.len(),
                parse_fields(p.take(field_types@.len() as int)) == Ok::<
                    Seq<ShortyFieldType>,
                    ParseView,
                >(field_types@),
            ensures
                field_types@.len() == p.len(),
            decreases p.len() - field_types@.len(),
        {
            let ghost n = field_types@.len() as int;
            match chars.next() {
                Some(c) => {
                    assert(c == p[n]);
                    assert(p.take(n + 1).drop_last() == p.take(n));
                    assert(p.skip(n).drop_first() == p.skip(n + 1));
                    match ShortyFieldType::from_char(c) {
                        Ok(tag) => {
                            field_types.push(tag);
                        },
                        Err(e) => {
                            proof {
                                assert(p.take(n + 1).last() == c);
                                assert(parse_fields(p.take(n + 1)) == Err::<
                                    Seq<ShortyFieldType>,
                                    ParseView,
                                >(e@));
                                lemma_parse_fields_prefix_error(p, n + 1);
                            }
                            return Err(e);
                        },
                    }
                },
                None => {
                    break ;
                },
            }
        }
        assert(p.take(p.len() as int) == p);
        Ok(ShortyDescriptor { return_type, field_types })
    }
}

impl core::str::FromStr for ShortyDescriptor {
    type Err = Parse;

    /// Parses a shorty descriptor, as [`ShortyDescriptor::from_str`] does.
    fn from_str(s: &str) -> (parsed: Result<ShortyDescriptor, Parse>)
        ensures
            outcome(parsed) == parse_shorty(s@),
    {
        ShortyDescriptor::from_str(s)
    }
}

} // verus!
