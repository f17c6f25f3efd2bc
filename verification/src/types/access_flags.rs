//! Access flags: a 32-bit set of modifiers and its rendering.

use vstd::prelude::*;

verus! {

/// A set of access flags, stored as raw bits.
///
/// The view of a set is its bits. Several bits carry two names, because
/// their meaning depends on whether the flags decorate a class, a field or
/// a method; the set itself does not know what it decorates.
#[derive(Debug, Clone, Copy, PartialEq, Eq, Structural, Hash)]
pub struct AccessFlags {
    bits: u32,
}

impl View for AccessFlags {
    type V = u32;

    closed spec fn view(&self) -> u32 {
        self.bits
    }
}

/// The bits that have a name.
pub open spec fn known_bits() -> u32 {
    0x37fff
}

/// What a set of access flags decorates.
#[derive(Debug, Clone, Copy, PartialEq, Eq, Structural)]
pub enum FlagOwner {
    /// A class.
    Class,
    /// A field.
    Field,
    /// A method.
    Method,
}

/// Number of entries of the keyword table.
pub open spec fn keyword_count() -> int {
    18
}

/// The mask of entry `i` of the keyword table. The table is in rendering
/// order; a bit with two names has two entries.
pub open spec fn keyword_mask(i: int) -> u32 {
    if i == 0 {
        AccessFlags::ACC_PUBLIC
    } else if i == 1 {
        AccessFlags::ACC_PRIVATE
    } else if i == 2 {
        AccessFlags::ACC_PROTECTED
    } else if i == 3 {
        AccessFlags::ACC_STATIC
    } else if i == 4 {
        AccessFlags::ACC_FINAL
    } else if i == 5 {
        AccessFlags::ACC_SYNCHRONIZED
    } else if i == 6 {
        AccessFlags::ACC_VOLATILE
    } else if i == 7 {
        AccessFlags::ACC_BRIDGE
    } else if i == 8 {
        AccessFlags::ACC_TRANSIENT
    } else if i == 9 {
        AccessFlags::ACC_VARARGS
    } else if i == 10 {
        AccessFlags::ACC_NATIVE
    } else if i == 11 {
        AccessFlags::ACC_ABSTRACT
    } else if i == 12 {
        AccessFlags::ACC_INTERFACE
    } else if i == 13 {
        AccessFlags::ACC_STRICT
    } else if i == 14 {
        AccessFlags::ACC_SYNTHETIC
    } else if i == 15 {
        AccessFlags::ACC_ENUM
    } else if i == 16 {
        AccessFlags::ACC_CONSTRUCTOR
    } else {
        AccessFlags::ACC_DECLARED_SYNCHRONIZED
    }
}

/// The keyword of entry `i` of the keyword table.
pub open spec fn keyword_text(i: int) -> Seq<char> {
    if i == 0 {
        "public"@
    } else if i == 1 {
        "private"@
    } else if i == 2 {
        "protected"@
    } else if i == 3 {
        "static"@
    } else if i == 4 {
        "final"@
    } else if i == 5 {
        "synchronized"@
    } else if i == 6 {
        "volatile"@
    } else if i == 7 {
        "bridge"@
    } else if i == 8 {
        "transient"@
    } else if i == 9 {
        "varargs"@
    } else if i == 10 {
        "native"@
    } else if i == 11 {
        "abstract"@
    } else if i == 12 {
        "interface"@
    } else if i == 13 {
        "strict"@
    } else if i == 14 {
        "synthetic"@
    } else if i == 15 {
        "enum"@
    } else if i == 16 {
        "constructor"@
    } else {
        "synchronized"@
    }
}

/// Whether entry `i` of the keyword table names its bit for what the flags
/// decorate. The two names of a shared bit belong to a field and to a
/// method; a method alone can be declared synchronized. With no owner
/// given, every entry counts.
pub open spec fn keyword_applies(i: int, owner: Option<FlagOwner>) -> bool {
    match owner {
        None => true,
        Some(owner) => if i == 6 || i == 8 {
            owner == FlagOwner::Field
        } else if i == 7 || i == 9 || i == 17 {
            owner == FlagOwner::Method
        } else {
            true
        },
    }
}

/// Whether `bits` holds every bit of `mask`.
pub open spec fn holds(bits: u32, mask: u32) -> bool {
    bits & mask == mask
}

/// The keywords of those of the first `n` table entries that apply to the
/// owner and whose mask `bits` holds, in table order.
pub open spec fn selected_keywords(bits: u32, owner: Option<FlagOwner>, n: int) -> Seq<Seq<char>>
    decreases n,
{
    if n <= 0 {
        Seq::empty()
    } else {
        let before = selected_keywords(bits, owner, n - 1);
        if keyword_applies(n - 1, owner) && holds(bits, keyword_mask(n - 1)) {
            before.push(keyword_text(n - 1))
        } else {
            before
        }
    }
}

/// The words, with one space between neighbours.
pub open spec fn space_joined(words: Seq<Seq<char>>) -> Seq<char>
    decreases words.len(),
{
    if words.len() == 0 {
        Seq::empty()
    } else if words.len() == 1 {
        words[0]
    } else {
        space_joined(words.drop_last()) + seq![' '] + words.last()
    }
}

/// How a set with these bits is rendered when it is not said what it
/// decorates: the keywords of the flags it holds, in table order, separated
/// by single spaces. A shared bit gives both of its keywords.
pub open spec fn rendering(bits: u32) -> Seq<char> {
    space_joined(selected_keywords(bits, None, keyword_count()))
}

/// How a set with these bits is rendered for what it decorates: as
/// [`rendering`], but a shared bit gives the keyword it has for the owner,
/// if it has one.
pub open spec fn rendering_for(bits: u32, owner: FlagOwner) -> Seq<char> {
    space_joined(selected_keywords(bits, Some(owner), keyword_count()))
}

/// Two sets are the same set exactly if they have the same bits.
pub proof fn lemma_flags_are_their_bits(a: AccessFlags, b: AccessFlags)
    ensures
        a == b <==> a@ == b@,
{
}

/// The named bits are the bits of the flag constants.
pub proof fn lemma_known_bits()
    ensures
        known_bits() == AccessFlags::ACC_PUBLIC | AccessFlags::ACC_PRIVATE
            | AccessFlags::ACC_PROTECTED | AccessFlags::ACC_STATIC | AccessFlags::ACC_FINAL
            | AccessFlags::ACC_SYNCHRONIZED | AccessFlags::ACC_VOLATILE | AccessFlags::ACC_BRIDGE
            | AccessFlags::ACC_TRANSIENT | AccessFlags::ACC_VARARGS | AccessFlags::ACC_NATIVE
            | AccessFlags::ACC_INTERFACE | AccessFlags::ACC_ABSTRACT | AccessFlags::ACC_STRICT
            | AccessFlags::ACC_SYNTHETIC | AccessFlags::ACC_ANNOTATION | AccessFlags::ACC_ENUM
            | AccessFlags::ACC_CONSTRUCTOR | AccessFlags::ACC_DECLARED_SYNCHRONIZED,
{
    assert(0x37fffu32 == 0x1u32 | 0x2u32 | 0x4u32 | 0x8u32 | 0x10u32 | 0x20u32 | 0x40u32 | 0x40u32
        | 0x80u32 | 0x80u32 | 0x100u32 | 0x200u32 | 0x400u32 | 0x800u32 | 0x1000u32 | 0x2000u32
        | 0x4000u32 | 0x10000u32 | 0x20000u32) by (bit_vector);
}

/// Sets that hold the same masks among the first `n` table entries select
/// the same keywords from them.
proof fn lemma_selected_keywords_agree(a: u32, b: u32, owner: Option<FlagOwner>, n: int)
    requires
        forall|i: int| 0 <= i < n ==> holds(a, keyword_mask(i)) == holds(b, keyword_mask(i)),
    ensures
        selected_keywords(a, owner, n) == selected_keywords(b, owner, n),
    decreases n,
{
    if n > 0 {
        lemma_selected_keywords_agree(a, b, owner, n - 1);
    }
}

/// A set that holds no shared bit selects the same keywords for every
/// owner.
proof fn lemma_selected_keywords_without_shared_bits(bits: u32, owner: FlagOwner, n: int)
    requires
        n <= keyword_count(),
        !holds(bits, AccessFlags::ACC_VOLATILE),
        !holds(bits, AccessFlags::ACC_TRANSIENT),
        !holds(bits, AccessFlags::ACC_DECLARED_SYNCHRONIZED),
    ensures
        selected_keywords(bits, Some(owner), n) == selected_keywords(bits, None, n),
    decreases n,
{
    if n > 0 {
        lemma_selected_keywords_without_shared_bits(bits, owner, n - 1);
    }
}

/// The rendering depends on nothing but which masks of the keyword table
/// the set holds.
pub proof fn lemma_rendering_depends_on_table(a: u32, b: u32)
    requires
        forall|i: int|
            0 <= i < keyword_count() ==> holds(a, keyword_mask(i)) == holds(b, keyword_mask(i)),
    ensures
        rendering(a) == rendering(b),
        forall|owner: FlagOwner| rendering_for(a, owner) == rendering_for(b, owner),
{
    lemma_selected_keywords_agree(a, b, None, keyword_count());
    assert forall|owner: FlagOwner| rendering_for(a, owner) == rendering_for(b, owner) by {
        lemma_selected_keywords_agree(a, b, Some(owner), keyword_count());
    }
}

/// A set that holds none of the bits whose keyword depends on the owner is
/// rendered alike for every owner, and as when no owner is given.
pub proof fn lemma_rendering_without_shared_bits(bits: u32, owner: FlagOwner)
    requires
        !holds(bits, AccessFlags::ACC_VOLATILE),
        !holds(bits, AccessFlags::ACC_TRANSIENT),
        !holds(bits, AccessFlags::ACC_DECLARED_SYNCHRONIZED),
    ensures
        rendering_for(bits, owner) == rendering(bits),
{
    lemma_selected_keywords_without_shared_bits(bits, owner, keyword_count());
}

/// A bit outside a mask does not decide whether the mask is held.
proof fn lemma_bit_outside_mask(bits: u32, bit: u32, mask: u32)
    by (bit_vector)
    requires
        bit & mask == 0,
    ensures
        ((bits | bit) & mask == mask) == (bits & mask == mask),
        ((bits & !bit) & mask == mask) == (bits & mask == mask),
{
}

/// A mask inside `known` is held by `bits` exactly if it is held by the
/// part of `bits` inside `known`.
proof fn lemma_mask_inside(bits: u32, known: u32, mask: u32)
    by (bit_vector)
    requires
        mask & known == mask,
    ensures
        ((bits & known) & mask == mask) == (bits & mask == mask),
{
}

/// The annotation flag is never rendered: with it or without it, a set is
/// rendered alike.
pub proof fn lemma_annotation_is_not_rendered(bits: u32)
    ensures
        rendering(bits | AccessFlags::ACC_ANNOTATION) == rendering(bits),
        rendering(bits & !AccessFlags::ACC_ANNOTATION) == rendering(bits),
        forall|owner: FlagOwner|
            rendering_for(bits | AccessFlags::ACC_ANNOTATION, owner) == rendering_for(bits, owner),
{
    let with = bits | AccessFlags::ACC_ANNOTATION;
    let without = bits & !AccessFlags::ACC_ANNOTATION;
    assert(0x2000u32 & 0x1u32 == 0
        && 0x2000u32 & 0x2u32 == 0
        && 0x2000u32 & 0x4u32 == 0
        && 0x2000u32 & 0x8u32 == 0
        && 0x2000u32 & 0x10u32 == 0
        && 0x2000u32 & 0x20u32 == 0
        && 0x2000u32 & 0x40u32 == 0
        && 0x2000u32 & 0x80u32 == 0
        && 0x2000u32 & 0x100u32 == 0
        && 0x2000u32 & 0x200u32 == 0
        && 0x2000u32 & 0x400u32 == 0
        && 0x2000u32 & 0x800u32 == 0
        && 0x2000u32 & 0x1000u32 == 0
        && 0x2000u32 & 0x4000u32 == 0
        && 0x2000u32 & 0x10000u32 == 0
        && 0x2000u32 & 0x20000u32 == 0) by (bit_vector);
    assert forall|i: int| 0 <= i < keyword_count() implies holds(with, keyword_mask(i)) == holds(
        bits,
        keyword_mask(i),
    ) && holds(without, keyword_mask(i)) == holds(bits, keyword_mask(i)) by {
        lemma_bit_outside_mask(bits, AccessFlags::ACC_ANNOTATION, keyword_mask(i));
    }
    lemma_rendering_depends_on_table(with, bits);
    lemma_rendering_depends_on_table(without, bits);
}

/// Bits without a name are never rendered.
pub proof fn lemma_unnamed_bits_are_not_rendered(bits: u32)
    ensures
        rendering(bits & known_bits()) == rendering(bits),
{
    assert(0x1u32 & 0x37fffu32 == 0x1u32
        && 0x2u32 & 0x37fffu32 == 0x2u32
        && 0x4u32 & 0x37fffu32 == 0x4u32
        && 0x8u32 & 0x37fffu32 == 0x8u32
        && 0x10u32 & 0x37fffu32 == 0x10u32
        && 0x20u32 & 0x37fffu32 == 0x20u32
        && 0x40u32 & 0x37fffu32 == 0x40u32
        && 0x80u32 & 0x37fffu32 == 0x80u32
        && 0x100u32 & 0x37fffu32 == 0x100u32
        && 0x200u32 & 0x37fffu32 == 0x200u32
        && 0x400u32 & 0x37fffu32 == 0x400u32
        && 0x800u32 & 0x37fffu32 == 0x800u32
        && 0x1000u32 & 0x37fffu32 == 0x1000u32
        && 0x4000u32 & 0x37fffu32 == 0x4000u32
        && 0x10000u32 & 0x37fffu32 == 0x10000u32
        && 0x20000u32 & 0x37fffu32 == 0x20000u32) by (bit_vector);
    assert forall|i: int| 0 <= i < keyword_count() implies holds(
        bits & known_bits(),
        keyword_mask(i),
    ) == holds(bits, keyword_mask(i)) by {
        lemma_mask_inside(bits, known_bits(), keyword_mask(i));
    }
    lemma_rendering_depends_on_table(bits & known_bits(), bits);
}

/// The keywords come in table order, whatever the order in which the flags
/// were put together.
pub proof fn lemma_rendering_ignores_union_order(a: u32, b: u32)
    ensures
        rendering(a | b) == rendering(b | a),
{
    assert(a | b == b | a) by (bit_vector);
}

/// Entry `i` of the keyword table.
fn keyword(i: usize) -> (entry: (u32, &'static str))
    requires
        i < keyword_count(),
    ensures
        entry.0 == keyword_mask(i as int),
        entry.1@ == keyword_text(i as int),
{
    if i == 0 {
        (AccessFlags::ACC_PUBLIC, "public")
    } else if i == 1 {
        (AccessFlags::ACC_PRIVATE, "private")
    } else if i == 2 {
        (AccessFlags::ACC_PROTECTED, "protected")
    } else if i == 3 {
        (AccessFlags::ACC_STATIC, "static")
    } else if i == 4 {
        (AccessFlags::ACC_FINAL, "final")
    } else if i == 5 {
        (AccessFlags::ACC_SYNCHRONIZED, "synchronized")
    } else if i == 6 {
        (AccessFlags::ACC_VOLATILE, "volatile")
    } else if i == 7 {
        (AccessFlags::ACC_BRIDGE, "bridge")
    } else if i == 8 {
        (AccessFlags::ACC_TRANSIENT, "transient")
    } else if i == 9 {
        (AccessFlags::ACC_VARARGS, "varargs")
    } else if i == 10 {
        (AccessFlags::ACC_NATIVE, "native")
    } else if i == 11 {
        (AccessFlags::ACC_ABSTRACT, "abstract")
    } else if i == 12 {
        (AccessFlags::ACC_INTERFACE, "interface")
    } else if i == 13 {
        (AccessFlags::ACC_STRICT, "strict")
    } else if i == 14 {
        (AccessFlags::ACC_SYNTHETIC, "synthetic")
    } else if i == 15 {
        (AccessFlags::ACC_ENUM, "enum")
    } else if i == 16 {
        (AccessFlags::ACC_CONSTRUCTOR, "constructor")
    } else {
        (AccessFlags::ACC_DECLARED_SYNCHRONIZED, "synchronized")
    }
}

/// Whether entry `i` of the keyword table names its bit for the owner.
fn applies(i: usize, owner: Option<FlagOwner>) -> (counts: bool)
    ensures
        counts == keyword_applies(i as int, owner),
{
    match owner {
        None => true,
        Some(owner) => if i == 6 || i == 8 {
            owner == FlagOwner::Field
        } else if i == 7 || i == 9 || i == 17 {
            owner == FlagOwner::Method
        } else {
            true
        },
    }
}

impl AccessFlags {
    /// Public access.
    pub const ACC_PUBLIC: u32 = 0x1;

    /// Private access.
    pub const ACC_PRIVATE: u32 = 0x2;

    /// Protected access.
    pub const ACC_PROTECTED: u32 = 0x4;

    /// Static element.
    pub const ACC_STATIC: u32 = 0x8;

    /// Final element (not modifiable).
    pub const ACC_FINAL: u32 = 0x10;

    /// Thread-synchronized element.
    pub const ACC_SYNCHRONIZED: u32 = 0x20;

    /// Volatile field. Shares its bit with [`Self::ACC_BRIDGE`].
    pub const ACC_VOLATILE: u32 = 0x40;

    /// Bridge method. Shares its bit with [`Self::ACC_VOLATILE`].
    pub const ACC_BRIDGE: u32 = 0x40;

    /// Transient field. Shares its bit with [`Self::ACC_VARARGS`].
    pub const ACC_TRANSIENT: u32 = 0x80;

    /// Method with a variable number of arguments. Shares its bit with
    /// [`Self::ACC_TRANSIENT`].
    pub const ACC_VARARGS: u32 = 0x80;

    /// Native element.
    pub const ACC_NATIVE: u32 = 0x100;

    /// Interface.
    pub const ACC_INTERFACE: u32 = 0x200;

    /// Abstract element.
    pub const ACC_ABSTRACT: u32 = 0x400;

    /// Strict floating-point arithmetic.
    pub const ACC_STRICT: u32 = 0x800;

    /// Synthetic element.
    pub const ACC_SYNTHETIC: u32 = 0x1000;

    /// Annotation class. It is never rendered.
    pub const ACC_ANNOTATION: u32 = 0x2000;

    /// Enumeration.
    pub const ACC_ENUM: u32 = 0x4000;

    /// Constructor.
    pub const ACC_CONSTRUCTOR: u32 = 0x10000;

    /// Method declared as synchronized.
    pub const ACC_DECLARED_SYNCHRONIZED: u32 = 0x20000;

    /// The set with no flag.
    pub fn empty() -> (flags: AccessFlags)
        ensures
            flags@ == 0,
    {
        AccessFlags { bits: 0 }
    }

    /// The set with every named flag.
    pub fn all() -> (flags: AccessFlags)
        ensures
            flags@ == known_bits(),
    {
        AccessFlags { bits: 0x37fff }
    }

    /// The raw bits.
    pub fn bits(&self) -> (bits: u32)
        ensures
            bits == self@,
    {
        self.bits
    }

    /// The set with exactly these bits, unless one of them has no name.
    pub fn from_bits(bits: u32) -> (flags: Option<AccessFlags>)
        ensures
            flags is Some <==> bits & !known_bits() == 0,
            flags matches Some(f) ==> f@ == bits,
    {
        if bits & !0x37fff == 0 {
            Some(AccessFlags { bits })
        } else {
            None
        }
    }

    /// The set with these bits, without those that have no name.
    pub fn from_bits_truncate(bits: u32) -> (flags: AccessFlags)
        ensures
            flags@ == bits & known_bits(),
    {
        AccessFlags { bits: bits & 0x37fff }
    }

    /// Whether the set holds no flag.
    pub fn is_empty(&self) -> (none: bool)
        ensures
            none == (self@ == 0),
    {
        self.bits == 0
    }

    /// Whether the set holds every flag of `mask`.
    pub fn contains(&self, mask: u32) -> (every: bool)
        ensures
            every == holds(self@, mask),
    {
        (self.bits & mask) == mask
    }

    /// Whether the set holds some flag of `mask`.
    pub fn intersects(&self, mask: u32) -> (some: bool)
        ensures
            some == (self@ & mask != 0),
    {
        (self.bits & mask) != 0
    }

    /// The flags that are in `self`, in `other`, or in both.
    pub fn union(self, other: AccessFlags) -> (flags: AccessFlags)
        ensures
            flags@ == self@ | other@,
    {
        AccessFlags { bits: self.bits | other.bits }
    }

    /// The flags that are in both `self` and `other`.
    pub fn intersection(self, other: AccessFlags) -> (flags: AccessFlags)
        ensures
            flags@ == self@ & other@,
    {
        AccessFlags { bits: self.bits & other.bits }
    }

    /// The flags of `self` that are not in `other`.
    pub fn difference(self, other: AccessFlags) -> (flags: AccessFlags)
        ensures
            flags@ == self@ & !other@,
    {
        AccessFlags { bits: self.bits & !other.bits }
    }

    /// Renders the set for a reader: the keywords of its flags in a fixed
    /// order, separated by single spaces. A bit with two names gives both
    /// keywords; the annotation flag gives none.
    pub fn to_string(&self) -> (text: String)
        ensures
            text@ == rendering(self@),
    {
        self.render(None)
    }

    /// Renders the set for a reader who knows what it decorates: as
    /// [`Self::to_string`], but a bit with two names gives the keyword that
    /// it has for the owner, if it has one, and only a method is shown as
    /// declared synchronized.
    pub fn to_string_for(&self, owner: FlagOwner) -> (text: String)
        ensures
            text@ == rendering_for(self@, owner),
    {
        self.render(Some(owner))
    }

    /// Joins the keywords of the table entries that apply to the owner and
    /// whose mask the set holds.
    fn render(&self, owner: Option<FlagOwner>) -> (text: String)
        ensures
            text@ == space_joined(selected_keywords(self@, owner, keyword_count())),
    {
        let mut text = String::new();
        let mut any = false;
        let mut i: usize = 0;
        while i < 18
            invariant
                i <= keyword_count(),
                text@ == space_joined(selected_keywords(self@, owner, i as int)),
                any == (selected_keywords(self@, owner, i as int).len() > 0),
            decreases keyword_count() - i,
        {
            let (mask, word) = keyword(i);
            if applies(i, owner) && self.bits & mask == mask {
                let ghost before = selected_keywords(self@, owner, i as int);
                if any {
                    proof {
                        reveal_strlit(" ");
                        assert(" "@ == seq![' ']);
                    }
                    text.append(" ");
                }
                text.append(word);
                any = true;
                assert(before.push(word@).drop_last() == before);
            }
            i += 1;
        }
        text
    }
}

} // verus!
