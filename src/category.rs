//! The six logical locale categories and their operating-system codes.
use vstd::prelude::*;

verus! {

/// Category identifier of `LC_CTYPE`.
pub const LC_CTYPE: u32 = 0;
/// Category identifier of `LC_NUMERIC`.
pub const LC_NUMERIC: u32 = 1;
/// Category identifier of `LC_TIME`.
pub const LC_TIME: u32 = 2;
/// Category identifier of `LC_COLLATE`.
pub const LC_COLLATE: u32 = 3;
/// Category identifier of `LC_MONETARY`.
pub const LC_MONETARY: u32 = 4;
/// Category identifier of `LC_MESSAGES`.
pub const LC_MESSAGES: u32 = 5;
/// Category identifier of `LC_ALL`.
pub const LC_ALL: u32 = 6;

/// Bitmask of `LC_CTYPE`.
pub const LC_CTYPE_MASK: u32 = 1;
/// Bitmask of `LC_NUMERIC`.
pub const LC_NUMERIC_MASK: u32 = 2;
/// Bitmask of `LC_TIME`.
pub const LC_TIME_MASK: u32 = 4;
/// Bitmask of `LC_COLLATE`.
pub const LC_COLLATE_MASK: u32 = 8;
/// Bitmask of `LC_MONETARY`.
pub const LC_MONETARY_MASK: u32 = 16;
/// Bitmask of `LC_MESSAGES`.
pub const LC_MESSAGES_MASK: u32 = 32;
/// Bitmask of `LC_ALL`: the six categories above together with the
/// six further categories of the GNU C library (paper, name, address,
/// telephone, measurement, identification), whose identifiers follow
/// `LC_ALL`'s own.
pub const LC_ALL_MASK: u32 = 0x1fbf;

/// The different categories for which locale information may be
/// set. Entirely different locales may be specified for each category.
#[derive(PartialEq, Eq, Structural, Clone, Copy, Debug)]
pub enum Category {
    /// Affects the manner in which characters are classified by
    /// functions such as `isdigit` and so forth.
    CharacterTypes,
    /// Affects the manner in which currency data is formatted.
    Currency,
    /// Affects the display of messages.
    Message,
    /// Affects the manner in which numeric data is formatted.
    Numeric,
    /// Affects the manner in which strings are collated/sorted.
    StringCollation,
    /// Affects the manner in which date/time data is formatted.
    Time,
}

impl Category {
    /// The operating system's identifier of this category.
    pub open spec fn code(self) -> u32 {
        match self {
            Category::StringCollation => LC_COLLATE,
            Category::CharacterTypes => LC_CTYPE,
            Category::Currency => LC_MONETARY,
            Category::Numeric => LC_NUMERIC,
            Category::Time => LC_TIME,
            Category::Message => LC_MESSAGES,
        }
    }

    /// The operating system's bitmask of this category.
    pub open spec fn mask(self) -> u32 {
        match self {
            Category::StringCollation => LC_COLLATE_MASK,
            Category::CharacterTypes => LC_CTYPE_MASK,
            Category::Currency => LC_MONETARY_MASK,
            Category::Numeric => LC_NUMERIC_MASK,
            Category::Time => LC_TIME_MASK,
            Category::Message => LC_MESSAGES_MASK,
        }
    }

    /// The identifier that selects every category at once.
    pub fn all_code() -> (r: u32)
        ensures
            r == LC_ALL,
    {
        LC_ALL
    }

    /// The operating system's identifier of this category.
    pub fn to_os_code(&self) -> (r: u32)
        ensures
            r == self.code(),
            r < LC_ALL,
    {
        match self {
            Category::StringCollation => LC_COLLATE,
            Category::CharacterTypes => LC_CTYPE,
            Category::Currency => LC_MONETARY,
            Category::Numeric => LC_NUMERIC,
            Category::Time => LC_TIME,
            Category::Message => LC_MESSAGES,
        }
    }

    /// The bitmask that selects every category at once.
    pub fn all_mask() -> (r: u32)
        ensures
            r == LC_ALL_MASK,
    {
        LC_ALL_MASK
    }

    /// The operating system's bitmask of this category.
    pub fn to_os_mask(&self) -> (r: u32)
        ensures
            r == self.mask(),
            r & LC_ALL_MASK == r,
            r != LC_ALL_MASK,
    {
        proof {
            lemma_mask_values(*self);
        }
        match self {
            Category::StringCollation => LC_COLLATE_MASK,
            Category::CharacterTypes => LC_CTYPE_MASK,
            Category::Currency => LC_MONETARY_MASK,
            Category::Numeric => LC_NUMERIC_MASK,
            Category::Time => LC_TIME_MASK,
            Category::Message => LC_MESSAGES_MASK,
        }
    }
}

/// Each category's bitmask is the bit whose position is the category's
/// identifier; it lies within the all-categories mask and differs from it.
pub proof fn lemma_mask_values(c: Category)
    ensures
        c.mask() == (1u32 << c.code()),
        c.mask() != 0,
        c.mask() & LC_ALL_MASK == c.mask(),
        c.mask() != LC_ALL_MASK,
{
    assert((1u32 << 0u32) == 1u32 && (1u32 << 1u32) == 2u32 && (1u32 << 2u32) == 4u32
        && (1u32 << 3u32) == 8u32 && (1u32 << 4u32) == 16u32 && (1u32 << 5u32) == 32u32)
        by (bit_vector);
    assert(forall|i: u32|
        i < 6 ==> #[trigger] (1u32 << i) & 0x1fbfu32 == (1u32 << i) && (1u32 << i) != 0x1fbfu32
            && (1u32 << i) != 0)
        by (bit_vector);
}

/// The mapping is a bijection onto the six identifiers and the six
/// bitmasks: distinct categories have distinct identifiers, and a
/// category's mask selects no other category.
pub proof fn lemma_mapping_injective(a: Category, b: Category)
    ensures
        a.code() == b.code() <==> a == b,
        a.mask() == b.mask() <==> a == b,
        (a.mask() & b.mask() != 0) <==> a == b,
{
    lemma_mask_values(a);
    lemma_mask_values(b);
    assert(forall|i: u32, j: u32|
        i < 6 && j < 6 ==> ((#[trigger] (1u32 << i) & #[trigger] (1u32 << j)) != 0 <==> i == j))
        by (bit_vector);
}

} // verus!
