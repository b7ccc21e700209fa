use vstd::prelude::*;

verus! {

/// Number of canonical fields.
pub const FIELD_COUNT: usize = 6;

/// The fixed, ordered set of canonical fields that source-file columns are
/// mapped onto. The set is configuration, fixed at build time, not user data.
#[derive(Clone, Copy, PartialEq, Eq, Structural, Debug)]
pub enum CanonicalField {
    FileKey,
    Catalog,
    Brand,
    Description,
    Quantity,
    Ecommerce,
}

impl CanonicalField {
    /// Position of the field in the fixed order.
    pub open spec fn spec_index(self) -> int {
        match self {
            CanonicalField::FileKey => 0,
            CanonicalField::Catalog => 1,
            CanonicalField::Brand => 2,
            CanonicalField::Description => 3,
            CanonicalField::Quantity => 4,
            CanonicalField::Ecommerce => 5,
        }
    }

    pub fn index(self) -> (i: usize)
        ensures
            i == self.spec_index(),
            i < FIELD_COUNT,
    {
        match self {
            CanonicalField::FileKey => 0,
            CanonicalField::Catalog => 1,
            CanonicalField::Brand => 2,
            CanonicalField::Description => 3,
            CanonicalField::Quantity => 4,
            CanonicalField::Ecommerce => 5,
        }
    }

    /// The field at a given position of the fixed order.
    pub fn from_index(i: usize) -> (f: CanonicalField)
        requires
            i < FIELD_COUNT,
        ensures
            f.spec_index() == i,
    {
        if i == 0 {
            CanonicalField::FileKey
        } else if i == 1 {
            CanonicalField::Catalog
        } else if i == 2 {
            CanonicalField::Brand
        } else if i == 3 {
            CanonicalField::Description
        } else if i == 4 {
            CanonicalField::Quantity
        } else {
            CanonicalField::Ecommerce
        }
    }

    /// Display name of the field, as it appears on the wire.
    pub open spec fn spec_name(self) -> Seq<char> {
        match self {
            CanonicalField::FileKey => "File Key"@,
            CanonicalField::Catalog => "Catalog"@,
            CanonicalField::Brand => "Brand"@,
            CanonicalField::Description => "Description"@,
            CanonicalField::Quantity => "Quantity"@,
            CanonicalField::Ecommerce => "Ecommerce"@,
        }
    }

    pub fn name(self) -> (s: &'static str)
        ensures
            s@ == self.spec_name(),
    {
        match self {
            CanonicalField::FileKey => "File Key",
            CanonicalField::Catalog => "Catalog",
            CanonicalField::Brand => "Brand",
            CanonicalField::Description => "Description",
            CanonicalField::Quantity => "Quantity",
            CanonicalField::Ecommerce => "Ecommerce",
        }
    }
}

} // verus!
