//! Post categories.
use vstd::prelude::*;

verus! {

/// A post category.
#[derive(Debug, Clone, PartialEq)]
pub struct Category {
    pub id: i32,
    pub name: String,
}

/// The data required to create or rename a category, as submitted by a client.
#[derive(Debug, Clone, PartialEq)]
pub struct NewCategory {
    pub name: String,
}

/// A submitted field that breaks a validation rule.
#[derive(Debug, Clone, PartialEq)]
pub struct FieldError {
    /// The name of the field.
    pub field: String,
    /// The rule that the field breaks.
    pub code: String,
    /// The message shown to the client.
    pub message: String,
}

/// The fewest characters a category name may have.
pub const MIN_CATEGORY_NAME_CHARS: usize = 2;

impl NewCategory {
    /// A category name is valid when it has at least two characters.
    pub open spec fn spec_is_valid(&self) -> bool {
        self.name@.len() >= MIN_CATEGORY_NAME_CHARS
    }

    /// Checks the length rule on the name: at least two characters.
    pub fn validate(&self) -> (r: Result<(), FieldError>)
        ensures
            r is Ok <==> self.spec_is_valid(),
            r matches Err(e) ==> e.field@ == "name"@ && e.code@ == "length"@ && e.message@
                == "category name cannot be empty and minimum should have 2 characters"@,
    {
        if self.name.as_str().unicode_len() >= MIN_CATEGORY_NAME_CHARS {
            Ok(())
        } else {
            Err(
                FieldError {
                    field: String::from_str("name"),
                    code: String::from_str("length"),
                    message: String::from_str(
                        "category name cannot be empty and minimum should have 2 characters",
                    ),
                },
            )
        }
    }
}

} // verus!
