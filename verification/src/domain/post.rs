//! Posts as clients submit them.
use vstd::prelude::*;
use crate::domain::category::FieldError;

verus! {

/// A submitted post.
#[derive(Debug, Clone, PartialEq)]
pub struct NewPost {
    pub title: String,
    pub description: String,
    /// The category to file the post under; zero for none.
    pub category_id: i32,
}

fn empty_field(field: &str, message: &str) -> (r: FieldError)
    ensures
        r.field@ == field@,
        r.code@ == "length"@,
        r.message@ == message@,
{
    FieldError {
        field: String::from_str(field),
        code: String::from_str("length"),
        message: String::from_str(message),
    }
}

impl NewPost {
    /// A post is valid when neither its title nor its description is empty.
    pub open spec fn spec_is_valid(&self) -> bool {
        self.title@.len() > 0 && self.description@.len() > 0
    }

    /// Checks that the title, then the description, is not empty.
    pub fn validate(&self) -> (r: Result<(), FieldError>)
        ensures
            r is Ok <==> self.spec_is_valid(),
            self.title@.len() == 0 ==> (r matches Err(e) && e.field@ == "title"@ && e.code@
                == "length"@ && e.message@ == "title cannot be empty"@),
            self.title@.len() > 0 && self.description@.len() == 0 ==> (r matches Err(e)
                && e.field@ == "description"@ && e.code@ == "length"@ && e.message@
                == "description cannot be empty"@),
    {
        if self.title.as_str().unicode_len() == 0 {
            return Err(empty_field("title", "title cannot be empty"));
        }
        if self.description.as_str().unicode_len() == 0 {
            return Err(empty_field("description", "description cannot be empty"));
        }
        Ok(())
    }
}

} // verus!
