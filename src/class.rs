//! The kinds of content the site holds.

use vstd::prelude::*;

verus! {

/// A kind of content.
#[derive(Debug, Clone, Copy, PartialEq, Eq, Structural)]
pub enum Class {
    Page,
    Post,
    Tag,
    Comment,
}

/// The name under which a kind of content is stored.
pub open spec fn class_name(c: Class) -> Seq<char> {
    match c {
        Class::Page => "page"@,
        Class::Post => "post"@,
        Class::Tag => "tag"@,
        Class::Comment => "comment"@,
    }
}

impl Class {
    /// The name under which this kind of content is stored.
    pub fn value(&self) -> (r: &'static str)
        ensures
            r@ == class_name(*self),
    {
        match self {
            Class::Page => "page",
            Class::Post => "post",
            Class::Tag => "tag",
            Class::Comment => "comment",
        }
    }
}

} // verus!
