//! The raw item: a status as the remote feed delivers it.

use vstd::prelude::*;

verus! {

/// What a status is to the timeline, whatever holds it: the identifier under
/// which it is cached and the text it shows.
pub struct Post {
    pub id: Seq<char>,
    pub content: Seq<char>,
}

/// A status as fetched, before it is projected for display.
#[derive(Debug, PartialEq, Eq)]
pub struct Status {
    pub id: String,
    pub content: String,
}

impl View for Status {
    type V = Post;

    open spec fn view(&self) -> Post {
        Post { id: self.id@, content: self.content@ }
    }
}

impl DeepView for Status {
    type V = Post;

    open spec fn deep_view(&self) -> Post {
        self@
    }
}

impl Clone for Status {
    fn clone(&self) -> (copy: Self)
        ensures
            copy == *self,
    {
        Status { id: self.id.clone(), content: self.content.clone() }
    }
}

} // verus!
