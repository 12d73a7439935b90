//! Display-ready values: the identifier of a status and its view model.

use vstd::prelude::*;
use crate::status::{Post, Status};

verus! {

/// The key under which a status is cached and found again.
#[derive(Debug, PartialEq, Eq, Hash)]
pub struct StatusId(pub String);

impl View for StatusId {
    type V = Seq<char>;

    open spec fn view(&self) -> Seq<char> {
        self.0@
    }
}

impl Clone for StatusId {
    fn clone(&self) -> (copy: Self)
        ensures
            copy == *self,
    {
        StatusId(self.0.clone())
    }
}

/// The display-ready projection of one status.
#[derive(Debug, PartialEq, Eq)]
pub struct StatusViewModel {
    pub id: StatusId,
    pub content: String,
}

impl View for StatusViewModel {
    type V = Post;

    open spec fn view(&self) -> Post {
        Post { id: self.id@, content: self.content@ }
    }
}

impl DeepView for StatusViewModel {
    type V = Post;

    open spec fn deep_view(&self) -> Post {
        self@
    }
}

impl Clone for StatusViewModel {
    fn clone(&self) -> (copy: Self)
        ensures
            copy == *self,
    {
        StatusViewModel { id: self.id.clone(), content: self.content.clone() }
    }
}

impl StatusViewModel {
    /// Projects a fetched status: the view model stands for the same post.
    pub fn new(status: &Status) -> (model: Self)
        ensures
            model@ == status@,
    {
        StatusViewModel { id: StatusId(status.id.clone()), content: status.content.clone() }
    }
}

} // verus!
