//! The channel relation: one row per subscribed feed.

use vstd::prelude::*;
use crate::text::{opt_chars, clone_opt};

verus! {

/// A stored channel. `link` is the channel's identity.
#[derive(Debug)]
pub struct Model {
    pub id: i32,
    pub title: Option<String>,
    pub link: Option<String>,
    pub description: Option<String>,
}

/// The mathematical value of a channel row.
pub struct ModelView {
    pub id: i32,
    pub title: Option<Seq<char>>,
    pub link: Option<Seq<char>>,
    pub description: Option<Seq<char>>,
}

impl View for Model {
    type V = ModelView;

    open spec fn view(&self) -> ModelView {
        ModelView {
            id: self.id,
            title: opt_chars(self.title),
            link: opt_chars(self.link),
            description: opt_chars(self.description),
        }
    }
}

impl DeepView for Model {
    type V = ModelView;

    open spec fn deep_view(&self) -> ModelView {
        self@
    }
}

impl Clone for Model {
    fn clone(&self) -> (r: Self)
        ensures
            r@ == self@,
    {
        Model {
            id: self.id,
            title: clone_opt(&self.title),
            link: clone_opt(&self.link),
            description: clone_opt(&self.description),
        }
    }
}

} // verus!
