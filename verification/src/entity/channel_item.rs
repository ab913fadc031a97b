//! The episode relation: the entries of a channel's latest feed.

use vstd::prelude::*;
use crate::date::PubDate;
use crate::text::{opt_chars, clone_opt};

verus! {

/// A stored episode. `(channel_id, enclosure)` is its identity; `ordering`
/// is its 1-based rank among the episodes that the channel's feed gave.
#[derive(Debug)]
pub struct Model {
    pub ordering: i32,
    pub channel_id: i32,
    pub title: Option<String>,
    pub link: Option<String>,
    pub source: Option<String>,
    pub enclosure: String,
    pub description: Option<String>,
    pub guid: Option<String>,
    pub pub_date: Option<PubDate>,
}

/// The mathematical value of an episode row.
pub struct ModelView {
    pub ordering: i32,
    pub channel_id: i32,
    pub title: Option<Seq<char>>,
    pub link: Option<Seq<char>>,
    pub source: Option<Seq<char>>,
    pub enclosure: Seq<char>,
    pub description: Option<Seq<char>>,
    pub guid: Option<Seq<char>>,
    pub pub_date: Option<PubDate>,
}

impl View for Model {
    type V = ModelView;

    open spec fn view(&self) -> ModelView {
        ModelView {
            ordering: self.ordering,
            channel_id: self.channel_id,
            title: opt_chars(self.title),
            link: opt_chars(self.link),
            source: opt_chars(self.source),
            enclosure: self.enclosure@,
            description: opt_chars(self.description),
            guid: opt_chars(self.guid),
            pub_date: self.pub_date,
        }
    }
}

impl DeepView for Model {
    type V = ModelView;

    open spec fn deep_view(&self) -> ModelView {
        self@
    }
}

impl Clone for Model {
    fn clone(&self) -> (r: Self)
        ensures
            r@ == self@,
    {
        Model {
            ordering: self.ordering,
            channel_id: self.channel_id,
            title: clone_opt(&self.title),
            link: clone_opt(&self.link),
            source: clone_opt(&self.source),
            enclosure: self.enclosure.clone(),
            description: clone_opt(&self.description),
            guid: clone_opt(&self.guid),
            pub_date: self.pub_date,
        }
    }
}

} // verus!
