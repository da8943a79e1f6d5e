//! The record model: one bibliographic entry with its nested entities.
//!
//! Every field but the identifier is optional; absence is modelled with
//! `Option`, distinct from an empty string, since an absent field suppresses
//! its XML element entirely.

use vstd::prelude::*;
use vstd::string::StringExecFns;

verus! {

/// One contributor to a bibliographic entry.
pub struct Creator {
    pub first_name: Option<String>,
    pub last_name: String,
    pub creator_type: String,
}

/// The mathematical shape of a [`Creator`].
#[verifier::ext_equal]
pub ghost struct CreatorView {
    pub first_name: Option<Seq<char>>,
    pub last_name: Seq<char>,
    pub creator_type: Seq<char>,
}

impl DeepView for Creator {
    type V = CreatorView;

    open spec fn deep_view(&self) -> CreatorView {
        CreatorView {
            first_name: self.first_name.deep_view(),
            last_name: self.last_name@,
            creator_type: self.creator_type@,
        }
    }
}

/// One subject keyword, wrapped to make its origin in the input explicit.
pub struct Tag {
    pub tag: String,
}

impl DeepView for Tag {
    type V = Seq<char>;

    open spec fn deep_view(&self) -> Seq<char> {
        self.tag@
    }
}

/// One bibliographic entry, as decoded from the input.
pub struct Record {
    pub library_key: String,
    pub title: Option<String>,
    pub creators: Option<Vec<Creator>>,
    pub date: Option<String>,
    pub abstract_note: Option<String>,
    pub item_type: Option<String>,
    pub publisher: Option<String>,
    pub language: Option<String>,
    pub rights: Option<String>,
    pub tags: Option<Vec<Tag>>,
}

/// The mathematical shape of a [`Record`].
#[verifier::ext_equal]
pub ghost struct RecordView {
    pub library_key: Seq<char>,
    pub title: Option<Seq<char>>,
    pub creators: Option<Seq<CreatorView>>,
    pub date: Option<Seq<char>>,
    pub abstract_note: Option<Seq<char>>,
    pub item_type: Option<Seq<char>>,
    pub publisher: Option<Seq<char>>,
    pub language: Option<Seq<char>>,
    pub rights: Option<Seq<char>>,
    pub tags: Option<Seq<Seq<char>>>,
}

impl DeepView for Record {
    type V = RecordView;

    open spec fn deep_view(&self) -> RecordView {
        RecordView {
            library_key: self.library_key@,
            title: self.title.deep_view(),
            creators: self.creators.deep_view(),
            date: self.date.deep_view(),
            abstract_note: self.abstract_note.deep_view(),
            item_type: self.item_type.deep_view(),
            publisher: self.publisher.deep_view(),
            language: self.language.deep_view(),
            rights: self.rights.deep_view(),
            tags: self.tags.deep_view(),
        }
    }
}

/// A record with every optional field absent.
pub open spec fn minimal_record(r: RecordView) -> bool {
    &&& r.title is None
    &&& r.creators is None
    &&& r.date is None
    &&& r.abstract_note is None
    &&& r.item_type is None
    &&& r.publisher is None
    &&& r.language is None
    &&& r.rights is None
    &&& r.tags is None
}

/// The display name of a creator: `"first last"` when a first name is
/// present, else the last name alone.
pub open spec fn spec_full_name(c: CreatorView) -> Seq<char> {
    match c.first_name {
        Some(f) => f + " "@ + c.last_name,
        None => c.last_name,
    }
}

impl Creator {
    /// The display name rendered into XML name elements.
    pub fn full_name(&self) -> (r: String)
        ensures
            r@ == spec_full_name(self.deep_view()),
    {
        match &self.first_name {
            Some(first) => {
                let mut s = first.clone();
                s.append(" ");
                s.append(self.last_name.as_str());
                s
            },
            None => self.last_name.clone(),
        }
    }
}

} // verus!
