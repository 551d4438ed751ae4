//! Typed reads of the members of a JSON object: what each kind of member is in the
//! model, and the function that fetches it.

use vstd::prelude::*;
use vstd::string::*;
use crate::json::Json;

verus! {

impl Json {
    /// The text of the string member under `key`.
    pub open spec fn text_at(self, key: Seq<char>) -> Option<Seq<char>> {
        match self.field(key) {
            Some(v) => v.text(),
            None => None,
        }
    }

    /// The identifier that the string member under `key` spells.
    pub open spec fn id_at(self, key: Seq<char>) -> Option<u64> {
        match self.field(key) {
            Some(v) => v.id(),
            None => None,
        }
    }

    /// The unsigned number under `key`.
    pub open spec fn unsigned_at(self, key: Seq<char>) -> Option<u64> {
        match self.field(key) {
            Some(v) => v.unsigned(),
            None => None,
        }
    }

    /// The boolean under `key`.
    pub open spec fn boolean_at(self, key: Seq<char>) -> Option<bool> {
        match self.field(key) {
            Some(v) => v.boolean(),
            None => None,
        }
    }

    /// The items of the array under `key`.
    pub open spec fn items_at(self, key: Seq<char>) -> Option<Seq<Json>> {
        match self.field(key) {
            Some(v) => v.items(),
            None => None,
        }
    }

    /// An optional string member: `Some(None)` where it is missing or null,
    /// `None` where it is there and no string.
    pub open spec fn opt_text_at(self, key: Seq<char>) -> Option<Option<Seq<char>>> {
        match self.present(key) {
            None => Some(None),
            Some(v) => match v.text() {
                Some(t) => Some(Some(t)),
                None => None,
            },
        }
    }

    /// An optional identifier, read as [`Json::opt_text_at`] reads a string.
    pub open spec fn opt_id_at(self, key: Seq<char>) -> Option<Option<u64>> {
        match self.present(key) {
            None => Some(None),
            Some(v) => match v.id() {
                Some(n) => Some(Some(n)),
                None => None,
            },
        }
    }

    /// An optional unsigned number.
    pub open spec fn opt_unsigned_at(self, key: Seq<char>) -> Option<Option<u64>> {
        match self.present(key) {
            None => Some(None),
            Some(v) => match v.unsigned() {
                Some(n) => Some(Some(n)),
                None => None,
            },
        }
    }

    /// An optional signed number.
    pub open spec fn opt_signed_at(self, key: Seq<char>) -> Option<Option<i64>> {
        match self.present(key) {
            None => Some(None),
            Some(v) => match v.signed() {
                Some(n) => Some(Some(n)),
                None => None,
            },
        }
    }

    /// An optional boolean.
    pub open spec fn opt_boolean_at(self, key: Seq<char>) -> Option<Option<bool>> {
        match self.present(key) {
            None => Some(None),
            Some(v) => match v.boolean() {
                Some(b) => Some(Some(b)),
                None => None,
            },
        }
    }

    pub fn read_text(&self, key: &str) -> (r: Option<String>)
        ensures
            match r {
                Some(s) => self.text_at(key@) == Some(s@),
                None => self.text_at(key@) is None,
            },
    {
        match self.get(key) {
            Some(v) => match v.as_text() {
                Some(t) => Some(t.to_owned()),
                None => None,
            },
            None => None,
        }
    }

    pub fn read_id(&self, key: &str) -> (r: Option<u64>)
        ensures
            r == self.id_at(key@),
    {
        match self.get(key) {
            Some(v) => v.as_id(),
            None => None,
        }
    }

    pub fn read_unsigned(&self, key: &str) -> (r: Option<u64>)
        ensures
            r == self.unsigned_at(key@),
    {
        match self.get(key) {
            Some(v) => v.as_unsigned(),
            None => None,
        }
    }

    pub fn read_boolean(&self, key: &str) -> (r: Option<bool>)
        ensures
            r == self.boolean_at(key@),
    {
        match self.get(key) {
            Some(v) => v.as_boolean(),
            None => None,
        }
    }

    pub fn read_items(&self, key: &str) -> (r: Option<&Vec<Json>>)
        ensures
            match r {
                Some(items) => self.items_at(key@) == Some(items@),
                None => self.items_at(key@) is None,
            },
    {
        match self.get(key) {
            Some(v) => v.as_items(),
            None => None,
        }
    }

    pub fn read_opt_text(&self, key: &str) -> (r: Option<Option<String>>)
        ensures
            match r {
                Some(Some(s)) => self.opt_text_at(key@) == Some(Some(s@)),
                Some(None) => self.opt_text_at(key@) == Some(None::<Seq<char>>),
                None => self.opt_text_at(key@) is None,
            },
    {
        match self.get_present(key) {
            None => Some(None),
            Some(v) => match v.as_text() {
                Some(t) => Some(Some(t.to_owned())),
                None => None,
            },
        }
    }

    pub fn read_opt_id(&self, key: &str) -> (r: Option<Option<u64>>)
        ensures
            r == self.opt_id_at(key@),
    {
        match self.get_present(key) {
            None => Some(None),
            Some(v) => match v.as_id() {
                Some(n) => Some(Some(n)),
                None => None,
            },
        }
    }

    pub fn read_opt_unsigned(&self, key: &str) -> (r: Option<Option<u64>>)
        ensures
            r == self.opt_unsigned_at(key@),
    {
        match self.get_present(key) {
            None => Some(None),
            Some(v) => match v.as_unsigned() {
                Some(n) => Some(Some(n)),
                None => None,
            },
        }
    }

    pub fn read_opt_signed(&self, key: &str) -> (r: Option<Option<i64>>)
        ensures
            r == self.opt_signed_at(key@),
    {
        match self.get_present(key) {
            None => Some(None),
            Some(v) => match v.as_signed() {
                Some(n) => Some(Some(n)),
                None => None,
            },
        }
    }

    pub fn read_opt_boolean(&self, key: &str) -> (r: Option<Option<bool>>)
        ensures
            r == self.opt_boolean_at(key@),
    {
        match self.get_present(key) {
            None => Some(None),
            Some(v) => match v.as_boolean() {
                Some(b) => Some(Some(b)),
                None => None,
            },
        }
    }
}

} // verus!
