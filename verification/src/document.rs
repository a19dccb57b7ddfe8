//! The document tree that a recipe is read from.

use vstd::prelude::*;
use crate::text::same_text;

verus! {

/// A parsed document, as the interpreter reads it.
///
/// An object is a list of named members. A name is looked up from the front, so
/// of two members with one name the first is the one that counts.
#[derive(Debug, PartialEq, Eq)]
pub enum Json {
    /// The value `null`.
    Null,
    /// `true` or `false`.
    Bool(bool),
    /// A number. It carries its value where that is a whole number from 0 to
    /// 2^64 - 1, and nothing otherwise.
    Number(Option<u64>),
    /// A string.
    Text(String),
    /// A list of values.
    Array(Vec<Json>),
    /// A list of named values.
    Object(Vec<(String, Json)>),
}

/// The mathematical value of a document: the same tree, with sequences for
/// strings and lists.
pub enum Tree {
    Null,
    Bool(bool),
    Number(Option<u64>),
    Text(Seq<char>),
    Array(Seq<Tree>),
    Object(Seq<(Seq<char>, Tree)>),
}

/// The value of the first member of `members` that is called `name`.
pub open spec fn member(members: Seq<(Seq<char>, Tree)>, name: Seq<char>) -> Option<Tree>
    decreases members.len(),
{
    if members.len() == 0 {
        None
    } else if members[0].0 == name {
        Some(members[0].1)
    } else {
        member(members.skip(1), name)
    }
}

impl Tree {
    /// The member `name` of an object; `None` for a value that is no object or
    /// has no such member.
    pub open spec fn field(self, name: Seq<char>) -> Option<Tree> {
        match self {
            Tree::Object(members) => member(members, name),
            _ => None,
        }
    }

    /// The characters of a text value.
    pub open spec fn text(self) -> Option<Seq<char>> {
        match self {
            Tree::Text(s) => Some(s),
            _ => None,
        }
    }

    /// The value of a number that is a whole number from 0 to 2^64 - 1.
    pub open spec fn unsigned(self) -> Option<u64> {
        match self {
            Tree::Number(n) => n,
            _ => None,
        }
    }

    /// The elements of an array.
    pub open spec fn elements(self) -> Option<Seq<Tree>> {
        match self {
            Tree::Array(items) => Some(items),
            _ => None,
        }
    }
}

/// The member `name` of `parent`, where there is a parent.
pub open spec fn field_of(parent: Option<Tree>, name: Seq<char>) -> Option<Tree> {
    match parent {
        Some(tree) => tree.field(name),
        None => None,
    }
}

/// The characters of `value`, where it is there and is a text.
pub open spec fn text_of(value: Option<Tree>) -> Option<Seq<char>> {
    match value {
        Some(tree) => tree.text(),
        None => None,
    }
}

/// The values of a list of documents.
pub open spec fn trees(items: Seq<Json>) -> Seq<Tree> {
    Seq::new(items.len(), |i: int| items[i]@)
}

/// The values of a list of named documents.
pub open spec fn named_trees(members: Seq<(String, Json)>) -> Seq<(Seq<char>, Tree)> {
    Seq::new(members.len(), |i: int| (members[i].0@, members[i].1@))
}

impl Json {
    /// The value of the document.
    pub open spec fn tree(self) -> Tree
        decreases self,
    {
        match self {
            Json::Null => Tree::Null,
            Json::Bool(b) => Tree::Bool(b),
            Json::Number(n) => Tree::Number(n),
            Json::Text(s) => Tree::Text(s@),
            Json::Array(items) => Tree::Array(
                Seq::new(
                    items@.len(),
                    |i: int|
                        if 0 <= i < items@.len() {
                            items@[i].tree()
                        } else {
                            Tree::Null
                        },
                ),
            ),
            Json::Object(members) => Tree::Object(
                Seq::new(
                    members@.len(),
                    |i: int|
                        if 0 <= i < members@.len() {
                            (members@[i].0@, members@[i].1.tree())
                        } else {
                            (Seq::empty(), Tree::Null)
                        },
                ),
            ),
        }
    }
}

impl View for Json {
    type V = Tree;

    open spec fn view(&self) -> Tree {
        self.tree()
    }
}

impl Json {
    /// The value of an array is the list of its elements' values.
    pub proof fn lemma_array_view(items: Vec<Json>)
        ensures
            Json::Array(items)@ == Tree::Array(trees(items@)),
    {
        assert(Json::Array(items)@->Array_0 =~= trees(items@));
    }

    /// The value of an object is the list of its members' names and values.
    pub proof fn lemma_object_view(members: Vec<(String, Json)>)
        ensures
            Json::Object(members)@ == Tree::Object(named_trees(members@)),
    {
        assert(Json::Object(members)@->Object_0 =~= named_trees(members@));
    }

    /// Looks up a member of an object by name.
    pub fn get(&self, name: &str) -> (found: Option<&Json>)
        ensures
            match found {
                Some(value) => self@.field(name@) == Some(value@),
                None => self@.field(name@) is None,
            },
    {
        match self {
            Json::Object(members) => {
                proof {
                    Json::lemma_object_view(*members);
                }
                let ghost all = named_trees(members@);
                assert(all.skip(0) =~= all);
                let mut i: usize = 0;
                while i < members.len()
                    invariant
                        i <= members.len(),
                        all == named_trees(members@),
                        self@ == Tree::Object(all),
                        member(all, name@) == member(all.skip(i as int), name@),
                    decreases members.len() - i,
                {
                    assert(all.skip(i as int).skip(1) =~= all.skip(i + 1));
                    if same_text(members[i].0.as_str(), name) {
                        return Some(&members[i].1);
                    }
                    i += 1;
                }
                None
            },
            _ => None,
        }
    }

    /// Looks up the member of an object whose name is the one character `symbol`.
    pub fn get_symbol(&self, symbol: char) -> (found: Option<&Json>)
        ensures
            match found {
                Some(value) => self@.field(seq![symbol]) == Some(value@),
                None => self@.field(seq![symbol]) is None,
            },
    {
        match self {
            Json::Object(members) => {
                proof {
                    Json::lemma_object_view(*members);
                }
                let ghost all = named_trees(members@);
                let ghost name = seq![symbol];
                assert(all.skip(0) =~= all);
                let mut i: usize = 0;
                while i < members.len()
                    invariant
                        i <= members.len(),
                        all == named_trees(members@),
                        name == seq![symbol],
                        self@ == Tree::Object(all),
                        member(all, name) == member(all.skip(i as int), name),
                    decreases members.len() - i,
                {
                    assert(all.skip(i as int).skip(1) =~= all.skip(i + 1));
                    let candidate = members[i].0.as_str();
                    if candidate.unicode_len() == 1 && candidate.get_char(0) == symbol {
                        assert(candidate@ =~= name);
                        return Some(&members[i].1);
                    }
                    i += 1;
                }
                None
            },
            _ => None,
        }
    }

    /// The characters of a text value.
    pub fn as_text(&self) -> (text: Option<&str>)
        ensures
            match text {
                Some(s) => self@.text() == Some(s@),
                None => self@.text() is None,
            },
    {
        match self {
            Json::Text(s) => Some(s.as_str()),
            _ => None,
        }
    }

    /// The characters of the member `name` of an object, where it is a text.
    pub fn get_text(&self, name: &str) -> (text: Option<&str>)
        ensures
            match text {
                Some(s) => text_of(self@.field(name@)) == Some(s@),
                None => text_of(self@.field(name@)) is None,
            },
    {
        match self.get(name) {
            Some(value) => value.as_text(),
            None => None,
        }
    }

    /// The value of a number that is a whole number from 0 to 2^64 - 1.
    pub fn as_unsigned(&self) -> (value: Option<u64>)
        ensures
            value == self@.unsigned(),
    {
        match self {
            Json::Number(n) => *n,
            _ => None,
        }
    }

    /// The elements of an array.
    pub fn as_array(&self) -> (items: Option<&Vec<Json>>)
        ensures
            match items {
                Some(list) => self@.elements() == Some(trees(list@)),
                None => self@.elements() is None,
            },
    {
        match self {
            Json::Array(items) => {
                proof {
                    Json::lemma_array_view(*items);
                }
                Some(items)
            },
            _ => None,
        }
    }

    /// Whether the value is an object.
    pub fn is_object(&self) -> (yes: bool)
        ensures
            yes == (self@ is Object),
    {
        match self {
            Json::Object(_) => true,
            _ => false,
        }
    }
}

} // verus!
