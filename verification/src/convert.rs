//! From the texts of the documents to the generated source.

use vstd::prelude::*;
use crate::document::Tree;
use crate::emit::{artifact, generate_kotlin_code};
use crate::reader::{parsed_text, read_document};
use crate::recipe::{interpret, interpretation, interpretations, recipe_views, NormalizedRecipe};
use crate::tally::text_views;

verus! {

/// The error of a text that is not JSON.
#[derive(Clone, Copy, Debug, PartialEq, Eq)]
pub struct NotJson;

/// The error of a list of texts of which one is not JSON.
#[derive(Clone, Copy, Debug, PartialEq, Eq)]
pub struct UnreadableText {
    /// The place in the list of the first text that is not JSON.
    pub index: usize,
}

/// Whether each of the texts is JSON.
pub open spec fn readable(texts: Seq<Seq<char>>) -> bool {
    forall|i: int| 0 <= i < texts.len() ==> parsed_text(#[trigger] texts[i]) is Some
}

/// The documents that the texts denote.
pub open spec fn documents(texts: Seq<Seq<char>>) -> Seq<Tree>
    recommends
        readable(texts),
{
    Seq::new(texts.len(), |i: int| parsed_text(texts[i])->0)
}

/// Whether `index` is the place of the first of the texts that is not JSON.
pub open spec fn first_unreadable(texts: Seq<Seq<char>>, index: int) -> bool {
    &&& 0 <= index < texts.len()
    &&& parsed_text(texts[index]) is None
    &&& readable(texts.take(index))
}

/// Whether `outcome` is what converting `texts` gives: the source generated
/// from the recipes that their documents say, where each text is JSON, and the
/// place of the first text that is not where one is not.
pub open spec fn is_conversion(texts: Seq<Seq<char>>, outcome: Result<String, UnreadableText>) -> bool {
    match outcome {
        Ok(code) => readable(texts) && code@ == artifact(interpretations(documents(texts))),
        Err(failed) => first_unreadable(texts, failed.index as int),
    }
}

/// Reads one recipe from the JSON text of a document. A document that says no
/// recipe gives `Ok(None)`; a text that is not JSON is an error.
pub fn parse_recipe(text: &str) -> (outcome: Result<Option<NormalizedRecipe>, NotJson>)
    ensures
        match outcome {
            Ok(Some(recipe)) => parsed_text(text@) matches Some(doc) && interpretation(doc) == Some(
                recipe@,
            ),
            Ok(None) => parsed_text(text@) matches Some(doc) && interpretation(doc) is None,
            Err(_) => parsed_text(text@) is None,
        },
{
    match read_document(text) {
        Some(doc) => Ok(interpret(&doc)),
        None => Err(NotJson),
    }
}

/// Converts the texts of the documents into the generated source. The source
/// lists the recipes of the documents that say one, in the order of the texts;
/// nothing is written for a document that says none. A text that is not JSON
/// fails the whole conversion.
pub fn convert(texts: &Vec<String>) -> (outcome: Result<String, UnreadableText>)
    ensures
        is_conversion(text_views(texts@), outcome),
{
    let ghost all = text_views(texts@);
    let mut recipes: Vec<NormalizedRecipe> = Vec::new();
    let mut i: usize = 0;
    while i < texts.len()
        invariant
            i <= texts.len(),
            all == text_views(texts@),
            readable(all.take(i as int)),
            recipe_views(recipes@) == interpretations(documents(all.take(i as int))),
        decreases texts.len() - i,
    {
        match parse_recipe(texts[i].as_str()) {
            Ok(read) => {
                assert(documents(all.take(i + 1)).drop_last() =~= documents(all.take(i as int)));
                if let Some(recipe) = read {
                    recipes.push(recipe);
                }
            },
            Err(_) => {
                return Err(UnreadableText { index: i });
            },
        }
        i += 1;
    }
    assert(all.take(i as int) =~= all);
    Ok(generate_kotlin_code(recipes))
}

} // verus!
