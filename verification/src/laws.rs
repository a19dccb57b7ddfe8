//! What holds of every document and of every conversion.

use vstd::prelude::*;
use crate::convert::{is_conversion, readable, UnreadableText};
use crate::document::{field_of, text_of, Tree};
use crate::emit::listing_text;
use crate::lists::{lemma_filter_map_add, lemma_filter_map_filter};
use crate::recipe::{
    cell_items,
    elements_of,
    interpretation,
    interpretations,
    interpreter,
    item_of,
    kind_of,
    pattern_cells,
    required_items,
    resolver,
    result_item,
    single_items,
    symbol_item,
    symbol_resolver,
    type_tag,
    RecipeKind,
    RecipeModel,
};
use crate::tally::{
    count_of,
    has_item,
    is_item,
    is_mapping,
    lemma_tallied_count,
    lemma_tallied_is_mapping,
    lemma_tallied_items,
};
use crate::text::{has_namespace, stripped, NAMESPACE};

verus! {

/// The kind of recipe that a document's type tag stands for.
pub open spec fn document_kind(doc: Tree) -> Option<RecipeKind> {
    match type_tag(doc) {
        Some(tag) => kind_of(tag),
        None => None,
    }
}

/// The test for a symbol that stands for the item `id` under `key`.
pub open spec fn stands_for(key: Tree, id: Seq<char>) -> spec_fn(char) -> bool {
    |symbol: char| symbol_item(key, symbol) == Some(id)
}

/// The test for an ingredient that names the item `id` directly.
pub open spec fn names(id: Seq<char>) -> spec_fn(Tree) -> bool {
    |ingredient: Tree| item_of(ingredient) == Some(id)
}

/// Whether `id` begins with the namespace prefix twice over.
pub open spec fn doubly_prefixed(id: Seq<char>) -> bool {
    (NAMESPACE@ + NAMESPACE@).is_prefix_of(id)
}

/// In a shaped recipe the count of an item is the number of cells of the
/// pattern whose symbol stands for that item.
pub proof fn lemma_shaped_counts(doc: Tree, id: Seq<char>)
    requires
        document_kind(doc) == Some(RecipeKind::Shaped),
        interpretation(doc) is Some,
    ensures
        ({
            let key = doc.field("key"@)->0;
            let rows = elements_of(doc.field("pattern"@))->0;
            count_of(interpretation(doc)->0.requirements, id) == pattern_cells(rows).filter(
                stands_for(key, id),
            ).len()
        }),
{
    let key = doc.field("key"@)->0;
    let rows = elements_of(doc.field("pattern"@))->0;
    let cells = pattern_cells(rows);
    lemma_tallied_count(cell_items(key, cells), id);
    lemma_filter_map_filter(cells, symbol_resolver(key), is_item(id), stands_for(key, id));
}

/// In a shapeless recipe the count of an item is the number of ingredients
/// that name that item: each adds one, and none replaces another.
pub proof fn lemma_shapeless_counts(doc: Tree, id: Seq<char>)
    requires
        document_kind(doc) == Some(RecipeKind::Shapeless),
        interpretation(doc) is Some,
    ensures
        ({
            let ingredients = elements_of(doc.field("ingredients"@))->0;
            count_of(interpretation(doc)->0.requirements, id) == ingredients.filter(names(id)).len()
        }),
{
    let ingredients = elements_of(doc.field("ingredients"@))->0;
    lemma_tallied_count(ingredients.filter_map(resolver()), id);
    lemma_filter_map_filter(ingredients, resolver(), is_item(id), names(id));
}

/// A recipe that burns fuel is read from every document that names the item
/// it makes, and requires `fuel` at least once, whatever its ingredient is.
pub proof fn lemma_furnace_burns_fuel(doc: Tree)
    requires
        document_kind(doc) == Some(RecipeKind::Furnace),
        result_item(doc) is Some,
    ensures
        interpretation(doc) is Some,
        count_of(interpretation(doc)->0.requirements, "fuel"@) >= 1,
{
    let items = single_items(doc).push("fuel"@);
    lemma_tallied_count(items, "fuel"@);
    single_items(doc).lemma_filter_push("fuel"@, is_item("fuel"@));
}

/// The requirements of a recipe are a mapping: each item is there once, with
/// a positive count.
pub proof fn lemma_requirements_are_a_mapping(doc: Tree)
    requires
        interpretation(doc) is Some,
    ensures
        is_mapping(interpretation(doc)->0.requirements),
{
    lemma_tallied_is_mapping(required_items(document_kind(doc)->0, doc)->0);
}

/// A recipe requires the items that its document names for its kind, and no
/// others.
pub proof fn lemma_requirements_are_the_items(doc: Tree, id: Seq<char>)
    requires
        interpretation(doc) is Some,
    ensures
        has_item(interpretation(doc)->0.requirements, id) <==> required_items(
            document_kind(doc)->0,
            doc,
        )->0.contains(id),
{
    lemma_tallied_items(required_items(document_kind(doc)->0, doc)->0, id);
}

/// The item made and the kind of a recipe are the `id` of the `result` and the
/// `type` of its document, stripped.
pub proof fn lemma_result_is_stripped(doc: Tree)
    requires
        interpretation(doc) is Some,
    ensures
        text_of(doc.field("type"@)) is Some,
        text_of(field_of(doc.field("result"@), "id"@)) is Some,
        interpretation(doc)->0.recipe_kind == stripped(text_of(doc.field("type"@))->0),
        interpretation(doc)->0.result_item == stripped(
            text_of(field_of(doc.field("result"@), "id"@))->0,
        ),
{
}

/// The item that an ingredient resolves to is its `item`, stripped.
pub proof fn lemma_item_is_stripped(ingredient: Tree)
    requires
        item_of(ingredient) is Some,
    ensures
        text_of(ingredient.field("item"@)) is Some,
        item_of(ingredient)->0 == stripped(text_of(ingredient.field("item"@))->0),
{
}

/// The kind of a recipe has no namespace.
pub proof fn lemma_kind_has_no_namespace(doc: Tree)
    requires
        interpretation(doc) is Some,
    ensures
        !has_namespace(interpretation(doc)->0.recipe_kind),
{
    reveal_strlit("minecraft:");
    reveal_strlit("crafting_shaped");
    reveal_strlit("crafting_shapeless");
    reveal_strlit("smoking");
    reveal_strlit("smelting");
    reveal_strlit("blasting");
    reveal_strlit("campfire_cooking");
    reveal_strlit("smithing_transform");
    reveal_strlit("stonecutting");
    let kind = interpretation(doc)->0.recipe_kind;
    if has_namespace(kind) {
        assert(kind.subrange(0, 10)[0] == 'm');
    }
}

/// Stripping leaves an identifier without namespace as it is.
pub proof fn lemma_bare_is_kept(id: Seq<char>)
    requires
        !has_namespace(id),
    ensures
        stripped(id) == id,
{
}

/// What stripping leaves has no namespace, and stripping it again changes
/// nothing, unless the identifier began with the prefix twice over.
pub proof fn lemma_stripping_settles(id: Seq<char>)
    requires
        !doubly_prefixed(id),
    ensures
        !has_namespace(stripped(id)),
        stripped(stripped(id)) == stripped(id),
{
}

/// A document without a type that is understood, or without the item that it
/// makes, says no recipe.
pub proof fn lemma_unrecognized(doc: Tree)
    requires
        document_kind(doc) is None || result_item(doc) is None,
    ensures
        interpretation(doc) is None,
{
}

/// A document that says no recipe adds nothing to what a list of documents
/// says: the list says the same without it.
pub proof fn lemma_unrecognized_is_dropped(docs: Seq<Tree>, at: int)
    requires
        0 <= at < docs.len(),
        interpretation(docs[at]) is None,
    ensures
        interpretations(docs) == interpretations(docs.remove(at)),
{
    let head = docs.take(at);
    let tail = docs.skip(at + 1);
    let says = interpreter();
    assert(docs =~= head + seq![docs[at]] + tail);
    lemma_filter_map_add(head + seq![docs[at]], tail, says);
    lemma_filter_map_add(head, seq![docs[at]], says);
    lemma_filter_map_add(head, tail, says);
    Seq::lemma_filter_map_singleton(docs[at], says);
}

/// What a list of documents says is what its parts say, one after the other.
pub proof fn lemma_interpretations_of_joined(first: Seq<Tree>, second: Seq<Tree>)
    ensures
        interpretations(first + second) == interpretations(first) + interpretations(second),
{
    lemma_filter_map_add(first, second, interpreter());
}

/// The listing of a joined list of recipes is the listings of its parts, one
/// after the other: every recipe has its line, in its place.
pub proof fn lemma_listing_of_joined(first: Seq<RecipeModel>, second: Seq<RecipeModel>)
    ensures
        listing_text(first + second) == listing_text(first) + listing_text(second),
    decreases second.len(),
{
    if second.len() > 0 {
        lemma_listing_of_joined(first, second.drop_last());
        assert((first + second).drop_last() =~= first + second.drop_last());
    }
}

/// A conversion fails only on a text that is not JSON: a document that says no
/// recipe does not fail it.
pub proof fn lemma_readable_texts_convert(
    texts: Seq<Seq<char>>,
    outcome: Result<String, UnreadableText>,
)
    requires
        readable(texts),
        is_conversion(texts, outcome),
    ensures
        outcome is Ok,
{
}

/// A conversion has one outcome: two runs on the same texts give the same
/// source, character for character, or fail at the same text.
pub proof fn lemma_conversion_is_determined(
    texts: Seq<Seq<char>>,
    first: Result<String, UnreadableText>,
    second: Result<String, UnreadableText>,
)
    requires
        is_conversion(texts, first),
        is_conversion(texts, second),
    ensures
        match (first, second) {
            (Ok(a), Ok(b)) => a@ == b@,
            (Err(a), Err(b)) => a.index == b.index,
            _ => false,
        },
{
    if first is Err && second is Err {
        let i = first->Err_0.index as int;
        let j = second->Err_0.index as int;
        if i < j {
            assert(texts.take(j)[i] == texts[i]);
        } else if j < i {
            assert(texts.take(i)[j] == texts[j]);
        }
    }
}

} // verus!
