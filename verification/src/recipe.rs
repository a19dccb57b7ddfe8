//! Reading one recipe from a document.
//!
//! What a document says is defined on its value, by `interpretation`; the
//! functions below compute it on the document itself.

use vstd::prelude::*;
use crate::document::{field_of, text_of, trees, Json, Tree};
use crate::lists::lemma_filter_map_add;
use crate::tally::{
    count_of,
    entry_views,
    is_mapping,
    lemma_position_is,
    tallied,
    tally,
    text_views,
};
use crate::text::{same_text, strip_namespace, stripped};

verus! {

/// The ways of making an item that are understood.
#[derive(Clone, Copy, Debug, PartialEq, Eq, Structural)]
pub enum RecipeKind {
    /// Crafting where the place of each ingredient in the grid matters.
    Shaped,
    /// Crafting where only the ingredients matter.
    Shapeless,
    /// Smelting, blasting or smoking: cooking that burns fuel.
    Furnace,
    /// Cooking on a campfire, which burns none.
    Campfire,
    /// Upgrading an item on a smithing table.
    Smithing,
    /// Cutting stone.
    Stonecutting,
}

/// A recipe in its uniform shape.
#[derive(Clone, Debug, PartialEq, Eq)]
pub struct NormalizedRecipe {
    /// The item made, without namespace.
    pub result_item: String,
    /// How many of it one crafting makes.
    pub result_quantity: u32,
    /// The items used up, each with its count. In a recipe read from a
    /// document each item is there once, in the order in which the document
    /// first uses it.
    pub requirements: Vec<(String, u64)>,
    /// The document's type tag, without namespace.
    pub recipe_kind: String,
}

/// The mathematical value of a recipe.
pub struct RecipeModel {
    pub result_item: Seq<char>,
    pub result_quantity: nat,
    pub requirements: Seq<(Seq<char>, nat)>,
    pub recipe_kind: Seq<char>,
}

impl View for NormalizedRecipe {
    type V = RecipeModel;

    open spec fn view(&self) -> RecipeModel {
        RecipeModel {
            result_item: self.result_item@,
            result_quantity: self.result_quantity as nat,
            requirements: entry_views(self.requirements@),
            recipe_kind: self.recipe_kind@,
        }
    }
}

/// The values of a list of recipes.
pub open spec fn recipe_views(recipes: Seq<NormalizedRecipe>) -> Seq<RecipeModel> {
    Seq::new(recipes.len(), |i: int| recipes[i]@)
}

/// The value of a text that may be missing.
pub open spec fn optional_text(text: Option<String>) -> Option<Seq<char>> {
    match text {
        Some(s) => Some(s@),
        None => None,
    }
}

/// The kind of recipe that a type tag without namespace stands for.
pub open spec fn kind_of(tag: Seq<char>) -> Option<RecipeKind> {
    if tag == "crafting_shaped"@ {
        Some(RecipeKind::Shaped)
    } else if tag == "crafting_shapeless"@ {
        Some(RecipeKind::Shapeless)
    } else if tag == "smoking"@ || tag == "smelting"@ || tag == "blasting"@ {
        Some(RecipeKind::Furnace)
    } else if tag == "campfire_cooking"@ {
        Some(RecipeKind::Campfire)
    } else if tag == "smithing_transform"@ {
        Some(RecipeKind::Smithing)
    } else if tag == "stonecutting"@ {
        Some(RecipeKind::Stonecutting)
    } else {
        None
    }
}

/// The item that an ingredient names directly, without namespace: its member
/// `item`, where that is a text. An ingredient that names a tag instead, or
/// that is no object, resolves to none.
pub open spec fn item_of(ingredient: Tree) -> Option<Seq<char>> {
    match text_of(ingredient.field("item"@)) {
        Some(id) => Some(stripped(id)),
        None => None,
    }
}

/// `item_of` as a function value.
pub open spec fn resolver() -> spec_fn(Tree) -> Option<Seq<char>> {
    |ingredient: Tree| item_of(ingredient)
}

/// The item of an ingredient that may be missing.
pub open spec fn optional_item(ingredient: Option<Tree>) -> Option<Seq<char>> {
    match ingredient {
        Some(tree) => item_of(tree),
        None => None,
    }
}

/// The one item, or none.
pub open spec fn listed(item: Option<Seq<char>>) -> Seq<Seq<char>> {
    match item {
        Some(id) => seq![id],
        None => Seq::empty(),
    }
}

/// The elements of `value`, where it is there and is an array.
pub open spec fn elements_of(value: Option<Tree>) -> Option<Seq<Tree>> {
    match value {
        Some(tree) => tree.elements(),
        None => None,
    }
}

/// Whether `value` is there and is an object.
pub open spec fn is_object(value: Option<Tree>) -> bool {
    value matches Some(tree) && tree is Object
}

/// The item that `symbol` stands for under the key of a shaped recipe: the
/// item of the member of the key whose name is that one character.
pub open spec fn symbol_item(key: Tree, symbol: char) -> Option<Seq<char>> {
    match key.field(seq![symbol]) {
        Some(ingredient) => item_of(ingredient),
        None => None,
    }
}

/// `symbol_item` under one key as a function value.
pub open spec fn symbol_resolver(key: Tree) -> spec_fn(char) -> Option<Seq<char>> {
    |symbol: char| symbol_item(key, symbol)
}

/// The cells of one row of a pattern: its characters. A row that is no text
/// has none.
pub open spec fn row_cells(row: Tree) -> Seq<char> {
    match row.text() {
        Some(cells) => cells,
        None => Seq::empty(),
    }
}

/// The cells of the rows of a pattern, row by row.
pub open spec fn rows_cells(rows: Seq<Tree>) -> Seq<Seq<char>> {
    rows.map_values(|row: Tree| row_cells(row))
}

/// The cells of a pattern, row after row.
pub open spec fn pattern_cells(rows: Seq<Tree>) -> Seq<char> {
    rows_cells(rows).flatten()
}

/// The items of `cells`, in their order; a cell whose symbol stands for no
/// item gives none.
pub open spec fn cell_items(key: Tree, cells: Seq<char>) -> Seq<Seq<char>> {
    cells.filter_map(symbol_resolver(key))
}

/// The items that a shaped recipe uses, cell by cell: `None` unless `key` is an
/// object and `pattern` an array.
pub open spec fn shaped_items(doc: Tree) -> Option<Seq<Seq<char>>> {
    match (doc.field("key"@), elements_of(doc.field("pattern"@))) {
        (Some(key), Some(rows)) => if key is Object {
            Some(cell_items(key, pattern_cells(rows)))
        } else {
            None
        },
        _ => None,
    }
}

/// The items that a shapeless recipe uses, ingredient by ingredient: `None`
/// unless `ingredients` is an array.
pub open spec fn shapeless_items(doc: Tree) -> Option<Seq<Seq<char>>> {
    match elements_of(doc.field("ingredients"@)) {
        Some(ingredients) => Some(ingredients.filter_map(resolver())),
        None => None,
    }
}

/// The item of the one `ingredient` of a recipe, where there is one and it
/// resolves.
pub open spec fn single_items(doc: Tree) -> Seq<Seq<char>> {
    listed(optional_item(doc.field("ingredient"@)))
}

/// The items that a smithing recipe uses, those of its `addition`, its `base`
/// and its `template`: `None` unless the three are objects.
pub open spec fn smithing_items(doc: Tree) -> Option<Seq<Seq<char>>> {
    let addition = doc.field("addition"@);
    let base = doc.field("base"@);
    let template = doc.field("template"@);
    if is_object(addition) && is_object(base) && is_object(template) {
        Some(
            listed(optional_item(addition)) + listed(optional_item(base)) + listed(
                optional_item(template),
            ),
        )
    } else {
        None
    }
}

/// The items that a recipe of the given kind uses, one for each use and in the
/// order of the document; `None` where the document lacks what the kind needs.
/// A recipe that burns fuel uses one `fuel` after its ingredient, whatever the
/// document says.
pub open spec fn required_items(kind: RecipeKind, doc: Tree) -> Option<Seq<Seq<char>>> {
    match kind {
        RecipeKind::Shaped => shaped_items(doc),
        RecipeKind::Shapeless => shapeless_items(doc),
        RecipeKind::Furnace => Some(single_items(doc).push("fuel"@)),
        RecipeKind::Campfire => Some(single_items(doc)),
        RecipeKind::Smithing => smithing_items(doc),
        RecipeKind::Stonecutting => Some(single_items(doc)),
    }
}

/// The type tag of a document, without namespace.
pub open spec fn type_tag(doc: Tree) -> Option<Seq<char>> {
    match text_of(doc.field("type"@)) {
        Some(tag) => Some(stripped(tag)),
        None => None,
    }
}

/// The item that a document's `result` names as its `id`, without namespace.
pub open spec fn result_item(doc: Tree) -> Option<Seq<char>> {
    match text_of(field_of(doc.field("result"@), "id"@)) {
        Some(id) => Some(stripped(id)),
        None => None,
    }
}

/// How many items one crafting makes: the `count` of the document's `result`
/// cut to its low 32 bits, and 1 where there is no such number.
pub open spec fn result_quantity(doc: Tree) -> nat {
    match field_of(doc.field("result"@), "count"@) {
        Some(count) => match count.unsigned() {
            Some(n) => (n % 0x1_0000_0000) as nat,
            None => 1,
        },
        None => 1,
    }
}

/// What a document says as a recipe. It says nothing where it has no text as
/// `type`, no text as the `id` of its `result`, a type that is not understood,
/// or not the members that its kind needs. An ingredient that does not resolve
/// is passed over: the rest of the recipe stands.
pub open spec fn interpretation(doc: Tree) -> Option<RecipeModel> {
    match (type_tag(doc), result_item(doc)) {
        (Some(tag), Some(item)) => match kind_of(tag) {
            Some(kind) => match required_items(kind, doc) {
                Some(items) => Some(
                    RecipeModel {
                        result_item: item,
                        result_quantity: result_quantity(doc),
                        requirements: tallied(items),
                        recipe_kind: tag,
                    },
                ),
                None => None,
            },
            None => None,
        },
        _ => None,
    }
}

/// `interpretation` as a function value.
pub open spec fn interpreter() -> spec_fn(Tree) -> Option<RecipeModel> {
    |doc: Tree| interpretation(doc)
}

/// What a list of documents says: the recipes of those that say one, in the
/// order of the documents.
pub open spec fn interpretations(docs: Seq<Tree>) -> Seq<RecipeModel> {
    docs.filter_map(interpreter())
}

impl NormalizedRecipe {
    /// How many of `item` the recipe uses up; 0 for an item that it does not
    /// use.
    pub fn required(&self, item: &str) -> (count: u64)
        ensures
            count == count_of(self@.requirements, item@),
    {
        let ghost entries = entry_views(self.requirements@);
        let mut i: usize = 0;
        while i < self.requirements.len()
            invariant
                i <= self.requirements.len(),
                entries == entry_views(self.requirements@),
                forall|j: int| 0 <= j < i ==> (#[trigger] entries[j]).0 != item@,
            decreases self.requirements.len() - i,
        {
            if same_text(self.requirements[i].0.as_str(), item) {
                proof {
                    lemma_position_is(entries, item@, i as int);
                }
                return self.requirements[i].1;
            }
            i += 1;
        }
        proof {
            lemma_position_is(entries, item@, i as int);
        }
        0
    }
}

/// Tells the kind of recipe that a type tag without namespace stands for.
pub fn classify(tag: &str) -> (kind: Option<RecipeKind>)
    ensures
        kind == kind_of(tag@),
{
    if same_text(tag, "crafting_shaped") {
        Some(RecipeKind::Shaped)
    } else if same_text(tag, "crafting_shapeless") {
        Some(RecipeKind::Shapeless)
    } else if same_text(tag, "smoking") || same_text(tag, "smelting") || same_text(
        tag,
        "blasting",
    ) {
        Some(RecipeKind::Furnace)
    } else if same_text(tag, "campfire_cooking") {
        Some(RecipeKind::Campfire)
    } else if same_text(tag, "smithing_transform") {
        Some(RecipeKind::Smithing)
    } else if same_text(tag, "stonecutting") {
        Some(RecipeKind::Stonecutting)
    } else {
        None
    }
}

/// Resolves an ingredient to the item that it names directly.
pub fn ingredient_item(ingredient: &Json) -> (item: Option<String>)
    ensures
        optional_text(item) == item_of(ingredient@),
{
    match ingredient.get_text("item") {
        Some(id) => Some(strip_namespace(id)),
        None => None,
    }
}

/// Adds `item` to `items`, where there is one.
fn push_item(items: &mut Vec<String>, item: Option<String>)
    ensures
        text_views(final(items)@) == text_views(old(items)@) + listed(optional_text(item)),
{
    if let Some(id) = item {
        items.push(id);
    }
}

/// Adds to `items` the items of one row of a pattern.
fn collect_row(key: &Json, row: &str, items: &mut Vec<String>)
    ensures
        text_views(final(items)@) == text_views(old(items)@) + cell_items(key@, row@),
{
    let ghost before = text_views(items@);
    let ghost resolve = symbol_resolver(key@);
    for symbol in it: row.chars()
        invariant
            it.seq() == row@,
            resolve == symbol_resolver(key@),
            text_views(items@) == before + row@.take(it.index() as int).filter_map(resolve),
    {
        proof {
            row@.lemma_filter_map_take_succ(resolve, it.index() as int);
        }
        if let Some(ingredient) = key.get_symbol(symbol) {
            push_item(items, ingredient_item(ingredient));
        }
    }
    assert(row@.take(row@.len() as int) =~= row@);
}

/// Collects the items of a shaped recipe.
fn collect_shaped(doc: &Json) -> (items: Option<Vec<String>>)
    ensures
        match items {
            Some(list) => shaped_items(doc@) == Some(text_views(list@)),
            None => shaped_items(doc@) is None,
        },
{
    let Some(key) = doc.get("key") else {
        return None;
    };
    if !key.is_object() {
        return None;
    }
    let Some(pattern) = doc.get("pattern") else {
        return None;
    };
    let Some(rows) = pattern.as_array() else {
        return None;
    };
    let ghost cells = rows_cells(trees(rows@));
    let mut items: Vec<String> = Vec::new();
    let mut r: usize = 0;
    while r < rows.len()
        invariant
            r <= rows.len(),
            cells == rows_cells(trees(rows@)),
            text_views(items@) == cell_items(key@, cells.take(r as int).flatten_alt()),
        decreases rows.len() - r,
    {
        proof {
            assert(cells.take(r + 1).drop_last() =~= cells.take(r as int));
            lemma_filter_map_add(
                cells.take(r as int).flatten_alt(),
                cells[r as int],
                symbol_resolver(key@),
            );
        }
        if let Some(row) = rows[r].as_text() {
            collect_row(key, row, &mut items);
        }
        r += 1;
    }
    proof {
        assert(cells.take(r as int) =~= cells);
        cells.lemma_flatten_and_flatten_alt_are_equivalent();
    }
    Some(items)
}

/// Collects the items of a shapeless recipe.
fn collect_shapeless(doc: &Json) -> (items: Option<Vec<String>>)
    ensures
        match items {
            Some(list) => shapeless_items(doc@) == Some(text_views(list@)),
            None => shapeless_items(doc@) is None,
        },
{
    let Some(list) = doc.get("ingredients") else {
        return None;
    };
    let Some(ingredients) = list.as_array() else {
        return None;
    };
    let ghost all = trees(ingredients@);
    let mut items: Vec<String> = Vec::new();
    let mut i: usize = 0;
    while i < ingredients.len()
        invariant
            i <= ingredients.len(),
            all == trees(ingredients@),
            text_views(items@) == all.take(i as int).filter_map(resolver()),
        decreases ingredients.len() - i,
    {
        proof {
            all.lemma_filter_map_take_succ(resolver(), i as int);
        }
        push_item(&mut items, ingredient_item(&ingredients[i]));
        i += 1;
    }
    assert(all.take(i as int) =~= all);
    Some(items)
}

/// Collects the item of the one `ingredient` of a recipe and, for a recipe
/// that burns fuel, one `fuel`.
fn collect_single(doc: &Json, fuel: bool) -> (items: Vec<String>)
    ensures
        text_views(items@) == if fuel {
            single_items(doc@).push("fuel"@)
        } else {
            single_items(doc@)
        },
{
    let mut items: Vec<String> = Vec::new();
    if let Some(ingredient) = doc.get("ingredient") {
        push_item(&mut items, ingredient_item(ingredient));
    }
    if fuel {
        items.push("fuel".to_owned());
    }
    items
}

/// Collects the items of a smithing recipe.
fn collect_smithing(doc: &Json) -> (items: Option<Vec<String>>)
    ensures
        match items {
            Some(list) => smithing_items(doc@) == Some(text_views(list@)),
            None => smithing_items(doc@) is None,
        },
{
    let Some(addition) = doc.get("addition") else {
        return None;
    };
    let Some(base) = doc.get("base") else {
        return None;
    };
    let Some(template) = doc.get("template") else {
        return None;
    };
    if !addition.is_object() || !base.is_object() || !template.is_object() {
        return None;
    }
    let mut items: Vec<String> = Vec::new();
    push_item(&mut items, ingredient_item(addition));
    push_item(&mut items, ingredient_item(base));
    push_item(&mut items, ingredient_item(template));
    Some(items)
}

/// Collects the items that a recipe of the given kind uses, one for each use.
pub fn collect_items(kind: RecipeKind, doc: &Json) -> (items: Option<Vec<String>>)
    ensures
        match items {
            Some(list) => required_items(kind, doc@) == Some(text_views(list@)),
            None => required_items(kind, doc@) is None,
        },
{
    match kind {
        RecipeKind::Shaped => collect_shaped(doc),
        RecipeKind::Shapeless => collect_shapeless(doc),
        RecipeKind::Furnace => Some(collect_single(doc, true)),
        RecipeKind::Campfire => Some(collect_single(doc, false)),
        RecipeKind::Smithing => collect_smithing(doc),
        RecipeKind::Stonecutting => Some(collect_single(doc, false)),
    }
}

/// Reads the quantity that a document's `result` gives.
fn read_quantity(doc: &Json) -> (quantity: u32)
    ensures
        quantity == result_quantity(doc@),
{
    let Some(result) = doc.get("result") else {
        return 1;
    };
    let Some(count) = result.get("count") else {
        return 1;
    };
    match count.as_unsigned() {
        Some(n) => (n % 0x1_0000_0000) as u32,
        None => 1,
    }
}

/// Reads one recipe from a document. The requirements of the recipe are a
/// mapping: each item is there once, with a positive count.
pub fn interpret(doc: &Json) -> (recipe: Option<NormalizedRecipe>)
    ensures
        match recipe {
            Some(read) => interpretation(doc@) == Some(read@) && is_mapping(read@.requirements),
            None => interpretation(doc@) is None,
        },
{
    let Some(tag) = doc.get_text("type") else {
        return None;
    };
    let Some(result) = doc.get("result") else {
        return None;
    };
    let Some(id) = result.get_text("id") else {
        return None;
    };
    let recipe_kind = strip_namespace(tag);
    let Some(kind) = classify(recipe_kind.as_str()) else {
        return None;
    };
    let Some(items) = collect_items(kind, doc) else {
        return None;
    };
    Some(
        NormalizedRecipe {
            result_item: strip_namespace(id),
            result_quantity: read_quantity(doc),
            requirements: tally(items),
            recipe_kind,
        },
    )
}

} // verus!
