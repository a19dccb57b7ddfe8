//! Writing recipes out as Kotlin source.

use vstd::prelude::*;
use crate::recipe::{recipe_views, NormalizedRecipe, RecipeModel};
use crate::tally::entry_views;
use crate::text::{decimal, decimal_string};

verus! {

/// What stands before the listing: the package, the import, the comment and the
/// opening of the function and of its list.
pub const HEADER: &'static str =
    "package com.fracta7.crafter.data.repository\n\nimport com.fracta7.crafter.domain.model.Recipe\n\n/**\n * Initiates all recipes\n * @return List of Recipes.\n */\nfun recipesInit(): List<Recipe> {\n    return listOf(\n";

/// What stands after the listing: the closing of the list and of the function.
pub const FOOTER: &'static str = "    )\n}\n";

/// One requirement as a Kotlin pair: the item in quotes, ` to `, the count.
pub open spec fn requirement_text(entry: (Seq<char>, nat)) -> Seq<char> {
    "\""@ + entry.0 + "\" to "@ + decimal(entry.1)
}

/// The requirements as Kotlin pairs, in their order, with `, ` between them.
pub open spec fn requirements_text(entries: Seq<(Seq<char>, nat)>) -> Seq<char>
    decreases entries.len(),
{
    if entries.len() == 0 {
        Seq::empty()
    } else if entries.len() == 1 {
        requirement_text(entries[0])
    } else {
        requirements_text(entries.drop_last()) + ", "@ + requirement_text(entries.last())
    }
}

/// The line of the listing that constructs one recipe.
pub open spec fn entry_text(recipe: RecipeModel) -> Seq<char> {
    "        Recipe(result = \""@ + recipe.result_item + "\", resultQuantity = "@ + decimal(
        recipe.result_quantity,
    ) + ", requirements = mapOf("@ + requirements_text(recipe.requirements)
        + "), recipeType = \""@ + recipe.recipe_kind + "\"),\n"@
}

/// The lines of the listing: one for each recipe, in their order.
pub open spec fn listing_text(recipes: Seq<RecipeModel>) -> Seq<char>
    decreases recipes.len(),
{
    if recipes.len() == 0 {
        Seq::empty()
    } else {
        listing_text(recipes.drop_last()) + entry_text(recipes.last())
    }
}

/// The whole generated source: the header, the listing and the footer.
pub open spec fn artifact(recipes: Seq<RecipeModel>) -> Seq<char> {
    HEADER@ + listing_text(recipes) + FOOTER@
}

/// Writes the requirements as Kotlin pairs.
fn requirements_string(requirements: &Vec<(String, u64)>) -> (text: String)
    ensures
        text@ == requirements_text(entry_views(requirements@)),
{
    let ghost all = entry_views(requirements@);
    let mut text = String::new();
    let mut i: usize = 0;
    while i < requirements.len()
        invariant
            i <= requirements.len(),
            all == entry_views(requirements@),
            text@ == requirements_text(all.take(i as int)),
        decreases requirements.len() - i,
    {
        let mut pair = "\"".to_owned();
        pair.append(requirements[i].0.as_str());
        pair.append("\" to ");
        pair.append(decimal_string(requirements[i].1).as_str());
        assert(all.take(i + 1).drop_last() =~= all.take(i as int));
        if i > 0 {
            text.append(", ");
        }
        text.append(pair.as_str());
        i += 1;
    }
    assert(all.take(i as int) =~= all);
    text
}

/// Writes the line of the listing that constructs one recipe.
fn entry_string(recipe: &NormalizedRecipe) -> (line: String)
    ensures
        line@ == entry_text(recipe@),
{
    let mut line = "        Recipe(result = \"".to_owned();
    line.append(recipe.result_item.as_str());
    line.append("\", resultQuantity = ");
    line.append(decimal_string(recipe.result_quantity as u64).as_str());
    line.append(", requirements = mapOf(");
    line.append(requirements_string(&recipe.requirements).as_str());
    line.append("), recipeType = \"");
    line.append(recipe.recipe_kind.as_str());
    line.append("\"),\n");
    line
}

/// Writes the recipes out as one Kotlin source file: a function that returns
/// the list of them, each constructed on a line of its own, in their order.
pub fn generate_kotlin_code(recipes: Vec<NormalizedRecipe>) -> (code: String)
    ensures
        code@ == artifact(recipe_views(recipes@)),
{
    let ghost all = recipe_views(recipes@);
    let mut code = HEADER.to_owned();
    let mut i: usize = 0;
    while i < recipes.len()
        invariant
            i <= recipes.len(),
            all == recipe_views(recipes@),
            code@ == HEADER@ + listing_text(all.take(i as int)),
        decreases recipes.len() - i,
    {
        let line = entry_string(&recipes[i]);
        assert(all.take(i + 1).drop_last() =~= all.take(i as int));
        code.append(line.as_str());
        i += 1;
    }
    assert(all.take(i as int) =~= all);
    code.append(FOOTER);
    code
}

} // verus!
