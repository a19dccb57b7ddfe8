use recipe_codegen::convert::{convert, parse_recipe, NotJson, UnreadableText};
use recipe_codegen::emit::{FOOTER, HEADER};
use recipe_codegen::recipe::NormalizedRecipe;

const LADDER: &str = r#"{
  "type": "minecraft:crafting_shaped",
  "category": "misc",
  "key": { "A": { "item": "minecraft:stick" } },
  "pattern": ["AAA", "A A", "AAA"],
  "result": { "count": 3, "id": "minecraft:ladder" }
}"#;

const IRON: &str = r#"{"type":"minecraft:smelting","ingredient":{"item":"minecraft:iron_ore"},"result":{"id":"minecraft:iron_ingot"},"experience":0.7,"cookingtime":200}"#;

const SWORD: &str = r#"{
  "type": "minecraft:smithing_transform",
  "addition": { "item": "minecraft:netherite_ingot" },
  "base": { "item": "minecraft:diamond_sword" },
  "template": { "item": "minecraft:netherite_upgrade_smithing_template" },
  "result": { "id": "minecraft:netherite_sword" }
}"#;

const UNKNOWN: &str = r#"{"type":"minecraft:unknown_kind","result":{"id":"minecraft:thing"}}"#;

const LADDER_LINE: &str = "        Recipe(result = \"ladder\", resultQuantity = 3, requirements = mapOf(\"stick\" to 8), recipeType = \"crafting_shaped\"),\n";

const IRON_LINE: &str = "        Recipe(result = \"iron_ingot\", resultQuantity = 1, requirements = mapOf(\"iron_ore\" to 1, \"fuel\" to 1), recipeType = \"smelting\"),\n";

fn recipe(made: &str, quantity: u32, requirements: &[(&str, u64)], kind: &str) -> NormalizedRecipe {
    NormalizedRecipe {
        result_item: made.to_string(),
        result_quantity: quantity,
        requirements: requirements.iter().map(|(s, n)| (s.to_string(), *n)).collect(),
        recipe_kind: kind.to_string(),
    }
}

fn texts(list: &[&str]) -> Vec<String> {
    list.iter().map(|s| s.to_string()).collect()
}

#[test]
fn reads_a_shaped_recipe_from_text() {
    assert_eq!(parse_recipe(LADDER), Ok(Some(recipe("ladder", 3, &[("stick", 8)], "crafting_shaped"))));
}

#[test]
fn reads_a_smelting_recipe_from_text() {
    assert_eq!(
        parse_recipe(IRON),
        Ok(Some(recipe("iron_ingot", 1, &[("iron_ore", 1), ("fuel", 1)], "smelting")))
    );
}

#[test]
fn reads_a_smithing_recipe_from_text() {
    assert_eq!(
        parse_recipe(SWORD),
        Ok(Some(recipe(
            "netherite_sword",
            1,
            &[
                ("netherite_ingot", 1),
                ("diamond_sword", 1),
                ("netherite_upgrade_smithing_template", 1)
            ],
            "smithing_transform"
        )))
    );
}

#[test]
fn an_unknown_type_in_a_text_says_nothing() {
    assert_eq!(parse_recipe(UNKNOWN), Ok(None));
}

#[test]
fn json_that_is_no_object_says_nothing() {
    assert_eq!(parse_recipe("null"), Ok(None));
    assert_eq!(parse_recipe("[1, 2, 3]"), Ok(None));
    assert_eq!(parse_recipe("\"minecraft:smelting\""), Ok(None));
    assert_eq!(parse_recipe("{}"), Ok(None));
}

#[test]
fn a_text_that_is_not_json_is_an_error() {
    assert_eq!(parse_recipe(""), Err(NotJson));
    assert_eq!(parse_recipe("{"), Err(NotJson));
    assert_eq!(parse_recipe("{\"type\": }"), Err(NotJson));
    assert_eq!(parse_recipe("{} {}"), Err(NotJson));
    assert_eq!(parse_recipe("type: smelting"), Err(NotJson));
}

#[test]
fn only_a_whole_number_that_is_not_negative_is_a_count() {
    let with = |count: &str| {
        format!(
            r#"{{"type":"minecraft:stonecutting","ingredient":{{"item":"minecraft:stone"}},"result":{{"id":"minecraft:slab","count":{}}}}}"#,
            count
        )
    };
    let quantity = |count: &str| parse_recipe(&with(count)).unwrap().unwrap().result_quantity;
    assert_eq!(quantity("2"), 2);
    assert_eq!(quantity("0"), 0);
    assert_eq!(quantity("4294967301"), 5);
    assert_eq!(quantity("18446744073709551615"), 4294967295);
    assert_eq!(quantity("-2"), 1);
    assert_eq!(quantity("2.0"), 1);
    assert_eq!(quantity("2.5"), 1);
    assert_eq!(quantity("2e0"), 1);
    assert_eq!(quantity("18446744073709551616"), 1);
    assert_eq!(quantity("\"2\""), 1);
    assert_eq!(quantity("true"), 1);
    assert_eq!(quantity("null"), 1);
}

#[test]
fn a_text_gives_its_strings_unescaped() {
    let doc = r#"{"type":"minecraft:stonecutting","ingredient":{"item":"minecraft:a\"b\u00e9\n"},"result":{"id":"minecraft:x"}}"#;
    assert_eq!(parse_recipe(doc), Ok(Some(recipe("x", 1, &[("a\"b\u{e9}\n", 1)], "stonecutting"))));
}

#[test]
fn the_last_of_two_members_with_one_name_in_a_text_counts() {
    let doc = r#"{"type":"minecraft:nothing","type":"minecraft:stonecutting","result":{"id":"minecraft:a"},"result":{"id":"minecraft:b"}}"#;
    assert_eq!(parse_recipe(doc), Ok(Some(recipe("b", 1, &[], "stonecutting"))));
}

#[test]
fn the_symbols_of_a_key_are_found_whatever_their_order() {
    let doc = r##"{
        "type": "minecraft:crafting_shaped",
        "pattern": ["#S#", " \u00e9 "],
        "key": {
            "\u00e9": { "item": "minecraft:emerald" },
            "S": { "item": "minecraft:stick" },
            "#": { "item": "minecraft:planks" },
            "#S": { "item": "minecraft:never" }
        },
        "result": { "id": "minecraft:thing", "count": 4 }
    }"##;
    assert_eq!(
        parse_recipe(doc),
        Ok(Some(recipe("thing", 4, &[("planks", 2), ("stick", 1), ("emerald", 1)], "crafting_shaped")))
    );
}

#[test]
fn a_deeply_nested_value_is_read() {
    let doc = r#"{"type":"minecraft:campfire_cooking","ingredient":{"item":"minecraft:cod","extra":[[[{"a":[{"b":{"c":[1,2,{"d":null}]}}]}]]]},"result":{"id":"minecraft:cooked_cod","components":{"x":{"y":{"z":[true,false]}}}}}"#;
    assert_eq!(parse_recipe(doc), Ok(Some(recipe("cooked_cod", 1, &[("cod", 1)], "campfire_cooking"))));
}

#[test]
fn no_texts_give_an_empty_listing() {
    assert_eq!(convert(&Vec::new()), Ok(format!("{}{}", HEADER, FOOTER)));
}

#[test]
fn converts_the_texts_in_their_order() {
    assert_eq!(
        convert(&texts(&[LADDER, IRON])),
        Ok(format!("{}{}{}{}", HEADER, LADDER_LINE, IRON_LINE, FOOTER))
    );
    assert_eq!(
        convert(&texts(&[IRON, LADDER])),
        Ok(format!("{}{}{}{}", HEADER, IRON_LINE, LADDER_LINE, FOOTER))
    );
}

#[test]
fn a_document_that_says_nothing_is_left_out() {
    let with = convert(&texts(&[LADDER, UNKNOWN, IRON, "{}", "[]"]));
    let without = convert(&texts(&[LADDER, IRON]));
    assert_eq!(with, without);
    assert_eq!(with, Ok(format!("{}{}{}{}", HEADER, LADDER_LINE, IRON_LINE, FOOTER)));
    assert_eq!(convert(&texts(&[UNKNOWN])), Ok(format!("{}{}", HEADER, FOOTER)));
}

#[test]
fn the_same_recipe_twice_is_listed_twice() {
    assert_eq!(
        convert(&texts(&[IRON, IRON])),
        Ok(format!("{}{}{}{}", HEADER, IRON_LINE, IRON_LINE, FOOTER))
    );
}

#[test]
fn a_text_that_is_not_json_fails_the_conversion() {
    assert_eq!(convert(&texts(&["{"])), Err(UnreadableText { index: 0 }));
    assert_eq!(convert(&texts(&[LADDER, UNKNOWN, "not json", IRON])), Err(UnreadableText { index: 2 }));
    assert_eq!(convert(&texts(&[LADDER, "", IRON, "{"])), Err(UnreadableText { index: 1 }));
}

#[test]
fn converting_twice_gives_the_same_source() {
    let input = texts(&[LADDER, UNKNOWN, IRON, SWORD]);
    assert_eq!(convert(&input), convert(&input));
    let broken = texts(&[LADDER, "}", "{"]);
    assert_eq!(convert(&broken), convert(&broken));
}
