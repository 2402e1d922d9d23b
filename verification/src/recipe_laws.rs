//! What a recipe takes over from the answer of a model, field by field.
use crate::extension::ExtensionConfigView;
use crate::json::{parsed, JsonView};
use crate::recipe::{
    captured, kept_activities, parsed_recipe, recipe_of, replaced, unbulleted_all, RecipeError,
    RecipePartsView,
};
use crate::text;
use crate::text_split::lines_of;
use vstd::prelude::*;

verus! {

/// What is read as JSON: what stands in the fence, or all of the answer where it has
/// none, without white space at its ends.
pub open spec fn read_as_json(content: Seq<char>) -> Option<JsonView> {
    match captured("(?s)```[^\\n]*\\n(.*?)\\n```"@, content, 1) {
        Some(inner) => parsed(text::trimmed(inner)),
        None => parsed(text::trimmed(content)),
    }
}

/// The recipe of an answer in JSON has, under each name, what the answer has under that
/// name: the title, the description, the instructions and the activities in their
/// order. The rest comes from the session: the extensions, the contact, the provider,
/// the model and the temperature.
pub proof fn law_recipe_holds_the_answer(
    content: Seq<char>,
    j: JsonView,
    title: Seq<char>,
    description: Seq<char>,
    instructions: Seq<char>,
    activities: Seq<Seq<char>>,
    extensions: Seq<ExtensionConfigView>,
    contact: Option<Seq<char>>,
    provider: Seq<char>,
    model: Seq<char>,
    temperature_bits: Option<u32>,
)
    requires
        read_as_json(content) == Some(j),
        j.field("title"@) == Some(JsonView::Text(title)),
        j.field("description"@) == Some(JsonView::Text(description)),
        j.field("instructions"@) == Some(JsonView::Text(instructions)),
        j.field("activities"@) == Some(
            JsonView::Array(activities.map_values(|a: Seq<char>| JsonView::Text(a))),
        ),
    ensures
        parsed_recipe(content) is Ok,
        ({
            let r = recipe_of(
                parsed_recipe(content)->Ok_0,
                extensions,
                contact,
                provider,
                model,
                temperature_bits,
            );
            &&& r.title == title
            &&& r.description == description
            &&& r.instructions == instructions
            &&& r.activities == activities
            &&& r.extensions == extensions
            &&& r.author_contact == contact
            &&& r.settings.goose_provider == Some(provider)
            &&& r.settings.goose_model == Some(model)
            &&& temperature_bits is Some ==> r.settings.temperature_bits == temperature_bits
            &&& temperature_bits is None ==> r.settings.temperature_bits == Some(0u32)
        }),
{
    let items = activities.map_values(|a: Seq<char>| JsonView::Text(a));
    assert(items.map_values(|v: JsonView| v->Text_0) =~= activities);
}

/// A title or a description that the answer does not give as a text is replaced by a
/// fixed one, the other one staying as it is.
pub proof fn law_missing_names_are_filled_in(
    content: Seq<char>,
    j: JsonView,
    instructions: Seq<char>,
    activities: Seq<Seq<char>>,
)
    requires
        read_as_json(content) == Some(j),
        j.field("instructions"@) == Some(JsonView::Text(instructions)),
        j.field("activities"@) == Some(
            JsonView::Array(activities.map_values(|a: Seq<char>| JsonView::Text(a))),
        ),
    ensures
        ({
            let r = parsed_recipe(content);
            let title = j.field("title"@);
            let description = j.field("description"@);
            &&& r is Ok
            &&& r->Ok_0.instructions == instructions
            &&& r->Ok_0.activities == activities
            &&& title is Some && title->0 is Text ==> r->Ok_0.title == title->0->Text_0
            &&& title is None || !(title->0 is Text) ==> r->Ok_0.title
                == "Custom recipe from chat"@
            &&& description is Some && description->0 is Text ==> r->Ok_0.description
                == description->0->Text_0
            &&& description is None || !(description->0 is Text) ==> r->Ok_0.description
                == "a custom recipe instance from this chat session"@
        }),
{
    let items = activities.map_values(|a: Seq<char>| JsonView::Text(a));
    assert(items.map_values(|v: JsonView| v->Text_0) =~= activities);
}

/// An answer in JSON without instructions that are a text, or without activities that
/// are a list of texts, is no recipe; the first fault is told.
pub proof fn law_faulty_answers_are_told(content: Seq<char>, j: JsonView)
    requires
        read_as_json(content) == Some(j),
    ensures
        ({
            let r = parsed_recipe(content);
            let i = j.field("instructions"@);
            let a = j.field("activities"@);
            let told = i is Some && i->0 is Text;
            let listed = a is Some && a->0 is Array;
            &&& i is None ==> r == Err::<RecipePartsView, _>(RecipeError::MissingInstructions)
            &&& i is Some && !(i->0 is Text) ==> r == Err::<RecipePartsView, _>(
                RecipeError::InstructionsNotText,
            )
            &&& told && a is None ==> r == Err::<RecipePartsView, _>(
                RecipeError::MissingActivities,
            )
            &&& told && a is Some && !listed ==> r == Err::<RecipePartsView, _>(
                RecipeError::ActivitiesNotArray,
            )
            &&& told && listed && (exists|k: int|
                0 <= k < a->0->Array_0.len() && !((#[trigger] a->0->Array_0[k]) is Text)) ==> r
                == Err::<RecipePartsView, _>(RecipeError::ActivityNotText)
            &&& r is Ok ==> told && listed && r->Ok_0.instructions == i->0->Text_0
        }),
{
}

/// An answer that is not JSON is read by its headings: the instructions are what stands
/// between the first `instructions:` and the first `activities:` behind it, without the
/// heading marks at its end and without white space at its ends. The activities are the
/// lines behind, without their bullets. Both names are fixed.
pub proof fn law_answer_in_headings(
    content: Seq<char>,
    before: Seq<char>,
    behind: Seq<char>,
    instructions: Seq<char>,
    activities: Seq<char>,
)
    requires
        read_as_json(content) is None,
        text::split_at_first(content, "instructions:"@) == Some((before, behind)),
        text::split_at_first(behind, "activities:"@) == Some((instructions, activities)),
    ensures
        parsed_recipe(content) == Ok::<_, RecipeError>(
            RecipePartsView {
                title: "Custom recipe from chat"@,
                description: "a custom recipe instance from this chat session"@,
                instructions: text::trimmed(
                    text::trimmed_end_by(
                        instructions,
                        |c: char| text::whitespace(c) || c == '#',
                    ),
                ),
                activities: kept_activities(
                    unbulleted_all(lines_of(text::trimmed(activities))),
                ),
            },
        ),
{
    lemma_blank_or_hash(instructions);
}

proof fn lemma_blank_or_hash(s: Seq<char>)
    ensures
        text::trimmed_end_by(s, |c: char| text::blank_or_hash(c)) == text::trimmed_end_by(
            s,
            |c: char| text::whitespace(c) || c == '#',
        ),
    decreases s.len(),
{
    if s.len() > 0 {
        lemma_blank_or_hash(s.drop_last());
    }
}

/// Without the word `activities:` there are none; without the word `instructions:` all
/// of the answer up to the activities counts.
pub proof fn law_answer_without_headings(content: Seq<char>)
    requires
        read_as_json(content) is None,
        text::split_at_first(content, "instructions:"@) is None,
    ensures
        parsed_recipe(content) is Ok,
        text::split_at_first(content, "activities:"@) is None ==> parsed_recipe(
            content,
        )->Ok_0.instructions == text::trimmed(
            text::trimmed_end_by(content, |c: char| text::whitespace(c) || c == '#'),
        ) && parsed_recipe(content)->Ok_0.activities.len() == 0,
        text::split_at_first(content, "activities:"@) matches Some((first, rest)) ==> parsed_recipe(
            content,
        )->Ok_0.instructions == text::trimmed(
            text::trimmed_end_by(first, |c: char| text::whitespace(c) || c == '#'),
        ),
{
    lemma_blank_or_hash(content);
    if let Some((first, rest)) = text::split_at_first(content, "activities:"@) {
        lemma_blank_or_hash(first);
    } else {
        let none = Seq::<char>::empty();
        assert(text::trimmed(none) =~= none);
        assert(lines_of(none) =~= Seq::empty());
        assert(unbulleted_all(Seq::empty()) =~= Seq::empty());
    }
}

/// The activities of an answer in lines are those of its parts; of one line, what is
/// left without white space, where anything is left.
pub proof fn law_activities_of_parts(x: Seq<Seq<char>>, y: Seq<Seq<char>>, line: Seq<char>)
    ensures
        kept_activities(x + y) == kept_activities(x) + kept_activities(y),
        text::trimmed(line).len() > 0 ==> kept_activities(seq![line]) == seq![
            text::trimmed(line),
        ],
        text::trimmed(line).len() == 0 ==> kept_activities(seq![line]).len() == 0,
    decreases y.len(),
{
    if y.len() == 0 {
        assert(x + y =~= x);
    } else {
        assert((x + y).drop_last() =~= x + y.drop_last());
        law_activities_of_parts(x, y.drop_last(), line);
    }
    assert(kept_activities(x + y) =~= kept_activities(x) + kept_activities(y));
    assert(seq![line].drop_last() =~= Seq::empty());
    assert(kept_activities(Seq::empty()) =~= Seq::empty());
    assert(Seq::empty().push(text::trimmed(line)) =~= seq![text::trimmed(line)]);
}

/// Each line loses its bullet where the pattern finds one, and stays in its place.
pub proof fn law_bullets_are_taken_off(lines: Seq<Seq<char>>, i: int)
    requires
        0 <= i < lines.len(),
    ensures
        unbulleted_all(lines).len() == lines.len(),
        replaced("^[•\\-*\\d]+\\.?\\s*"@, lines[i], Seq::empty()) matches Some(s) ==> unbulleted_all(
            lines,
        )[i] == s,
        replaced("^[•\\-*\\d]+\\.?\\s*"@, lines[i], Seq::empty()) is None ==> unbulleted_all(lines)[i]
            == lines[i],
{
}

} // verus!
