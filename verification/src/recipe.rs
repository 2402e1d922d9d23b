//! Recipes out of what a model wrote.
use crate::base::{self, Duplicate};
use crate::extension::{ExtensionConfig, ExtensionConfigView};
use crate::json::{self, Json, JsonView};
use crate::text;
use crate::text_split::{self, lines_of};
use vstd::prelude::*;
use vstd::string::*;

verus! {

/// The text that a group of a pattern stands for in the first place where the
/// pattern matches.
pub uninterp spec fn captured(pattern: Seq<char>, text: Seq<char>, group: usize) -> Option<
    Seq<char>,
>;

/// `regex::Regex::new`, `Regex::captures` and `Captures::get`: nothing where the
/// pattern is not valid, does not match, or the group has no part in the match.
#[verifier::external_body]
fn regex_capture(pattern: &str, text: &str, group: usize) -> (r: Option<String>)
    ensures
        r.deep_view() == captured(pattern@, text@, group),
{
    let re = regex::Regex::new(pattern).ok()?;
    re.captures(text).and_then(|c| c.get(group).map(|m| m.as_str().to_string()))
}

/// A text in which the first match of a pattern is replaced.
pub uninterp spec fn replaced(pattern: Seq<char>, text: Seq<char>, by: Seq<char>) -> Option<
    Seq<char>,
>;

/// `regex::Regex::new` and `Regex::replace`: nothing where the pattern is not
/// valid.
#[verifier::external_body]
fn regex_replace(pattern: &str, text: &str, by: &str) -> (r: Option<String>)
    ensures
        r.deep_view() == replaced(pattern@, text@, by@),
{
    regex::Regex::new(pattern).ok().map(|re| re.replace(text, by).to_string())
}

/// What stands between a line of three backquotes and the next one.
pub const FENCE_PATTERN: &'static str = "(?s)```[^\\n]*\\n(.*?)\\n```";

/// A bullet or a number, with an optional dot, at the start of a line.
pub const BULLET_PATTERN: &'static str = "^[•\\-*\\d]+\\.?\\s*";

/// The title where a model gives none.
pub const DEFAULT_TITLE: &'static str = "Custom recipe from chat";

/// The description where a model gives none.
pub const DEFAULT_DESCRIPTION: &'static str = "a custom recipe instance from this chat session";

/// Why the answer of a model is no recipe.
#[derive(Debug, Clone, Copy, PartialEq, Eq, Structural)]
pub enum RecipeError {
    MissingInstructions,
    InstructionsNotText,
    MissingActivities,
    ActivitiesNotArray,
    ActivityNotText,
}

impl DeepView for RecipeError {
    type V = RecipeError;

    open spec fn deep_view(&self) -> RecipeError {
        *self
    }
}

impl Duplicate for RecipeError {
    fn duplicate(&self) -> (r: Self) {
        *self
    }
}

impl RecipeError {
    /// What the error says.
    pub open spec fn text(self) -> Seq<char> {
        match self {
            RecipeError::MissingInstructions => "Missing 'instructions' in json response"@,
            RecipeError::InstructionsNotText => "instructions' is not a string"@,
            RecipeError::MissingActivities => "Missing 'activities' in json response"@,
            RecipeError::ActivitiesNotArray => "'activities' is not an array'"@,
            RecipeError::ActivityNotText => "'activities' array element is not a string"@,
        }
    }

    /// What the error says.
    pub fn message(&self) -> (r: String)
        ensures
            r@ == self.text(),
    {
        match self {
            RecipeError::MissingInstructions => text::owned(
                "Missing 'instructions' in json response",
            ),
            RecipeError::InstructionsNotText => text::owned("instructions' is not a string"),
            RecipeError::MissingActivities => text::owned("Missing 'activities' in json response"),
            RecipeError::ActivitiesNotArray => text::owned("'activities' is not an array'"),
            RecipeError::ActivityNotText => text::owned(
                "'activities' array element is not a string",
            ),
        }
    }
}

/// What a model says of a recipe.
#[derive(Debug, PartialEq)]
pub struct RecipeParts {
    pub title: String,
    pub description: String,
    pub instructions: String,
    pub activities: Vec<String>,
}

#[verifier::ext_equal]
pub struct RecipePartsView {
    pub title: Seq<char>,
    pub description: Seq<char>,
    pub instructions: Seq<char>,
    pub activities: Seq<Seq<char>>,
}

impl DeepView for RecipeParts {
    type V = RecipePartsView;

    open spec fn deep_view(&self) -> RecipePartsView {
        RecipePartsView {
            title: self.title@,
            description: self.description@,
            instructions: self.instructions@,
            activities: self.activities.deep_view(),
        }
    }
}

/// The provider and the model of a recipe, and the bits of its temperature as a
/// number of single precision.
#[derive(Debug, PartialEq)]
pub struct RecipeSettings {
    pub goose_provider: Option<String>,
    pub goose_model: Option<String>,
    pub temperature_bits: Option<u32>,
}

#[verifier::ext_equal]
pub struct RecipeSettingsView {
    pub goose_provider: Option<Seq<char>>,
    pub goose_model: Option<Seq<char>>,
    pub temperature_bits: Option<u32>,
}

impl DeepView for RecipeSettings {
    type V = RecipeSettingsView;

    open spec fn deep_view(&self) -> RecipeSettingsView {
        RecipeSettingsView {
            goose_provider: self.goose_provider.deep_view(),
            goose_model: self.goose_model.deep_view(),
            temperature_bits: self.temperature_bits.deep_view(),
        }
    }
}

/// A recipe: what is to be done, with which extensions, on whose behalf.
#[derive(Debug, PartialEq)]
pub struct Recipe {
    pub title: String,
    pub description: String,
    pub instructions: String,
    pub activities: Vec<String>,
    pub extensions: Vec<ExtensionConfig>,
    pub settings: RecipeSettings,
    pub author_contact: Option<String>,
}

#[verifier::ext_equal]
pub struct RecipeView {
    pub title: Seq<char>,
    pub description: Seq<char>,
    pub instructions: Seq<char>,
    pub activities: Seq<Seq<char>>,
    pub extensions: Seq<ExtensionConfigView>,
    pub settings: RecipeSettingsView,
    pub author_contact: Option<Seq<char>>,
}

impl DeepView for Recipe {
    type V = RecipeView;

    open spec fn deep_view(&self) -> RecipeView {
        RecipeView {
            title: self.title@,
            description: self.description@,
            instructions: self.instructions@,
            activities: self.activities.deep_view(),
            extensions: self.extensions.deep_view(),
            settings: self.settings.deep_view(),
            author_contact: self.author_contact.deep_view(),
        }
    }
}

/// The answer without the fence around it, if there is one, and without white
/// space at its ends.
pub open spec fn clean(content: Seq<char>, fenced: Option<Seq<char>>) -> Seq<char> {
    match fenced {
        Some(inner) => text::trimmed(inner),
        None => text::trimmed(content),
    }
}

/// The answer without the fence around it, where `fenced` is what stands between
/// the fence's two ends.
pub fn clean_content(content: &str, fenced: Option<&str>) -> (r: String)
    ensures
        r@ == clean(content@, fenced.deep_view()),
{
    match fenced {
        Some(inner) => text::trim(inner),
        None => text::trim(content),
    }
}

/// All items are texts.
pub open spec fn all_texts(items: Seq<JsonView>) -> bool {
    forall|i: int| 0 <= i < items.len() ==> (#[trigger] items[i]) is Text
}

/// The instructions and the activities of an answer in JSON. Of several faults
/// the first is reported.
pub open spec fn json_sections(j: JsonView) -> Result<(Seq<char>, Seq<Seq<char>>), RecipeError> {
    match j.field("instructions"@) {
        None => Err(RecipeError::MissingInstructions),
        Some(JsonView::Text(instructions)) => match j.field("activities"@) {
            None => Err(RecipeError::MissingActivities),
            Some(JsonView::Array(items)) => if all_texts(items) {
                Ok((instructions, items.map_values(|v: JsonView| v->Text_0)))
            } else {
                Err(RecipeError::ActivityNotText)
            },
            Some(_) => Err(RecipeError::ActivitiesNotArray),
        },
        Some(_) => Err(RecipeError::InstructionsNotText),
    }
}

pub open spec fn sections_view(r: Result<(String, Vec<String>), RecipeError>) -> Result<
    (Seq<char>, Seq<Seq<char>>),
    RecipeError,
> {
    match r {
        Ok(s) => Ok((s.0@, s.1.deep_view())),
        Err(e) => Err(e),
    }
}

/// The instructions and the activities of an answer in JSON.
pub fn sections_from_json(j: &Json) -> (r: Result<(String, Vec<String>), RecipeError>)
    ensures
        sections_view(r) == json_sections(j.deep_view()),
{
    let instructions = match j.get("instructions") {
        None => {
            return Err(RecipeError::MissingInstructions);
        },
        Some(v) => match v.as_str() {
            Some(s) => s.clone(),
            None => {
                return Err(RecipeError::InstructionsNotText);
            },
        },
    };
    let items = match j.get("activities") {
        None => {
            return Err(RecipeError::MissingActivities);
        },
        Some(v) => match v.as_array() {
            Some(items) => items,
            None => {
                return Err(RecipeError::ActivitiesNotArray);
            },
        },
    };
    let ghost all = items.deep_view();
    let mut activities: Vec<String> = Vec::new();
    let mut i: usize = 0;
    while i < items.len()
        invariant
            i <= items@.len(),
            all == items.deep_view(),
            j.deep_view().field("instructions"@) == Some(JsonView::Text(instructions@)),
            j.deep_view().field("activities"@) == Some(JsonView::Array(all)),
            forall|k: int| 0 <= k < i ==> (#[trigger] all[k]) is Text,
            activities.deep_view() == all.map_values(|v: JsonView| v->Text_0).take(i as int),
        decreases items@.len() - i,
    {
        match &items[i] {
            Json::Text(s) => {
                assert(all[i as int] == JsonView::Text(s@));
                base::push(&mut activities, s.clone());
                assert(activities.deep_view() =~= all.map_values(|v: JsonView| v->Text_0).take(
                    i + 1,
                ));
            },
            _ => {
                assert(!(all[i as int] is Text));
                return Err(RecipeError::ActivityNotText);
            },
        }
        i = i + 1;
    }
    assert(activities.deep_view() =~= all.map_values(|v: JsonView| v->Text_0));
    Ok((instructions, activities))
}

/// The part of an answer behind the word `instructions:`, or all of it.
pub open spec fn behind_instructions(content: Seq<char>) -> Seq<char> {
    match text::split_at_first(content, "instructions:"@) {
        Some((_, rest)) => rest,
        None => content,
    }
}

/// The parts of an answer before and behind the word `activities:`.
pub open spec fn around_activities(content: Seq<char>) -> (Seq<char>, Seq<char>) {
    let after = behind_instructions(content);
    match text::split_at_first(after, "activities:"@) {
        Some(parts) => parts,
        None => (after, Seq::empty()),
    }
}

/// The instructions of an answer that is not JSON, and the lines of its
/// activities.
pub open spec fn text_sections(content: Seq<char>) -> (Seq<char>, Seq<Seq<char>>) {
    let (instructions, activities) = around_activities(content);
    (
        text::trimmed(
            text::trimmed_end_by(instructions, |c: char| text::blank_or_hash(c)),
        ),
        lines_of(text::trimmed(activities)),
    )
}

/// The instructions of an answer that is not JSON, and the lines of its
/// activities.
pub fn sections_from_text(content: &str) -> (r: (String, Vec<String>))
    ensures
        (r.0@, r.1.deep_view()) == text_sections(content@),
{
    let after = match text::split_once(content, "instructions:") {
        Some(parts) => parts.1,
        None => text::owned(content),
    };
    let (instructions_part, activities_text) = match text::split_once(&after, "activities:") {
        Some(parts) => parts,
        None => (after, String::new()),
    };
    let instructions = text::trim(&text::trim_end_blank_or_hash(&instructions_part));
    let lines = text_split::lines(&text::trim(&activities_text));
    (instructions, lines)
}

/// The trimmed lines that are not empty.
pub open spec fn kept_activities(stripped: Seq<Seq<char>>) -> Seq<Seq<char>>
    decreases stripped.len(),
{
    if stripped.len() == 0 {
        Seq::empty()
    } else {
        let rest = kept_activities(stripped.drop_last());
        let line = text::trimmed(stripped.last());
        if line.len() > 0 {
            rest.push(line)
        } else {
            rest
        }
    }
}

/// The trimmed lines that are not empty, out of lines without their bullets.
pub fn keep_activities(stripped: &Vec<String>) -> (r: Vec<String>)
    ensures
        r.deep_view() == kept_activities(stripped.deep_view()),
{
    let mut out: Vec<String> = Vec::new();
    let ghost all = stripped.deep_view();
    let mut i: usize = 0;
    assert(out.deep_view() =~= kept_activities(all.take(0)));
    while i < stripped.len()
        invariant
            i <= stripped@.len(),
            all == stripped.deep_view(),
            out.deep_view() == kept_activities(all.take(i as int)),
        decreases stripped@.len() - i,
    {
        assert(all.take(i + 1).drop_last() =~= all.take(i as int));
        let line = text::trim(&stripped[i]);
        if !line.as_str().is_empty() {
            base::push(&mut out, line);
        }
        i = i + 1;
    }
    assert(all.take(stripped@.len() as int) =~= all);
    out
}

/// A line without its bullet.
pub open spec fn unbulleted(line: Seq<char>) -> Seq<char> {
    match replaced(BULLET_PATTERN@, line, Seq::empty()) {
        Some(s) => s,
        None => line,
    }
}

pub open spec fn unbulleted_all(lines: Seq<Seq<char>>) -> Seq<Seq<char>> {
    lines.map_values(|l: Seq<char>| unbulleted(l))
}

fn strip_bullets(lines: &Vec<String>) -> (r: Vec<String>)
    ensures
        r.deep_view() == unbulleted_all(lines.deep_view()),
{
    let mut out: Vec<String> = Vec::new();
    let mut i: usize = 0;
    while i < lines.len()
        invariant
            i <= lines@.len(),
            out.deep_view() == unbulleted_all(lines.deep_view()).take(i as int),
        decreases lines@.len() - i,
    {
        proof {
            reveal_strlit("");
            assert(""@ =~= Seq::<char>::empty());
        }
        let line = match regex_replace(BULLET_PATTERN, &lines[i], "") {
            Some(s) => s,
            None => lines[i].clone(),
        };
        base::push(&mut out, line);
        assert(out.deep_view() =~= unbulleted_all(lines.deep_view()).take(i + 1));
        i = i + 1;
    }
    assert(out.deep_view() =~= unbulleted_all(lines.deep_view()));
    out
}

/// A text of an answer in JSON, or a fixed one.
pub open spec fn text_or(j: Option<JsonView>, name: Seq<char>, default: Seq<char>) -> Seq<char> {
    match j {
        Some(v) => match v.text_field(name) {
            Some(s) => s,
            None => default,
        },
        None => default,
    }
}

/// A text of an answer in JSON, or a fixed one.
pub fn get_text_or(j: Option<&Json>, name: &str, default: &str) -> (r: String)
    ensures
        r@ == text_or(j.deep_view(), name@, default@),
{
    if let Some(v) = j {
        if let Some(s) = v.get_str(name) {
            return s.clone();
        }
    }
    text::owned(default)
}

/// What an answer says of a recipe, given what it is as JSON, and given the
/// lines of its activities without their bullets where it is not JSON.
pub open spec fn recipe_parts(
    content: Seq<char>,
    json: Option<JsonView>,
    stripped: Seq<Seq<char>>,
) -> Result<RecipePartsView, RecipeError> {
    let sections = match json {
        Some(j) => json_sections(j),
        None => Ok((text_sections(content).0, kept_activities(stripped))),
    };
    match sections {
        Err(e) => Err(e),
        Ok((instructions, activities)) => Ok(
            RecipePartsView {
                title: text_or(json, "title"@, DEFAULT_TITLE@),
                description: text_or(json, "description"@, DEFAULT_DESCRIPTION@),
                instructions,
                activities,
            },
        ),
    }
}

pub open spec fn parts_view(r: Result<RecipeParts, RecipeError>) -> Result<
    RecipePartsView,
    RecipeError,
> {
    match r {
        Ok(p) => Ok(p.deep_view()),
        Err(e) => Err(e),
    }
}

/// What an answer says of a recipe, given what it is as JSON, and given the
/// lines of its activities without their bullets where it is not JSON.
pub fn recipe_parts_from(content: &str, json: Option<&Json>, stripped: &Vec<String>) -> (r: Result<
    RecipeParts,
    RecipeError,
>)
    ensures
        parts_view(r) == recipe_parts(content@, json.deep_view(), stripped.deep_view()),
{
    let (instructions, activities) = match json {
        Some(j) => match sections_from_json(j) {
            Ok(s) => s,
            Err(e) => {
                return Err(e);
            },
        },
        None => {
            let (instructions, _) = sections_from_text(content);
            (instructions, keep_activities(stripped))
        },
    };
    Ok(
        RecipeParts {
            title: get_text_or(json, "title", DEFAULT_TITLE),
            description: get_text_or(json, "description", DEFAULT_DESCRIPTION),
            instructions,
            activities,
        },
    )
}

/// What an answer says of a recipe.
pub open spec fn parsed_recipe(content: Seq<char>) -> Result<RecipePartsView, RecipeError> {
    let json = json::parsed(clean(content, captured(FENCE_PATTERN@, content, 1)));
    recipe_parts(content, json, unbulleted_all(text_sections(content).1))
}

/// What an answer says of a recipe.
pub fn parse_recipe(content: &str) -> (r: Result<RecipeParts, RecipeError>)
    ensures
        parts_view(r) == parsed_recipe(content@),
{
    let fenced = regex_capture(FENCE_PATTERN, content, 1);
    let clean = match &fenced {
        Some(inner) => clean_content(content, Some(inner.as_str())),
        None => clean_content(content, None),
    };
    match json::parse(&clean) {
        Some(j) => {
            let none: Vec<String> = Vec::new();
            recipe_parts_from(content, Some(&j), &none)
        },
        None => {
            let (_, lines) = sections_from_text(content);
            let stripped = strip_bullets(&lines);
            recipe_parts_from(content, None, &stripped)
        },
    }
}

/// The recipe that an answer makes, with the enabled extensions and with the
/// provider and the model that are in use. A temperature that is not set is
/// zero, whose bits are all zero.
pub open spec fn recipe_of(
    parts: RecipePartsView,
    extensions: Seq<ExtensionConfigView>,
    contact: Option<Seq<char>>,
    provider: Seq<char>,
    model: Seq<char>,
    temperature_bits: Option<u32>,
) -> RecipeView {
    RecipeView {
        title: parts.title,
        description: parts.description,
        instructions: parts.instructions,
        activities: parts.activities,
        extensions,
        settings: RecipeSettingsView {
            goose_provider: Some(provider),
            goose_model: Some(model),
            temperature_bits: Some(
                match temperature_bits {
                    Some(b) => b,
                    None => 0,
                },
            ),
        },
        author_contact: contact,
    }
}

/// Makes a recipe of an answer.
pub fn create_recipe(
    content: &str,
    extensions: Vec<ExtensionConfig>,
    contact: Option<String>,
    provider: String,
    model: String,
    temperature_bits: Option<u32>,
) -> (r: Result<Recipe, RecipeError>)
    ensures
        match (parsed_recipe(content@), r) {
            (Ok(parts), Ok(recipe)) => recipe.deep_view() == recipe_of(
                parts,
                extensions.deep_view(),
                contact.deep_view(),
                provider@,
                model@,
                temperature_bits,
            ),
            (Err(e), Err(f)) => e == f,
            _ => false,
        },
{
    match parse_recipe(content) {
        Ok(parts) => {
            let bits: u32 = match temperature_bits {
                Some(b) => b,
                None => 0,
            };
            Ok(
                Recipe {
                    title: parts.title,
                    description: parts.description,
                    instructions: parts.instructions,
                    activities: parts.activities,
                    extensions,
                    settings: RecipeSettings {
                        goose_provider: Some(provider),
                        goose_model: Some(model),
                        temperature_bits: Some(bits),
                    },
                    author_contact: contact,
                },
            )
        },
        Err(e) => Err(e),
    }
}

/// No activity of an answer that is not JSON is empty or has white space at its
/// ends.
pub proof fn law_activities_are_trimmed(stripped: Seq<Seq<char>>)
    ensures
        forall|i: int|
            0 <= i < kept_activities(stripped).len() ==> exists|j: int|
                0 <= j < stripped.len() && (#[trigger] kept_activities(stripped)[i])
                    == text::trimmed(#[trigger] stripped[j]) && kept_activities(
                    stripped,
                )[i].len() > 0,
    decreases stripped.len(),
{
    if stripped.len() > 0 {
        law_activities_are_trimmed(stripped.drop_last());
        let rest = kept_activities(stripped.drop_last());
        let now = kept_activities(stripped);
        assert forall|i: int| 0 <= i < now.len() implies exists|j: int|
            0 <= j < stripped.len() && (#[trigger] now[i]) == text::trimmed(
                #[trigger] stripped[j],
            ) && now[i].len() > 0 by {
            if i < rest.len() {
                assert(now[i] == rest[i]);
                let j = choose|j: int|
                    0 <= j < stripped.drop_last().len() && rest[i] == text::trimmed(
                        #[trigger] stripped.drop_last()[j],
                    ) && rest[i].len() > 0;
                assert(stripped[j] == stripped.drop_last()[j]);
            } else {
                assert(stripped[stripped.len() - 1] == stripped.last());
            }
        }
    }
}

} // verus!
