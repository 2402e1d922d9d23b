//! The configured extensions, each under a key made of its name.
use crate::assoc::{self, lookup, put, unique_keys, values, without};
use crate::base::{self, Duplicate};
use crate::extension::{
    ExtensionConfig, ExtensionConfigView, PlatformExtensionDef, PlatformExtensionDefView,
};
use crate::json::{self, Json, JsonView};
use crate::text;
use vstd::prelude::*;
use vstd::string::*;

verus! {

pub const DEFAULT_EXTENSION: &'static str = "developer";

pub const DEFAULT_EXTENSION_TIMEOUT: u64 = 300;

pub const DEFAULT_EXTENSION_DESCRIPTION: &'static str = "";

pub const DEFAULT_DISPLAY_NAME: &'static str = "Developer";

/// A configured extension.
#[derive(Debug, PartialEq)]
pub struct ExtensionEntry {
    pub enabled: bool,
    pub config: ExtensionConfig,
}

#[verifier::ext_equal]
pub struct ExtensionEntryView {
    pub enabled: bool,
    pub config: ExtensionConfigView,
}

impl DeepView for ExtensionEntry {
    type V = ExtensionEntryView;

    open spec fn deep_view(&self) -> ExtensionEntryView {
        ExtensionEntryView { enabled: self.enabled, config: self.config.deep_view() }
    }
}

impl Duplicate for ExtensionEntry {
    fn duplicate(&self) -> (r: Self) {
        ExtensionEntry { enabled: self.enabled, config: self.config.duplicate() }
    }
}

/// The configured extensions, each under its key.
pub type ExtensionsMap = Vec<(String, ExtensionEntry)>;

pub type ExtensionsView = Seq<(Seq<char>, ExtensionEntryView)>;

/// A text without its white space.
pub open spec fn dense(s: Seq<char>) -> Seq<char>
    decreases s.len(),
{
    if s.len() == 0 {
        s
    } else if text::whitespace(s.last()) {
        dense(s.drop_last())
    } else {
        dense(s.drop_last()).push(s.last())
    }
}

/// The key of a name: without white space, in lower case.
pub open spec fn key_of(name: Seq<char>) -> Seq<char> {
    text::lower(dense(name))
}

/// The key of a name: without white space, in lower case.
pub fn name_to_key(name: &str) -> (r: String)
    ensures
        r@ == key_of(name@),
{
    let chars = text::to_chars(name);
    let mut out = String::new();
    let mut i: usize = 0;
    assert(name@.take(0) =~= Seq::<char>::empty());
    while i < chars.len()
        invariant
            i <= chars@.len(),
            chars@ == name@,
            out@ == dense(name@.take(i as int)),
        decreases chars@.len() - i,
    {
        assert(name@.take(i + 1).drop_last() =~= name@.take(i as int));
        if !text::is_whitespace(chars[i]) {
            out.push(chars[i]);
        }
        i = i + 1;
    }
    assert(name@.take(name@.len() as int) =~= name@);
    text::to_lowercase(&out)
}

/// A text of ASCII characters stays one without its white space.
pub proof fn lemma_dense_ascii(s: Seq<char>)
    requires
        text::is_ascii_text(s),
    ensures
        text::is_ascii_text(dense(s)),
    decreases s.len(),
{
    if s.len() > 0 {
        assert(text::is_ascii_text(s.drop_last()));
        lemma_dense_ascii(s.drop_last());
        assert(s.last() == s[s.len() - 1]);
    }
}

/// The value of an extension with a description: where there is none, or it is
/// null, it is the empty text.
pub open spec fn described(v: JsonView) -> JsonView {
    match v {
        JsonView::Object(fields) => match lookup(fields, "description"@) {
            None | Some(JsonView::Null) => JsonView::Object(
                put(fields, "description"@, JsonView::Text(Seq::empty())),
            ),
            _ => v,
        },
        _ => v,
    }
}

/// The values of the configuration's object of extensions, each with a
/// description. Anything but an object counts as an empty one.
pub open spec fn extension_values(raw: Option<JsonView>) -> Seq<(Seq<char>, JsonView)> {
    match raw {
        Some(JsonView::Object(fields)) => fields.map_values(
            |f: (Seq<char>, JsonView)| (f.0, described(f.1)),
        ),
        _ => Seq::empty(),
    }
}

/// Gives the value of an extension a description.
pub fn describe(v: &Json) -> (r: Json)
    ensures
        r.deep_view() == described(v.deep_view()),
{
    match v {
        Json::Object(fields) => {
            proof {
                json::lemma_object_view(*fields);
            }
            let missing = match assoc::get(fields, "description") {
                None => true,
                Some(Json::Null) => true,
                Some(_) => false,
            };
            if !missing {
                return v.duplicate();
            }
            let mut out = json::duplicate_fields(fields);
            let empty = Json::Text(String::new());
            assert(empty.deep_view() == JsonView::Text(Seq::empty()));
            assoc::insert(&mut out, text::owned("description"), empty);
            proof {
                json::lemma_object_view(out);
            }
            Json::Object(out)
        },
        _ => v.duplicate(),
    }
}

/// The values of the configuration's object of extensions, each with a
/// description.
pub fn list_extension_values(raw: Option<&Json>) -> (r: Vec<(String, Json)>)
    ensures
        r.deep_view() == extension_values(raw.deep_view()),
{
    let mut out: Vec<(String, Json)> = Vec::new();
    if let Some(Json::Object(fields)) = raw {
        proof {
            json::lemma_object_view(*fields);
        }
        let ghost all = extension_values(raw.deep_view());
        let mut i: usize = 0;
        while i < fields.len()
            invariant
                i <= fields@.len(),
                all == fields.deep_view().map_values(
                    |f: (Seq<char>, JsonView)| (f.0, described(f.1)),
                ),
                out.deep_view() == all.take(i as int),
            decreases fields@.len() - i,
        {
            base::push(&mut out, (fields[i].0.clone(), describe(&fields[i].1)));
            assert(out.deep_view() =~= all.take(i + 1));
            i = i + 1;
        }
        assert(out.deep_view() =~= all);
    }
    assert(out.deep_view() =~= extension_values(raw.deep_view()));
    out
}

/// The entries that could be read; a later one replaces an earlier one under
/// the same key.
pub open spec fn readable(list: Seq<(Seq<char>, Option<ExtensionEntryView>)>) -> ExtensionsView
    decreases list.len(),
{
    if list.len() == 0 {
        Seq::empty()
    } else {
        let rest = readable(list.drop_last());
        match list.last().1 {
            Some(e) => put(rest, list.last().0, e),
            None => rest,
        }
    }
}

/// An extension inside the agent is enabled unless the configuration says
/// otherwise.
pub open spec fn platform_entry(def: PlatformExtensionDefView) -> ExtensionEntryView {
    ExtensionEntryView {
        enabled: true,
        config: ExtensionConfigView::Platform {
            name: def.name,
            display_name: Some(def.display_name),
            description: def.description,
            bundled: Some(true),
            available_tools: Seq::empty(),
        },
    }
}

/// The map with the extensions inside the agent that it lacks.
pub open spec fn with_platform(
    m: ExtensionsView,
    defs: Seq<(Seq<char>, PlatformExtensionDefView)>,
) -> ExtensionsView
    decreases defs.len(),
{
    if defs.len() == 0 {
        m
    } else {
        let rest = with_platform(m, defs.drop_last());
        let def = defs.last();
        if lookup(rest, def.0) is Some {
            rest
        } else {
            put(rest, def.0, platform_entry(def.1))
        }
    }
}

/// The configured extensions. An empty configuration stays empty, any other is
/// completed by the extensions inside the agent.
pub open spec fn extensions_map(
    list: Seq<(Seq<char>, Option<ExtensionEntryView>)>,
    defs: Seq<(Seq<char>, PlatformExtensionDefView)>,
) -> ExtensionsView {
    let m = readable(list);
    if m.len() == 0 {
        m
    } else {
        with_platform(m, defs)
    }
}

/// The configured extensions, out of the entries that could be read and the
/// extensions inside the agent.
pub fn get_extensions_map(
    list: &Vec<(String, Option<ExtensionEntry>)>,
    defs: &Vec<(String, PlatformExtensionDef)>,
) -> (r: ExtensionsMap)
    ensures
        r.deep_view() == extensions_map(list.deep_view(), defs.deep_view()),
        unique_keys(r.deep_view()),
{
    let mut out: Vec<(String, ExtensionEntry)> = Vec::new();
    let ghost all = list.deep_view();
    let mut i: usize = 0;
    assert(out.deep_view() =~= readable(all.take(0)));
    while i < list.len()
        invariant
            i <= list@.len(),
            all == list.deep_view(),
            out.deep_view() == readable(all.take(i as int)),
            unique_keys(out.deep_view()),
        decreases list@.len() - i,
    {
        assert(all.take(i + 1).drop_last() =~= all.take(i as int));
        if let Some(e) = &list[i].1 {
            proof {
                assoc::lemma_unique_put(out.deep_view(), list@[i as int].0@, e.deep_view());
            }
            assoc::insert(&mut out, list[i].0.clone(), e.duplicate());
        }
        i = i + 1;
    }
    assert(all.take(list@.len() as int) =~= all);
    if out.len() == 0 {
        return out;
    }
    let ghost m = out.deep_view();
    let ghost every = defs.deep_view();
    let mut k: usize = 0;
    assert(every.take(0) =~= Seq::empty());
    while k < defs.len()
        invariant
            k <= defs@.len(),
            every == defs.deep_view(),
            out.deep_view() == with_platform(m, every.take(k as int)),
            unique_keys(out.deep_view()),
        decreases defs@.len() - k,
    {
        assert(every.take(k + 1).drop_last() =~= every.take(k as int));
        if !assoc::contains_key(&out, &defs[k].0) {
            let def = &defs[k].1;
            let available_tools = Vec::new();
            let entry = ExtensionEntry {
                enabled: true,
                config: ExtensionConfig::Platform {
                    name: def.name.clone(),
                    display_name: Some(def.display_name.clone()),
                    description: def.description.clone(),
                    bundled: Some(true),
                    available_tools,
                },
            };
            assert(entry.deep_view() =~= platform_entry(def.deep_view()));
            proof {
                assoc::lemma_unique_put(out.deep_view(), defs@[k as int].0@, entry.deep_view());
            }
            assoc::insert(&mut out, defs[k].0.clone(), entry);
        }
        k = k + 1;
    }
    assert(every.take(defs@.len() as int) =~= every);
    out
}

/// The configuration of the first entry with a name.
pub open spec fn config_named(m: ExtensionsView, name: Seq<char>) -> Option<ExtensionConfigView>
    decreases m.len(),
{
    if m.len() == 0 {
        None
    } else if m[0].1.config.name() == name {
        Some(m[0].1.config)
    } else {
        config_named(m.drop_first(), name)
    }
}

/// The configuration of the first entry with a name.
pub fn get_extension_by_name(extensions: &ExtensionsMap, name: &str) -> (r: Option<ExtensionConfig>)
    ensures
        r.deep_view() == config_named(extensions.deep_view(), name@),
{
    let ghost all = extensions.deep_view();
    let mut i: usize = 0;
    assert(all.skip(0) =~= all);
    while i < extensions.len()
        invariant
            i <= extensions@.len(),
            all == extensions.deep_view(),
            config_named(all, name@) == config_named(all.skip(i as int), name@),
        decreases extensions@.len() - i,
    {
        assert(all.skip(i as int).drop_first() =~= all.skip(i + 1));
        if text::str_eq(extensions[i].1.config.name(), name) {
            return Some(extensions[i].1.config.duplicate());
        }
        i = i + 1;
    }
    None
}

/// Puts an extension under the key of its name.
pub fn set_extension(extensions: &mut ExtensionsMap, entry: ExtensionEntry)
    ensures
        final(extensions).deep_view() == put(
            old(extensions).deep_view(),
            key_of(entry.deep_view().config.name()),
            entry.deep_view(),
        ),
{
    let key = name_to_key(entry.config.name());
    assoc::insert(extensions, key, entry);
}

/// Takes the extension under a key out.
pub fn remove_extension(extensions: &mut ExtensionsMap, key: &str)
    ensures
        final(extensions).deep_view() == without(old(extensions).deep_view(), key@),
{
    assoc::remove(extensions, key);
}

/// The map in which the extension under a key is enabled or not.
pub open spec fn with_enabled(m: ExtensionsView, key: Seq<char>, enabled: bool) -> ExtensionsView {
    match lookup(m, key) {
        Some(e) => put(m, key, ExtensionEntryView { enabled, ..e }),
        None => m,
    }
}

/// Enables or disables the extension under a key. Returns whether there is one.
pub fn set_extension_enabled(extensions: &mut ExtensionsMap, key: &str, enabled: bool) -> (r: bool)
    ensures
        final(extensions).deep_view() == with_enabled(old(extensions).deep_view(), key@, enabled),
        r == (lookup(old(extensions).deep_view(), key@) is Some),
{
    let config = match assoc::get(extensions, key) {
        Some(e) => e.config.duplicate(),
        None => {
            return false;
        },
    };
    let entry = ExtensionEntry { enabled, config };
    assoc::insert(extensions, text::owned(key), entry);
    true
}

/// All entries.
pub fn get_all_extensions(extensions: &ExtensionsMap) -> (r: Vec<ExtensionEntry>)
    ensures
        r.deep_view() == values(extensions.deep_view()),
{
    assoc::value_list(extensions)
}

/// All keys.
pub fn get_all_extension_names(extensions: &ExtensionsMap) -> (r: Vec<String>)
    ensures
        r.deep_view() == assoc::keys(extensions.deep_view()),
{
    assoc::key_list(extensions)
}

/// Whether the extension under a key is enabled.
pub open spec fn enabled_in(m: ExtensionsView, key: Seq<char>) -> bool {
    match lookup(m, key) {
        Some(e) => e.enabled,
        None => false,
    }
}

/// Whether the extension under a key is enabled.
pub fn is_extension_enabled(extensions: &ExtensionsMap, key: &str) -> (r: bool)
    ensures
        r == enabled_in(extensions.deep_view(), key@),
{
    match assoc::get(extensions, key) {
        Some(e) => e.enabled,
        None => false,
    }
}

/// The configurations of the enabled entries.
pub open spec fn enabled_configs(m: ExtensionsView) -> Seq<ExtensionConfigView>
    decreases m.len(),
{
    if m.len() == 0 {
        Seq::empty()
    } else {
        let rest = enabled_configs(m.drop_last());
        if m.last().1.enabled {
            rest.push(m.last().1.config)
        } else {
            rest
        }
    }
}

/// The configurations of the enabled entries.
pub fn get_enabled_extensions(extensions: &ExtensionsMap) -> (r: Vec<ExtensionConfig>)
    ensures
        r.deep_view() == enabled_configs(extensions.deep_view()),
{
    let mut out: Vec<ExtensionConfig> = Vec::new();
    let ghost all = extensions.deep_view();
    let mut i: usize = 0;
    assert(out.deep_view() =~= enabled_configs(all.take(0)));
    while i < extensions.len()
        invariant
            i <= extensions@.len(),
            all == extensions.deep_view(),
            out.deep_view() == enabled_configs(all.take(i as int)),
        decreases extensions@.len() - i,
    {
        assert(all.take(i + 1).drop_last() =~= all.take(i as int));
        if extensions[i].1.enabled {
            base::push(&mut out, extensions[i].1.config.duplicate());
        }
        i = i + 1;
    }
    assert(all.take(extensions@.len() as int) =~= all);
    out
}

/// What was set under a name is found under its key, enabled as it was set, and
/// nothing changes under another key.
pub proof fn law_set_then_get(m: ExtensionsView, entry: ExtensionEntryView, key: Seq<char>)
    ensures
        ({
            let after = put(m, key_of(entry.config.name()), entry);
            &&& lookup(after, key_of(entry.config.name())) == Some(entry)
            &&& enabled_in(after, key_of(entry.config.name())) == entry.enabled
            &&& key != key_of(entry.config.name()) ==> lookup(after, key) == lookup(m, key)
        }),
{
    assoc::lemma_lookup_put(m, key_of(entry.config.name()), entry, key);
    assoc::lemma_lookup_put(
        m,
        key_of(entry.config.name()),
        entry,
        key_of(entry.config.name()),
    );
}

/// What was removed is gone, is not enabled, and nothing changes under another
/// key.
pub proof fn law_remove_then_get(m: ExtensionsView, key: Seq<char>, other: Seq<char>)
    ensures
        lookup(without(m, key), key) is None,
        !enabled_in(without(m, key), key),
        other != key ==> lookup(without(m, key), other) == lookup(m, other),
{
    assoc::lemma_lookup_without(m, key, key);
    assoc::lemma_lookup_without(m, key, other);
}

/// Enabling or disabling changes that and nothing else.
pub proof fn law_enable_then_get(m: ExtensionsView, key: Seq<char>, enabled: bool, other: Seq<char>)
    ensures
        lookup(m, key) matches Some(e) ==> lookup(with_enabled(m, key, enabled), key) == Some(
            ExtensionEntryView { enabled, config: e.config },
        ),
        lookup(m, key) is None ==> with_enabled(m, key, enabled) == m,
        other != key ==> lookup(with_enabled(m, key, enabled), other) == lookup(m, other),
{
    if let Some(e) = lookup(m, key) {
        let changed = ExtensionEntryView { enabled, ..e };
        assoc::lemma_lookup_put(m, key, changed, key);
        assoc::lemma_lookup_put(m, key, changed, other);
    }
}

/// Keys stay unique under every change.
pub proof fn law_keys_stay_unique(
    m: ExtensionsView,
    entry: ExtensionEntryView,
    key: Seq<char>,
    enabled: bool,
)
    requires
        unique_keys(m),
    ensures
        unique_keys(put(m, key_of(entry.config.name()), entry)),
        unique_keys(without(m, key)),
        unique_keys(with_enabled(m, key, enabled)),
{
    assoc::lemma_unique_put(m, key_of(entry.config.name()), entry);
    assoc::lemma_unique_without(m, key);
    if let Some(e) = lookup(m, key) {
        assoc::lemma_unique_put(m, key, ExtensionEntryView { enabled, ..e });
    }
}

/// A configuration that is not empty holds every extension inside the agent,
/// and keeps what it already held.
pub proof fn law_platform_extensions_present(
    m: ExtensionsView,
    defs: Seq<(Seq<char>, PlatformExtensionDefView)>,
    key: Seq<char>,
)
    ensures
        forall|i: int|
            0 <= i < defs.len() ==> lookup(with_platform(m, defs), (#[trigger] defs[i]).0) is Some,
        lookup(m, key) is Some ==> lookup(with_platform(m, defs), key) == lookup(m, key),
    decreases defs.len(),
{
    if defs.len() > 0 {
        let rest = with_platform(m, defs.drop_last());
        let def = defs.last();
        law_platform_extensions_present(m, defs.drop_last(), key);
        assoc::lemma_lookup_put(rest, def.0, platform_entry(def.1), key);
        assert forall|i: int| 0 <= i < defs.len() implies lookup(
            with_platform(m, defs),
            (#[trigger] defs[i]).0,
        ) is Some by {
            assoc::lemma_lookup_put(rest, def.0, platform_entry(def.1), defs[i].0);
            if i < defs.len() - 1 {
                assert(defs.drop_last()[i] == defs[i]);
            }
        }
    }
}

/// The key of a name that is ASCII but for its white space holds no white space,
/// is in lower case, and is its own key.
pub proof fn law_ascii_key_is_stable(name: Seq<char>)
    requires
        text::is_ascii_text(dense(name)),
    ensures
        forall|i: int| 0 <= i < key_of(name).len() ==> !text::whitespace(#[trigger] key_of(name)[i]),
        text::lower(key_of(name)) == key_of(name),
        key_of(key_of(name)) == key_of(name),
{
    let k = key_of(name);
    lemma_dense_has_no_whitespace(name);
    lemma_lower_keeps_whitespace(dense(name));
    lemma_dense_of_dense(k);
    assert forall|i: int| 0 <= i < k.len() implies (#[trigger] k[i] as u32) < 128 by {
        assert((dense(name)[i] as u32) < 128);
    }
    assert(text::ascii_lowercase(k) =~= k);
}

/// White space does not count in a name, and neither does the case of letters in a
/// name that is ASCII but for its white space.
pub proof fn law_blanks_and_case_do_not_count(a: Seq<char>, b: Seq<char>)
    requires
        dense(a) == dense(b) || (text::is_ascii_text(dense(a)) && text::is_ascii_text(dense(b))
            && text::ascii_lowercase(dense(a)) == text::ascii_lowercase(dense(b))),
    ensures
        key_of(a) == key_of(b),
{
}

proof fn lemma_dense_has_no_whitespace(s: Seq<char>)
    ensures
        forall|i: int| 0 <= i < dense(s).len() ==> !text::whitespace(#[trigger] dense(s)[i]),
    decreases s.len(),
{
    if s.len() > 0 {
        lemma_dense_has_no_whitespace(s.drop_last());
        assert forall|i: int| 0 <= i < dense(s).len() implies !text::whitespace(
            #[trigger] dense(s)[i],
        ) by {
            if i < dense(s.drop_last()).len() {
                assert(dense(s)[i] == dense(s.drop_last())[i]);
            }
        }
    }
}

proof fn lemma_lower_keeps_whitespace(s: Seq<char>)
    requires
        forall|i: int| 0 <= i < s.len() ==> !text::whitespace(#[trigger] s[i]),
    ensures
        forall|i: int|
            0 <= i < s.len() ==> !text::whitespace(#[trigger] text::ascii_lowercase(s)[i]),
{
    assert forall|i: int| 0 <= i < s.len() implies !text::whitespace(
        #[trigger] text::ascii_lowercase(s)[i],
    ) by {
        assert(!text::whitespace(s[i]));
    }
}

proof fn lemma_dense_of_dense(s: Seq<char>)
    requires
        forall|i: int| 0 <= i < s.len() ==> !text::whitespace(#[trigger] s[i]),
    ensures
        dense(s) == s,
    decreases s.len(),
{
    if s.len() > 0 {
        assert(!text::whitespace(s[s.len() - 1]));
        assert forall|i: int| 0 <= i < s.drop_last().len() implies !text::whitespace(
            #[trigger] s.drop_last()[i],
        ) by {
            assert(!text::whitespace(s[i]));
        }
        lemma_dense_of_dense(s.drop_last());
        assert(dense(s) =~= s);
    }
}

} // verus!
