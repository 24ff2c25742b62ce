//! Per-message resolution of a kind's settings.
//!
//! Resolution order, lowest to highest priority:
//!   1. `default`s declared in the settings schema of the manifest,
//!   2. the persisted node config,
//!   3. settings fields named in the manifest's message overrides, taken
//!      from the metadata of the message being processed.

use vstd::prelude::*;

use crate::ctx::NodeCtx;
use crate::error::NodeError;
use crate::json::{entries_view, member, members, members_extend, members_get, members_insert, members_remove, Json, JsonValue};
use crate::model::Msg;

verus! {

/// Wrapper carrying the decoded, merged settings object.
#[derive(Debug, Clone)]
pub struct ResolvedSettings<T> {
    inner: T,
}

impl<T> ResolvedSettings<T> {
    pub closed spec fn value(&self) -> T {
        self.inner
    }

    pub fn new(inner: T) -> (r: Self)
        ensures
            r.value() == inner,
    {
        ResolvedSettings { inner }
    }

    pub fn into_inner(self) -> (r: T)
        ensures
            r == self.value(),
    {
        self.inner
    }

    /// Wraps the outcome of decoding the merged settings into the
    /// author's type; a decoding failure becomes an invalid-config error
    /// carrying the decoder's message.
    pub fn from_decoded(decoded: Result<T, String>) -> (r: Result<Self, NodeError>)
        ensures
            match decoded {
                Ok(v) => r matches Ok(s) && s.value() == v,
                Err(e) => r == Err::<Self, NodeError>(NodeError::InvalidConfig(e)),
            },
    {
        match decoded {
            Ok(v) => Ok(ResolvedSettings::new(v)),
            Err(e) => Err(NodeError::InvalidConfig(e)),
        }
    }
}

impl<T> std::ops::Deref for ResolvedSettings<T> {
    type Target = T;

    fn deref(&self) -> (r: &T)
        ensures
            *r == self.value(),
    {
        &self.inner
    }
}

/// The string map a list of pairs denotes; the last pair under a key wins.
pub open spec fn pairs_view(s: Seq<(String, String)>) -> Map<Seq<char>, Seq<char>>
    decreases s.len(),
{
    if s.len() == 0 {
        Map::empty()
    } else {
        pairs_view(s.drop_last()).insert(s.last().0@, s.last().1@)
    }
}

/// The settings defaults a map of schema properties declares: every
/// property whose schema is an object with a `default` member, mapped to
/// that default.
pub open spec fn defaults_of_properties(props: Map<Seq<char>, Json>) -> Map<Seq<char>, Json> {
    Map::new(
        |k: Seq<char>| props.contains_key(k) && member(props[k], "default"@) is Some,
        |k: Seq<char>| member(props[k], "default"@)->0,
    )
}

/// The settings defaults a settings schema declares, read from its
/// `properties` object; none when there is no such object.
pub open spec fn schema_defaults_spec(schema: Json) -> Map<Seq<char>, Json> {
    match member(schema, "properties"@) {
        Some(p) => defaults_of_properties(members(p)),
        None => Map::empty(),
    }
}

/// The settings a message overrides: every field whose metadata key the
/// message carries, mapped to the metadata value under that key.
pub open spec fn msg_overrides_spec(
    overrides: Map<Seq<char>, Seq<char>>,
    metadata: Map<Seq<char>, Json>,
) -> Map<Seq<char>, Json> {
    Map::new(
        |f: Seq<char>| overrides.contains_key(f) && metadata.contains_key(overrides[f]),
        |f: Seq<char>| metadata[overrides[f]],
    )
}

/// The members of the merge of three values: members of `overrides`
/// beat those of `config`, which beat those of `defaults`; a value that
/// is not an object contributes nothing.
pub open spec fn merge_spec(defaults: Json, config: Json, overrides: Json) -> Map<Seq<char>, Json> {
    members(defaults).union_prefer_right(members(config)).union_prefer_right(members(overrides))
}

/// The settings in force for one message: schema defaults, replaced by
/// the persisted config, replaced by the message's overrides.
pub open spec fn resolved_settings_spec(
    schema: Json,
    config: Json,
    overrides: Map<Seq<char>, Seq<char>>,
    metadata: Map<Seq<char>, Json>,
) -> Map<Seq<char>, Json> {
    merge_spec(
        Json::Object(schema_defaults_spec(schema)),
        config,
        Json::Object(msg_overrides_spec(overrides, metadata)),
    )
}

/// Overrides beat config, which beats defaults: a settings field takes
/// the value the message overrides it with, else the persisted config's
/// value, else the schema default, and is absent when none supplies one.
pub proof fn lemma_settings_precedence(
    schema: Json,
    config: Json,
    overrides: Map<Seq<char>, Seq<char>>,
    metadata: Map<Seq<char>, Json>,
    field: Seq<char>,
)
    ensures
        ({
            let r = resolved_settings_spec(schema, config, overrides, metadata);
            let ov = msg_overrides_spec(overrides, metadata);
            let d = schema_defaults_spec(schema);
            &&& ov.contains_key(field) ==> r.contains_key(field) && r[field] == metadata[overrides[field]]
            &&& !ov.contains_key(field) && members(config).contains_key(field) ==> r.contains_key(field)
                && r[field] == members(config)[field]
            &&& !ov.contains_key(field) && !members(config).contains_key(field) ==> (r.contains_key(field)
                <==> d.contains_key(field))
            &&& !ov.contains_key(field) && !members(config).contains_key(field) && d.contains_key(field)
                ==> r[field] == d[field]
        }),
{
}

/// The defaults a schema declares are exactly its properties that have a
/// `default` member, each mapped to that member, whatever its JSON type;
/// nothing when the schema has no `properties`.
pub proof fn lemma_schema_defaults_declared(schema: Json, name: Seq<char>)
    ensures
        schema_defaults_spec(schema).contains_key(name) <==> (member(schema, "properties"@) matches Some(p)
            && member(p, name) matches Some(prop) && member(prop, "default"@) is Some),
        schema_defaults_spec(schema).contains_key(name) ==> schema_defaults_spec(schema)[name]
            == member(member(member(schema, "properties"@)->0, name)->0, "default"@)->0,
{
}

/// Extracts the defaults declared under `properties.<field>.default` of a
/// JSON-Schema settings object.
pub fn schema_defaults(schema: &JsonValue) -> (r: JsonValue)
    ensures
        r@ == Json::Object(schema_defaults_spec(schema@)),
{
    let props = match schema.get("properties") {
        Some(JsonValue::Object(p)) => p,
        Some(p) => {
            assert(defaults_of_properties(members(p@)) =~= Map::empty());
            return JsonValue::Object(Vec::new());
        },
        None => {
            return JsonValue::Object(Vec::new());
        },
    };
    let mut out: Vec<(String, JsonValue)> = Vec::new();
    let mut i: usize = 0;
    while i < props.len()
        invariant
            i <= props.len(),
            entries_view(out@) =~= defaults_of_properties(entries_view(props@.take(i as int))),
        decreases props.len() - i,
    {
        let ghost before = entries_view(props@.take(i as int));
        assert(props@.take(i + 1).drop_last() =~= props@.take(i as int));
        assert(props@.take(i + 1).last() == props@[i as int]);
        let name = &props[i].0;
        match props[i].1.get("default") {
            Some(d) => {
                members_insert(&mut out, name.clone(), d.deep_clone());
            },
            None => {
                members_remove(&mut out, name);
            },
        }
        assert(entries_view(out@) =~= defaults_of_properties(
            before.insert(props@[i as int].0@, props@[i as int].1@),
        ));
        i = i + 1;
    }
    assert(props@.take(props.len() as int) =~= props@);
    JsonValue::Object(out)
}

/// The settings values the message overrides, keyed by settings field.
pub fn apply_msg_overrides(overrides: &Vec<(String, String)>, msg: &Msg) -> (r: JsonValue)
    ensures
        r@ == Json::Object(
            msg_overrides_spec(pairs_view(overrides@), entries_view(msg.metadata@)),
        ),
{
    let ghost md = entries_view(msg.metadata@);
    let mut out: Vec<(String, JsonValue)> = Vec::new();
    let mut i: usize = 0;
    while i < overrides.len()
        invariant
            i <= overrides.len(),
            md == entries_view(msg.metadata@),
            entries_view(out@) =~= msg_overrides_spec(pairs_view(overrides@.take(i as int)), md),
        decreases overrides.len() - i,
    {
        let ghost before = pairs_view(overrides@.take(i as int));
        assert(overrides@.take(i + 1).drop_last() =~= overrides@.take(i as int));
        assert(overrides@.take(i + 1).last() == overrides@[i as int]);
        let field = &overrides[i].0;
        match members_get(&msg.metadata, overrides[i].1.as_str()) {
            Some(v) => {
                members_insert(&mut out, field.clone(), v.deep_clone());
            },
            None => {
                members_remove(&mut out, field);
            },
        }
        assert(entries_view(out@) =~= msg_overrides_spec(
            before.insert(overrides@[i as int].0@, overrides@[i as int].1@),
            md,
        ));
        i = i + 1;
    }
    assert(overrides@.take(overrides.len() as int) =~= overrides@);
    JsonValue::Object(out)
}

/// Merges the three settings layers: members of `config` replace those
/// of `defaults`, and members of `overrides` replace both.
pub fn merge(defaults: JsonValue, config: JsonValue, overrides: JsonValue) -> (r: JsonValue)
    ensures
        r@ == Json::Object(merge_spec(defaults@, config@, overrides@)),
{
    let mut out = match defaults {
        JsonValue::Object(m) => m,
        _ => Vec::new(),
    };
    assert(entries_view(out@) =~= members(defaults@));
    match config {
        JsonValue::Object(c) => members_extend(&mut out, c),
        _ => {
            assert(members(config@) =~= Map::empty());
        },
    }
    assert(entries_view(out@) =~= members(defaults@).union_prefer_right(members(config@)));
    match overrides {
        JsonValue::Object(o) => members_extend(&mut out, o),
        _ => {
            assert(members(overrides@) =~= Map::empty());
        },
    }
    assert(entries_view(out@) =~= merge_spec(defaults@, config@, overrides@));
    JsonValue::Object(out)
}

impl NodeCtx {
    /// The merged settings object for the current invocation: schema
    /// defaults, then the persisted node config, then the fields the
    /// manifest lets `msg`'s metadata override.
    pub fn resolve_settings_json(&self, msg: &Msg) -> (r: JsonValue)
        ensures
            r@ == Json::Object(
                resolved_settings_spec(
                    self.spec_manifest().settings_schema@,
                    self.spec_config()@,
                    pairs_view(self.spec_manifest().msg_overrides@),
                    entries_view(msg.metadata@),
                ),
            ),
    {
        let manifest = self.manifest();
        let defaults = schema_defaults(&manifest.settings_schema);
        let overrides = apply_msg_overrides(&manifest.msg_overrides, msg);
        merge(defaults, self.config().deep_clone(), overrides)
    }
}

} // verus!
