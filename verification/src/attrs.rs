//! The rules for `#[node(...)]` attributes on a struct deriving
//! `NodeKind`.
//!
//! Each `node` attribute holds comma-separated `key = "value"` pairs.
//! The keys are `kind`, `manifest` and `behavior` (`"none"` or
//! `"custom"`); all three are required, and a key given again replaces
//! the earlier value. Attributes with another path are ignored. The
//! first offending entry, in source order, is reported.

use syn::punctuated::Punctuated;
use syn::token::Comma;
use vstd::prelude::*;

verus! {

#[verifier::external_type_specification]
#[verifier::external_body]
pub struct ExAttribute(syn::Attribute);

#[verifier::external_type_specification]
#[verifier::external_body]
pub struct ExMeta(syn::Meta);

#[verifier::external_type_specification]
#[verifier::external_body]
pub struct ExExpr(syn::Expr);

/// Whether a kind has a runtime behaviour.
#[derive(Debug, Clone, Copy, PartialEq, Eq, Structural)]
pub enum Behavior {
    /// Manifest-only kind (containers); no behaviour impl expected.
    ManifestOnly,
    /// The author provides their own behaviour impl.
    Custom,
}

/// The literal on the right of `key = ...`.
#[derive(Debug, Clone, PartialEq, Eq)]
pub enum LitInput {
    /// A string literal, with its value.
    Str(String),
    /// Any other expression.
    Other,
}

/// One comma-separated argument of a `node` attribute.
#[derive(Debug, Clone, PartialEq, Eq)]
pub enum MetaInput {
    /// `path = value`; `path` is its identifier when the path is a single
    /// identifier.
    NameValue { path: Option<String>, value: LitInput },
    /// A bare path or a parenthesised list.
    Other,
}

/// One outer attribute of the deriving struct.
#[derive(Debug)]
pub struct AttrInput {
    /// The attribute's path is the single identifier `node`.
    pub is_node: bool,
    /// The attribute's arguments, or the parser's message when they are
    /// not a comma-separated list of meta items.
    pub args: Result<Vec<MetaInput>, String>,
}

/// Where a diagnostic points.
#[derive(Debug, Clone, Copy, PartialEq, Eq, Structural)]
pub enum AttrSpan {
    /// The derive invocation itself (no `node` attribute was seen).
    CallSite,
    /// The path of the attribute at this position.
    Attr(usize),
    /// Where the parser stopped in the arguments of the attribute at this
    /// position.
    Args(usize),
    /// The argument at position `meta` of the attribute at `attr`.
    Meta { attr: usize, meta: usize },
}

/// What is wrong with the attributes.
#[derive(Debug, Clone, PartialEq, Eq)]
pub enum AttrErrorKind {
    /// The arguments of a `node` attribute do not parse.
    Unparsable(String),
    /// An argument is not of the form `key = value`.
    ExpectedNameValue,
    /// The value of an argument is not a string literal.
    ExpectedStringLiteral,
    /// `behavior` names neither `none` nor `custom`.
    UnknownBehavior(String),
    /// A key other than `kind`, `manifest` or `behavior`.
    UnknownKey,
    MissingKind,
    MissingManifest,
    MissingBehavior,
}

/// A diagnostic and the place it points at.
#[derive(Debug, Clone, PartialEq, Eq)]
pub struct AttrError {
    pub kind: AttrErrorKind,
    pub span: AttrSpan,
}

/// The text of a diagnostic.
pub open spec fn attr_error_text(k: AttrErrorKind) -> Seq<char> {
    match k {
        AttrErrorKind::Unparsable(m) => m@,
        AttrErrorKind::ExpectedNameValue => "expected `key = \"value\"` inside `#[node(...)]`"@,
        AttrErrorKind::ExpectedStringLiteral => "expected a string literal"@,
        AttrErrorKind::UnknownBehavior(v) => "unknown behavior `"@ + v@
            + "` — use `\"none\"` for container kinds or `\"custom\"` when providing a NodeBehavior impl"@,
        AttrErrorKind::UnknownKey => "unknown attribute — expected one of `kind`, `manifest`, `behavior`"@,
        AttrErrorKind::MissingKind => "missing `kind = \"...\"` in `#[node(...)]`"@,
        AttrErrorKind::MissingManifest => "missing `manifest = \"path.yaml\"` in `#[node(...)]` (path is relative to CARGO_MANIFEST_DIR)"@,
        AttrErrorKind::MissingBehavior => "missing `behavior = \"...\"` in `#[node(...)]` — use `\"none\"` for manifest-only container kinds, or `\"custom\"` when you provide your own NodeBehavior impl"@,
    }
}

impl AttrError {
    /// The text of this diagnostic.
    pub fn message(&self) -> (s: String)
        ensures
            s@ == attr_error_text(self.kind),
    {
        match &self.kind {
            AttrErrorKind::Unparsable(m) => m.clone(),
            AttrErrorKind::ExpectedNameValue => "expected `key = \"value\"` inside `#[node(...)]`".to_string(),
            AttrErrorKind::ExpectedStringLiteral => "expected a string literal".to_string(),
            AttrErrorKind::UnknownBehavior(v) => {
                let mut s = "unknown behavior `".to_string();
                s.append(v.as_str());
                s.append("` — use `\"none\"` for container kinds or `\"custom\"` when providing a NodeBehavior impl");
                s
            },
            AttrErrorKind::UnknownKey => "unknown attribute — expected one of `kind`, `manifest`, `behavior`".to_string(),
            AttrErrorKind::MissingKind => "missing `kind = \"...\"` in `#[node(...)]`".to_string(),
            AttrErrorKind::MissingManifest => "missing `manifest = \"path.yaml\"` in `#[node(...)]` (path is relative to CARGO_MANIFEST_DIR)".to_string(),
            AttrErrorKind::MissingBehavior => "missing `behavior = \"...\"` in `#[node(...)]` — use `\"none\"` for manifest-only container kinds, or `\"custom\"` when you provide your own NodeBehavior impl".to_string(),
        }
    }
}

/// The parsed attributes.
#[derive(Debug, Clone, PartialEq, Eq)]
pub struct NodeAttrs {
    pub kind: String,
    pub manifest_path: String,
    pub behavior: Behavior,
    /// The path of the last `node` attribute, or the call site.
    pub span: AttrSpan,
}

/// The values gathered so far while walking the attributes.
pub struct AttrFields {
    pub kind: Option<String>,
    pub manifest_path: Option<String>,
    pub behavior: Option<Behavior>,
    pub span: AttrSpan,
}

/// Nothing gathered yet.
pub open spec fn no_fields() -> AttrFields {
    AttrFields { kind: None, manifest_path: None, behavior: None, span: AttrSpan::CallSite }
}

/// The effect of one argument on the gathered values.
pub open spec fn apply_meta(f: AttrFields, m: MetaInput, attr: usize, meta: usize) -> Result<AttrFields, AttrError> {
    let at = AttrSpan::Meta { attr, meta };
    match m {
        MetaInput::Other => Err(AttrError { kind: AttrErrorKind::ExpectedNameValue, span: at }),
        MetaInput::NameValue { path, value } => match value {
            LitInput::Other => Err(AttrError { kind: AttrErrorKind::ExpectedStringLiteral, span: at }),
            LitInput::Str(v) => {
                if path matches Some(p) && p@ == "kind"@ {
                    Ok(AttrFields { kind: Some(v), ..f })
                } else if path matches Some(p) && p@ == "manifest"@ {
                    Ok(AttrFields { manifest_path: Some(v), ..f })
                } else if path matches Some(p) && p@ == "behavior"@ {
                    if v@ == "none"@ {
                        Ok(AttrFields { behavior: Some(Behavior::ManifestOnly), ..f })
                    } else if v@ == "custom"@ {
                        Ok(AttrFields { behavior: Some(Behavior::Custom), ..f })
                    } else {
                        Err(AttrError { kind: AttrErrorKind::UnknownBehavior(v), span: at })
                    }
                } else {
                    Err(AttrError { kind: AttrErrorKind::UnknownKey, span: at })
                }
            },
        },
    }
}

/// The arguments of attribute `attr`, from position `j` on, applied in
/// order; the first failing argument stops the walk.
pub open spec fn apply_metas(f: AttrFields, metas: Seq<MetaInput>, attr: usize, j: int) -> Result<AttrFields, AttrError>
    decreases metas.len() - j,
{
    if j < 0 || j >= metas.len() {
        Ok(f)
    } else {
        match apply_meta(f, metas[j], attr, j as usize) {
            Ok(g) => apply_metas(g, metas, attr, j + 1),
            Err(e) => Err(e),
        }
    }
}

/// The attributes from position `i` on, applied in order.
pub open spec fn apply_attrs(f: AttrFields, attrs: Seq<AttrInput>, i: int) -> Result<AttrFields, AttrError>
    decreases attrs.len() - i,
{
    if i < 0 || i >= attrs.len() {
        Ok(f)
    } else if !attrs[i].is_node {
        apply_attrs(f, attrs, i + 1)
    } else {
        let f1 = AttrFields { span: AttrSpan::Attr(i as usize), ..f };
        match attrs[i].args {
            Err(e) => Err(AttrError { kind: AttrErrorKind::Unparsable(e), span: AttrSpan::Args(i as usize) }),
            Ok(metas) => match apply_metas(f1, metas@, i as usize, 0) {
                Ok(g) => apply_attrs(g, attrs, i + 1),
                Err(e) => Err(e),
            },
        }
    }
}

/// The parse result once every attribute was applied: each of the three
/// keys must have been given.
pub open spec fn finish_fields(f: AttrFields) -> Result<NodeAttrs, AttrError> {
    match (f.kind, f.manifest_path, f.behavior) {
        (Some(k), Some(m), Some(b)) => Ok(NodeAttrs { kind: k, manifest_path: m, behavior: b, span: f.span }),
        (None, _, _) => Err(AttrError { kind: AttrErrorKind::MissingKind, span: f.span }),
        (Some(_), None, _) => Err(AttrError { kind: AttrErrorKind::MissingManifest, span: f.span }),
        (Some(_), Some(_), None) => Err(AttrError { kind: AttrErrorKind::MissingBehavior, span: f.span }),
    }
}

/// The meaning of the attributes of a struct.
pub open spec fn parse_spec(attrs: Seq<AttrInput>) -> Result<NodeAttrs, AttrError> {
    match apply_attrs(no_fields(), attrs, 0) {
        Ok(f) => finish_fields(f),
        Err(e) => Err(e),
    }
}

/// Some `node` attribute gives `key = "..."` among arguments that parse.
pub open spec fn mentions_key(attrs: Seq<AttrInput>, key: Seq<char>) -> bool {
    exists|i: int, j: int| #![trigger attrs[i], key_at(attrs[i], j, key)]
        0 <= i < attrs.len() && key_at(attrs[i], j, key)
}

/// Argument `j` of node attribute `a` is `key = "..."`.
pub open spec fn key_at(a: AttrInput, j: int, key: Seq<char>) -> bool {
    &&& a.is_node
    &&& a.args is Ok
    &&& 0 <= j < a.args->Ok_0@.len()
    &&& a.args->Ok_0@[j] matches MetaInput::NameValue { path: Some(p), value: LitInput::Str(_) }
    &&& p@ == key
}

/// Which of the three values a walk gathers.
pub open spec fn field_of(f: AttrFields, key: Seq<char>) -> bool {
    if key == "kind"@ {
        f.kind is Some
    } else if key == "manifest"@ {
        f.manifest_path is Some
    } else {
        f.behavior is Some
    }
}

proof fn lemma_metas_keep_missing(f: AttrFields, a: AttrInput, attr: usize, j: int, key: Seq<char>)
    requires
        key == "kind"@ || key == "manifest"@ || key == "behavior"@,
        a.args is Ok,
        0 <= j,
        !field_of(f, key),
        forall|k: int| j <= k ==> !key_at(a, k, key),
        a.is_node,
    ensures
        apply_metas(f, a.args->Ok_0@, attr, j) matches Ok(g) ==> !field_of(g, key),
    decreases a.args->Ok_0@.len() - j,
{
    reveal_strlit("kind");
    reveal_strlit("manifest");
    reveal_strlit("behavior");
    let metas = a.args->Ok_0@;
    if j < metas.len() {
        assert(!key_at(a, j, key));
        if let Ok(g) = apply_meta(f, metas[j], attr, j as usize) {
            lemma_metas_keep_missing(g, a, attr, j + 1, key);
        }
    }
}

proof fn lemma_attrs_keep_missing(f: AttrFields, attrs: Seq<AttrInput>, i: int, key: Seq<char>)
    requires
        key == "kind"@ || key == "manifest"@ || key == "behavior"@,
        0 <= i,
        !field_of(f, key),
        !mentions_key(attrs, key),
    ensures
        apply_attrs(f, attrs, i) matches Ok(g) ==> !field_of(g, key),
    decreases attrs.len() - i,
{
    if i < attrs.len() {
        if !attrs[i].is_node {
            lemma_attrs_keep_missing(f, attrs, i + 1, key);
        } else if let Ok(metas) = attrs[i].args {
            let f1 = AttrFields { span: AttrSpan::Attr(i as usize), ..f };
            assert forall|k: int| 0 <= k implies !key_at(attrs[i], k, key) by {
                if key_at(attrs[i], k, key) {
                    assert(mentions_key(attrs, key));
                }
            }
            lemma_metas_keep_missing(f1, attrs[i], i as usize, 0, key);
            if let Ok(g) = apply_metas(f1, metas@, i as usize, 0) {
                lemma_attrs_keep_missing(g, attrs, i + 1, key);
            }
        }
    }
}

/// All three keys are required: attributes that never give `kind`,
/// `manifest` or `behavior` are refused.
pub proof fn lemma_keys_required(attrs: Seq<AttrInput>)
    ensures
        parse_spec(attrs) is Ok ==> mentions_key(attrs, "kind"@) && mentions_key(attrs, "manifest"@)
            && mentions_key(attrs, "behavior"@),
{
    reveal_strlit("kind");
    reveal_strlit("manifest");
    reveal_strlit("behavior");
    if !mentions_key(attrs, "kind"@) {
        lemma_attrs_keep_missing(no_fields(), attrs, 0, "kind"@);
    }
    if !mentions_key(attrs, "manifest"@) {
        lemma_attrs_keep_missing(no_fields(), attrs, 0, "manifest"@);
    }
    if !mentions_key(attrs, "behavior"@) {
        lemma_attrs_keep_missing(no_fields(), attrs, 0, "behavior"@);
    }
}

/// The string value of argument `j` of attribute `a`.
pub open spec fn value_at(a: AttrInput, j: int) -> String {
    a.args->Ok_0@[j]->value->Str_0
}

/// How `behavior` is written for a kind's behaviour.
pub open spec fn behavior_text(b: Behavior) -> Seq<char> {
    match b {
        Behavior::ManifestOnly => "none"@,
        Behavior::Custom => "custom"@,
    }
}

/// The text gathered for `kind`, `manifest` or `behavior`.
pub open spec fn field_text(f: AttrFields, key: Seq<char>) -> Option<Seq<char>> {
    if key == "kind"@ {
        match f.kind {
            Some(v) => Some(v@),
            None => None,
        }
    } else if key == "manifest"@ {
        match f.manifest_path {
            Some(v) => Some(v@),
            None => None,
        }
    } else {
        match f.behavior {
            Some(b) => Some(behavior_text(b)),
            None => None,
        }
    }
}

/// Argument `(i, j)` gives `key` and no later argument of `attrs`, in
/// source order, gives it again.
pub open spec fn is_last_mention(attrs: Seq<AttrInput>, key: Seq<char>, i: int, j: int) -> bool {
    &&& 0 <= i < attrs.len()
    &&& key_at(attrs[i], j, key)
    &&& forall|i2: int, j2: int| #![trigger attrs[i2], key_at(attrs[i2], j2, key)]
        0 <= i2 < attrs.len() && key_at(attrs[i2], j2, key) ==> i2 < i || (i2 == i && j2 <= j)
}

/// Some argument of attribute `a` from position `j` on gives `key`.
pub open spec fn mentioned_from(a: AttrInput, key: Seq<char>, j: int) -> bool {
    exists|k: int| j <= k && #[trigger] key_at(a, k, key)
}

proof fn lemma_meta_field(f: AttrFields, a: AttrInput, attr: usize, j: int, key: Seq<char>)
    requires
        key == "kind"@ || key == "manifest"@ || key == "behavior"@,
        a.is_node,
        a.args is Ok,
        0 <= j < a.args->Ok_0@.len(),
        apply_meta(f, a.args->Ok_0@[j], attr, j as usize) is Ok,
    ensures
        ({
            let g = apply_meta(f, a.args->Ok_0@[j], attr, j as usize)->Ok_0;
            &&& key_at(a, j, key) ==> field_text(g, key) == Some(value_at(a, j)@)
            &&& !key_at(a, j, key) ==> field_text(g, key) == field_text(f, key)
        }),
{
    reveal_strlit("kind");
    reveal_strlit("manifest");
    reveal_strlit("behavior");
    reveal_strlit("none");
    reveal_strlit("custom");
}

proof fn lemma_metas_last(f: AttrFields, a: AttrInput, attr: usize, j: int, key: Seq<char>)
    requires
        key == "kind"@ || key == "manifest"@ || key == "behavior"@,
        a.is_node,
        a.args is Ok,
        0 <= j,
    ensures
        apply_metas(f, a.args->Ok_0@, attr, j) matches Ok(g) ==> {
            &&& mentioned_from(a, key, j) ==> exists|k: int| #![trigger key_at(a, k, key)]
                j <= k && key_at(a, k, key) && field_text(g, key) == Some(value_at(a, k)@)
                && forall|k2: int| #![trigger key_at(a, k2, key)] key_at(a, k2, key) ==> k2 <= k
            &&& !mentioned_from(a, key, j) ==> field_text(g, key) == field_text(f, key)
        },
    decreases a.args->Ok_0@.len() - j,
{
    let metas = a.args->Ok_0@;
    if j >= metas.len() {
        assert forall|k: int| j <= k implies !key_at(a, k, key) by {}
    } else if let Ok(f1) = apply_meta(f, metas[j], attr, j as usize) {
        lemma_meta_field(f, a, attr, j, key);
        lemma_metas_last(f1, a, attr, j + 1, key);
        if let Ok(g) = apply_metas(f, metas, attr, j) {
            if key_at(a, j, key) && !mentioned_from(a, key, j + 1) {
                assert forall|k2: int| #![trigger key_at(a, k2, key)] key_at(a, k2, key) implies k2 <= j by {
                    if k2 > j {
                        assert(mentioned_from(a, key, j + 1));
                    }
                }
            }
            if mentioned_from(a, key, j) && !key_at(a, j, key) {
                let k = choose|k: int| j <= k && #[trigger] key_at(a, k, key);
                assert(j + 1 <= k);
                assert(mentioned_from(a, key, j + 1));
            }
            if !mentioned_from(a, key, j) {
                assert(!key_at(a, j, key));
                if mentioned_from(a, key, j + 1) {
                    let k = choose|k: int| j + 1 <= k && #[trigger] key_at(a, k, key);
                    assert(mentioned_from(a, key, j));
                }
            }
        }
    }
}

/// Some node attribute from position `i` on gives `key`.
pub open spec fn mentioned_after(attrs: Seq<AttrInput>, key: Seq<char>, i: int) -> bool {
    exists|i2: int, j: int| #![trigger attrs[i2], key_at(attrs[i2], j, key)]
        i <= i2 < attrs.len() && key_at(attrs[i2], j, key)
}

proof fn lemma_attrs_last(f: AttrFields, attrs: Seq<AttrInput>, i: int, key: Seq<char>)
    requires
        key == "kind"@ || key == "manifest"@ || key == "behavior"@,
        0 <= i,
    ensures
        apply_attrs(f, attrs, i) matches Ok(g) ==> {
            &&& mentioned_after(attrs, key, i) ==> exists|i2: int, j: int|
                #![trigger attrs[i2], key_at(attrs[i2], j, key)]
                i <= i2 && is_last_mention(attrs, key, i2, j) && field_text(g, key) == Some(value_at(attrs[i2], j)@)
            &&& !mentioned_after(attrs, key, i) ==> field_text(g, key) == field_text(f, key)
        },
    decreases attrs.len() - i,
{
    if i < attrs.len() {
        if !attrs[i].is_node {
            lemma_attrs_last(f, attrs, i + 1, key);
            if mentioned_after(attrs, key, i) {
                let (i2, j) = choose|i2: int, j: int| i <= i2 < attrs.len() && key_at(attrs[i2], j, key);
                assert(i2 != i);
                assert(mentioned_after(attrs, key, i + 1));
            }
            if mentioned_after(attrs, key, i + 1) {
                let (i2, j) = choose|i2: int, j: int| i + 1 <= i2 < attrs.len() && key_at(attrs[i2], j, key);
                assert(mentioned_after(attrs, key, i));
            }
        } else if let Ok(metas) = attrs[i].args {
            let f1 = AttrFields { span: AttrSpan::Attr(i as usize), ..f };
            lemma_metas_last(f1, attrs[i], i as usize, 0, key);
            if let Ok(h) = apply_metas(f1, metas@, i as usize, 0) {
                lemma_attrs_last(h, attrs, i + 1, key);
                if let Ok(g) = apply_attrs(h, attrs, i + 1) {
                    if mentioned_after(attrs, key, i + 1) {
                        let (i2, j) = choose|i2: int, j: int| #![trigger attrs[i2], key_at(attrs[i2], j, key)]
                            i + 1 <= i2 && is_last_mention(attrs, key, i2, j) && field_text(g, key) == Some(value_at(attrs[i2], j)@);
                        assert(mentioned_after(attrs, key, i));
                    } else if mentioned_from(attrs[i], key, 0) {
                        let k = choose|k: int| #![trigger key_at(attrs[i], k, key)]
                            0 <= k && key_at(attrs[i], k, key) && field_text(h, key) == Some(value_at(attrs[i], k)@)
                            && forall|k2: int| #![trigger key_at(attrs[i], k2, key)] key_at(attrs[i], k2, key) ==> k2 <= k;
                        assert forall|i2: int, j2: int| #![trigger attrs[i2], key_at(attrs[i2], j2, key)]
                            0 <= i2 < attrs.len() && key_at(attrs[i2], j2, key) implies i2 < i || (i2 == i && j2 <= k) by {
                            if i2 > i {
                                assert(mentioned_after(attrs, key, i + 1));
                            }
                        }
                        assert(is_last_mention(attrs, key, i, k));
                        assert(mentioned_after(attrs, key, i));
                    } else {
                        if mentioned_after(attrs, key, i) {
                            let (i2, j) = choose|i2: int, j: int| i <= i2 < attrs.len() && key_at(attrs[i2], j, key);
                            if i2 == i {
                                assert(mentioned_from(attrs[i], key, 0));
                            } else {
                                assert(mentioned_after(attrs, key, i + 1));
                            }
                        }
                    }
                }
            }
        }
    } else {
        if mentioned_after(attrs, key, i) {
            let (i2, j) = choose|i2: int, j: int| i <= i2 < attrs.len() && key_at(attrs[i2], j, key);
        }
    }
}

/// The last mention of `key` gives the parsed text `text`.
pub open spec fn last_mention_gives(attrs: Seq<AttrInput>, key: Seq<char>, text: Seq<char>) -> bool {
    exists|i: int, j: int| #![trigger attrs[i], key_at(attrs[i], j, key)]
        is_last_mention(attrs, key, i, j) && value_at(attrs[i], j)@ == text
}

proof fn lemma_last_value_of(attrs: Seq<AttrInput>, key: Seq<char>)
    requires
        key == "kind"@ || key == "manifest"@ || key == "behavior"@,
        mentions_key(attrs, key),
        apply_attrs(no_fields(), attrs, 0) is Ok,
    ensures
        field_text(apply_attrs(no_fields(), attrs, 0)->Ok_0, key) matches Some(t) && last_mention_gives(attrs, key, t),
{
    lemma_attrs_last(no_fields(), attrs, 0, key);
    let g = apply_attrs(no_fields(), attrs, 0)->Ok_0;
    let (i, j) = choose|i: int, j: int| #![trigger attrs[i], key_at(attrs[i], j, key)]
        0 <= i < attrs.len() && key_at(attrs[i], j, key);
    assert(mentioned_after(attrs, key, 0));
    let (i1, j1) = choose|i2: int, j: int| #![trigger attrs[i2], key_at(attrs[i2], j, key)]
        0 <= i2 && is_last_mention(attrs, key, i2, j) && field_text(g, key) == Some(value_at(attrs[i2], j)@);
    assert(last_mention_gives(attrs, key, value_at(attrs[i1], j1)@));
}

/// A key given again replaces the earlier value: on success, `kind`,
/// `manifest` and `behavior` hold the values of their last mentions in
/// source order.
pub proof fn lemma_last_value_wins(attrs: Seq<AttrInput>)
    ensures
        parse_spec(attrs) matches Ok(r) ==> {
            &&& last_mention_gives(attrs, "kind"@, r.kind@)
            &&& last_mention_gives(attrs, "manifest"@, r.manifest_path@)
            &&& last_mention_gives(attrs, "behavior"@, behavior_text(r.behavior))
        },
{
    reveal_strlit("kind");
    reveal_strlit("manifest");
    reveal_strlit("behavior");
    lemma_keys_required(attrs);
    if let Ok(r) = parse_spec(attrs) {
        let g = apply_attrs(no_fields(), attrs, 0)->Ok_0;
        assert("manifest"@.len() != "kind"@.len());
        assert("behavior"@.len() != "kind"@.len());
        assert("behavior"@ != "manifest"@) by {
            assert("behavior"@[0] != "manifest"@[0]);
        }
        lemma_last_value_of(attrs, "kind"@);
        assert(field_text(g, "kind"@) == Some(r.kind@));
        lemma_last_value_of(attrs, "manifest"@);
        assert(field_text(g, "manifest"@) == Some(r.manifest_path@));
        lemma_last_value_of(attrs, "behavior"@);
        assert(field_text(g, "behavior"@) == Some(behavior_text(r.behavior)));
    }
}

proof fn lemma_attrs_update_other(f: AttrFields, attrs: Seq<AttrInput>, i: int, k: int, a: AttrInput)
    requires
        0 <= k < attrs.len(),
        !attrs[k].is_node,
        !a.is_node,
        0 <= i,
    ensures
        apply_attrs(f, attrs.update(k, a), i) == apply_attrs(f, attrs, i),
    decreases attrs.len() - i,
{
    let u = attrs.update(k, a);
    if i < attrs.len() {
        if i == k {
            lemma_attrs_update_other(f, attrs, i + 1, k, a);
        } else {
            assert(u[i] == attrs[i]);
            if !attrs[i].is_node {
                lemma_attrs_update_other(f, attrs, i + 1, k, a);
            } else if let Ok(metas) = attrs[i].args {
                let f1 = AttrFields { span: AttrSpan::Attr(i as usize), ..f };
                if let Ok(g) = apply_metas(f1, metas@, i as usize, 0) {
                    lemma_attrs_update_other(g, attrs, i + 1, k, a);
                }
            }
        }
    }
}

/// Attributes with a path other than `node` are ignored: replacing one by
/// any other such attribute does not change the outcome.
pub proof fn lemma_other_attributes_ignored(attrs: Seq<AttrInput>, k: int, a: AttrInput)
    requires
        0 <= k < attrs.len(),
        !attrs[k].is_node,
        !a.is_node,
    ensures
        parse_spec(attrs.update(k, a)) == parse_spec(attrs),
{
    lemma_attrs_update_other(no_fields(), attrs, 0, k, a);
}

/// Two walks gathered the same values, wherever they point.
pub open spec fn same_values(f: AttrFields, g: AttrFields) -> bool {
    &&& f.kind == g.kind
    &&& f.manifest_path == g.manifest_path
    &&& f.behavior == g.behavior
}

/// Two walks ended alike: both gathered the same values, or both failed
/// with the same diagnostic.
pub open spec fn walks_alike(r1: Result<AttrFields, AttrError>, r2: Result<AttrFields, AttrError>) -> bool {
    match (r1, r2) {
        (Ok(f), Ok(g)) => same_values(f, g),
        (Err(e1), Err(e2)) => e1.kind == e2.kind,
        _ => false,
    }
}

proof fn lemma_metas_alike(f: AttrFields, g: AttrFields, metas: Seq<MetaInput>, attr: usize, attr2: usize, j: int)
    requires
        same_values(f, g),
        0 <= j,
    ensures
        walks_alike(apply_metas(f, metas, attr, j), apply_metas(g, metas, attr2, j)),
    decreases metas.len() - j,
{
    if j < metas.len() {
        let r1 = apply_meta(f, metas[j], attr, j as usize);
        let r2 = apply_meta(g, metas[j], attr2, j as usize);
        assert(walks_alike(r1, r2));
        if let (Ok(f1), Ok(g1)) = (r1, r2) {
            lemma_metas_alike(f1, g1, metas, attr, attr2, j + 1);
        }
    }
}

/// The `node` attributes among `attrs`, in order.
pub open spec fn node_attributes(attrs: Seq<AttrInput>) -> Seq<AttrInput>
    decreases attrs.len(),
{
    if attrs.len() == 0 {
        Seq::empty()
    } else if attrs[0].is_node {
        seq![attrs[0]] + node_attributes(attrs.drop_first())
    } else {
        node_attributes(attrs.drop_first())
    }
}

proof fn lemma_node_attributes_alike(
    f: AttrFields,
    g: AttrFields,
    s: Seq<AttrInput>,
    t: Seq<AttrInput>,
    i: int,
    j: int,
)
    requires
        0 <= i <= s.len(),
        0 <= j <= t.len(),
        same_values(f, g),
        node_attributes(s.skip(i)) == node_attributes(t.skip(j)),
    ensures
        walks_alike(apply_attrs(f, s, i), apply_attrs(g, t, j)),
    decreases s.len() - i + t.len() - j,
{
    if i < s.len() && !s[i].is_node {
        assert(s.skip(i).drop_first() =~= s.skip(i + 1));
        lemma_node_attributes_alike(f, g, s, t, i + 1, j);
    } else if j < t.len() && !t[j].is_node {
        assert(t.skip(j).drop_first() =~= t.skip(j + 1));
        lemma_node_attributes_alike(f, g, s, t, i, j + 1);
    } else if i < s.len() && j < t.len() {
        assert(s.skip(i).drop_first() =~= s.skip(i + 1));
        assert(t.skip(j).drop_first() =~= t.skip(j + 1));
        let ns = node_attributes(s.skip(i + 1));
        let nt = node_attributes(t.skip(j + 1));
        assert(node_attributes(s.skip(i)) == seq![s[i]] + ns);
        assert(node_attributes(t.skip(j)) == seq![t[j]] + nt);
        assert((seq![s[i]] + ns)[0] == s[i]);
        assert((seq![t[j]] + nt)[0] == t[j]);
        assert(s[i] == t[j]);
        assert(ns =~= (seq![s[i]] + ns).drop_first());
        assert(nt =~= (seq![t[j]] + nt).drop_first());
        let f1 = AttrFields { span: AttrSpan::Attr(i as usize), ..f };
        let g1 = AttrFields { span: AttrSpan::Attr(j as usize), ..g };
        if let Ok(metas) = s[i].args {
            lemma_metas_alike(f1, g1, metas@, i as usize, j as usize, 0);
            if let (Ok(f2), Ok(g2)) = (apply_metas(f1, metas@, i as usize, 0), apply_metas(g1, metas@, j as usize, 0)) {
                lemma_node_attributes_alike(f2, g2, s, t, i + 1, j + 1);
            }
        }
    } else if i < s.len() {
        assert(node_attributes(s.skip(i)).len() > 0) by {
            assert(s.skip(i)[0] == s[i]);
        }
        assert(t.skip(j) =~= Seq::<AttrInput>::empty());
    } else if j < t.len() {
        assert(node_attributes(t.skip(j)).len() > 0) by {
            assert(t.skip(j)[0] == t[j]);
        }
        assert(s.skip(i) =~= Seq::<AttrInput>::empty());
    }
}

/// Inserting an attribute that is not a `node` attribute anywhere leaves
/// the `node` attributes as they were.
pub proof fn lemma_insert_other_attribute(attrs: Seq<AttrInput>, k: int, a: AttrInput)
    requires
        0 <= k <= attrs.len(),
        !a.is_node,
    ensures
        node_attributes(attrs.insert(k, a)) == node_attributes(attrs),
    decreases k,
{
    if k == 0 {
        assert(attrs.insert(0, a).drop_first() =~= attrs);
    } else {
        lemma_insert_other_attribute(attrs.drop_first(), k - 1, a);
        assert(attrs.insert(k, a).drop_first() =~= attrs.drop_first().insert(k - 1, a));
        assert(attrs.insert(k, a)[0] == attrs[0]);
    }
}

/// Only the `node` attributes count: two lists of attributes whose `node`
/// attributes are the same, in the same order, parse alike whatever other
/// attributes stand among them and wherever. The parse succeeds for both
/// or for neither, with the same `kind`, `manifest` and `behavior`, or
/// fails for both with the same diagnostic; only where a diagnostic points
/// may differ.
pub proof fn lemma_only_node_attributes_count(attrs: Seq<AttrInput>, other: Seq<AttrInput>)
    requires
        node_attributes(attrs) == node_attributes(other),
    ensures
        parse_spec(other) is Ok <==> parse_spec(attrs) is Ok,
        parse_spec(other) matches Ok(r1) ==> parse_spec(attrs) matches Ok(r2) && r1.kind == r2.kind
            && r1.manifest_path == r2.manifest_path && r1.behavior == r2.behavior,
        parse_spec(other) matches Err(e1) ==> parse_spec(attrs) matches Err(e2) && e1.kind == e2.kind,
{
    assert(attrs.skip(0) =~= attrs);
    assert(other.skip(0) =~= other);
    lemma_node_attributes_alike(no_fields(), no_fields(), other, attrs, 0, 0);
}

/// `m` is `key = "value"` with a key the rules know, and for `behavior`
/// a value they know.
pub open spec fn well_formed_meta(m: MetaInput) -> bool {
    m matches MetaInput::NameValue { path: Some(p), value: LitInput::Str(v) } && (p@ == "kind"@ || p@
        == "manifest"@ || (p@ == "behavior"@ && (v@ == "none"@ || v@ == "custom"@)))
}

/// Every `node` attribute parses and holds only well-formed arguments.
pub open spec fn well_formed_attrs(attrs: Seq<AttrInput>) -> bool {
    forall|i: int| 0 <= i < attrs.len() && (#[trigger] attrs[i]).is_node ==> {
        &&& attrs[i].args is Ok
        &&& forall|j: int| 0 <= j < attrs[i].args->Ok_0@.len() ==> well_formed_meta(#[trigger] attrs[i].args->Ok_0@[j])
    }
}

proof fn lemma_meta_accepted(f: AttrFields, m: MetaInput, attr: usize, meta: usize)
    requires
        well_formed_meta(m),
    ensures
        apply_meta(f, m, attr, meta) is Ok,
{
    reveal_strlit("kind");
    reveal_strlit("manifest");
    reveal_strlit("behavior");
    reveal_strlit("none");
    reveal_strlit("custom");
}

proof fn lemma_metas_accepted(f: AttrFields, metas: Seq<MetaInput>, attr: usize, j: int)
    requires
        0 <= j,
        forall|k: int| j <= k < metas.len() ==> well_formed_meta(#[trigger] metas[k]),
    ensures
        apply_metas(f, metas, attr, j) is Ok,
    decreases metas.len() - j,
{
    if j < metas.len() {
        lemma_meta_accepted(f, metas[j], attr, j as usize);
        let g = apply_meta(f, metas[j], attr, j as usize)->Ok_0;
        lemma_metas_accepted(g, metas, attr, j + 1);
    }
}

proof fn lemma_attrs_accepted(f: AttrFields, attrs: Seq<AttrInput>, i: int)
    requires
        0 <= i,
        well_formed_attrs(attrs),
    ensures
        apply_attrs(f, attrs, i) is Ok,
    decreases attrs.len() - i,
{
    if i < attrs.len() {
        if !attrs[i].is_node {
            lemma_attrs_accepted(f, attrs, i + 1);
        } else {
            let f1 = AttrFields { span: AttrSpan::Attr(i as usize), ..f };
            let metas = attrs[i].args->Ok_0@;
            assert forall|k: int| 0 <= k < metas.len() implies well_formed_meta(#[trigger] metas[k]) by {
                assert(well_formed_meta(attrs[i].args->Ok_0@[k]));
            }
            lemma_metas_accepted(f1, metas, i as usize, 0);
            let g = apply_metas(f1, metas, i as usize, 0)->Ok_0;
            lemma_attrs_accepted(g, attrs, i + 1);
        }
    }
}

/// The keys may come in any order, split over any number of `node`
/// attributes: when every `node` attribute parses, every argument is
/// `kind`, `manifest` or `behavior` given as a string (`"none"` or
/// `"custom"` for `behavior`), and each of the three keys is given
/// somewhere, the attributes are accepted, with each value taken from the
/// last mention of its key.
pub proof fn lemma_complete_attributes_accepted(attrs: Seq<AttrInput>)
    requires
        well_formed_attrs(attrs),
        mentions_key(attrs, "kind"@),
        mentions_key(attrs, "manifest"@),
        mentions_key(attrs, "behavior"@),
    ensures
        parse_spec(attrs) matches Ok(r) && last_mention_gives(attrs, "kind"@, r.kind@)
            && last_mention_gives(attrs, "manifest"@, r.manifest_path@)
            && last_mention_gives(attrs, "behavior"@, behavior_text(r.behavior)),
{
    reveal_strlit("kind");
    reveal_strlit("manifest");
    reveal_strlit("behavior");
    lemma_attrs_accepted(no_fields(), attrs, 0);
    let g = apply_attrs(no_fields(), attrs, 0)->Ok_0;
    assert("manifest"@.len() != "kind"@.len());
    assert("behavior"@.len() != "kind"@.len());
    assert("behavior"@ != "manifest"@) by {
        assert("behavior"@[0] != "manifest"@[0]);
    }
    lemma_last_value_of(attrs, "kind"@);
    lemma_last_value_of(attrs, "manifest"@);
    lemma_last_value_of(attrs, "behavior"@);
    assert(g.kind is Some);
    assert(g.manifest_path is Some);
    assert(g.behavior is Some);
    lemma_last_value_wins(attrs);
}

/// Applies one argument.
fn apply_meta_exec(f: AttrFields, m: &MetaInput, attr: usize, meta: usize) -> (r: Result<AttrFields, AttrError>)
    ensures
        r == apply_meta(f, *m, attr, meta),
{
    let at = AttrSpan::Meta { attr, meta };
    match m {
        MetaInput::Other => Err(AttrError { kind: AttrErrorKind::ExpectedNameValue, span: at }),
        MetaInput::NameValue { path, value } => match value {
            LitInput::Other => Err(AttrError { kind: AttrErrorKind::ExpectedStringLiteral, span: at }),
            LitInput::Str(v) => {
                let is_key = |p: &Option<String>, key: &str| -> (b: bool)
                    ensures
                        b == (p matches Some(q) && q@ == key@),
                    {
                        match p {
                            Some(q) => *q == key.to_string(),
                            None => false,
                        }
                    };
                if is_key(path, "kind") {
                    Ok(AttrFields { kind: Some(v.clone()), ..f })
                } else if is_key(path, "manifest") {
                    Ok(AttrFields { manifest_path: Some(v.clone()), ..f })
                } else if is_key(path, "behavior") {
                    if *v == "none".to_string() {
                        Ok(AttrFields { behavior: Some(Behavior::ManifestOnly), ..f })
                    } else if *v == "custom".to_string() {
                        Ok(AttrFields { behavior: Some(Behavior::Custom), ..f })
                    } else {
                        Err(AttrError { kind: AttrErrorKind::UnknownBehavior(v.clone()), span: at })
                    }
                } else {
                    Err(AttrError { kind: AttrErrorKind::UnknownKey, span: at })
                }
            },
        },
    }
}

/// Whether the path of `attr` is the single identifier `node`.
///
/// Calls syn's `Path::is_ident` on the attribute's path; nothing is stated
/// of the answer.
#[verifier::external_body]
fn attribute_is_node(attr: &syn::Attribute) -> bool {
    attr.path().is_ident("node")
}

/// The comma-separated meta items inside the parentheses of `attr`, or
/// syn's message when they do not parse.
///
/// Calls syn's `Attribute::parse_args_with` with
/// `Punctuated::<Meta, Comma>::parse_terminated`; nothing is stated of
/// what it returns.
#[verifier::external_body]
fn attribute_metas(attr: &syn::Attribute) -> Result<Vec<syn::Meta>, String> {
    attr.parse_args_with(Punctuated::<syn::Meta, Comma>::parse_terminated)
        .map(|list| list.into_iter().collect())
        .map_err(|e| e.to_string())
}

/// `value` seen as a literal: its value when it is a string literal.
///
/// Tells syn's `Expr` variants apart and calls `LitStr::value` on a string
/// literal; nothing is stated of the answer.
#[verifier::external_body]
fn lit_input(value: &syn::Expr) -> LitInput {
    match value {
        syn::Expr::Lit(syn::ExprLit { lit: syn::Lit::Str(s), .. }) => LitInput::Str(s.value()),
        _ => LitInput::Other,
    }
}

/// The identifier of the path of a `path = value` argument (syn's
/// `Path::get_ident`, when the path is a single identifier) and its value;
/// none for another form of argument.
///
/// Tells syn's `Meta` variants apart; nothing is stated of the answer.
#[verifier::external_body]
fn name_value(meta: &syn::Meta) -> Option<(Option<String>, &syn::Expr)> {
    match meta {
        syn::Meta::NameValue(nv) => Some((nv.path.get_ident().map(|i| i.to_string()), &nv.value)),
        _ => None,
    }
}

/// `meta` seen as an argument of a `node` attribute.
fn meta_input(meta: &syn::Meta) -> MetaInput {
    match name_value(meta) {
        Some((path, value)) => MetaInput::NameValue { path, value: lit_input(value) },
        None => MetaInput::Other,
    }
}

/// What the rules read of one attribute: whether it is a `node` attribute
/// and, for one, its arguments as syn parses them.
fn attribute_input(attr: &syn::Attribute) -> (r: AttrInput)
    ensures
        !r.is_node ==> (r.args matches Ok(v) && v@.len() == 0),
{
    let is_node = attribute_is_node(attr);
    if !is_node {
        return AttrInput { is_node, args: Ok(Vec::new()) };
    }
    match attribute_metas(attr) {
        Err(e) => AttrInput { is_node, args: Err(e) },
        Ok(metas) => {
            let mut args: Vec<MetaInput> = Vec::new();
            let mut j: usize = 0;
            while j < metas.len()
                invariant
                    j <= metas.len(),
                    args@.len() == j,
                decreases metas.len() - j,
            {
                args.push(meta_input(&metas[j]));
                j = j + 1;
            }
            AttrInput { is_node, args: Ok(args) }
        },
    }
}

/// Applies the rules to the outer attributes of a struct deriving
/// `NodeKind`: returns the outcome and what the rules read of each
/// attribute, in order.
pub fn parse_attributes(attrs: &[syn::Attribute]) -> (r: (Result<NodeAttrs, AttrError>, Vec<AttrInput>))
    ensures
        r.1@.len() == attrs@.len(),
        r.0 == parse_spec(r.1@),
        forall|i: int| 0 <= i < r.1@.len() && !(#[trigger] r.1@[i]).is_node ==> (r.1@[i].args matches Ok(v) && v@.len() == 0),
{
    let mut inputs: Vec<AttrInput> = Vec::new();
    let mut i: usize = 0;
    while i < attrs.len()
        invariant
            i <= attrs@.len(),
            inputs@.len() == i,
            forall|k: int| 0 <= k < inputs@.len() && !(#[trigger] inputs@[k]).is_node ==> (inputs@[k].args matches Ok(v) && v@.len() == 0),
        decreases attrs@.len() - i,
    {
        inputs.push(attribute_input(&attrs[i]));
        i = i + 1;
    }
    let outcome = NodeAttrs::parse(&inputs);
    (outcome, inputs)
}

impl NodeAttrs {
    /// Parses the `#[node(...)]` attributes of a struct.
    pub fn parse(attrs: &Vec<AttrInput>) -> (r: Result<NodeAttrs, AttrError>)
        ensures
            r == parse_spec(attrs@),
    {
        let mut f = AttrFields { kind: None, manifest_path: None, behavior: None, span: AttrSpan::CallSite };
        let mut i: usize = 0;
        while i < attrs.len()
            invariant
                i <= attrs.len(),
                apply_attrs(no_fields(), attrs@, 0) == apply_attrs(f, attrs@, i as int),
            decreases attrs.len() - i,
        {
            let a = &attrs[i];
            if a.is_node {
                f = AttrFields { span: AttrSpan::Attr(i), ..f };
                match &a.args {
                    Err(e) => {
                        return Err(AttrError { kind: AttrErrorKind::Unparsable(e.clone()), span: AttrSpan::Args(i) });
                    },
                    Ok(metas) => {
                        let mut j: usize = 0;
                        while j < metas.len()
                            invariant
                                j <= metas.len(),
                                apply_attrs(no_fields(), attrs@, 0) == match apply_metas(f, metas@, i, j as int) {
                                    Ok(g) => apply_attrs(g, attrs@, i + 1),
                                    Err(e) => Err(e),
                                },
                            decreases metas.len() - j,
                        {
                            match apply_meta_exec(f, &metas[j], i, j) {
                                Ok(g) => {
                                    f = g;
                                },
                                Err(e) => {
                                    return Err(e);
                                },
                            }
                            j = j + 1;
                        }
                    },
                }
            }
            i = i + 1;
        }
        match (f.kind, f.manifest_path, f.behavior) {
            (Some(k), Some(m), Some(b)) => Ok(NodeAttrs { kind: k, manifest_path: m, behavior: b, span: f.span }),
            (None, _, _) => Err(AttrError { kind: AttrErrorKind::MissingKind, span: f.span }),
            (Some(_), None, _) => Err(AttrError { kind: AttrErrorKind::MissingManifest, span: f.span }),
            (Some(_), Some(_), None) => Err(AttrError { kind: AttrErrorKind::MissingBehavior, span: f.span }),
        }
    }
}

} // verus!
