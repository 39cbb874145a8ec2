//! The rule data model: identifiers, metadata, configuration schemas, and
//! the strict field-by-field parse of a script-supplied value into a
//! `Rule`.
//!
//! A `Schema` pairs a raw JSON document with the validator compiled from
//! it; the two are constructed together and never diverge.  A value parses
//! into a `Rule` exactly when it has the documented shape and every
//! declared configuration schema is itself a valid JSON Schema document.

use vstd::prelude::*;

use crate::json::{
    arr_view, json_clone, json_text, jv_view, lemma_arr_view_len, lemma_obj_view_len,
    obj_view, spec_json_text, JsonV, JsonValue,
};
use crate::urls::{parse_url, url_norm, url_ok};

verus! {

broadcast use vstd::seq::group_seq_axioms, vstd::std_specs::vec::group_vec_axioms;

/// Why a value failed to parse as a rule: it did not have the documented
/// shape, or a declared configuration schema was not a valid JSON Schema
/// document (the carried text describes the schema error).
#[derive(Debug)]
pub enum RuleError {
    Malformed,
    InvalidSchema(String),
}

/// Spec-level parse failure kinds, mirroring `RuleError`.
pub enum RuleErrK {
    Shape,
    Schema,
}

/// Opaque 128-bit rule identifier, generated fresh per registration and
/// totally ordered for deterministic iteration.
#[derive(Clone, Copy, Debug, Hash, PartialEq, Eq, Structural, PartialOrd, Ord)]
pub struct RuleId(pub u128);

impl RuleId {
    /// Relies on `uuid::Uuid::new_v4` and `Uuid::to_u128_le`: a fresh
    /// random identifier.  Nothing is assumed of the value; the registry
    /// checks freshness where identifiers are minted.
    #[verifier::external_body]
    pub fn next() -> RuleId {
        RuleId(uuid::Uuid::new_v4().to_u128_le())
    }
}

/// A rule name used for cross-references; uniqueness is not enforced.
#[derive(Clone, Debug, Hash)]
pub struct RuleName(pub String);

impl View for RuleName {
    type V = Seq<char>;

    open spec fn view(&self) -> Seq<char> {
        self.0@
    }
}

/// The category of a rule.
#[derive(Clone, Copy, Debug, PartialEq, Eq, Structural)]
pub enum RuleType {
    Problem,
    Suggestion,
    Layout,
}

/// How a rule's findings can be fixed automatically.
#[derive(Clone, Copy, Debug, PartialEq, Eq, Structural)]
pub enum RuleFixability {
    Code,
    Whitespace,
}

/// Documentation attached to a rule.  A documentation URL is kept in its
/// normalized serialization, as produced by the URL parser.
#[derive(Clone, Debug)]
pub struct Docs {
    pub description: String,
    pub recommended: bool,
    pub url: Option<String>,
}

/// Spec view of `Docs`.
#[verifier::ext_equal]
pub struct DocsV {
    pub description: Seq<char>,
    pub recommended: bool,
    pub url: Option<Seq<char>>,
}

impl View for Docs {
    type V = DocsV;

    open spec fn view(&self) -> DocsV {
        DocsV {
            description: self.description@,
            recommended: self.recommended,
            url: match self.url {
                Option::None => Option::None,
                Option::Some(u) => Option::Some(u@),
            },
        }
    }
}

impl DocsV {
    /// A parsed documentation block carries its URL in normalized,
    /// parse-stable form.
    pub open spec fn wf(self) -> bool {
        match self.url {
            Option::None => true,
            Option::Some(u) => url_ok(u) && url_norm(u) == u,
        }
    }
}

/// Whether a schema document compiles; a function of the document text
/// alone.  Named after the behaviour of `jsonschema::validator_for`.
pub uninterp spec fn schema_doc_ok(text: Seq<char>) -> bool;

/// The verdict of a compiled schema on an instance, as a function of the
/// raw schema document and the instance's JSON text.  Named after the
/// behaviour of `jsonschema::Validator::is_valid`.
pub uninterp spec fn schema_accepts(doc: JsonV, instance_text: Seq<char>) -> bool;

/// A raw JSON Schema document paired with the validator compiled from it.
/// The two are always constructed together: the type invariant records
/// that the document compiles, and every constructor compiles the held
/// validator from the held document.
#[derive(Debug)]
pub struct Schema {
    raw: JsonValue,
    compiled: CompiledSchema,
}

/// Holds one compiled validator.  `jsonschema::Validator` itself cannot be
/// declared to the verifier (its type parameter carries a trait bound of
/// that crate), so the compiled state is carried opaquely in this holder.
#[verifier::external_body]
#[derive(Debug)]
pub struct CompiledSchema {
    validator: jsonschema::Validator,
}

/// Relies on `serde_json::from_str` and `jsonschema::validator_for`:
/// whether a JSON Schema document compiles is a function of the document
/// text alone.  Documents needing remote reference resolution fail to
/// compile here, deterministically, since no resolver is configured.
#[verifier::external_body]
fn compile_schema_text(text: &Vec<char>) -> (r: Result<CompiledSchema, String>)
    ensures
        r is Ok <==> schema_doc_ok(text@),
{
    let doc: String = text.iter().collect();
    match serde_json::from_str::<serde_json::Value>(&doc) {
        Ok(value) => match jsonschema::validator_for(&value) {
            Ok(validator) => Ok(CompiledSchema { validator }),
            Err(e) => Err(e.to_string()),
        },
        Err(e) => Err(e.to_string()),
    }
}

/// Relies on `serde_json::from_str` and `jsonschema::Validator::is_valid`.
/// The validator held by a `Schema` is the one compiled from its raw
/// document, so the verdict is a function of that document and the
/// instance text alone.
#[verifier::external_body]
fn validator_accepts(s: &Schema, instance_text: &Vec<char>) -> (r: bool)
    ensures
        r == schema_accepts(s.raw@, instance_text@),
{
    let text: String = instance_text.iter().collect();
    match serde_json::from_str::<serde_json::Value>(&text) {
        Ok(instance) => s.compiled.validator.is_valid(&instance),
        Err(_) => false,
    }
}

impl View for Schema {
    type V = JsonV;

    closed spec fn view(&self) -> JsonV {
        self.raw@
    }
}

impl Schema {
    #[verifier::type_invariant]
    spec fn type_inv(self) -> bool {
        schema_doc_ok(spec_json_text(self.raw@))
    }

    /// Compiles `raw` and pairs it with the resulting validator.
    pub fn new(raw: JsonValue) -> (r: Result<Schema, RuleError>)
        ensures
            r is Ok <==> schema_doc_ok(spec_json_text(raw@)),
            r matches Ok(s) ==> s@ == raw@,
            r matches Err(e) ==> e is InvalidSchema,
    {
        let text = json_text(&raw);
        match compile_schema_text(&text) {
            Ok(compiled) => Ok(Schema { raw, compiled }),
            Err(msg) => Err(RuleError::InvalidSchema(msg)),
        }
    }

    /// Compiles `raw` into stand-alone compiled state.
    pub fn compile(raw: &JsonValue) -> (r: Result<CompiledSchema, RuleError>)
        ensures
            r is Ok <==> schema_doc_ok(spec_json_text(raw@)),
            r matches Err(e) ==> e is InvalidSchema,
    {
        let text = json_text(raw);
        match compile_schema_text(&text) {
            Ok(compiled) => Ok(compiled),
            Err(msg) => Err(RuleError::InvalidSchema(msg)),
        }
    }

    /// The raw document, copied.
    pub fn raw_document(&self) -> (r: JsonValue)
        ensures
            r@ == self@,
    {
        json_clone(&self.raw)
    }

    /// The compiled validator's verdict on an instance.
    pub fn is_valid(&self, instance: &JsonValue) -> (r: bool)
        ensures
            r == schema_accepts(self@, spec_json_text(instance@)),
    {
        let text = json_text(instance);
        validator_accepts(self, &text)
    }
}

impl Clone for Schema {
    /// Duplicating a schema recompiles the validator from the raw
    /// document rather than sharing compiled state.
    fn clone(&self) -> (r: Self)
        ensures
            r@ == self@,
    {
        proof {
            use_type_invariant(self);
        }
        let raw = json_clone(&self.raw);
        let text = json_text(&raw);
        match compile_schema_text(&text) {
            Ok(compiled) => Schema { raw, compiled },
            Err(_) => {
                proof {
                    assert(false);
                }
                vstd::pervasive::unreached()
            },
        }
    }
}

/// Rule metadata: category, documentation, fixability, flags, the ordered
/// list of positional configuration schemas, and replacement references.
#[derive(Clone, Debug)]
pub struct Meta {
    pub kind: RuleType,
    pub docs: Option<Docs>,
    pub fixable: Option<RuleFixability>,
    pub has_suggestions: bool,
    pub deprecated: bool,
    pub schema: Vec<Schema>,
    pub replaced_by: Vec<RuleName>,
}

/// Spec view of `Meta`; schemas appear as their raw documents.
#[verifier::ext_equal]
pub struct MetaV {
    pub kind: RuleType,
    pub docs: Option<DocsV>,
    pub fixable: Option<RuleFixability>,
    pub has_suggestions: bool,
    pub deprecated: bool,
    pub schema: Seq<JsonV>,
    pub replaced_by: Seq<Seq<char>>,
}

impl View for Meta {
    type V = MetaV;

    open spec fn view(&self) -> MetaV {
        MetaV {
            kind: self.kind,
            docs: match self.docs {
                Option::None => Option::None,
                Option::Some(d) => Option::Some(d@),
            },
            fixable: self.fixable,
            has_suggestions: self.has_suggestions,
            deprecated: self.deprecated,
            schema: self.schema@.map_values(|s: Schema| s@),
            replaced_by: self.replaced_by@.map_values(|n: RuleName| n@),
        }
    }
}

impl MetaV {
    pub open spec fn wf(self) -> bool {
        &&& match self.docs {
            Option::None => true,
            Option::Some(d) => d.wf(),
        }
        &&& forall|i: int|
            0 <= i < self.schema.len() ==> schema_doc_ok(
                spec_json_text(#[trigger] self.schema[i]),
            )
    }
}

/// A named rule: the unit the registry stores.
#[derive(Clone, Debug)]
pub struct Rule {
    pub name: String,
    pub meta: Meta,
}

/// Spec view of `Rule`.
#[verifier::ext_equal]
pub struct RuleV {
    pub name: Seq<char>,
    pub meta: MetaV,
}

impl View for Rule {
    type V = RuleV;

    open spec fn view(&self) -> RuleV {
        RuleV { name: self.name@, meta: self.meta@ }
    }
}

impl Rule {
    pub open spec fn wf(self) -> bool {
        self@.wf()
    }
}

impl RuleV {
    pub open spec fn wf(self) -> bool {
        self.meta.wf()
    }
}

/// First-match lookup of a key among an object's members.
pub open spec fn lookup(fs: Seq<(Seq<char>, JsonV)>, k: Seq<char>) -> Option<JsonV>
    decreases fs,
{
    if fs.len() == 0 {
        Option::None
    } else if fs[0].0 == k {
        Option::Some(fs[0].1)
    } else {
        lookup(fs.subrange(1, fs.len() as int), k)
    }
}

proof fn lemma_lookup_from(fs: Seq<(Seq<char>, JsonV)>, k: Seq<char>, i: int)
    requires
        0 <= i <= fs.len(),
        forall|j: int| 0 <= j < i ==> (#[trigger] fs[j]).0 != k,
    ensures
        lookup(fs, k) == lookup(fs.subrange(i, fs.len() as int), k),
    decreases i,
{
    if i > 0 {
        lemma_lookup_from(fs, k, i - 1);
        let tail = fs.subrange(i - 1, fs.len() as int);
        assert(tail[0] == fs[i - 1]);
        assert(lookup(tail, k) == lookup(tail.subrange(1, tail.len() as int), k));
        assert(tail.subrange(1, tail.len() as int) =~= fs.subrange(i, fs.len() as int));
    } else {
        assert(fs.subrange(0, fs.len() as int) =~= fs);
    }
}

/// First-match lookup of `key` among an object's members.
#[verifier::loop_isolation(false)]
fn lookup_field<'a>(fields: &'a Vec<(String, JsonValue)>, key: &String) -> (r: Option<
    &'a JsonValue,
>)
    ensures
        match r {
            Option::Some(v) => lookup(obj_view(fields@), key@) == Option::Some(v@),
            Option::None => lookup(obj_view(fields@), key@) is None,
        },
{
    proof {
        lemma_obj_view_len(fields@);
    }
    let ghost ov = obj_view(fields@);
    let mut i: usize = 0;
    while i < fields.len()
        invariant
            i <= fields.len(),
            forall|j: int| 0 <= j < i ==> (#[trigger] ov[j]).0 != key@,
        decreases fields.len() - i,
    {
        if fields[i].0 == *key {
            proof {
                lemma_lookup_from(ov, key@, i as int);
                let tail = ov.subrange(i as int, ov.len() as int);
                assert(tail[0] == ov[i as int]);
            }
            return Some(&fields[i].1);
        }
        i = i + 1;
    }
    proof {
        lemma_lookup_from(ov, key@, fields@.len() as int);
        assert(ov.subrange(ov.len() as int, ov.len() as int).len() == 0);
    }
    None
}

/// The documented category names.
pub open spec fn spec_kind_text(k: RuleType) -> Seq<char> {
    match k {
        RuleType::Problem => "problem"@,
        RuleType::Suggestion => "suggestion"@,
        RuleType::Layout => "layout"@,
    }
}

/// The documented fixability names.
pub open spec fn spec_fixability_text(f: RuleFixability) -> Seq<char> {
    match f {
        RuleFixability::Code => "Code"@,
        RuleFixability::Whitespace => "Whitespace"@,
    }
}

pub open spec fn spec_parse_kind(fs: Seq<(Seq<char>, JsonV)>) -> Option<RuleType> {
    match lookup(fs, "type"@) {
        Option::Some(JsonV::Str(s)) => if s == "problem"@ {
            Option::Some(RuleType::Problem)
        } else if s == "suggestion"@ {
            Option::Some(RuleType::Suggestion)
        } else if s == "layout"@ {
            Option::Some(RuleType::Layout)
        } else {
            Option::None
        },
        _ => Option::None,
    }
}

pub open spec fn spec_parse_docs(fs: Seq<(Seq<char>, JsonV)>) -> Option<DocsV> {
    let description = match lookup(fs, "description"@) {
        Option::None => Option::Some(Seq::<char>::empty()),
        Option::Some(JsonV::Str(s)) => Option::Some(s),
        _ => Option::None,
    };
    let recommended = match lookup(fs, "recommended"@) {
        Option::None => Option::Some(false),
        Option::Some(JsonV::Bool(b)) => Option::Some(b),
        _ => Option::None,
    };
    let url = match lookup(fs, "url"@) {
        Option::None => Option::Some(Option::<Seq<char>>::None),
        Option::Some(JsonV::Null) => Option::Some(Option::<Seq<char>>::None),
        Option::Some(JsonV::Str(s)) => if url_ok(s) {
            Option::Some(Option::Some(url_norm(s)))
        } else {
            Option::None
        },
        _ => Option::None,
    };
    match (description, recommended, url) {
        (Option::Some(d), Option::Some(r), Option::Some(u)) => Option::Some(
            DocsV { description: d, recommended: r, url: u },
        ),
        _ => Option::None,
    }
}

pub open spec fn spec_parse_docs_field(fs: Seq<(Seq<char>, JsonV)>) -> Option<
    Option<DocsV>,
> {
    match lookup(fs, "docs"@) {
        Option::None => Option::Some(Option::<DocsV>::None),
        Option::Some(JsonV::Null) => Option::Some(Option::<DocsV>::None),
        Option::Some(JsonV::Obj(df)) => match spec_parse_docs(df) {
            Option::Some(d) => Option::Some(Option::Some(d)),
            Option::None => Option::None,
        },
        _ => Option::None,
    }
}

pub open spec fn spec_parse_fixable(fs: Seq<(Seq<char>, JsonV)>) -> Option<
    Option<RuleFixability>,
> {
    match lookup(fs, "fixable"@) {
        Option::None => Option::Some(Option::<RuleFixability>::None),
        Option::Some(JsonV::Null) => Option::Some(Option::<RuleFixability>::None),
        Option::Some(JsonV::Str(s)) => if s == "Code"@ {
            Option::Some(Option::Some(RuleFixability::Code))
        } else if s == "Whitespace"@ {
            Option::Some(Option::Some(RuleFixability::Whitespace))
        } else {
            Option::None
        },
        _ => Option::None,
    }
}

pub open spec fn spec_parse_flag(fs: Seq<(Seq<char>, JsonV)>, key: Seq<char>) -> Option<
    bool,
> {
    match lookup(fs, key) {
        Option::None => Option::Some(false),
        Option::Some(JsonV::Bool(b)) => Option::Some(b),
        _ => Option::None,
    }
}

/// The declared configuration schemas: every entry must itself be a valid
/// JSON Schema document, checked eagerly at parse time.
pub open spec fn spec_parse_schemas(fs: Seq<(Seq<char>, JsonV)>) -> Result<
    Seq<JsonV>,
    RuleErrK,
> {
    match lookup(fs, "schema"@) {
        Option::None => Result::Ok(Seq::<JsonV>::empty()),
        Option::Some(JsonV::Arr(es)) => if forall|i: int|
            0 <= i < es.len() ==> schema_doc_ok(spec_json_text(#[trigger] es[i])) {
            Result::Ok(es)
        } else {
            Result::Err(RuleErrK::Schema)
        },
        _ => Result::Err(RuleErrK::Shape),
    }
}

pub open spec fn spec_parse_replaced_by(fs: Seq<(Seq<char>, JsonV)>) -> Option<
    Seq<Seq<char>>,
> {
    match lookup(fs, "replacedBy"@) {
        Option::None => Option::Some(Seq::<Seq<char>>::empty()),
        Option::Some(JsonV::Arr(es)) => if forall|i: int|
            0 <= i < es.len() ==> (#[trigger] es[i]) is Str {
            Option::Some(Seq::new(es.len(), |i: int| es[i]->Str_0))
        } else {
            Option::None
        },
        _ => Option::None,
    }
}

pub open spec fn spec_parse_meta(m: JsonV) -> Result<MetaV, RuleErrK> {
    match m {
        JsonV::Obj(fs) => match spec_parse_kind(fs) {
            Option::None => Result::Err(RuleErrK::Shape),
            Option::Some(kind) => match spec_parse_docs_field(fs) {
                Option::None => Result::Err(RuleErrK::Shape),
                Option::Some(docs) => match spec_parse_fixable(fs) {
                    Option::None => Result::Err(RuleErrK::Shape),
                    Option::Some(fixable) => match spec_parse_flag(
                        fs,
                        "hasSuggestions"@,
                    ) {
                        Option::None => Result::Err(RuleErrK::Shape),
                        Option::Some(has_suggestions) => match spec_parse_flag(
                            fs,
                            "deprecated"@,
                        ) {
                            Option::None => Result::Err(RuleErrK::Shape),
                            Option::Some(deprecated) => match spec_parse_schemas(fs) {
                                Result::Err(k) => Result::Err(k),
                                Result::Ok(schema) => match spec_parse_replaced_by(fs) {
                                    Option::None => Result::Err(RuleErrK::Shape),
                                    Option::Some(replaced_by) => Result::Ok(
                                        MetaV {
                                            kind,
                                            docs,
                                            fixable,
                                            has_suggestions,
                                            deprecated,
                                            schema,
                                            replaced_by,
                                        },
                                    ),
                                },
                            },
                        },
                    },
                },
            },
        },
        _ => Result::Err(RuleErrK::Shape),
    }
}

/// The strict parse of a script-supplied value into a rule.
pub open spec fn spec_parse_rule(v: JsonV) -> Result<RuleV, RuleErrK> {
    match v {
        JsonV::Obj(fs) => match (lookup(fs, "name"@), lookup(fs, "meta"@)) {
            (Option::Some(JsonV::Str(nm)), Option::Some(m)) => match spec_parse_meta(m) {
                Result::Ok(mv) => Result::Ok(RuleV { name: nm, meta: mv }),
                Result::Err(k) => Result::Err(k),
            },
            _ => Result::Err(RuleErrK::Shape),
        },
        _ => Result::Err(RuleErrK::Shape),
    }
}

fn parse_docs(df: &Vec<(String, JsonValue)>) -> (r: Result<Docs, RuleError>)
    ensures
        r is Ok <==> spec_parse_docs(obj_view(df@)) is Some,
        r matches Ok(d) ==> spec_parse_docs(obj_view(df@)) == Option::Some(d@) && d@.wf(),
        r matches Err(e) ==> e is Malformed,
{
    let description: String = match lookup_field(df, &String::from_str("description")) {
        Option::None => String::new(),
        Option::Some(JsonValue::Str(s)) => s.clone(),
        Option::Some(_) => {
            return Err(RuleError::Malformed);
        },
    };
    let recommended: bool = match lookup_field(df, &String::from_str("recommended")) {
        Option::None => false,
        Option::Some(JsonValue::Bool(b)) => *b,
        Option::Some(_) => {
            return Err(RuleError::Malformed);
        },
    };
    let url: Option<String> = match lookup_field(df, &String::from_str("url")) {
        Option::None => Option::None,
        Option::Some(JsonValue::Null) => Option::None,
        Option::Some(JsonValue::Str(s)) => match parse_url(s.as_str()) {
            Option::Some(t) => Option::Some(t),
            Option::None => {
                return Err(RuleError::Malformed);
            },
        },
        Option::Some(_) => {
            return Err(RuleError::Malformed);
        },
    };
    Ok(Docs { description, recommended, url })
}

#[verifier::loop_isolation(false)]
fn parse_schemas(es: &Vec<JsonValue>) -> (r: Result<Vec<Schema>, RuleError>)
    ensures
        r is Ok <==> forall|i: int|
            0 <= i < arr_view(es@).len() ==> schema_doc_ok(
                spec_json_text(#[trigger] arr_view(es@)[i]),
            ),
        r matches Ok(v) ==> v@.map_values(|s: Schema| s@) =~= arr_view(es@) && forall|
            i: int,
        |
            0 <= i < v@.len() ==> (#[trigger] v@[i])@ == arr_view(es@)[i],
        r matches Err(e) ==> e is InvalidSchema,
{
    proof {
        lemma_arr_view_len(es@);
    }
    let ghost av = arr_view(es@);
    let mut out: Vec<Schema> = Vec::new();
    let mut i: usize = 0;
    while i < es.len()
        invariant
            i <= es.len(),
            out@.len() == i,
            forall|j: int| 0 <= j < i ==> (#[trigger] out@[j])@ == av[j],
            forall|j: int| 0 <= j < i ==> schema_doc_ok(spec_json_text(#[trigger] av[j])),
        decreases es.len() - i,
    {
        match Schema::new(json_clone(&es[i])) {
            Ok(s) => {
                out.push(s);
            },
            Err(e) => {
                proof {
                    assert(!schema_doc_ok(spec_json_text(av[i as int])));
                }
                match e {
                    RuleError::InvalidSchema(msg) => {
                        return Err(RuleError::InvalidSchema(msg));
                    },
                    RuleError::Malformed => {
                        return Err(RuleError::Malformed);
                    },
                }
            },
        }
        i = i + 1;
    }
    proof {
        assert(out@.map_values(|s: Schema| s@) =~= av);
    }
    Ok(out)
}

#[verifier::loop_isolation(false)]
fn parse_replaced_by(es: &Vec<JsonValue>) -> (r: Result<Vec<RuleName>, RuleError>)
    ensures
        r is Ok <==> forall|i: int|
            0 <= i < arr_view(es@).len() ==> (#[trigger] arr_view(es@)[i]) is Str,
        r matches Ok(v) ==> v@.map_values(|n: RuleName| n@) =~= Seq::new(
            arr_view(es@).len(),
            |i: int| arr_view(es@)[i]->Str_0,
        ),
        r matches Err(e) ==> e is Malformed,
{
    proof {
        lemma_arr_view_len(es@);
    }
    let ghost av = arr_view(es@);
    let mut out: Vec<RuleName> = Vec::new();
    let mut i: usize = 0;
    while i < es.len()
        invariant
            i <= es.len(),
            out@.len() == i,
            forall|j: int| 0 <= j < i ==> (#[trigger] av[j]) is Str,
            forall|j: int| 0 <= j < i ==> (#[trigger] out@[j])@ == av[j]->Str_0,
        decreases es.len() - i,
    {
        match &es[i] {
            JsonValue::Str(s) => {
                out.push(RuleName(s.clone()));
            },
            _ => {
                proof {
                    assert(!(av[i as int] is Str));
                }
                return Err(RuleError::Malformed);
            },
        }
        i = i + 1;
    }
    proof {
        assert(out@.map_values(|n: RuleName| n@) =~= Seq::new(av.len(), |i: int| av[i]->Str_0));
    }
    Ok(out)
}

fn parse_meta(m: &JsonValue) -> (r: Result<Meta, RuleError>)
    ensures
        r is Ok <==> spec_parse_meta(m@) is Ok,
        r matches Ok(meta) ==> spec_parse_meta(m@) == Result::Ok::<MetaV, RuleErrK>(
            meta@,
        ) && meta@.wf(),
        r matches Err(e) ==> spec_parse_meta(m@) is Err && ((e is InvalidSchema)
            <==> spec_parse_meta(m@) == Result::Err::<MetaV, RuleErrK>(RuleErrK::Schema)),
{
    let fields = match m {
        JsonValue::Obj(fields) => fields,
        _ => {
            return Err(RuleError::Malformed);
        },
    };
    let ghost fs = obj_view(fields@);
    let kind: RuleType = match lookup_field(fields, &String::from_str("type")) {
        Option::Some(JsonValue::Str(s)) => {
            if *s == String::from_str("problem") {
                RuleType::Problem
            } else if *s == String::from_str("suggestion") {
                RuleType::Suggestion
            } else if *s == String::from_str("layout") {
                RuleType::Layout
            } else {
                return Err(RuleError::Malformed);
            }
        },
        _ => {
            return Err(RuleError::Malformed);
        },
    };
    let docs: Option<Docs> = match lookup_field(fields, &String::from_str("docs")) {
        Option::None => Option::None,
        Option::Some(JsonValue::Null) => Option::None,
        Option::Some(JsonValue::Obj(df)) => match parse_docs(df) {
            Ok(d) => Option::Some(d),
            Err(e) => {
                return Err(e);
            },
        },
        Option::Some(_) => {
            return Err(RuleError::Malformed);
        },
    };
    let fixable: Option<RuleFixability> = match lookup_field(
        fields,
        &String::from_str("fixable"),
    ) {
        Option::None => Option::None,
        Option::Some(JsonValue::Null) => Option::None,
        Option::Some(JsonValue::Str(s)) => {
            if *s == String::from_str("Code") {
                Option::Some(RuleFixability::Code)
            } else if *s == String::from_str("Whitespace") {
                Option::Some(RuleFixability::Whitespace)
            } else {
                return Err(RuleError::Malformed);
            }
        },
        Option::Some(_) => {
            return Err(RuleError::Malformed);
        },
    };
    let has_suggestions: bool = match lookup_field(
        fields,
        &String::from_str("hasSuggestions"),
    ) {
        Option::None => false,
        Option::Some(JsonValue::Bool(b)) => *b,
        Option::Some(_) => {
            return Err(RuleError::Malformed);
        },
    };
    let deprecated: bool = match lookup_field(fields, &String::from_str("deprecated")) {
        Option::None => false,
        Option::Some(JsonValue::Bool(b)) => *b,
        Option::Some(_) => {
            return Err(RuleError::Malformed);
        },
    };
    let schema: Vec<Schema> = match lookup_field(fields, &String::from_str("schema")) {
        Option::None => Vec::new(),
        Option::Some(JsonValue::Arr(es)) => match parse_schemas(es) {
            Ok(v) => v,
            Err(e) => {
                return Err(e);
            },
        },
        Option::Some(_) => {
            return Err(RuleError::Malformed);
        },
    };
    let replaced_by: Vec<RuleName> = match lookup_field(
        fields,
        &String::from_str("replacedBy"),
    ) {
        Option::None => Vec::new(),
        Option::Some(JsonValue::Arr(es)) => match parse_replaced_by(es) {
            Ok(v) => v,
            Err(e) => {
                return Err(e);
            },
        },
        Option::Some(_) => {
            return Err(RuleError::Malformed);
        },
    };
    let meta = Meta { kind, docs, fixable, has_suggestions, deprecated, schema, replaced_by };
    proof {
        assert(spec_parse_meta(m@) == Result::Ok::<MetaV, RuleErrK>(meta@)) by {
            assert(meta@.schema =~= spec_parse_schemas(fs)->Ok_0);
            assert(meta@.replaced_by =~= spec_parse_replaced_by(fs)->Some_0);
            assert(meta@ =~= spec_parse_meta(m@)->Ok_0);
        }
    }
    Ok(meta)
}

/// Strict field-by-field parse of a script-supplied value into a `Rule`.
/// Exactly the values accepted by `spec_parse_rule` parse; a rejected
/// schema document is reported as `InvalidSchema`, every other defect of
/// shape as `Malformed`.
pub fn parse_rule(v: &JsonValue) -> (r: Result<Rule, RuleError>)
    ensures
        r is Ok <==> spec_parse_rule(v@) is Ok,
        r matches Ok(rule) ==> spec_parse_rule(v@) == Result::Ok::<RuleV, RuleErrK>(
            rule@,
        ) && rule.wf(),
        r matches Err(e) ==> spec_parse_rule(v@) is Err && ((e is InvalidSchema)
            <==> spec_parse_rule(v@) == Result::Err::<RuleV, RuleErrK>(RuleErrK::Schema)),
{
    let fields = match v {
        JsonValue::Obj(fields) => fields,
        _ => {
            return Err(RuleError::Malformed);
        },
    };
    let name: String = match lookup_field(fields, &String::from_str("name")) {
        Option::Some(JsonValue::Str(s)) => s.clone(),
        _ => {
            return Err(RuleError::Malformed);
        },
    };
    let meta_value = match lookup_field(fields, &String::from_str("meta")) {
        Option::Some(m) => m,
        Option::None => {
            return Err(RuleError::Malformed);
        },
    };
    match parse_meta(meta_value) {
        Ok(meta) => Ok(Rule { name, meta }),
        Err(e) => Err(e),
    }
}

/// The JSON form written for a documentation block.
pub open spec fn spec_docs_json(d: DocsV) -> JsonV {
    JsonV::Obj(
        seq![
            ("description"@, JsonV::Str(d.description)),
            ("recommended"@, JsonV::Bool(d.recommended)),
            (
                "url"@,
                match d.url {
                    Option::None => JsonV::Null,
                    Option::Some(u) => JsonV::Str(u),
                },
            ),
        ],
    )
}

/// The JSON form written for rule metadata: every field is written out,
/// absent optional values as `null`.
pub open spec fn spec_meta_json(m: MetaV) -> JsonV {
    JsonV::Obj(
        seq![
            ("type"@, JsonV::Str(spec_kind_text(m.kind))),
            (
                "docs"@,
                match m.docs {
                    Option::None => JsonV::Null,
                    Option::Some(d) => spec_docs_json(d),
                },
            ),
            (
                "fixable"@,
                match m.fixable {
                    Option::None => JsonV::Null,
                    Option::Some(f) => JsonV::Str(spec_fixability_text(f)),
                },
            ),
            ("hasSuggestions"@, JsonV::Bool(m.has_suggestions)),
            ("deprecated"@, JsonV::Bool(m.deprecated)),
            ("schema"@, JsonV::Arr(m.schema)),
            (
                "replacedBy"@,
                JsonV::Arr(m.replaced_by.map_values(|s: Seq<char>| JsonV::Str(s))),
            ),
        ],
    )
}

/// The JSON form written for a rule.
pub open spec fn spec_rule_json(r: RuleV) -> JsonV {
    JsonV::Obj(
        seq![("name"@, JsonV::Str(r.name)), ("meta"@, spec_meta_json(r.meta))],
    )
}

fn docs_to_json(d: &Docs) -> (r: JsonValue)
    ensures
        r@ == spec_docs_json(d@),
{
    let mut fields: Vec<(String, JsonValue)> = Vec::new();
    fields.push(
        (String::from_str("description"), JsonValue::Str(d.description.clone())),
    );
    fields.push((String::from_str("recommended"), JsonValue::Bool(d.recommended)));
    let url_value = match &d.url {
        Option::None => JsonValue::Null,
        Option::Some(u) => JsonValue::Str(u.clone()),
    };
    fields.push((String::from_str("url"), url_value));
    proof {
        lemma_obj_view_len(fields@);
        assert(obj_view(fields@) =~= spec_docs_json(d@)->Obj_0);
    }
    JsonValue::Obj(fields)
}

#[verifier::loop_isolation(false)]
fn meta_to_json(m: &Meta) -> (r: JsonValue)
    ensures
        r@ == spec_meta_json(m@),
{
    let mut fields: Vec<(String, JsonValue)> = Vec::new();
    let kind_text = match m.kind {
        RuleType::Problem => String::from_str("problem"),
        RuleType::Suggestion => String::from_str("suggestion"),
        RuleType::Layout => String::from_str("layout"),
    };
    fields.push((String::from_str("type"), JsonValue::Str(kind_text)));
    let docs_value = match &m.docs {
        Option::None => JsonValue::Null,
        Option::Some(d) => docs_to_json(d),
    };
    fields.push((String::from_str("docs"), docs_value));
    let fixable_value = match &m.fixable {
        Option::None => JsonValue::Null,
        Option::Some(RuleFixability::Code) => JsonValue::Str(String::from_str("Code")),
        Option::Some(RuleFixability::Whitespace) => JsonValue::Str(
            String::from_str("Whitespace"),
        ),
    };
    fields.push((String::from_str("fixable"), fixable_value));
    fields.push(
        (String::from_str("hasSuggestions"), JsonValue::Bool(m.has_suggestions)),
    );
    fields.push((String::from_str("deprecated"), JsonValue::Bool(m.deprecated)));
    let mut schemas: Vec<JsonValue> = Vec::new();
    let mut i: usize = 0;
    while i < m.schema.len()
        invariant
            i <= m.schema.len(),
            schemas@.len() == i,
            forall|j: int| 0 <= j < i ==> (#[trigger] schemas@[j])@ == m.schema@[j]@,
        decreases m.schema.len() - i,
    {
        let raw = m.schema[i].raw_document();
        schemas.push(raw);
        i = i + 1;
    }
    proof {
        lemma_arr_view_len(schemas@);
        assert(arr_view(schemas@) =~= m@.schema);
    }
    fields.push((String::from_str("schema"), JsonValue::Arr(schemas)));
    let mut replaced: Vec<JsonValue> = Vec::new();
    let mut k: usize = 0;
    while k < m.replaced_by.len()
        invariant
            k <= m.replaced_by.len(),
            replaced@.len() == k,
            forall|j: int|
                0 <= j < k ==> (#[trigger] replaced@[j])@ == JsonV::Str(
                    m.replaced_by@[j]@,
                ),
        decreases m.replaced_by.len() - k,
    {
        replaced.push(JsonValue::Str(m.replaced_by[k].0.clone()));
        k = k + 1;
    }
    proof {
        lemma_arr_view_len(replaced@);
        assert(arr_view(replaced@) =~= m@.replaced_by.map_values(
            |s: Seq<char>| JsonV::Str(s),
        ));
    }
    fields.push((String::from_str("replacedBy"), JsonValue::Arr(replaced)));
    proof {
        lemma_obj_view_len(fields@);
        assert(obj_view(fields@) =~= spec_meta_json(m@)->Obj_0);
    }
    JsonValue::Obj(fields)
}

/// Writes a rule back out as a JSON-shaped value, every field explicit.
pub fn rule_to_json(rule: &Rule) -> (r: JsonValue)
    ensures
        r@ == spec_rule_json(rule@),
{
    let mut fields: Vec<(String, JsonValue)> = Vec::new();
    fields.push((String::from_str("name"), JsonValue::Str(rule.name.clone())));
    fields.push((String::from_str("meta"), meta_to_json(&rule.meta)));
    proof {
        lemma_obj_view_len(fields@);
        assert(obj_view(fields@) =~= spec_rule_json(rule@)->Obj_0);
    }
    JsonValue::Obj(fields)
}

proof fn lemma_lookup_at(fs: Seq<(Seq<char>, JsonV)>, k: Seq<char>, i: int)
    requires
        0 <= i < fs.len(),
        forall|j: int| 0 <= j < i ==> (#[trigger] fs[j]).0 != k,
        fs[i].0 == k,
    ensures
        lookup(fs, k) == Option::Some(fs[i].1),
{
    lemma_lookup_from(fs, k, i);
    let tail = fs.subrange(i, fs.len() as int);
    assert(tail[0] == fs[i]);
}

/// Parsed rules survive a write/parse round trip: writing a parsed rule
/// back out as a value and parsing that value again yields the rule
/// unchanged, field for field, with the same raw schema documents.
pub proof fn lemma_rule_round_trip(rv: RuleV)
    requires
        rv.wf(),
    ensures
        spec_parse_rule(spec_rule_json(rv)) == Result::<RuleV, RuleErrK>::Ok(rv),
{
    reveal_strlit("name");
    reveal_strlit("meta");
    reveal_strlit("type");
    reveal_strlit("docs");
    reveal_strlit("fixable");
    reveal_strlit("hasSuggestions");
    reveal_strlit("deprecated");
    reveal_strlit("schema");
    reveal_strlit("replacedBy");
    reveal_strlit("description");
    reveal_strlit("recommended");
    reveal_strlit("url");
    reveal_strlit("problem");
    reveal_strlit("suggestion");
    reveal_strlit("layout");
    reveal_strlit("Code");
    reveal_strlit("Whitespace");
    let j = spec_rule_json(rv);
    let fs = j->Obj_0;
    assert(fs[0] == ("name"@, JsonV::Str(rv.name)));
    assert(fs[1] == ("meta"@, spec_meta_json(rv.meta)));
    assert("name"@ != "meta"@) by {
        assert("name"@[0] == 'n' && "meta"@[0] == 'm');
    }
    lemma_lookup_at(fs, "name"@, 0);
    lemma_lookup_at(fs, "meta"@, 1);
    let mj = spec_meta_json(rv.meta);
    let ms = mj->Obj_0;
    assert(ms[0].0 == "type"@ && ms[1].0 == "docs"@ && ms[2].0 == "fixable"@
        && ms[3].0 == "hasSuggestions"@ && ms[4].0 == "deprecated"@
        && ms[5].0 == "schema"@ && ms[6].0 == "replacedBy"@);
    assert("type"@ != "docs"@) by {
        assert("type"@[0] == 't' && "docs"@[0] == 'd');
    }
    assert("type"@ != "fixable"@ && "docs"@ != "fixable"@) by {
        assert("type"@.len() == 4 && "docs"@.len() == 4 && "fixable"@.len() == 7);
    }
    assert("type"@ != "hasSuggestions"@ && "docs"@ != "hasSuggestions"@
        && "fixable"@ != "hasSuggestions"@) by {
        assert("hasSuggestions"@.len() == 14);
    }
    assert("type"@ != "deprecated"@ && "docs"@ != "deprecated"@ && "fixable"@
        != "deprecated"@ && "hasSuggestions"@ != "deprecated"@) by {
        assert("deprecated"@.len() == 10 && "fixable"@.len() == 7);
    }
    assert("type"@ != "schema"@ && "docs"@ != "schema"@ && "fixable"@ != "schema"@
        && "hasSuggestions"@ != "schema"@ && "deprecated"@ != "schema"@) by {
        assert("schema"@.len() == 6 && "fixable"@[0] == 'f' && "schema"@[0] == 's');
    }
    assert("type"@ != "replacedBy"@ && "docs"@ != "replacedBy"@ && "fixable"@
        != "replacedBy"@ && "hasSuggestions"@ != "replacedBy"@ && "deprecated"@
        != "replacedBy"@ && "schema"@ != "replacedBy"@) by {
        assert("replacedBy"@.len() == 10 && "deprecated"@[0] == 'd'
            && "replacedBy"@[0] == 'r');
    }
    lemma_lookup_at(ms, "type"@, 0);
    lemma_lookup_at(ms, "docs"@, 1);
    lemma_lookup_at(ms, "fixable"@, 2);
    lemma_lookup_at(ms, "hasSuggestions"@, 3);
    lemma_lookup_at(ms, "deprecated"@, 4);
    lemma_lookup_at(ms, "schema"@, 5);
    lemma_lookup_at(ms, "replacedBy"@, 6);
    assert("problem"@.len() == 7 && "suggestion"@.len() == 10 && "layout"@.len() == 6);
    assert(spec_parse_kind(ms) == Option::Some(rv.meta.kind));
    match rv.meta.docs {
        Option::None => {
            assert(spec_parse_docs_field(ms) == Option::Some(Option::<DocsV>::None));
        },
        Option::Some(d) => {
            let ds = spec_docs_json(d)->Obj_0;
            assert(ds[0].0 == "description"@ && ds[1].0 == "recommended"@
                && ds[2].0 == "url"@);
            assert("description"@ != "recommended"@ && "description"@ != "url"@
                && "recommended"@ != "url"@) by {
                assert("description"@.len() == 11 && "recommended"@.len() == 11
                    && "url"@.len() == 3);
                assert("description"@[0] == 'd' && "recommended"@[0] == 'r');
            }
            lemma_lookup_at(ds, "description"@, 0);
            lemma_lookup_at(ds, "recommended"@, 1);
            lemma_lookup_at(ds, "url"@, 2);
            assert(spec_parse_docs(ds) matches Option::Some(pd) && pd =~= d);
            assert(spec_parse_docs_field(ms) == Option::Some(Option::Some(d)));
        },
    }
    assert("Code"@.len() == 4 && "Whitespace"@.len() == 10);
    assert(spec_parse_fixable(ms) == Option::Some(rv.meta.fixable));
    assert(spec_parse_flag(ms, "hasSuggestions"@) == Option::Some(
        rv.meta.has_suggestions,
    ));
    assert(spec_parse_flag(ms, "deprecated"@) == Option::Some(rv.meta.deprecated));
    assert(spec_parse_schemas(ms) == Result::<Seq<JsonV>, RuleErrK>::Ok(rv.meta.schema));
    let mapped = rv.meta.replaced_by.map_values(|s: Seq<char>| JsonV::Str(s));
    assert(forall|i: int| 0 <= i < mapped.len() ==> (#[trigger] mapped[i]) is Str);
    assert(Seq::new(mapped.len(), |i: int| mapped[i]->Str_0) =~= rv.meta.replaced_by);
    assert(spec_parse_replaced_by(ms) == Option::Some(rv.meta.replaced_by));
    assert(spec_parse_meta(mj) matches Result::Ok(pm) && pm =~= rv.meta);
    assert(spec_parse_rule(j) matches Result::Ok(pr) && pr =~= rv);
}

} // verus!

