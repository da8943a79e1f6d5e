//! Decoding a JSON record into a [`Record`].
//!
//! serde_json parses the text; the parsed value is handed over in the
//! library's own model type [`Json`], and what a well-formed text's model is
//! gets a name, so that every later step — which fields are read, which
//! shapes are accepted, which inputs decode — is verified code whose
//! contracts speak of the input text.

use vstd::prelude::*;
use vstd::string::StringExecFns;
use crate::record::Creator;
use crate::record::CreatorView;
use crate::record::Record;
use crate::record::RecordView;
use crate::record::Tag;
use crate::text::str_eq;

verus! {

/// A parsed JSON value, holding what the record decode distinguishes: null,
/// strings, arrays and objects. Booleans and numbers, which no record field
/// reads, stay merged in `Other`.
pub enum Json {
    Null,
    Str(String),
    Arr(Vec<Json>),
    Obj(Vec<(String, Json)>),
    Other,
}

/// The shape of a parsed JSON value, over sequences.
#[verifier::ext_equal]
pub ghost enum JsonView {
    Null,
    Str(Seq<char>),
    Arr(Seq<JsonView>),
    Obj(Seq<(Seq<char>, JsonView)>),
    Other,
}

/// The mathematical shape of a [`Json`] value.
pub open spec fn jview(j: Json) -> JsonView
    decreases j,
    via jview_decreases
{
    match j {
        Json::Null => JsonView::Null,
        Json::Str(s) => JsonView::Str(s@),
        Json::Arr(a) => JsonView::Arr(jview_arr(a@)),
        Json::Obj(m) => JsonView::Obj(jview_obj(m@)),
        Json::Other => JsonView::Other,
    }
}

/// The shapes of an array's elements, in order.
pub open spec fn jview_arr(s: Seq<Json>) -> Seq<JsonView>
    decreases s,
    via jview_arr_decreases
{
    if s.len() == 0 {
        Seq::empty()
    } else {
        jview_arr(s.drop_last()).push(jview(s.last()))
    }
}

/// The shapes of an object's entries, in order.
pub open spec fn jview_obj(s: Seq<(String, Json)>) -> Seq<(Seq<char>, JsonView)>
    decreases s,
    via jview_obj_decreases
{
    if s.len() == 0 {
        Seq::empty()
    } else {
        jview_obj(s.drop_last()).push((s.last().0@, jview(s.last().1)))
    }
}

#[via_fn]
proof fn jview_decreases(j: Json) {
    broadcast use vstd::std_specs::vec::axiom_vec_decreases_to_view;

    match j {
        Json::Arr(a) => {
            assert(decreases_to!(j => a));
            assert(decreases_to!(a => a@));
        },
        Json::Obj(m) => {
            assert(decreases_to!(j => m));
            assert(decreases_to!(m => m@));
        },
        _ => {},
    }
}

#[via_fn]
proof fn jview_arr_decreases(s: Seq<Json>) {
    broadcast use vstd::seq::axiom_seq_index_decreases;
    broadcast use vstd::seq::axiom_seq_subrange_decreases;

    if s.len() > 0 {
        assert(decreases_to!(s => s[s.len() - 1]));
        assert(decreases_to!(s => s.subrange(0, s.len() - 1)));
    }
}

#[via_fn]
proof fn jview_obj_decreases(s: Seq<(String, Json)>) {
    broadcast use vstd::seq::axiom_seq_index_decreases;
    broadcast use vstd::seq::axiom_seq_subrange_decreases;

    if s.len() > 0 {
        assert(decreases_to!(s => s[s.len() - 1]));
        assert(decreases_to!(s[s.len() - 1] => s[s.len() - 1].1));
        assert(decreases_to!(s => s.subrange(0, s.len() - 1)));
    }
}

/// The view of an array's elements, element by element.
proof fn lemma_jview_arr_map(s: Seq<Json>)
    ensures
        jview_arr(s).len() == s.len(),
        forall|i: int| 0 <= i < s.len() ==> #[trigger] jview_arr(s)[i] == jview(s[i]),
    decreases s.len(),
{
    if s.len() > 0 {
        lemma_jview_arr_map(s.drop_last());
        assert forall|i: int| 0 <= i < s.len() implies #[trigger] jview_arr(s)[i] == jview(
            s[i],
        ) by {
            if i < s.len() - 1 {
                assert(s.drop_last()[i] == s[i]);
                assert(jview_arr(s)[i] == jview_arr(s.drop_last())[i]);
            }
        }
    }
}

/// The view of an object's entries, entry by entry.
proof fn lemma_jview_obj_map(s: Seq<(String, Json)>)
    ensures
        jview_obj(s).len() == s.len(),
        forall|i: int|
            0 <= i < s.len() ==> #[trigger] jview_obj(s)[i] == (s[i].0@, jview(s[i].1)),
    decreases s.len(),
{
    if s.len() > 0 {
        lemma_jview_obj_map(s.drop_last());
        assert forall|i: int| 0 <= i < s.len() implies #[trigger] jview_obj(s)[i] == (
            s[i].0@,
            jview(s[i].1),
        ) by {
            if i < s.len() - 1 {
                assert(s.drop_last()[i] == s[i]);
                assert(jview_obj(s)[i] == jview_obj(s.drop_last())[i]);
            }
        }
    }
}

/// serde_json's JSON value type, declared so that the conversion below can
/// take it; what such a value holds stays opaque here.
#[verifier::external_type_specification]
#[verifier::external_body]
pub struct ExValue(serde_json::Value);

/// Whether serde_json accepts the text as one well-formed JSON value; a fixed
/// function of the text alone.
pub uninterp spec fn json_well_formed(s: Seq<char>) -> bool;

/// What serde_json::from_str::<Value> parses out of well-formed JSON text,
/// rendered in the library's model: a fixed function of the text alone
/// (object entries come out in serde_json's map order, itself a function of
/// the text).
pub uninterp spec fn json_model_of(s: Seq<char>) -> JsonView;

/// Relies on serde_json::Value's variants: rebuilds the parsed value in the
/// library's model, variant for variant; booleans and numbers, which no
/// record field reads, land in `Other`.
#[verifier::external_body]
fn value_to_json(v: serde_json::Value) -> Json {
    match v {
        serde_json::Value::Null => Json::Null,
        serde_json::Value::Bool(_) => Json::Other,
        serde_json::Value::Number(_) => Json::Other,
        serde_json::Value::String(s) => Json::Str(s),
        serde_json::Value::Array(a) => Json::Arr(a.into_iter().map(value_to_json).collect()),
        serde_json::Value::Object(m) => Json::Obj(
            m.into_iter().map(|(k, x)| (k, value_to_json(x))).collect(),
        ),
    }
}

/// Relies on serde_json::from_str::<Value>: parses the text exactly when it
/// is well-formed JSON, hands the value over in the library's model, and
/// reports the parse failure otherwise.
#[verifier::external_body]
pub(crate) fn parse_json(s: &str) -> (r: Result<Json, String>)
    ensures
        r is Ok <==> json_well_formed(s@),
        r matches Ok(j) ==> jview(j) == json_model_of(s@),
{
    match serde_json::from_str::<serde_json::Value>(s) {
        Ok(v) => Ok(value_to_json(v)),
        Err(e) => Err(format!("JSON parse error: {}", e)),
    }
}

/// The value under the first entry with the key, as `Value::get` finds it
/// (serde_json's maps carry each key once).
pub open spec fn jv_get(fields: Seq<(Seq<char>, JsonView)>, key: Seq<char>) -> Option<JsonView>
    decreases fields.len(),
{
    if fields.len() == 0 {
        None
    } else if fields.first().0 == key {
        Some(fields.first().1)
    } else {
        jv_get(fields.drop_first(), key)
    }
}

/// The field of a JSON object under the key; nothing for any other shape.
pub open spec fn jv_field(j: JsonView, key: Seq<char>) -> Option<JsonView> {
    match j {
        JsonView::Obj(fields) => jv_get(fields, key),
        _ => None,
    }
}

/// Looks a field up in a JSON object, walking its entries in order.
fn json_field<'a>(j: &'a Json, key: &str) -> (r: Option<&'a Json>)
    ensures
        match r {
            Some(f) => jv_field(jview(*j), key@) == Some(jview(*f)),
            None => jv_field(jview(*j), key@) is None,
        },
{
    match j {
        Json::Obj(fields) => {
            let ghost fsv = jview_obj(fields@);
            proof {
                lemma_jview_obj_map(fields@);
                assert(jview(*j) == JsonView::Obj(fsv));
                assert(fsv.skip(0) =~= fsv);
            }
            let n = fields.len();
            let mut i: usize = 0;
            while i < n
                invariant
                    i <= n,
                    n == fields@.len(),
                    fsv == jview_obj(fields@),
                    jview(*j) == JsonView::Obj(fsv),
                    fsv.len() == n,
                    forall|k: int|
                        0 <= k < n ==> #[trigger] fsv[k] == (fields@[k].0@, jview(fields@[k].1)),
                    jv_get(fsv, key@) == jv_get(fsv.skip(i as int), key@),
                decreases n - i,
            {
                let pair = &fields[i];
                if str_eq(pair.0.as_str(), key) {
                    proof {
                        assert(fsv.skip(i as int).first() == fsv[i as int]);
                        assert(jv_get(fsv.skip(i as int), key@) == Some(fsv[i as int].1));
                    }
                    return Some(&pair.1);
                }
                proof {
                    assert(fsv.skip(i as int).first() == fsv[i as int]);
                    assert(fsv.skip(i as int).drop_first() =~= fsv.skip(i as int + 1));
                }
                i = i + 1;
            }
            proof {
                assert(jview(*j) == JsonView::Obj(fsv));
                assert(fsv.skip(n as int) =~= Seq::<(Seq<char>, JsonView)>::empty());
            }
            None
        },
        _ => None,
    }
}

/// A decode-error message naming the offending field.
fn field_error(key: &str, what: &str) -> String {
    let mut m = "invalid record: field ".to_owned();
    m.append(key);
    m.append(" ");
    m.append(what);
    m
}

/// The required string field under the key: its text, or nothing when the
/// field is absent or not a string.
pub open spec fn spec_req_string(j: JsonView, key: Seq<char>) -> Option<Seq<char>> {
    match jv_field(j, key) {
        Some(JsonView::Str(s)) => Some(s),
        _ => None,
    }
}

fn req_string_field(j: &Json, key: &str) -> (r: Result<String, String>)
    ensures
        r matches Ok(s) ==> spec_req_string(jview(*j), key@) == Some(s@),
        r is Err <==> spec_req_string(jview(*j), key@) is None,
{
    match json_field(j, key) {
        None => Err(field_error(key, "is missing")),
        Some(f) => match f {
            Json::Str(s) => Ok(s.clone()),
            _ => Err(field_error(key, "must be a string")),
        },
    }
}

/// The optional string field under the key: absent or null means nothing,
/// a string means its text; any other shape is refused.
pub open spec fn spec_opt_string(j: JsonView, key: Seq<char>) -> Option<Option<Seq<char>>> {
    match jv_field(j, key) {
        None => Some(None),
        Some(JsonView::Null) => Some(None),
        Some(JsonView::Str(s)) => Some(Some(s)),
        Some(_) => None,
    }
}

fn opt_string_field(j: &Json, key: &str) -> (r: Result<Option<String>, String>)
    ensures
        r matches Ok(o) ==> spec_opt_string(jview(*j), key@) == Some(o.deep_view()),
        r is Err <==> spec_opt_string(jview(*j), key@) is None,
{
    match json_field(j, key) {
        None => Ok(None),
        Some(f) => match f {
            Json::Null => Ok(None),
            Json::Str(s) => Ok(Some(s.clone())),
            _ => Err(field_error(key, "must be a string")),
        },
    }
}

/// One creator entry: an optional first name, a required last name and a
/// required (possibly empty) role.
pub open spec fn spec_creator_of(j: JsonView) -> Option<CreatorView> {
    match (
        spec_opt_string(j, "firstName"@),
        spec_req_string(j, "lastName"@),
        spec_req_string(j, "creatorType"@),
    ) {
        (Some(first), Some(last), Some(ct)) => Some(
            CreatorView { first_name: first, last_name: last, creator_type: ct },
        ),
        _ => None,
    }
}

fn creator_from_json(j: &Json) -> (r: Result<Creator, String>)
    ensures
        r matches Ok(c) ==> spec_creator_of(jview(*j)) == Some(c.deep_view()),
        r is Err <==> spec_creator_of(jview(*j)) is None,
{
    let first_name = match opt_string_field(j, "firstName") {
        Ok(f) => f,
        Err(e) => return Err(e),
    };
    let last_name = match req_string_field(j, "lastName") {
        Ok(l) => l,
        Err(e) => return Err(e),
    };
    let creator_type = match req_string_field(j, "creatorType") {
        Ok(c) => c,
        Err(e) => return Err(e),
    };
    let c = Creator { first_name, last_name, creator_type };
    proof {
        assert(spec_creator_of(jview(*j)) == Some(c.deep_view()));
    }
    Ok(c)
}

/// The creators of an array of entries, in order; nothing if any entry is
/// refused.
pub open spec fn spec_creators_seq(a: Seq<JsonView>) -> Option<Seq<CreatorView>>
    decreases a.len(),
{
    if a.len() == 0 {
        Some(Seq::empty())
    } else {
        match (spec_creators_seq(a.drop_last()), spec_creator_of(a.last())) {
            (Some(pre), Some(c)) => Some(pre.push(c)),
            _ => None,
        }
    }
}

proof fn lemma_creators_seq_fail(a: Seq<JsonView>, i: int)
    requires
        0 <= i < a.len(),
        spec_creator_of(a[i]) is None,
    ensures
        spec_creators_seq(a) is None,
    decreases a.len(),
{
    if i < a.len() - 1 {
        assert(a.drop_last()[i] == a[i]);
        lemma_creators_seq_fail(a.drop_last(), i);
    }
}

/// The creators field: absent or null decodes to nothing, an array to its
/// entries in order; any other shape is refused.
pub open spec fn spec_creators_field(j: JsonView) -> Option<Option<Seq<CreatorView>>> {
    match jv_field(j, "creators"@) {
        None => Some(None),
        Some(JsonView::Null) => Some(None),
        Some(JsonView::Arr(a)) => match spec_creators_seq(a) {
            Some(cs) => Some(Some(cs)),
            None => None,
        },
        Some(_) => None,
    }
}

fn creators_from_json(j: &Json) -> (r: Result<Option<Vec<Creator>>, String>)
    ensures
        r matches Ok(o) ==> spec_creators_field(jview(*j)) == Some(o.deep_view()),
        r is Err <==> spec_creators_field(jview(*j)) is None,
{
    match json_field(j, "creators") {
        None => Ok(None),
        Some(f) => match f {
            Json::Null => Ok(None),
            Json::Arr(arr) => {
                let ghost av = jview_arr(arr@);
                proof {
                    assert(jview(*f) == JsonView::Arr(av));
                    lemma_jview_arr_map(arr@);
                    assert(av.take(0) =~= Seq::<JsonView>::empty());
                }
                let mut out: Vec<Creator> = Vec::new();
                proof {
                    assert(out.deep_view() =~= Seq::<CreatorView>::empty());
                }
                let n = arr.len();
                let mut i: usize = 0;
                while i < n
                    invariant
                        i <= n,
                        n == arr@.len(),
                        av == jview_arr(arr@),
                        av.len() == n,
                        jv_field(jview(*j), "creators"@) == Some(JsonView::Arr(av)),
                        forall|k: int| 0 <= k < n ==> #[trigger] av[k] == jview(arr@[k]),
                        spec_creators_seq(av.take(i as int)) == Some(out.deep_view()),
                    decreases n - i,
                {
                    match creator_from_json(&arr[i]) {
                        Ok(c) => {
                            let ghost pre = out.deep_view();
                            out.push(c);
                            proof {
                                assert(out.deep_view() =~= pre.push(c.deep_view()));
                                assert(av.take(i as int + 1).drop_last() =~= av.take(i as int));
                                assert(av.take(i as int + 1).last() == av[i as int]);
                            }
                        },
                        Err(e) => {
                            proof {
                                lemma_creators_seq_fail(av, i as int);
                            }
                            return Err(e);
                        },
                    }
                    i = i + 1;
                }
                proof {
                    assert(av.take(n as int) =~= av);
                }
                Ok(Some(out))
            },
            _ => Err(field_error("creators", "must be an array")),
        },
    }
}

/// One tag entry: an object with a required `tag` string.
pub open spec fn spec_tag_of(j: JsonView) -> Option<Seq<char>> {
    spec_req_string(j, "tag"@)
}

fn tag_from_json(j: &Json) -> (r: Result<Tag, String>)
    ensures
        r matches Ok(t) ==> spec_tag_of(jview(*j)) == Some(t.deep_view()),
        r is Err <==> spec_tag_of(jview(*j)) is None,
{
    match req_string_field(j, "tag") {
        Ok(t) => Ok(Tag { tag: t }),
        Err(e) => Err(e),
    }
}

/// The tags of an array of entries, in order; nothing if any entry is
/// refused.
pub open spec fn spec_tags_seq(a: Seq<JsonView>) -> Option<Seq<Seq<char>>>
    decreases a.len(),
{
    if a.len() == 0 {
        Some(Seq::empty())
    } else {
        match (spec_tags_seq(a.drop_last()), spec_tag_of(a.last())) {
            (Some(pre), Some(t)) => Some(pre.push(t)),
            _ => None,
        }
    }
}

proof fn lemma_tags_seq_fail(a: Seq<JsonView>, i: int)
    requires
        0 <= i < a.len(),
        spec_tag_of(a[i]) is None,
    ensures
        spec_tags_seq(a) is None,
    decreases a.len(),
{
    if i < a.len() - 1 {
        assert(a.drop_last()[i] == a[i]);
        lemma_tags_seq_fail(a.drop_last(), i);
    }
}

/// The tags field, with the same shape rules as the creators field.
pub open spec fn spec_tags_field(j: JsonView) -> Option<Option<Seq<Seq<char>>>> {
    match jv_field(j, "tags"@) {
        None => Some(None),
        Some(JsonView::Null) => Some(None),
        Some(JsonView::Arr(a)) => match spec_tags_seq(a) {
            Some(ts) => Some(Some(ts)),
            None => None,
        },
        Some(_) => None,
    }
}

fn tags_from_json(j: &Json) -> (r: Result<Option<Vec<Tag>>, String>)
    ensures
        r matches Ok(o) ==> spec_tags_field(jview(*j)) == Some(o.deep_view()),
        r is Err <==> spec_tags_field(jview(*j)) is None,
{
    match json_field(j, "tags") {
        None => Ok(None),
        Some(f) => match f {
            Json::Null => Ok(None),
            Json::Arr(arr) => {
                let ghost av = jview_arr(arr@);
                proof {
                    assert(jview(*f) == JsonView::Arr(av));
                    lemma_jview_arr_map(arr@);
                    assert(av.take(0) =~= Seq::<JsonView>::empty());
                }
                let mut out: Vec<Tag> = Vec::new();
                proof {
                    assert(out.deep_view() =~= Seq::<Seq<char>>::empty());
                }
                let n = arr.len();
                let mut i: usize = 0;
                while i < n
                    invariant
                        i <= n,
                        n == arr@.len(),
                        av == jview_arr(arr@),
                        av.len() == n,
                        jv_field(jview(*j), "tags"@) == Some(JsonView::Arr(av)),
                        forall|k: int| 0 <= k < n ==> #[trigger] av[k] == jview(arr@[k]),
                        spec_tags_seq(av.take(i as int)) == Some(out.deep_view()),
                    decreases n - i,
                {
                    match tag_from_json(&arr[i]) {
                        Ok(t) => {
                            let ghost pre = out.deep_view();
                            out.push(t);
                            proof {
                                assert(out.deep_view() =~= pre.push(t.deep_view()));
                                assert(av.take(i as int + 1).drop_last() =~= av.take(i as int));
                                assert(av.take(i as int + 1).last() == av[i as int]);
                            }
                        },
                        Err(e) => {
                            proof {
                                lemma_tags_seq_fail(av, i as int);
                            }
                            return Err(e);
                        },
                    }
                    i = i + 1;
                }
                proof {
                    assert(av.take(n as int) =~= av);
                }
                Ok(Some(out))
            },
            _ => Err(field_error("tags", "must be an array")),
        },
    }
}

/// The record a JSON value decodes to, or nothing when it is refused: the
/// identifier is the only required field, unknown fields are ignored, and a
/// present field of the wrong shape refuses the whole value.
pub open spec fn spec_record_of(j: JsonView) -> Option<RecordView> {
    match (
        spec_req_string(j, "libraryKey"@),
        spec_opt_string(j, "title"@),
        spec_creators_field(j),
        spec_opt_string(j, "date"@),
        spec_opt_string(j, "abstractNote"@),
        spec_opt_string(j, "itemType"@),
        spec_opt_string(j, "publisher"@),
        spec_opt_string(j, "language"@),
        spec_opt_string(j, "rights"@),
        spec_tags_field(j),
    ) {
        (
            Some(k),
            Some(t),
            Some(cs),
            Some(d),
            Some(ab),
            Some(it),
            Some(p),
            Some(lg),
            Some(rg),
            Some(tg),
        ) => Some(
            RecordView {
                library_key: k,
                title: t,
                creators: cs,
                date: d,
                abstract_note: ab,
                item_type: it,
                publisher: p,
                language: lg,
                rights: rg,
                tags: tg,
            },
        ),
        _ => None,
    }
}

/// Unknown fields are ignored: the decode depends only on the ten named
/// fields of the input value.
pub proof fn lemma_record_of_named_fields_only(j1: JsonView, j2: JsonView)
    requires
        jv_field(j1, "libraryKey"@) == jv_field(j2, "libraryKey"@),
        jv_field(j1, "title"@) == jv_field(j2, "title"@),
        jv_field(j1, "creators"@) == jv_field(j2, "creators"@),
        jv_field(j1, "date"@) == jv_field(j2, "date"@),
        jv_field(j1, "abstractNote"@) == jv_field(j2, "abstractNote"@),
        jv_field(j1, "itemType"@) == jv_field(j2, "itemType"@),
        jv_field(j1, "publisher"@) == jv_field(j2, "publisher"@),
        jv_field(j1, "language"@) == jv_field(j2, "language"@),
        jv_field(j1, "rights"@) == jv_field(j2, "rights"@),
        jv_field(j1, "tags"@) == jv_field(j2, "tags"@),
    ensures
        spec_record_of(j1) == spec_record_of(j2),
{
}

/// Decodes a parsed JSON value into a record, exactly as [`spec_record_of`]
/// says.
pub(crate) fn record_from_json(j: &Json) -> (r: Result<Record, String>)
    ensures
        r matches Ok(rec) ==> spec_record_of(jview(*j)) == Some(rec.deep_view()),
        r is Err <==> spec_record_of(jview(*j)) is None,
{
    let library_key = match req_string_field(j, "libraryKey") {
        Ok(k) => k,
        Err(e) => return Err(e),
    };
    let title = match opt_string_field(j, "title") {
        Ok(t) => t,
        Err(e) => return Err(e),
    };
    let creators = match creators_from_json(j) {
        Ok(c) => c,
        Err(e) => return Err(e),
    };
    let date = match opt_string_field(j, "date") {
        Ok(d) => d,
        Err(e) => return Err(e),
    };
    let abstract_note = match opt_string_field(j, "abstractNote") {
        Ok(a) => a,
        Err(e) => return Err(e),
    };
    let item_type = match opt_string_field(j, "itemType") {
        Ok(t) => t,
        Err(e) => return Err(e),
    };
    let publisher = match opt_string_field(j, "publisher") {
        Ok(p) => p,
        Err(e) => return Err(e),
    };
    let language = match opt_string_field(j, "language") {
        Ok(l) => l,
        Err(e) => return Err(e),
    };
    let rights = match opt_string_field(j, "rights") {
        Ok(r) => r,
        Err(e) => return Err(e),
    };
    let tags = match tags_from_json(j) {
        Ok(t) => t,
        Err(e) => return Err(e),
    };
    let rec = Record {
        library_key,
        title,
        creators,
        date,
        abstract_note,
        item_type,
        publisher,
        language,
        rights,
        tags,
    };
    proof {
        assert(spec_record_of(jview(*j)) == Some(rec.deep_view()));
    }
    Ok(rec)
}

} // verus!
