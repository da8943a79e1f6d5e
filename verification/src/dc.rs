//! The Dublin Core generator: one record becomes one `oai_dc:dc` document.
//!
//! The identifier is the only unconditional element. Creator roles choose
//! between `dc:creator` and `dc:contributor`, and the free-form item type is
//! translated through a fixed vocabulary into one of the DCMI Type terms; the
//! chosen term is a fixed label and is deliberately not escaped, unlike every
//! piece of user text.

use vstd::prelude::*;
use vstd::string::StringExecFns;
use crate::escape::spec_escape;
use crate::lines::LineWriter;
use crate::lines::spec_join;
use crate::record::Creator;
use crate::record::CreatorView;
use crate::record::Record;
use crate::record::RecordView;
use crate::record::spec_full_name;
use crate::text::str_eq;

verus! {

pub open spec fn dc_open() -> Seq<char> {
    "<oai_dc:dc xmlns:oai_dc=\"http://www.openarchives.org/OAI/2.0/oai_dc/\" xmlns:dc=\"http://purl.org/dc/elements/1.1/\" xmlns:xsi=\"http://www.w3.org/2001/XMLSchema-instance\" xsi:schemaLocation=\"http://www.openarchives.org/OAI/2.0/oai_dc/ http://www.openarchives.org/OAI/2.0/oai_dc.xsd\">"@
}

pub open spec fn dc_close() -> Seq<char> {
    "</oai_dc:dc>"@
}

pub open spec fn dc_identifier_line(k: Seq<char>) -> Seq<char> {
    "  <dc:identifier>"@ + spec_escape(k) + "</dc:identifier>"@
}

pub open spec fn dc_title_line(t: Seq<char>) -> Seq<char> {
    "  <dc:title>"@ + spec_escape(t) + "</dc:title>"@
}

pub open spec fn dc_title_part(t: Option<Seq<char>>) -> Seq<Seq<char>> {
    match t {
        Some(t0) => seq![dc_title_line(t0)],
        None => Seq::empty(),
    }
}

/// Whether a creator role is rendered as `dc:creator`; every other role,
/// the empty one included, becomes `dc:contributor`.
pub open spec fn dc_is_creator_role(ct: Seq<char>) -> bool {
    ct == "author"@ || ct == "creator"@
}

pub open spec fn dc_creator_line(c: CreatorView) -> Seq<char> {
    if dc_is_creator_role(c.creator_type) {
        "  <dc:creator>"@ + spec_escape(spec_full_name(c)) + "</dc:creator>"@
    } else {
        "  <dc:contributor>"@ + spec_escape(spec_full_name(c)) + "</dc:contributor>"@
    }
}

pub open spec fn dc_creators_lines(cs: Seq<CreatorView>) -> Seq<Seq<char>>
    decreases cs.len(),
{
    if cs.len() == 0 {
        Seq::empty()
    } else {
        dc_creators_lines(cs.drop_last()).push(dc_creator_line(cs.last()))
    }
}

pub open spec fn dc_creators_part(cs: Option<Seq<CreatorView>>) -> Seq<Seq<char>> {
    match cs {
        Some(cs0) => dc_creators_lines(cs0),
        None => Seq::empty(),
    }
}

pub open spec fn dc_date_line(d: Seq<char>) -> Seq<char> {
    "  <dc:date>"@ + spec_escape(d) + "</dc:date>"@
}

pub open spec fn dc_date_part(d: Option<Seq<char>>) -> Seq<Seq<char>> {
    match d {
        Some(d0) => seq![dc_date_line(d0)],
        None => Seq::empty(),
    }
}

pub open spec fn dc_description_line(a: Seq<char>) -> Seq<char> {
    "  <dc:description>"@ + spec_escape(a) + "</dc:description>"@
}

pub open spec fn dc_description_part(a: Option<Seq<char>>) -> Seq<Seq<char>> {
    match a {
        Some(a0) => seq![dc_description_line(a0)],
        None => Seq::empty(),
    }
}

/// The fixed vocabulary from free-form item types to DCMI Type terms.
pub open spec fn dc_vocabulary() -> Seq<(Seq<char>, Seq<char>)> {
    seq![
        ("book"@, "Text"@),
        ("journalArticle"@, "Text"@),
        ("conferencePaper"@, "Text"@),
        ("thesis"@, "Text"@),
        ("webpage"@, "InteractiveResource"@),
        ("film"@, "MovingImage"@),
        ("audioRecording"@, "Sound"@),
        ("artwork"@, "Image"@),
    ]
}

/// The first term whose key matches, or the default term `Text`.
pub open spec fn dc_lookup(tbl: Seq<(Seq<char>, Seq<char>)>, t: Seq<char>) -> Seq<char>
    decreases tbl.len(),
{
    if tbl.len() == 0 {
        "Text"@
    } else if tbl.first().0 == t {
        tbl.first().1
    } else {
        dc_lookup(tbl.drop_first(), t)
    }
}

/// The DCMI Type term for a free-form item type.
pub open spec fn spec_dc_type(t: Seq<char>) -> Seq<char> {
    dc_lookup(dc_vocabulary(), t)
}

/// The type line carries the system-chosen term verbatim, never escaped.
pub open spec fn dc_type_line(t: Seq<char>) -> Seq<char> {
    "  <dc:type>"@ + spec_dc_type(t) + "</dc:type>"@
}

pub open spec fn dc_type_part(t: Option<Seq<char>>) -> Seq<Seq<char>> {
    match t {
        Some(t0) => seq![dc_type_line(t0)],
        None => Seq::empty(),
    }
}

pub open spec fn dc_publisher_line(p: Seq<char>) -> Seq<char> {
    "  <dc:publisher>"@ + spec_escape(p) + "</dc:publisher>"@
}

pub open spec fn dc_publisher_part(p: Option<Seq<char>>) -> Seq<Seq<char>> {
    match p {
        Some(p0) => seq![dc_publisher_line(p0)],
        None => Seq::empty(),
    }
}

pub open spec fn dc_language_line(l: Seq<char>) -> Seq<char> {
    "  <dc:language>"@ + spec_escape(l) + "</dc:language>"@
}

pub open spec fn dc_language_part(l: Option<Seq<char>>) -> Seq<Seq<char>> {
    match l {
        Some(l0) => seq![dc_language_line(l0)],
        None => Seq::empty(),
    }
}

pub open spec fn dc_subject_line(t: Seq<char>) -> Seq<char> {
    "  <dc:subject>"@ + spec_escape(t) + "</dc:subject>"@
}

pub open spec fn dc_subjects_lines(ts: Seq<Seq<char>>) -> Seq<Seq<char>>
    decreases ts.len(),
{
    if ts.len() == 0 {
        Seq::empty()
    } else {
        dc_subjects_lines(ts.drop_last()).push(dc_subject_line(ts.last()))
    }
}

pub open spec fn dc_subjects_part(ts: Option<Seq<Seq<char>>>) -> Seq<Seq<char>> {
    match ts {
        Some(ts0) => dc_subjects_lines(ts0),
        None => Seq::empty(),
    }
}

pub open spec fn dc_rights_line(r: Seq<char>) -> Seq<char> {
    "  <dc:rights>"@ + spec_escape(r) + "</dc:rights>"@
}

pub open spec fn dc_rights_part(r: Option<Seq<char>>) -> Seq<Seq<char>> {
    match r {
        Some(r0) => seq![dc_rights_line(r0)],
        None => Seq::empty(),
    }
}

/// Every line of the Dublin Core document for a record, in order.
pub open spec fn spec_dc_lines(r: RecordView) -> Seq<Seq<char>> {
    seq![dc_open(), dc_identifier_line(r.library_key)] + dc_title_part(r.title)
        + dc_creators_part(r.creators) + dc_date_part(r.date) + dc_description_part(
        r.abstract_note,
    ) + dc_type_part(r.item_type) + dc_publisher_part(r.publisher) + dc_language_part(r.language)
        + dc_subjects_part(r.tags) + dc_rights_part(r.rights) + seq![dc_close()]
}

/// The whole Dublin Core document: its lines joined with newlines.
pub open spec fn spec_dc_doc(r: RecordView) -> Seq<char> {
    spec_join(spec_dc_lines(r))
}

/// Translates a free-form item type into its DCMI Type term, by walking the
/// vocabulary table in order and falling back to `Text`.
pub fn dc_type_term(item_type: &str) -> (r: String)
    ensures
        r@ == spec_dc_type(item_type@),
{
    let mut table: Vec<(&str, &str)> = Vec::new();
    table.push(("book", "Text"));
    table.push(("journalArticle", "Text"));
    table.push(("conferencePaper", "Text"));
    table.push(("thesis", "Text"));
    table.push(("webpage", "InteractiveResource"));
    table.push(("film", "MovingImage"));
    table.push(("audioRecording", "Sound"));
    table.push(("artwork", "Image"));
    let ghost vocab = dc_vocabulary();
    proof {
        assert(vocab.skip(0) =~= vocab);
        assert forall|j: int| 0 <= j < 8 implies #[trigger] table@[j].0@ == vocab[j].0
            && table@[j].1@ == vocab[j].1 by {
            if j == 0 {
            } else if j == 1 {
            } else if j == 2 {
            } else if j == 3 {
            } else if j == 4 {
            } else if j == 5 {
            } else if j == 6 {
            } else {
                assert(j == 7);
            }
        }
    }
    let mut i: usize = 0;
    while i < 8
        invariant
            i <= 8,
            table@.len() == 8,
            vocab == dc_vocabulary(),
            forall|j: int|
                0 <= j < 8 ==> #[trigger] table@[j].0@ == vocab[j].0 && table@[j].1@ == vocab[j].1,
            spec_dc_type(item_type@) == dc_lookup(vocab.skip(i as int), item_type@),
        decreases 8 - i,
    {
        let pair = table[i];
        if str_eq(item_type, pair.0) {
            proof {
                assert(vocab.skip(i as int).first() == vocab[i as int]);
            }
            return pair.1.to_owned();
        }
        proof {
            assert(vocab.skip(i as int).first() == vocab[i as int]);
            assert(vocab.skip(i as int).drop_first() =~= vocab.skip(i as int + 1));
        }
        i = i + 1;
    }
    proof {
        assert(vocab.skip(8) =~= Seq::<(Seq<char>, Seq<char>)>::empty());
    }
    "Text".to_owned()
}

/// Writes one creator line, choosing the element by the creator's role.
fn push_dc_creator(w: &mut LineWriter, c: &Creator)
    requires
        old(w).wf(),
    ensures
        final(w).wf(),
        final(w).lines@ == old(w).lines@.push(dc_creator_line(c.deep_view())),
{
    let name = c.full_name();
    let ct = c.creator_type.as_str();
    if str_eq(ct, "author") || str_eq(ct, "creator") {
        w.push_escaped_line("  <dc:creator>", name.as_str(), "</dc:creator>");
    } else {
        w.push_escaped_line("  <dc:contributor>", name.as_str(), "</dc:contributor>");
    }
}

/// Writes the lines of all creators, in input order.
fn push_dc_creators(w: &mut LineWriter, creators: &Vec<Creator>)
    requires
        old(w).wf(),
    ensures
        final(w).wf(),
        final(w).lines@ == old(w).lines@ + dc_creators_lines(creators.deep_view()),
{
    let ghost base = w.lines@;
    let ghost cvs = creators.deep_view();
    let n = creators.len();
    let mut i: usize = 0;
    while i < n
        invariant
            i <= n,
            n == creators@.len(),
            cvs == creators.deep_view(),
            cvs.len() == n,
            w.wf(),
            w.lines@ == base + dc_creators_lines(cvs.take(i as int)),
        decreases n - i,
    {
        let c = &creators[i];
        proof {
            assert(cvs[i as int] == c.deep_view());
        }
        push_dc_creator(w, c);
        proof {
            assert(cvs.take(i as int + 1).drop_last() =~= cvs.take(i as int));
            assert(cvs.take(i as int + 1).last() == cvs[i as int]);
            assert(w.lines@ =~= base + dc_creators_lines(cvs.take(i as int + 1)));
        }
        i = i + 1;
    }
    proof {
        assert(cvs.take(n as int) =~= cvs);
    }
}

/// Writes the subject lines of all tags, in input order.
fn push_dc_subjects(w: &mut LineWriter, tags: &Vec<crate::record::Tag>)
    requires
        old(w).wf(),
    ensures
        final(w).wf(),
        final(w).lines@ == old(w).lines@ + dc_subjects_lines(tags.deep_view()),
{
    let ghost base = w.lines@;
    let ghost tvs = tags.deep_view();
    let n = tags.len();
    let mut i: usize = 0;
    while i < n
        invariant
            i <= n,
            n == tags@.len(),
            tvs == tags.deep_view(),
            tvs.len() == n,
            w.wf(),
            w.lines@ == base + dc_subjects_lines(tvs.take(i as int)),
        decreases n - i,
    {
        let t = &tags[i];
        proof {
            assert(tvs[i as int] == t.deep_view());
        }
        w.push_escaped_line("  <dc:subject>", t.tag.as_str(), "</dc:subject>");
        proof {
            assert(tvs.take(i as int + 1).drop_last() =~= tvs.take(i as int));
            assert(tvs.take(i as int + 1).last() == tvs[i as int]);
            assert(w.lines@ =~= base + dc_subjects_lines(tvs.take(i as int + 1)));
        }
        i = i + 1;
    }
    proof {
        assert(tvs.take(n as int) =~= tvs);
    }
}

/// Writes the leading half of the document: the root line, the identifier,
/// and the title, creator, date, description and type elements.
fn dc_head(item: &Record) -> (w: LineWriter)
    ensures
        w.wf(),
        w.lines@ == seq![dc_open(), dc_identifier_line(item.deep_view().library_key)]
            + dc_title_part(item.deep_view().title) + dc_creators_part(item.deep_view().creators)
            + dc_date_part(item.deep_view().date) + dc_description_part(
            item.deep_view().abstract_note,
        ) + dc_type_part(item.deep_view().item_type),
{
    let ghost rv = item.deep_view();
    let mut w = LineWriter::new(
        "<oai_dc:dc xmlns:oai_dc=\"http://www.openarchives.org/OAI/2.0/oai_dc/\" xmlns:dc=\"http://purl.org/dc/elements/1.1/\" xmlns:xsi=\"http://www.w3.org/2001/XMLSchema-instance\" xsi:schemaLocation=\"http://www.openarchives.org/OAI/2.0/oai_dc/ http://www.openarchives.org/OAI/2.0/oai_dc.xsd\">",
    );
    w.push_escaped_line("  <dc:identifier>", item.library_key.as_str(), "</dc:identifier>");
    let ghost l0 = seq![dc_open(), dc_identifier_line(rv.library_key)];
    proof {
        assert(w.lines@ =~= l0);
    }
    if let Some(title) = &item.title {
        w.push_escaped_line("  <dc:title>", title.as_str(), "</dc:title>");
    }
    let ghost l1 = l0 + dc_title_part(rv.title);
    proof {
        assert(w.lines@ =~= l1);
    }
    if let Some(creators) = &item.creators {
        push_dc_creators(&mut w, creators);
    }
    let ghost l2 = l1 + dc_creators_part(rv.creators);
    proof {
        assert(w.lines@ =~= l2);
    }
    if let Some(date) = &item.date {
        w.push_escaped_line("  <dc:date>", date.as_str(), "</dc:date>");
    }
    let ghost l3 = l2 + dc_date_part(rv.date);
    proof {
        assert(w.lines@ =~= l3);
    }
    if let Some(abstract_note) = &item.abstract_note {
        w.push_escaped_line("  <dc:description>", abstract_note.as_str(), "</dc:description>");
    }
    let ghost l4 = l3 + dc_description_part(rv.abstract_note);
    proof {
        assert(w.lines@ =~= l4);
    }
    if let Some(item_type) = &item.item_type {
        let term = dc_type_term(item_type.as_str());
        let mut line = "  <dc:type>".to_owned();
        line.append(term.as_str());
        line.append("</dc:type>");
        w.push_line(line.as_str());
    }
    proof {
        assert(w.lines@ =~= l4 + dc_type_part(rv.item_type));
    }
    w
}

/// Writes the trailing half of the document: the publisher, language, subject
/// and rights elements, and the closing line.
fn dc_tail(w: &mut LineWriter, item: &Record)
    requires
        old(w).wf(),
    ensures
        final(w).wf(),
        final(w).lines@ == old(w).lines@ + dc_publisher_part(item.deep_view().publisher)
            + dc_language_part(item.deep_view().language) + dc_subjects_part(item.deep_view().tags)
            + dc_rights_part(item.deep_view().rights) + seq![dc_close()],
{
    let ghost rv = item.deep_view();
    let ghost l5 = w.lines@;
    if let Some(publisher) = &item.publisher {
        w.push_escaped_line("  <dc:publisher>", publisher.as_str(), "</dc:publisher>");
    }
    let ghost l6 = l5 + dc_publisher_part(rv.publisher);
    proof {
        assert(w.lines@ =~= l6);
    }
    if let Some(language) = &item.language {
        w.push_escaped_line("  <dc:language>", language.as_str(), "</dc:language>");
    }
    let ghost l7 = l6 + dc_language_part(rv.language);
    proof {
        assert(w.lines@ =~= l7);
    }
    if let Some(tags) = &item.tags {
        push_dc_subjects(w, tags);
    }
    let ghost l8 = l7 + dc_subjects_part(rv.tags);
    proof {
        assert(w.lines@ =~= l8);
    }
    if let Some(rights) = &item.rights {
        w.push_escaped_line("  <dc:rights>", rights.as_str(), "</dc:rights>");
    }
    let ghost l9 = l8 + dc_rights_part(rv.rights);
    proof {
        assert(w.lines@ =~= l9);
    }
    w.push_line("</oai_dc:dc>");
    proof {
        assert(w.lines@ =~= l9 + seq![dc_close()]);
    }
}

/// Renders a record as a Dublin Core (`oai_dc`) XML document.
pub fn dc_from_record(item: &Record) -> (r: String)
    ensures
        r@ == spec_dc_doc(item.deep_view()),
{
    let ghost rv = item.deep_view();
    let mut w = dc_head(item);
    dc_tail(&mut w, item);
    proof {
        assert(w.lines@ =~= spec_dc_lines(rv));
    }
    w.finish()
}

/// A record with all optional fields absent yields only the root element,
/// the mandatory identifier line and the closing line.
pub proof fn lemma_dc_minimal(r: RecordView)
    requires
        crate::record::minimal_record(r),
    ensures
        spec_dc_lines(r) == seq![dc_open(), dc_identifier_line(r.library_key), dc_close()],
{
    assert(spec_dc_lines(r) =~= seq![dc_open(), dc_identifier_line(r.library_key), dc_close()]);
}

/// Adding a title to an otherwise-minimal record adds exactly its one line.
pub proof fn lemma_dc_add_title(r1: RecordView, r2: RecordView, t: Seq<char>)
    requires
        crate::record::minimal_record(r1),
        r2 == (RecordView { title: Some(t), ..r1 }),
    ensures
        spec_dc_lines(r1) == seq![dc_open(), dc_identifier_line(r1.library_key), dc_close()],
        spec_dc_lines(r2) == seq![
            dc_open(),
            dc_identifier_line(r1.library_key),
            dc_title_line(t),
            dc_close(),
        ],
{
    lemma_dc_minimal(r1);
    assert(spec_dc_lines(r2) =~= seq![
        dc_open(),
        dc_identifier_line(r1.library_key),
        dc_title_line(t),
        dc_close(),
    ]);
}

/// Adding one creator to an otherwise-minimal record adds exactly that
/// creator's line.
pub proof fn lemma_dc_add_creator(r1: RecordView, r2: RecordView, c: CreatorView)
    requires
        crate::record::minimal_record(r1),
        r2 == (RecordView { creators: Some(seq![c]), ..r1 }),
    ensures
        spec_dc_lines(r1) == seq![dc_open(), dc_identifier_line(r1.library_key), dc_close()],
        spec_dc_lines(r2) == seq![
            dc_open(),
            dc_identifier_line(r1.library_key),
            dc_creator_line(c),
            dc_close(),
        ],
{
    lemma_dc_minimal(r1);
    assert(seq![c].drop_last() =~= Seq::<CreatorView>::empty());
    assert(dc_creators_lines(Seq::<CreatorView>::empty()) == Seq::<Seq<char>>::empty());
    assert(dc_creators_lines(seq![c]) =~= seq![dc_creator_line(c)]);
    assert(spec_dc_lines(r2) =~= seq![
        dc_open(),
        dc_identifier_line(r1.library_key),
        dc_creator_line(c),
        dc_close(),
    ]);
}

/// Adding a date to an otherwise-minimal record adds exactly its one line.
pub proof fn lemma_dc_add_date(r1: RecordView, r2: RecordView, d: Seq<char>)
    requires
        crate::record::minimal_record(r1),
        r2 == (RecordView { date: Some(d), ..r1 }),
    ensures
        spec_dc_lines(r1) == seq![dc_open(), dc_identifier_line(r1.library_key), dc_close()],
        spec_dc_lines(r2) == seq![
            dc_open(),
            dc_identifier_line(r1.library_key),
            dc_date_line(d),
            dc_close(),
        ],
{
    lemma_dc_minimal(r1);
    assert(spec_dc_lines(r2) =~= seq![
        dc_open(),
        dc_identifier_line(r1.library_key),
        dc_date_line(d),
        dc_close(),
    ]);
}

/// Adding an abstract to an otherwise-minimal record adds exactly its one
/// description line.
pub proof fn lemma_dc_add_description(r1: RecordView, r2: RecordView, a: Seq<char>)
    requires
        crate::record::minimal_record(r1),
        r2 == (RecordView { abstract_note: Some(a), ..r1 }),
    ensures
        spec_dc_lines(r1) == seq![dc_open(), dc_identifier_line(r1.library_key), dc_close()],
        spec_dc_lines(r2) == seq![
            dc_open(),
            dc_identifier_line(r1.library_key),
            dc_description_line(a),
            dc_close(),
        ],
{
    lemma_dc_minimal(r1);
    assert(spec_dc_lines(r2) =~= seq![
        dc_open(),
        dc_identifier_line(r1.library_key),
        dc_description_line(a),
        dc_close(),
    ]);
}

/// Adding an item type to an otherwise-minimal record adds exactly its one
/// type line.
pub proof fn lemma_dc_add_type(r1: RecordView, r2: RecordView, t: Seq<char>)
    requires
        crate::record::minimal_record(r1),
        r2 == (RecordView { item_type: Some(t), ..r1 }),
    ensures
        spec_dc_lines(r1) == seq![dc_open(), dc_identifier_line(r1.library_key), dc_close()],
        spec_dc_lines(r2) == seq![
            dc_open(),
            dc_identifier_line(r1.library_key),
            dc_type_line(t),
            dc_close(),
        ],
{
    lemma_dc_minimal(r1);
    assert(spec_dc_lines(r2) =~= seq![
        dc_open(),
        dc_identifier_line(r1.library_key),
        dc_type_line(t),
        dc_close(),
    ]);
}

/// Adding a publisher to an otherwise-minimal record adds exactly its one
/// line.
pub proof fn lemma_dc_add_publisher(r1: RecordView, r2: RecordView, p: Seq<char>)
    requires
        crate::record::minimal_record(r1),
        r2 == (RecordView { publisher: Some(p), ..r1 }),
    ensures
        spec_dc_lines(r1) == seq![dc_open(), dc_identifier_line(r1.library_key), dc_close()],
        spec_dc_lines(r2) == seq![
            dc_open(),
            dc_identifier_line(r1.library_key),
            dc_publisher_line(p),
            dc_close(),
        ],
{
    lemma_dc_minimal(r1);
    assert(spec_dc_lines(r2) =~= seq![
        dc_open(),
        dc_identifier_line(r1.library_key),
        dc_publisher_line(p),
        dc_close(),
    ]);
}

/// Adding a language to an otherwise-minimal record adds exactly its one
/// line.
pub proof fn lemma_dc_add_language(r1: RecordView, r2: RecordView, l: Seq<char>)
    requires
        crate::record::minimal_record(r1),
        r2 == (RecordView { language: Some(l), ..r1 }),
    ensures
        spec_dc_lines(r1) == seq![dc_open(), dc_identifier_line(r1.library_key), dc_close()],
        spec_dc_lines(r2) == seq![
            dc_open(),
            dc_identifier_line(r1.library_key),
            dc_language_line(l),
            dc_close(),
        ],
{
    lemma_dc_minimal(r1);
    assert(spec_dc_lines(r2) =~= seq![
        dc_open(),
        dc_identifier_line(r1.library_key),
        dc_language_line(l),
        dc_close(),
    ]);
}

/// Adding one tag to an otherwise-minimal record adds exactly its one
/// subject line.
pub proof fn lemma_dc_add_tag(r1: RecordView, r2: RecordView, t: Seq<char>)
    requires
        crate::record::minimal_record(r1),
        r2 == (RecordView { tags: Some(seq![t]), ..r1 }),
    ensures
        spec_dc_lines(r1) == seq![dc_open(), dc_identifier_line(r1.library_key), dc_close()],
        spec_dc_lines(r2) == seq![
            dc_open(),
            dc_identifier_line(r1.library_key),
            dc_subject_line(t),
            dc_close(),
        ],
{
    lemma_dc_minimal(r1);
    assert(seq![t].drop_last() =~= Seq::<Seq<char>>::empty());
    assert(dc_subjects_lines(Seq::<Seq<char>>::empty()) == Seq::<Seq<char>>::empty());
    assert(dc_subjects_lines(seq![t]) =~= seq![dc_subject_line(t)]);
    assert(spec_dc_lines(r2) =~= seq![
        dc_open(),
        dc_identifier_line(r1.library_key),
        dc_subject_line(t),
        dc_close(),
    ]);
}

/// Adding a rights note to an otherwise-minimal record adds exactly its one
/// line.
pub proof fn lemma_dc_add_rights(r1: RecordView, r2: RecordView, rt: Seq<char>)
    requires
        crate::record::minimal_record(r1),
        r2 == (RecordView { rights: Some(rt), ..r1 }),
    ensures
        spec_dc_lines(r1) == seq![dc_open(), dc_identifier_line(r1.library_key), dc_close()],
        spec_dc_lines(r2) == seq![
            dc_open(),
            dc_identifier_line(r1.library_key),
            dc_rights_line(rt),
            dc_close(),
        ],
{
    lemma_dc_minimal(r1);
    assert(spec_dc_lines(r2) =~= seq![
        dc_open(),
        dc_identifier_line(r1.library_key),
        dc_rights_line(rt),
        dc_close(),
    ]);
}

/// Creator role mapping: the role `author` renders as `dc:creator`, the role
/// `editor` as `dc:contributor`, and either way the line carries the escaped
/// display name, which keeps the space between a present first name and the
/// last name.
pub proof fn lemma_dc_creator_role(c: CreatorView)
    ensures
        c.creator_type == "author"@ ==> dc_creator_line(c) == "  <dc:creator>"@ + spec_escape(
            spec_full_name(c),
        ) + "</dc:creator>"@,
        c.creator_type == "editor"@ ==> dc_creator_line(c) == "  <dc:contributor>"@ + spec_escape(
            spec_full_name(c),
        ) + "</dc:contributor>"@,
        c.first_name matches Some(f) ==> spec_full_name(c) == f + " "@ + c.last_name,
{
    reveal_strlit("author");
    reveal_strlit("creator");
    reveal_strlit("editor");
    assert("editor"@[0] == 'e' && "author"@[0] == 'a' && "creator"@[0] == 'c');
    assert("editor"@ != "author"@);
    assert("editor"@ != "creator"@);
}

/// Type vocabulary mapping: each vocabulary key yields its DCMI term, and
/// every other item type falls back to the default term `Text`.
pub proof fn lemma_dc_type_vocabulary(t: Seq<char>)
    ensures
        t == "book"@ || t == "journalArticle"@ || t == "conferencePaper"@ || t == "thesis"@
            ==> spec_dc_type(t) == "Text"@,
        t == "webpage"@ ==> spec_dc_type(t) == "InteractiveResource"@,
        t == "film"@ ==> spec_dc_type(t) == "MovingImage"@,
        t == "audioRecording"@ ==> spec_dc_type(t) == "Sound"@,
        t == "artwork"@ ==> spec_dc_type(t) == "Image"@,
        t != "book"@ && t != "journalArticle"@ && t != "conferencePaper"@ && t != "thesis"@ && t
            != "webpage"@ && t != "film"@ && t != "audioRecording"@ && t != "artwork"@
            ==> spec_dc_type(t) == "Text"@,
{
    reveal_strlit("book");
    reveal_strlit("journalArticle");
    reveal_strlit("conferencePaper");
    reveal_strlit("thesis");
    reveal_strlit("webpage");
    reveal_strlit("film");
    reveal_strlit("audioRecording");
    reveal_strlit("artwork");
    assert("book"@.len() == 4 && "journalArticle"@.len() == 14 && "conferencePaper"@.len() == 15
        && "thesis"@.len() == 6 && "webpage"@.len() == 7 && "film"@.len() == 4
        && "audioRecording"@.len() == 14 && "artwork"@.len() == 7);
    assert("book"@[0] == 'b' && "film"@[0] == 'f');
    assert("journalArticle"@[0] == 'j' && "audioRecording"@[0] == 'a');
    assert("webpage"@[0] == 'w' && "artwork"@[0] == 'a');
    let v = dc_vocabulary();
    assert(v.skip(0) =~= v);
    assert(v.skip(0).drop_first() =~= v.skip(1));
    assert(v.skip(1).drop_first() =~= v.skip(2));
    assert(v.skip(2).drop_first() =~= v.skip(3));
    assert(v.skip(3).drop_first() =~= v.skip(4));
    assert(v.skip(4).drop_first() =~= v.skip(5));
    assert(v.skip(5).drop_first() =~= v.skip(6));
    assert(v.skip(6).drop_first() =~= v.skip(7));
    assert(v.skip(7).drop_first() =~= v.skip(8));
    assert(v.skip(8).len() == 0);
    assert(spec_dc_type(t) == dc_lookup(v.skip(0), t));
    if t == "book"@ {
        assert(dc_lookup(v.skip(0), t) == "Text"@);
    } else {
        assert(dc_lookup(v.skip(0), t) == dc_lookup(v.skip(1), t));
        if t == "journalArticle"@ {
            assert(dc_lookup(v.skip(1), t) == "Text"@);
        } else {
            assert(dc_lookup(v.skip(1), t) == dc_lookup(v.skip(2), t));
            if t == "conferencePaper"@ {
                assert(dc_lookup(v.skip(2), t) == "Text"@);
            } else {
                assert(dc_lookup(v.skip(2), t) == dc_lookup(v.skip(3), t));
                if t == "thesis"@ {
                    assert(dc_lookup(v.skip(3), t) == "Text"@);
                } else {
                    assert(dc_lookup(v.skip(3), t) == dc_lookup(v.skip(4), t));
                    if t == "webpage"@ {
                        assert(dc_lookup(v.skip(4), t) == "InteractiveResource"@);
                    } else {
                        assert(dc_lookup(v.skip(4), t) == dc_lookup(v.skip(5), t));
                        if t == "film"@ {
                            assert(dc_lookup(v.skip(5), t) == "MovingImage"@);
                        } else {
                            assert(dc_lookup(v.skip(5), t) == dc_lookup(v.skip(6), t));
                            if t == "audioRecording"@ {
                                assert(dc_lookup(v.skip(6), t) == "Sound"@);
                            } else {
                                assert(dc_lookup(v.skip(6), t) == dc_lookup(v.skip(7), t));
                                if t == "artwork"@ {
                                    assert(dc_lookup(v.skip(7), t) == "Image"@);
                                } else {
                                    assert(dc_lookup(v.skip(7), t) == dc_lookup(v.skip(8), t));
                                    assert(dc_lookup(v.skip(8), t) == "Text"@);
                                }
                            }
                        }
                    }
                }
            }
        }
    }
}

/// The subject lines of a tag sequence: one per tag, in order.
pub proof fn lemma_dc_subjects_lines_map(ts: Seq<Seq<char>>)
    ensures
        dc_subjects_lines(ts).len() == ts.len(),
        forall|j: int| 0 <= j < ts.len() ==> dc_subjects_lines(ts)[j] == dc_subject_line(ts[j]),
    decreases ts.len(),
{
    if ts.len() == 0 {
    } else {
        lemma_dc_subjects_lines_map(ts.drop_last());
        assert forall|j: int| 0 <= j < ts.len() implies dc_subjects_lines(ts)[j] == dc_subject_line(
            ts[j],
        ) by {
            if j < ts.len() - 1 {
                assert(ts.drop_last()[j] == ts[j]);
                assert(dc_subjects_lines(ts)[j] == dc_subjects_lines(ts.drop_last())[j]);
            }
        }
    }
}

/// The subject lines of the tags stand whole at position `k` of the
/// document's lines, one per tag, in input order.
pub open spec fn dc_subjects_at(r: RecordView, ts: Seq<Seq<char>>, k: int) -> bool {
    &&& 0 <= k
    &&& k + ts.len() <= spec_dc_lines(r).len()
    &&& forall|j: int| 0 <= j < ts.len() ==> spec_dc_lines(r)[k + j] == dc_subject_line(ts[j])
}

/// Ordering preservation: the subject lines of a record's tags stand in the
/// document consecutively, one per tag, in input order.
pub proof fn lemma_dc_subject_order(r: RecordView, ts: Seq<Seq<char>>)
    requires
        r.tags == Some(ts),
    ensures
        exists|k: int| #[trigger] dc_subjects_at(r, ts, k),
{
    let pre = seq![dc_open(), dc_identifier_line(r.library_key)] + dc_title_part(r.title)
        + dc_creators_part(r.creators) + dc_date_part(r.date) + dc_description_part(
        r.abstract_note,
    ) + dc_type_part(r.item_type) + dc_publisher_part(r.publisher) + dc_language_part(r.language);
    let post = dc_rights_part(r.rights) + seq![dc_close()];
    assert(spec_dc_lines(r) =~= pre + dc_subjects_lines(ts) + post);
    lemma_dc_subjects_lines_map(ts);
    let k = pre.len() as int;
    assert forall|j: int| 0 <= j < ts.len() implies spec_dc_lines(r)[k + j] == dc_subject_line(
        ts[j],
    ) by {
        assert(spec_dc_lines(r)[k + j] == dc_subjects_lines(ts)[j]);
    }
    assert(dc_subjects_at(r, ts, k));
}

} // verus!
