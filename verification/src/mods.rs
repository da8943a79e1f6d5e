//! The MODS generator: one record becomes one MODS XML document.
//!
//! The document is a fixed sequence of lines; every optional field of the
//! record contributes its line or block exactly when it is present, in the
//! fixed order: title, creators, date, abstract, type of resource.

use vstd::prelude::*;
use crate::escape::spec_escape;
use crate::lines::LineWriter;
use crate::lines::spec_join;
use crate::record::Creator;
use crate::record::CreatorView;
use crate::record::Record;
use crate::record::RecordView;
use crate::record::spec_full_name;

verus! {

pub open spec fn xml_decl() -> Seq<char> {
    "<?xml version=\"1.0\" encoding=\"UTF-8\"?>"@
}

pub open spec fn mods_open() -> Seq<char> {
    "<mods xmlns=\"http://www.loc.gov/mods/v3\" xmlns:mods=\"http://www.loc.gov/mods/v3\" xmlns:xsi=\"http://www.w3.org/2001/XMLSchema-instance\" xmlns:xlink=\"http://www.w3.org/1999/xlink\" xsi:schemaLocation=\"http://www.loc.gov/mods/v3 http://www.loc.gov/standards/mods/mods.xsd\">"@
}

pub open spec fn mods_close() -> Seq<char> {
    "</mods>"@
}

pub open spec fn mods_title_line(t: Seq<char>) -> Seq<char> {
    "  <titleInfo><title>"@ + spec_escape(t) + "</title></titleInfo>"@
}

pub open spec fn mods_title_part(t: Option<Seq<char>>) -> Seq<Seq<char>> {
    match t {
        Some(t0) => seq![mods_title_line(t0)],
        None => Seq::empty(),
    }
}

pub open spec fn mods_name_part_line(c: CreatorView) -> Seq<char> {
    "    <namePart>"@ + spec_escape(spec_full_name(c)) + "</namePart>"@
}

pub open spec fn mods_role_term_line(ct: Seq<char>) -> Seq<char> {
    "      <roleTerm type=\"text\">"@ + spec_escape(ct) + "</roleTerm>"@
}

/// The role block inside a name: present only for a non-empty creator type.
pub open spec fn mods_role_part(ct: Seq<char>) -> Seq<Seq<char>> {
    if ct.len() == 0 {
        Seq::empty()
    } else {
        seq!["    <role>"@, mods_role_term_line(ct), "    </role>"@]
    }
}

/// The lines of one personal-name block.
pub open spec fn mods_creator_block(c: CreatorView) -> Seq<Seq<char>> {
    seq!["  <name type=\"personal\">"@, mods_name_part_line(c)] + mods_role_part(c.creator_type)
        + seq!["  </name>"@]
}

pub open spec fn mods_creators_lines(cs: Seq<CreatorView>) -> Seq<Seq<char>>
    decreases cs.len(),
{
    if cs.len() == 0 {
        Seq::empty()
    } else {
        mods_creators_lines(cs.drop_last()) + mods_creator_block(cs.last())
    }
}

pub open spec fn mods_creators_part(cs: Option<Seq<CreatorView>>) -> Seq<Seq<char>> {
    match cs {
        Some(cs0) => mods_creators_lines(cs0),
        None => Seq::empty(),
    }
}

pub open spec fn mods_date_line(d: Seq<char>) -> Seq<char> {
    "    <dateIssued>"@ + spec_escape(d) + "</dateIssued>"@
}

pub open spec fn mods_date_part(d: Option<Seq<char>>) -> Seq<Seq<char>> {
    match d {
        Some(d0) => seq!["  <originInfo>"@, mods_date_line(d0), "  </originInfo>"@],
        None => Seq::empty(),
    }
}

pub open spec fn mods_abstract_line(a: Seq<char>) -> Seq<char> {
    "  <abstract>"@ + spec_escape(a) + "</abstract>"@
}

pub open spec fn mods_abstract_part(a: Option<Seq<char>>) -> Seq<Seq<char>> {
    match a {
        Some(a0) => seq![mods_abstract_line(a0)],
        None => Seq::empty(),
    }
}

pub open spec fn mods_type_line(t: Seq<char>) -> Seq<char> {
    "  <typeOfResource>"@ + spec_escape(t) + "</typeOfResource>"@
}

pub open spec fn mods_type_part(t: Option<Seq<char>>) -> Seq<Seq<char>> {
    match t {
        Some(t0) => seq![mods_type_line(t0)],
        None => Seq::empty(),
    }
}

/// Every line of the MODS document for a record, in order.
pub open spec fn spec_mods_lines(r: RecordView) -> Seq<Seq<char>> {
    seq![xml_decl(), mods_open()] + mods_title_part(r.title) + mods_creators_part(r.creators)
        + mods_date_part(r.date) + mods_abstract_part(r.abstract_note) + mods_type_part(
        r.item_type,
    ) + seq![mods_close()]
}

/// The whole MODS document: its lines joined with newlines.
pub open spec fn spec_mods_doc(r: RecordView) -> Seq<char> {
    spec_join(spec_mods_lines(r))
}

/// A record with all optional fields absent yields only the declaration, the
/// root element and its closing line.
pub proof fn lemma_mods_minimal(r: RecordView)
    requires
        crate::record::minimal_record(r),
    ensures
        spec_mods_lines(r) == seq![xml_decl(), mods_open(), mods_close()],
{
    assert(spec_mods_lines(r) =~= seq![xml_decl(), mods_open(), mods_close()]);
}

/// Adding a title to an otherwise-minimal record adds exactly its one line,
/// leaving every other line as it was.
pub proof fn lemma_mods_add_title(r1: RecordView, r2: RecordView, t: Seq<char>)
    requires
        crate::record::minimal_record(r1),
        r2 == (RecordView { title: Some(t), ..r1 }),
    ensures
        spec_mods_lines(r1) == seq![xml_decl(), mods_open(), mods_close()],
        spec_mods_lines(r2) == seq![xml_decl(), mods_open(), mods_title_line(t), mods_close()],
{
    lemma_mods_minimal(r1);
    assert(spec_mods_lines(r2) =~= seq![xml_decl(), mods_open(), mods_title_line(t), mods_close()]);
}

/// Adding one creator to an otherwise-minimal record adds exactly that
/// creator's name block.
pub proof fn lemma_mods_add_creator(r1: RecordView, r2: RecordView, c: CreatorView)
    requires
        crate::record::minimal_record(r1),
        r2 == (RecordView { creators: Some(seq![c]), ..r1 }),
    ensures
        spec_mods_lines(r1) == seq![xml_decl(), mods_open(), mods_close()],
        spec_mods_lines(r2) == seq![xml_decl(), mods_open()] + mods_creator_block(c) + seq![
            mods_close(),
        ],
{
    lemma_mods_minimal(r1);
    assert(seq![c].drop_last() =~= Seq::<CreatorView>::empty());
    assert(mods_creators_lines(Seq::<CreatorView>::empty()) == Seq::<Seq<char>>::empty());
    assert(mods_creators_lines(seq![c]) =~= mods_creator_block(c));
    assert(spec_mods_lines(r2) =~= seq![xml_decl(), mods_open()] + mods_creator_block(c) + seq![
        mods_close(),
    ]);
}

/// Adding a date to an otherwise-minimal record adds exactly its one block.
pub proof fn lemma_mods_add_date(r1: RecordView, r2: RecordView, d: Seq<char>)
    requires
        crate::record::minimal_record(r1),
        r2 == (RecordView { date: Some(d), ..r1 }),
    ensures
        spec_mods_lines(r1) == seq![xml_decl(), mods_open(), mods_close()],
        spec_mods_lines(r2) == seq![
            xml_decl(),
            mods_open(),
            "  <originInfo>"@,
            mods_date_line(d),
            "  </originInfo>"@,
            mods_close(),
        ],
{
    lemma_mods_minimal(r1);
    assert(spec_mods_lines(r2) =~= seq![
        xml_decl(),
        mods_open(),
        "  <originInfo>"@,
        mods_date_line(d),
        "  </originInfo>"@,
        mods_close(),
    ]);
}

/// Adding an abstract to an otherwise-minimal record adds exactly its one
/// line.
pub proof fn lemma_mods_add_abstract(r1: RecordView, r2: RecordView, a: Seq<char>)
    requires
        crate::record::minimal_record(r1),
        r2 == (RecordView { abstract_note: Some(a), ..r1 }),
    ensures
        spec_mods_lines(r1) == seq![xml_decl(), mods_open(), mods_close()],
        spec_mods_lines(r2) == seq![xml_decl(), mods_open(), mods_abstract_line(a), mods_close()],
{
    lemma_mods_minimal(r1);
    assert(spec_mods_lines(r2) =~= seq![
        xml_decl(),
        mods_open(),
        mods_abstract_line(a),
        mods_close(),
    ]);
}

/// Adding an item type to an otherwise-minimal record adds exactly its one
/// line.
pub proof fn lemma_mods_add_type(r1: RecordView, r2: RecordView, t: Seq<char>)
    requires
        crate::record::minimal_record(r1),
        r2 == (RecordView { item_type: Some(t), ..r1 }),
    ensures
        spec_mods_lines(r1) == seq![xml_decl(), mods_open(), mods_close()],
        spec_mods_lines(r2) == seq![xml_decl(), mods_open(), mods_type_line(t), mods_close()],
{
    lemma_mods_minimal(r1);
    assert(spec_mods_lines(r2) =~= seq![xml_decl(), mods_open(), mods_type_line(t), mods_close()]);
}

/// Writes the blocks of all creators, in input order.
fn push_mods_creators(w: &mut LineWriter, creators: &Vec<Creator>)
    requires
        old(w).wf(),
    ensures
        final(w).wf(),
        final(w).lines@ == old(w).lines@ + mods_creators_lines(creators.deep_view()),
{
    let ghost base = w.lines@;
    let ghost cvs = creators.deep_view();
    let n = creators.len();
    let mut i: usize = 0;
    while i < n
        invariant
            i <= n,
            n == creators@.len(),
            cvs == creators.deep_view(),
            cvs.len() == n,
            w.wf(),
            w.lines@ == base + mods_creators_lines(cvs.take(i as int)),
        decreases n - i,
    {
        let c = &creators[i];
        proof {
            assert(cvs[i as int] == c.deep_view());
        }
        let ghost before = w.lines@;
        w.push_line("  <name type=\"personal\">");
        let name = c.full_name();
        w.push_escaped_line("    <namePart>", name.as_str(), "</namePart>");
        if !c.creator_type.as_str().is_empty() {
            w.push_line("    <role>");
            w.push_escaped_line("      <roleTerm type=\"text\">", c.creator_type.as_str(), "</roleTerm>");
            w.push_line("    </role>");
        }
        w.push_line("  </name>");
        proof {
            assert(w.lines@ =~= before + mods_creator_block(cvs[i as int]));
            assert(cvs.take(i as int + 1).drop_last() =~= cvs.take(i as int));
            assert(cvs.take(i as int + 1).last() == cvs[i as int]);
            assert(w.lines@ =~= base + mods_creators_lines(cvs.take(i as int + 1)));
        }
        i = i + 1;
    }
    proof {
        assert(cvs.take(n as int) =~= cvs);
    }
}

/// Renders a record as a MODS XML document.
pub fn mods_from_record(item: &Record) -> (r: String)
    ensures
        r@ == spec_mods_doc(item.deep_view()),
{
    let ghost rv = item.deep_view();
    let mut w = LineWriter::new("<?xml version=\"1.0\" encoding=\"UTF-8\"?>");
    w.push_line(
        "<mods xmlns=\"http://www.loc.gov/mods/v3\" xmlns:mods=\"http://www.loc.gov/mods/v3\" xmlns:xsi=\"http://www.w3.org/2001/XMLSchema-instance\" xmlns:xlink=\"http://www.w3.org/1999/xlink\" xsi:schemaLocation=\"http://www.loc.gov/mods/v3 http://www.loc.gov/standards/mods/mods.xsd\">",
    );
    let ghost l0 = seq![xml_decl(), mods_open()];
    proof {
        assert(w.lines@ =~= l0);
    }
    if let Some(title) = &item.title {
        w.push_escaped_line("  <titleInfo><title>", title.as_str(), "</title></titleInfo>");
    }
    let ghost l1 = l0 + mods_title_part(rv.title);
    proof {
        assert(w.lines@ =~= l1);
    }
    if let Some(creators) = &item.creators {
        push_mods_creators(&mut w, creators);
    }
    let ghost l2 = l1 + mods_creators_part(rv.creators);
    proof {
        assert(w.lines@ =~= l2);
    }
    if let Some(date) = &item.date {
        w.push_line("  <originInfo>");
        w.push_escaped_line("    <dateIssued>", date.as_str(), "</dateIssued>");
        w.push_line("  </originInfo>");
    }
    let ghost l3 = l2 + mods_date_part(rv.date);
    proof {
        assert(w.lines@ =~= l3);
    }
    if let Some(abstract_note) = &item.abstract_note {
        w.push_escaped_line("  <abstract>", abstract_note.as_str(), "</abstract>");
    }
    let ghost l4 = l3 + mods_abstract_part(rv.abstract_note);
    proof {
        assert(w.lines@ =~= l4);
    }
    if let Some(item_type) = &item.item_type {
        w.push_escaped_line("  <typeOfResource>", item_type.as_str(), "</typeOfResource>");
    }
    let ghost l5 = l4 + mods_type_part(rv.item_type);
    proof {
        assert(w.lines@ =~= l5);
    }
    w.push_line("</mods>");
    proof {
        assert(w.lines@ =~= spec_mods_lines(rv));
    }
    w.finish()
}

} // verus!
