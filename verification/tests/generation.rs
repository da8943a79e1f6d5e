use biblio_xml::dc::dc_from_record;
use biblio_xml::dc::dc_type_term;
use biblio_xml::escape::escape_xml;
use biblio_xml::generate_dc;
use biblio_xml::generate_mods;
use biblio_xml::mods::mods_from_record;
use biblio_xml::record::Creator;
use biblio_xml::record::Record;
use biblio_xml::record::Tag;

fn minimal_record(key: &str) -> Record {
    Record {
        library_key: key.to_string(),
        title: None,
        creators: None,
        date: None,
        abstract_note: None,
        item_type: None,
        publisher: None,
        language: None,
        rights: None,
        tags: None,
    }
}

const MODS_DECL: &str = "<?xml version=\"1.0\" encoding=\"UTF-8\"?>";
const MODS_OPEN: &str = "<mods xmlns=\"http://www.loc.gov/mods/v3\" xmlns:mods=\"http://www.loc.gov/mods/v3\" xmlns:xsi=\"http://www.w3.org/2001/XMLSchema-instance\" xmlns:xlink=\"http://www.w3.org/1999/xlink\" xsi:schemaLocation=\"http://www.loc.gov/mods/v3 http://www.loc.gov/standards/mods/mods.xsd\">";
const DC_OPEN: &str = "<oai_dc:dc xmlns:oai_dc=\"http://www.openarchives.org/OAI/2.0/oai_dc/\" xmlns:dc=\"http://purl.org/dc/elements/1.1/\" xmlns:xsi=\"http://www.w3.org/2001/XMLSchema-instance\" xsi:schemaLocation=\"http://www.openarchives.org/OAI/2.0/oai_dc/ http://www.openarchives.org/OAI/2.0/oai_dc.xsd\">";

#[test]
fn test_escape_xml() {
    assert_eq!(escape_xml("Test & <tag>"), "Test &amp; &lt;tag&gt;");
    assert_eq!(escape_xml("Quote \" test"), "Quote &quot; test");
}

#[test]
fn test_generate_mods() {
    let json = r#"{
        "libraryKey": "ABC123",
        "title": "Test Article",
        "creators": [
            {
                "firstName": "John",
                "lastName": "Doe",
                "creatorType": "author"
            }
        ],
        "date": "2024-01-01"
    }"#;

    let result = generate_mods(json);
    assert!(result.is_ok());

    let xml = result.unwrap();
    assert!(xml.contains("<title>Test Article</title>"));
    assert!(xml.contains("<namePart>John Doe</namePart>"));
    assert!(xml.contains("<dateIssued>2024-01-01</dateIssued>"));
}

#[test]
fn test_generate_dc() {
    let json = r#"{
        "libraryKey": "ABC123",
        "title": "Test Book",
        "itemType": "book"
    }"#;

    let result = generate_dc(json);
    assert!(result.is_ok());

    let xml = result.unwrap();
    assert!(xml.contains("<dc:identifier>ABC123</dc:identifier>"));
    assert!(xml.contains("<dc:title>Test Book</dc:title>"));
    assert!(xml.contains("<dc:type>Text</dc:type>"));
}

#[test]
fn escape_apostrophe_and_no_double_escaping() {
    assert_eq!(escape_xml("it's"), "it&apos;s");
    assert_eq!(escape_xml("a > b"), "a &gt; b");
    // an ampersand already in the input is escaped once, and the entities
    // written for other characters are not escaped again
    assert_eq!(escape_xml("&amp;"), "&amp;amp;");
    assert_eq!(escape_xml("<&>"), "&lt;&amp;&gt;");
    assert_eq!(escape_xml(""), "");
    let out = escape_xml("x < y & y > \"z\"");
    assert!(!out.contains('<'));
    assert!(!out.contains('>'));
    assert!(!out.contains('"'));
    assert!(!out.contains('\''));
}

#[test]
fn minimal_mods_document() {
    let doc = mods_from_record(&minimal_record("K1"));
    let expected = format!("{}\n{}\n</mods>", MODS_DECL, MODS_OPEN);
    assert_eq!(doc, expected);
}

#[test]
fn minimal_dc_document() {
    let doc = dc_from_record(&minimal_record("K1"));
    let expected = format!("{}\n  <dc:identifier>K1</dc:identifier>\n</oai_dc:dc>", DC_OPEN);
    assert_eq!(doc, expected);
}

#[test]
fn adding_one_field_adds_one_line() {
    let base = dc_from_record(&minimal_record("K"));
    let mut with_publisher = minimal_record("K");
    with_publisher.publisher = Some("Pub House".to_string());
    let doc = dc_from_record(&with_publisher);
    let base_lines: Vec<&str> = base.lines().collect();
    let doc_lines: Vec<&str> = doc.lines().collect();
    assert_eq!(doc_lines.len(), base_lines.len() + 1);
    assert_eq!(doc_lines[0], base_lines[0]);
    assert_eq!(doc_lines[1], base_lines[1]);
    assert_eq!(doc_lines[2], "  <dc:publisher>Pub House</dc:publisher>");
    assert_eq!(doc_lines[3], base_lines[2]);

    let mods_base = mods_from_record(&minimal_record("K"));
    let mut with_title = minimal_record("K");
    with_title.title = Some("T".to_string());
    let mods_doc = mods_from_record(&with_title);
    let mb: Vec<&str> = mods_base.lines().collect();
    let md: Vec<&str> = mods_doc.lines().collect();
    assert_eq!(md.len(), mb.len() + 1);
    assert_eq!(md[0], mb[0]);
    assert_eq!(md[1], mb[1]);
    assert_eq!(md[2], "  <titleInfo><title>T</title></titleInfo>");
    assert_eq!(md[3], mb[2]);
}

#[test]
fn dc_creator_role_mapping() {
    let json = r#"{
        "libraryKey": "K",
        "creators": [
            { "firstName": "John", "lastName": "Doe", "creatorType": "author" },
            { "firstName": "Eve", "lastName": "Lin", "creatorType": "editor" },
            { "lastName": "Solo", "creatorType": "creator" },
            { "lastName": "Anon", "creatorType": "" }
        ]
    }"#;
    let xml = generate_dc(json).unwrap();
    assert!(xml.contains("<dc:creator>John Doe</dc:creator>"));
    assert!(xml.contains("<dc:contributor>Eve Lin</dc:contributor>"));
    assert!(xml.contains("<dc:creator>Solo</dc:creator>"));
    assert!(xml.contains("<dc:contributor>Anon</dc:contributor>"));
}

#[test]
fn mods_creator_role_block() {
    let mut rec = minimal_record("K");
    rec.creators = Some(vec![
        Creator {
            first_name: Some("John".to_string()),
            last_name: "Doe".to_string(),
            creator_type: "editor".to_string(),
        },
        Creator {
            first_name: None,
            last_name: "Anon".to_string(),
            creator_type: "".to_string(),
        },
    ]);
    let xml = mods_from_record(&rec);
    assert!(xml.contains(
        "  <name type=\"personal\">\n    <namePart>John Doe</namePart>\n    <role>\n      <roleTerm type=\"text\">editor</roleTerm>\n    </role>\n  </name>"
    ));
    // an empty role emits no role block
    assert!(xml.contains(
        "  <name type=\"personal\">\n    <namePart>Anon</namePart>\n  </name>"
    ));
}

#[test]
fn dc_type_vocabulary_mapping() {
    assert_eq!(dc_type_term("book"), "Text");
    assert_eq!(dc_type_term("journalArticle"), "Text");
    assert_eq!(dc_type_term("conferencePaper"), "Text");
    assert_eq!(dc_type_term("thesis"), "Text");
    assert_eq!(dc_type_term("webpage"), "InteractiveResource");
    assert_eq!(dc_type_term("film"), "MovingImage");
    assert_eq!(dc_type_term("audioRecording"), "Sound");
    assert_eq!(dc_type_term("artwork"), "Image");
    assert_eq!(dc_type_term("unknownThing"), "Text");
    assert_eq!(dc_type_term(""), "Text");

    let xml = generate_dc(r#"{ "libraryKey": "K", "itemType": "webpage" }"#).unwrap();
    assert!(xml.contains("<dc:type>InteractiveResource</dc:type>"));
    let xml = generate_dc(r#"{ "libraryKey": "K", "itemType": "unknownThing" }"#).unwrap();
    assert!(xml.contains("<dc:type>Text</dc:type>"));
}

#[test]
fn dc_type_term_is_not_escaped_but_mods_type_is() {
    // the DC term is system-chosen and never escaped; the MODS type passes
    // the user text through, escaped
    let json = r#"{ "libraryKey": "K", "itemType": "a<b" }"#;
    let dc = generate_dc(json).unwrap();
    assert!(dc.contains("<dc:type>Text</dc:type>"));
    let mods = generate_mods(json).unwrap();
    assert!(mods.contains("<typeOfResource>a&lt;b</typeOfResource>"));
}

#[test]
fn dc_tag_ordering_preserved() {
    let json = r#"{ "libraryKey": "K", "tags": [ {"tag": "a"}, {"tag": "b"}, {"tag": "c"} ] }"#;
    let xml = generate_dc(json).unwrap();
    let lines: Vec<&str> = xml.lines().collect();
    assert_eq!(lines[2], "  <dc:subject>a</dc:subject>");
    assert_eq!(lines[3], "  <dc:subject>b</dc:subject>");
    assert_eq!(lines[4], "  <dc:subject>c</dc:subject>");
}

#[test]
fn full_document_shape() {
    let mut rec = minimal_record("KEY");
    rec.title = Some("A & B".to_string());
    rec.date = Some("2020".to_string());
    rec.abstract_note = Some("Sum".to_string());
    rec.item_type = Some("film".to_string());
    rec.publisher = Some("P".to_string());
    rec.language = Some("en".to_string());
    rec.rights = Some("CC".to_string());
    rec.tags = Some(vec![Tag { tag: "t1".to_string() }, Tag { tag: "t2".to_string() }]);
    let dc = dc_from_record(&rec);
    let expected = format!(
        "{}\n  <dc:identifier>KEY</dc:identifier>\n  <dc:title>A &amp; B</dc:title>\n  <dc:date>2020</dc:date>\n  <dc:description>Sum</dc:description>\n  <dc:type>MovingImage</dc:type>\n  <dc:publisher>P</dc:publisher>\n  <dc:language>en</dc:language>\n  <dc:subject>t1</dc:subject>\n  <dc:subject>t2</dc:subject>\n  <dc:rights>CC</dc:rights>\n</oai_dc:dc>",
        DC_OPEN
    );
    assert_eq!(dc, expected);

    let mods = mods_from_record(&rec);
    let expected_mods = format!(
        "{}\n{}\n  <titleInfo><title>A &amp; B</title></titleInfo>\n  <originInfo>\n    <dateIssued>2020</dateIssued>\n  </originInfo>\n  <abstract>Sum</abstract>\n  <typeOfResource>film</typeOfResource>\n</mods>",
        MODS_DECL, MODS_OPEN
    );
    assert_eq!(mods, expected_mods);
}

#[test]
fn full_name_spacing() {
    let with_first = Creator {
        first_name: Some("John".to_string()),
        last_name: "Doe".to_string(),
        creator_type: "author".to_string(),
    };
    assert_eq!(with_first.full_name(), "John Doe");
    let without_first = Creator {
        first_name: None,
        last_name: "Doe".to_string(),
        creator_type: "author".to_string(),
    };
    assert_eq!(without_first.full_name(), "Doe");
}

#[test]
fn decode_failure_malformed_json() {
    assert!(generate_mods("not json at all").is_err());
    assert!(generate_dc("not json at all").is_err());
    assert!(generate_mods("{ \"libraryKey\": ").is_err());
    assert!(generate_dc("").is_err());
}

#[test]
fn decode_failure_missing_last_name() {
    let json = r#"{ "libraryKey": "K", "creators": [ { "firstName": "John", "creatorType": "author" } ] }"#;
    assert!(generate_mods(json).is_err());
    assert!(generate_dc(json).is_err());
}

#[test]
fn decode_failure_wrong_shapes() {
    // the identifier is required
    assert!(generate_dc("{}").is_err());
    // a present field of the wrong type is rejected
    assert!(generate_dc(r#"{ "libraryKey": "K", "title": 5 }"#).is_err());
    assert!(generate_dc(r#"{ "libraryKey": "K", "creators": "nope" }"#).is_err());
    assert!(generate_dc(r#"{ "libraryKey": "K", "tags": [ {"tag": 3} ] }"#).is_err());
    assert!(generate_mods(r#"{ "libraryKey": 7 }"#).is_err());
}

#[test]
fn decode_tolerates_null_and_unknown_fields() {
    let json = r#"{ "libraryKey": "K", "title": null, "creators": null, "pages": "1-10" }"#;
    let xml = generate_dc(json).unwrap();
    assert!(!xml.contains("<dc:title>"));
    let expected = format!("{}\n  <dc:identifier>K</dc:identifier>\n</oai_dc:dc>", DC_OPEN);
    assert_eq!(xml, expected);
}

#[test]
fn unknown_nested_fields_ignored() {
    let plain = r#"{ "libraryKey": "K", "title": "T" }"#;
    let noisy = r#"{
        "libraryKey": "K",
        "extra": { "a": [1, 2, { "b": true }], "c": null },
        "title": "T",
        "count": 7,
        "flag": false
    }"#;
    assert_eq!(generate_dc(noisy).unwrap(), generate_dc(plain).unwrap());
    assert_eq!(generate_mods(noisy).unwrap(), generate_mods(plain).unwrap());
}

#[test]
fn decode_failure_non_object_entries_and_non_string_scalars() {
    // an array entry that is not an object has no lastName
    assert!(generate_dc(r#"{ "libraryKey": "K", "creators": ["x"] }"#).is_err());
    // booleans and numbers are not strings
    assert!(generate_dc(r#"{ "libraryKey": "K", "title": true }"#).is_err());
    assert!(generate_mods(r#"{ "libraryKey": "K", "date": 2024 }"#).is_err());
}

#[test]
fn empty_creators_and_tags_render_nothing() {
    let json = r#"{ "libraryKey": "K", "creators": [], "tags": [] }"#;
    let xml = generate_dc(json).unwrap();
    assert!(!xml.contains("<dc:creator>"));
    assert!(!xml.contains("<dc:contributor>"));
    assert!(!xml.contains("<dc:subject>"));
}
