//! Conversion of bibliographic records into MODS and Dublin Core XML.
//!
//! A record arrives as JSON text; each generator decodes it into a [`record::Record`]
//! and renders a newline-joined XML document. All rendering logic is verified:
//! the escaper, the field mappings and the document layout are pinned down by
//! specification functions, and only the JSON parsing itself is trusted.

use vstd::prelude::*;

pub mod dc;
pub mod escape;
pub mod json;
pub mod lines;
pub mod mods;
pub mod record;
pub mod text;

use crate::dc::dc_from_record;
use crate::dc::spec_dc_doc;
use crate::json::json_model_of;
use crate::json::json_well_formed;
use crate::json::parse_json;
use crate::json::record_from_json;
use crate::json::spec_record_of;
use crate::mods::mods_from_record;
use crate::mods::spec_mods_doc;

verus! {

/// Converts a JSON record into a MODS XML document.
///
/// The conversion succeeds exactly when the text is well-formed JSON that
/// decodes into a record — ill-formed JSON, a missing identifier, or a
/// present field of the wrong shape all fail — and the output is that
/// record's MODS document, a function of the input text alone.
pub fn generate_mods(item_json: &str) -> (r: Result<String, String>)
    ensures
        r is Ok <==> json_well_formed(item_json@) && spec_record_of(json_model_of(item_json@))
            is Some,
        r matches Ok(doc) ==> spec_record_of(json_model_of(item_json@)) matches Some(rv)
            && doc@ == spec_mods_doc(rv),
{
    match parse_json(item_json) {
        Err(e) => Err(e),
        Ok(v) => match record_from_json(&v) {
            Err(e) => Err(e),
            Ok(rec) => {
                let doc = mods_from_record(&rec);
                proof {
                    assert(spec_record_of(json_model_of(item_json@)) == Some(rec.deep_view()));
                }
                Ok(doc)
            },
        },
    }
}

/// Converts a JSON record into a Dublin Core (`oai_dc`) XML document.
///
/// Success is exactly as for [`generate_mods`], and the output is the
/// decoded record's Dublin Core document, a function of the input text
/// alone.
pub fn generate_dc(item_json: &str) -> (r: Result<String, String>)
    ensures
        r is Ok <==> json_well_formed(item_json@) && spec_record_of(json_model_of(item_json@))
            is Some,
        r matches Ok(doc) ==> spec_record_of(json_model_of(item_json@)) matches Some(rv)
            && doc@ == spec_dc_doc(rv),
{
    match parse_json(item_json) {
        Err(e) => Err(e),
        Ok(v) => match record_from_json(&v) {
            Err(e) => Err(e),
            Ok(rec) => {
                let doc = dc_from_record(&rec);
                proof {
                    assert(spec_record_of(json_model_of(item_json@)) == Some(rec.deep_view()));
                }
                Ok(doc)
            },
        },
    }
}

} // verus!
