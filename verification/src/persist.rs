//! The persistence pipeline up to the filesystem: what a save writes and
//! where, and what a load makes of what was read.

use vstd::prelude::*;
use crate::codec::decoded_fields;
use crate::codec::encoded_doc;
use crate::codec::to_string;
use crate::codec::to_struct;
use crate::format::SaveFormat;
use crate::paths::VaultConfig;
use crate::paths::build_path;
use crate::paths::resolve_spec;
use crate::record::VaultRecord;
use crate::record::is_default_record;

verus! {

/// Everything a save needs from this library: the resolved path of the
/// record and the serialized contents to write there, in full.
pub struct SavePlan {
    pub path: String,
    pub contents: String,
}

/// Prepares a save of `data` as the record `file_name`: resolves the path
/// under `dir` (or under the configured default directory when `dir` is
/// absent) and serializes `data` under `format`. Writing the returned
/// contents at the returned path, overwriting in full, completes the save.
pub fn save_plan(
    data: &VaultRecord,
    file_name: &str,
    dir: Option<&str>,
    config: &VaultConfig,
    format: SaveFormat,
) -> (r: SavePlan)
    ensures
        r.path@ == resolve_spec(
            file_name@,
            match dir {
                Some(d) => Some(d@),
                None => None,
            },
            config.dir_spec(),
            format,
        ),
        r.contents@ == encoded_doc(format, data.name@, data.value as int),
{
    let path = build_path(file_name, dir, config, format);
    let contents = to_string(data, format);
    SavePlan { path, contents }
}

/// Makes a record of what a load read from the record's file, `None`
/// standing for a read that failed (a missing, unreadable file). Never
/// fails: a failed read and a malformed document both give the default
/// record, a well-formed document gives exactly the record it carries.
pub fn loaded_or_default(format: SaveFormat, contents: Option<&str>) -> (r: VaultRecord)
    ensures
        contents is None ==> is_default_record(r),
        contents is Some ==> (match decoded_fields(format, contents->Some_0@) {
            Some(fields) => r.name@ == fields.0 && r.value as int == fields.1,
            None => is_default_record(r),
        }),
{
    match contents {
        Some(text) => match to_struct(format, text) {
            Ok(value) => value,
            Err(_) => VaultRecord::default(),
        },
        None => VaultRecord::default(),
    }
}

} // verus!
