//! The laws of path resolution, stated over the same spec functions that
//! the executable functions' contracts use.

use vstd::prelude::*;
use crate::format::SaveFormat;
use crate::paths::joined_path;
use crate::paths::resolve_spec;

verus! {

/// Law: a resolution that omits the directory is governed by the default
/// directory as it stands at resolution time. Once the default directory
/// is `d`, the resolved path lies under `d` — `d` is its prefix, followed
/// by the separator; and a resolution already completed against an earlier
/// default `e` keeps the path it computed, unaffected by the change.
pub proof fn lemma_default_dir_visibility(
    d: Seq<char>,
    e: Seq<char>,
    name: Seq<char>,
    format: SaveFormat,
)
    ensures
        resolve_spec(name, None, d, format) == joined_path(d, name, format.ext_spec()),
        resolve_spec(name, None, d, format).subrange(0, d.len() as int) =~= d,
        resolve_spec(name, None, e, format) == joined_path(e, name, format.ext_spec()),
{
}

/// Law: an explicit directory overrides the default entirely. The resolved
/// path of a call that names a directory is the same whatever the default
/// directory holds, and never reads it.
pub proof fn lemma_explicit_dir_overrides(
    dir: Seq<char>,
    c1: Seq<char>,
    c2: Seq<char>,
    name: Seq<char>,
    format: SaveFormat,
)
    ensures
        resolve_spec(name, Some(dir), c1, format) == resolve_spec(name, Some(dir), c2, format),
        resolve_spec(name, Some(dir), c1, format) == joined_path(dir, name, format.ext_spec()),
{
}

/// Law: the resolved path is the directory, then the separator, then a
/// file literally named `<record>.<extension>`; the extension is `json`
/// under `Json`, `yaml` under `Yaml`, and `toml` under `Toml`.
pub proof fn lemma_extension_correct(dir: Seq<char>, name: Seq<char>, format: SaveFormat)
    ensures
        joined_path(dir, name, format.ext_spec()).subrange(
            dir.len() as int + 1,
            joined_path(dir, name, format.ext_spec()).len() as int,
        ) =~= name + "."@ + format.ext_spec(),
        format == SaveFormat::Json ==> format.ext_spec() == "json"@,
        format == SaveFormat::Yaml ==> format.ext_spec() == "yaml"@,
        format == SaveFormat::Toml ==> format.ext_spec() == "toml"@,
{
    reveal_strlit("/");
}

/// Law: the encoding registry's extension strings are pairwise distinct,
/// lowercase ASCII letters throughout, and carry no leading dot.
pub proof fn lemma_extensions_well_formed()
    ensures
        SaveFormat::Json.ext_spec() != SaveFormat::Yaml.ext_spec(),
        SaveFormat::Json.ext_spec() != SaveFormat::Toml.ext_spec(),
        SaveFormat::Yaml.ext_spec() != SaveFormat::Toml.ext_spec(),
        forall|f: SaveFormat| (#[trigger] f.ext_spec()).len() == 4,
        forall|f: SaveFormat, i: int|
            0 <= i < 4 ==> 'a' <= #[trigger] f.ext_spec()[i] <= 'z',
{
    reveal_strlit("json");
    reveal_strlit("yaml");
    reveal_strlit("toml");
    assert(SaveFormat::Json.ext_spec()[0] != SaveFormat::Yaml.ext_spec()[0]);
    assert(SaveFormat::Json.ext_spec()[0] != SaveFormat::Toml.ext_spec()[0]);
    assert(SaveFormat::Yaml.ext_spec()[0] != SaveFormat::Toml.ext_spec()[0]);
}

} // verus!
