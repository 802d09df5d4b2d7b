//! Persists small structured records to disk under a choice of textual
//! encodings, deriving each file's path from a record name, a directory
//! (explicit or taken from a configurable default), and the encoding's
//! canonical extension.

mod codec;
mod format;
mod laws;
mod paths;
mod persist;
mod record;

pub use codec::EncodingError;
pub use codec::decoded_fields;
pub use codec::encoded_doc;
pub use codec::to_string;
pub use codec::to_struct;
pub use format::SaveFormat;
pub use laws::lemma_default_dir_visibility;
pub use laws::lemma_explicit_dir_overrides;
pub use laws::lemma_extension_correct;
pub use laws::lemma_extensions_well_formed;
pub use paths::VaultConfig;
pub use paths::build_path;
pub use paths::joined_path;
pub use paths::parent_dir;
pub use paths::parent_spec;
pub use paths::resolve_spec;
pub use persist::SavePlan;
pub use persist::loaded_or_default;
pub use persist::save_plan;
pub use record::VaultRecord;
pub use record::is_default_record;
