//! Localization lookup for a template-rendering host.
//!
//! Given a message identifier and an active language tag, the helper merges
//! the invocation's inline hash arguments with the named parameter blocks of
//! an attached child template into a single argument table, delegates the
//! lookup to a translation backend, and produces the text to write into the
//! render output, HTML-escaped or raw.
//!
//! The host hands the helper plain values: the evaluated positional and hash
//! arguments, the value of the root-scope `lang` variable, and the direct
//! children of the attached block with their bodies already rendered to text.
//! The backend is any implementation of [`TranslationBackend`]; its lookup is
//! total, so a missing translation never aborts a render.

mod args;
mod block;
mod error;
mod lang;
mod node;
mod resolve;
mod table;
mod text;
mod value;

pub use args::build_args;
pub use args::hash_table;
pub use args::lemma_hash_table_contains;
pub use args::lemma_hash_table_filter;

pub use block::apply_params;
pub use block::collect_block_params;
pub use block::lemma_apply_params_overrides;
pub use block::lemma_apply_params_untouched;
pub use block::merge_params;
pub use block::spec_child;
pub use block::spec_collect;

pub use error::ErrorView;
pub use error::FluentError;
pub use error::error_message;

pub use lang::language_tag_outcome;

pub use node::BlockArg;
pub use node::BlockNode;
pub use node::ChildNode;
pub use node::FluentParam;
pub use node::ParamView;
pub use node::params_view;

pub use resolve::FluentHelper;
pub use resolve::LookupRequest;
pub use resolve::LookupRequestView;
pub use resolve::TranslationBackend;
pub use resolve::children_view;
pub use resolve::lemma_no_arguments_no_table;
pub use resolve::prepare;
pub use resolve::spec_prepare;

pub use table::ArgumentTable;
pub use table::entries_map;
pub use table::lemma_entries_map_contains;
pub use table::lemma_entries_map_dom_len;
pub use table::lemma_entries_map_index;

pub use text::apply_escape;
pub use text::escape_char;
pub use text::escape_html;
pub use text::escape_seq;
pub use text::is_ws_char;
pub use text::lemma_escape_at;
pub use text::str_equal;
pub use text::trim_end_spec;
pub use text::trim_spec;
pub use text::trim_start_spec;
pub use text::trim_text;

pub use value::ArgValue;
pub use value::ArgValueView;
pub use value::JsonValue;
pub use value::keeps;
pub use value::to_arg;
