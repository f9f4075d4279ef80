use vstd::prelude::*;

use crate::args::build_args;
use crate::args::hash_table;
use crate::block::apply_params;
use crate::block::collect_block_params;
use crate::block::merge_params;
use crate::block::spec_collect;
use crate::error::ErrorView;
use crate::error::FluentError;
use crate::lang::language_tag_outcome;
use crate::lang::parse_language_tag;
use crate::node::ChildNode;
use crate::table::ArgumentTable;
use crate::text::apply_escape;
use crate::value::ArgValueView;
use crate::value::JsonValue;

verus! {

/// A fully validated lookup request: the parsed language, the message id,
/// and the merged argument table.
pub struct LookupRequest {
    /// The parsed locale identifier.
    pub lang: fluent_templates::LanguageIdentifier,
    /// The message identifier, the invocation's first positional argument.
    pub message_id: String,
    /// The merged argument table; `None` when the invocation supplied no
    /// hash arguments and attached no block.
    pub args: Option<ArgumentTable>,
}

/// The mathematical shape of a lookup request; the locale identifier stays
/// opaque and is not part of it.
pub struct LookupRequestView {
    pub message_id: Seq<char>,
    pub args: Option<Map<Seq<char>, ArgValueView>>,
}

impl View for LookupRequest {
    type V = LookupRequestView;

    open spec fn view(&self) -> LookupRequestView {
        LookupRequestView {
            message_id: self.message_id@,
            args: match self.args {
                Some(t) => Some(t@),
                None => None,
            },
        }
    }
}

impl LookupRequest {
    /// The argument table, when present, has pairwise-distinct names.
    pub open spec fn args_wf(&self) -> bool {
        match self.args {
            Some(t) => t.wf(),
            None => true,
        }
    }
}

/// The views of the direct children of an attached block, when one is there.
pub open spec fn children_view(children: Option<Vec<ChildNode>>) -> Option<Seq<ChildNode>> {
    match children {
        Some(v) => Some(v@),
        None => None,
    }
}

/// What preparing an invocation yields: the id and hash arguments are
/// checked first, then the `lang` variable, then its tag is parsed, and last
/// the attached block's named parameters are collected and merged over the
/// hash arguments. The request's table is `None` exactly when there are no
/// hash arguments and no attached block.
pub open spec fn spec_prepare(
    lang_value: Option<JsonValue>,
    positional: Seq<JsonValue>,
    hash: Seq<(String, JsonValue)>,
    children: Option<Seq<ChildNode>>,
    trim: bool,
) -> Result<LookupRequestView, ErrorView> {
    if positional.len() == 0 {
        Err(ErrorView::MissingMessageId)
    } else if !(positional[0] is Text) {
        Err(ErrorView::MessageIdNotString)
    } else {
        match lang_value {
            None => Err(ErrorView::MissingLanguageVariable),
            Some(lv) => {
                if !(lv is Text) {
                    Err(ErrorView::LanguageNotString)
                } else {
                    match language_tag_outcome(lv->Text_0@) {
                        Err(m) => Err(ErrorView::InvalidLanguageTag(m)),
                        Ok(_) => {
                            let id = positional[0]->Text_0@;
                            match children {
                                None => Ok(
                                    LookupRequestView {
                                        message_id: id,
                                        args: if hash.len() > 0 {
                                            Some(hash_table(hash))
                                        } else {
                                            None
                                        },
                                    },
                                ),
                                Some(cs) => match spec_collect(cs, trim) {
                                    Err(e) => Err(e),
                                    Ok(ps) => Ok(
                                        LookupRequestView {
                                            message_id: id,
                                            args: Some(
                                                apply_params(
                                                    if hash.len() > 0 {
                                                        hash_table(hash)
                                                    } else {
                                                        Map::empty()
                                                    },
                                                    ps,
                                                ),
                                            ),
                                        },
                                    ),
                                },
                            }
                        },
                    }
                }
            },
        }
    }
}

/// Validate an invocation and build the backend request: check the message
/// id, fetch and parse the `lang` value, build the argument table from the
/// hash arguments, and merge in the attached block's named parameters,
/// later sources overriding earlier ones.
pub fn prepare(
    lang_value: Option<JsonValue>,
    positional: Vec<JsonValue>,
    hash: Vec<(String, JsonValue)>,
    children: Option<Vec<ChildNode>>,
    trim: bool,
) -> (r: Result<LookupRequest, FluentError>)
    ensures
        match spec_prepare(lang_value, positional@, hash@, children_view(children), trim) {
            Ok(rv) => r matches Ok(req) && req@ == rv && req.args_wf(),
            Err(ev) => r matches Err(e) && e@ == ev,
        },
{
    let mut positional = positional;
    if positional.len() == 0 {
        return Err(FluentError::MissingMessageId);
    }
    let first = positional.remove(0);
    let message_id = match first {
        JsonValue::Text(s) => s,
        _ => {
            return Err(FluentError::MessageIdNotString);
        },
    };
    let lang = match lang_value {
        None => {
            return Err(FluentError::MissingLanguageVariable);
        },
        Some(JsonValue::Text(s)) => s,
        Some(_) => {
            return Err(FluentError::LanguageNotString);
        },
    };
    let lang_id = match parse_language_tag(lang.as_str()) {
        Ok(id) => id,
        Err(m) => {
            return Err(FluentError::InvalidLanguageTag(m));
        },
    };
    let built = build_args(hash);
    let args = match children {
        None => built,
        Some(cs) => {
            let mut table = match built {
                Some(t) => t,
                None => ArgumentTable::new(),
            };
            match collect_block_params(cs, trim) {
                Ok(params) => {
                    merge_params(&mut table, params);
                },
                Err(e) => {
                    return Err(e);
                },
            }
            Some(table)
        },
    };
    Ok(LookupRequest { lang: lang_id, message_id, args })
}

/// The translation backend: one total lookup, resolving a language, a
/// message id and an optional argument table to the complete message text.
/// A missing message or argument is the backend's to handle; it answers with
/// fallback text and never fails, so a translation miss cannot abort a
/// render.
pub trait TranslationBackend {
    /// Resolve the message under `message_id` for `lang`, interpolating
    /// `args` when given.
    fn lookup_complete(
        &self,
        lang: &fluent_templates::LanguageIdentifier,
        message_id: &str,
        args: Option<&ArgumentTable>,
    ) -> String;
}

/// The localization helper: resolves a message through its translation
/// backend and renders it for output.
pub struct FluentHelper<B: TranslationBackend> {
    /// The translation backend, supplied at construction and shared,
    /// read-only, by every invocation.
    pub backend: B,
    /// Escape messages for HTML before writing; the default is `true`.
    pub escape: bool,
    /// Strip leading and trailing whitespace from named parameter block
    /// bodies; the default is `false`.
    pub trim: bool,
}

impl<B: TranslationBackend> FluentHelper<B> {
    /// Create a new fluent helper.
    ///
    /// Messages are resolved using the given backend; output is escaped
    /// and parameter-block bodies are kept verbatim until the flags say
    /// otherwise.
    pub fn new(backend: B) -> (r: Self)
        ensures
            r.backend == backend,
            r.escape == true,
            r.trim == false,
    {
        FluentHelper { backend, escape: true, trim: false }
    }

    /// Resolve one invocation: validate it, look the message up through the
    /// backend, and return the text to write, HTML-escaped when `escape` is
    /// set. Fails exactly when preparing the invocation fails, with that
    /// error; the lookup itself and the escaping cannot fail.
    pub fn render(
        &self,
        lang_value: Option<JsonValue>,
        positional: Vec<JsonValue>,
        hash: Vec<(String, JsonValue)>,
        children: Option<Vec<ChildNode>>,
    ) -> (r: Result<String, FluentError>)
        ensures
            match spec_prepare(lang_value, positional@, hash@, children_view(children), self.trim) {
                Ok(rv) => r is Ok,
                Err(ev) => r matches Err(e) && e@ == ev,
            },
    {
        let req = match prepare(lang_value, positional, hash, children, self.trim) {
            Ok(req) => req,
            Err(e) => {
                return Err(e);
            },
        };
        let message = self.backend.lookup_complete(
            &req.lang,
            req.message_id.as_str(),
            req.args.as_ref(),
        );
        Ok(apply_escape(message.as_str(), self.escape))
    }
}

/// An invocation's request carries no argument table exactly when the
/// invocation supplied no hash arguments and attached no block: "no
/// arguments" reaches the backend distinctly from "empty arguments".
pub proof fn lemma_no_arguments_no_table(
    lang_value: Option<JsonValue>,
    positional: Seq<JsonValue>,
    hash: Seq<(String, JsonValue)>,
    children: Option<Seq<ChildNode>>,
    trim: bool,
)
    ensures
        spec_prepare(lang_value, positional, hash, children, trim) matches Ok(rv) ==> (
        rv.args is None <==> hash.len() == 0 && children is None),
{
}

} // verus!
