use vstd::prelude::*;

verus! {

/// Declares the host's JSON number type so values of it can be carried
/// through the argument table. The library never reads a number's contents;
/// it only moves whole values, so nothing further is assumed of the type.
#[verifier::external_type_specification]
#[verifier::external_body]
pub struct ExNumber(serde_json::Number);

/// A JSON-like scalar value as the host hands it to the helper.
///
/// Numbers and strings are the only kinds the translation lookup can use, so
/// only they carry their contents; the remaining kinds are dropped by the
/// argument builder and keep just their tag.
pub enum JsonValue {
    /// A JSON number, kept opaque.
    Number(serde_json::Number),
    /// A JSON string.
    Text(String),
    /// A JSON boolean.
    Bool(bool),
    /// JSON null.
    Null,
    /// A JSON array; its elements play no role here.
    Array,
    /// A JSON object; its members play no role here.
    Object,
}

/// A value of the argument table handed to the translation backend:
/// a number or a string.
pub enum ArgValue {
    /// A numeric argument, carried as the host's JSON number type.
    Number(serde_json::Number),
    /// A textual argument.
    Text(String),
}

/// The mathematical shape of an argument value: text is a sequence of
/// characters, numbers stay opaque.
pub enum ArgValueView {
    Number(serde_json::Number),
    Text(Seq<char>),
}

impl View for ArgValue {
    type V = ArgValueView;

    open spec fn view(&self) -> ArgValueView {
        match self {
            ArgValue::Number(n) => ArgValueView::Number(*n),
            ArgValue::Text(s) => ArgValueView::Text(s@),
        }
    }
}

/// Whether a hash-argument value survives the argument builder's filter:
/// numbers and strings do, every other kind is silently dropped.
pub open spec fn keeps(v: JsonValue) -> bool {
    v is Number || v is Text
}

/// The argument-table value that a kept hash-argument value becomes.
pub open spec fn to_arg(v: JsonValue) -> ArgValueView
    recommends
        keeps(v),
{
    match v {
        JsonValue::Number(n) => ArgValueView::Number(n),
        JsonValue::Text(s) => ArgValueView::Text(s@),
        _ => ArgValueView::Text(Seq::empty()),
    }
}

} // verus!
