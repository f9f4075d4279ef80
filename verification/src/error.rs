use vstd::prelude::*;
use vstd::string::StringExecFns;

verus! {

/// Why a helper invocation was rejected. Every kind marks a
/// template-authoring or integration bug and aborts the render; a missing
/// translation is never an error, the backend resolves it to fallback text.
#[derive(Debug)]
pub enum FluentError {
    /// The root scope has no `lang` variable.
    MissingLanguageVariable,
    /// The root scope's `lang` variable is not a string.
    LanguageNotString,
    /// The `lang` value does not parse as a locale identifier; carries the
    /// parser's message verbatim.
    InvalidLanguageTag(String),
    /// The invocation supplied no positional argument for the message id.
    MissingMessageId,
    /// The first positional argument is not a string.
    MessageIdNotString,
    /// A named parameter block has more or fewer than one argument.
    InvalidParamBlockArity,
    /// A named parameter block's argument is not a string literal.
    InvalidParamBlockArgumentType,
    /// A child block of the helper is not a named parameter block; carries
    /// the offending block's name.
    UnexpectedChildBlock(String),
}

/// The mathematical shape of an error: the same kinds, with text as
/// character sequences.
pub enum ErrorView {
    MissingLanguageVariable,
    LanguageNotString,
    InvalidLanguageTag(Seq<char>),
    MissingMessageId,
    MessageIdNotString,
    InvalidParamBlockArity,
    InvalidParamBlockArgumentType,
    UnexpectedChildBlock(Seq<char>),
}

impl View for FluentError {
    type V = ErrorView;

    open spec fn view(&self) -> ErrorView {
        match self {
            FluentError::MissingLanguageVariable => ErrorView::MissingLanguageVariable,
            FluentError::LanguageNotString => ErrorView::LanguageNotString,
            FluentError::InvalidLanguageTag(m) => ErrorView::InvalidLanguageTag(m@),
            FluentError::MissingMessageId => ErrorView::MissingMessageId,
            FluentError::MessageIdNotString => ErrorView::MessageIdNotString,
            FluentError::InvalidParamBlockArity => ErrorView::InvalidParamBlockArity,
            FluentError::InvalidParamBlockArgumentType => ErrorView::InvalidParamBlockArgumentType,
            FluentError::UnexpectedChildBlock(n) => ErrorView::UnexpectedChildBlock(n@),
        }
    }
}

/// The human-readable description of each error kind. The invalid-tag kind
/// propagates the parser's message verbatim.
pub open spec fn error_message(e: ErrorView) -> Seq<char> {
    match e {
        ErrorView::MissingLanguageVariable =>
            "the fluent helper requires a 'lang' variable in the template data"@,
        ErrorView::LanguageNotString => "the 'lang' variable must be a string"@,
        ErrorView::InvalidLanguageTag(m) => m,
        ErrorView::MissingMessageId =>
            "the fluent helper expects a message identifier as its first argument"@,
        ErrorView::MessageIdNotString => "the message identifier must be a string"@,
        ErrorView::InvalidParamBlockArity =>
            "a 'fluentparam' block expects exactly one argument"@,
        ErrorView::InvalidParamBlockArgumentType =>
            "the argument of a 'fluentparam' block must be a string literal"@,
        ErrorView::UnexpectedChildBlock(n) =>
            "only 'fluentparam' blocks are allowed inside a fluent block, found '"@ + n
                + "'"@,
    }
}

impl FluentError {
    /// The error as render-time text.
    pub fn message(&self) -> (r: String)
        ensures
            r@ == error_message(self@),
    {
        match self {
            FluentError::MissingLanguageVariable => String::from_str(
                "the fluent helper requires a 'lang' variable in the template data",
            ),
            FluentError::LanguageNotString => String::from_str(
                "the 'lang' variable must be a string",
            ),
            FluentError::InvalidLanguageTag(m) => m.clone(),
            FluentError::MissingMessageId => String::from_str(
                "the fluent helper expects a message identifier as its first argument",
            ),
            FluentError::MessageIdNotString => String::from_str(
                "the message identifier must be a string",
            ),
            FluentError::InvalidParamBlockArity => String::from_str(
                "a 'fluentparam' block expects exactly one argument",
            ),
            FluentError::InvalidParamBlockArgumentType => String::from_str(
                "the argument of a 'fluentparam' block must be a string literal",
            ),
            FluentError::UnexpectedChildBlock(n) => {
                let mut out = String::from_str(
                    "only 'fluentparam' blocks are allowed inside a fluent block, found '",
                );
                out.append(n.as_str());
                out.append("'");
                out
            },
        }
    }
}

} // verus!
