use vstd::prelude::*;

verus! {

/// Declares the translation library's structured locale identifier so that
/// parsed values can pass through to the backend; the helper never looks
/// inside one.
#[verifier::external_type_specification]
#[verifier::external_body]
pub struct ExLanguageIdentifier(fluent_templates::LanguageIdentifier);

/// What parsing a language tag yields: acceptance, or the parser's error
/// message. Both depend on the tag alone.
pub uninterp spec fn language_tag_outcome(tag: Seq<char>) -> Result<(), Seq<char>>;

/// Relies on str::parse::<fluent_templates::LanguageIdentifier> and on the
/// rendering of its error: whether a tag parses, and the message when it
/// does not, are functions of the tag alone.
#[verifier::external_body]
pub(crate) fn parse_language_tag(tag: &str) -> (r: Result<
    fluent_templates::LanguageIdentifier,
    String,
>)
    ensures
        r is Ok <==> language_tag_outcome(tag@) is Ok,
        r matches Err(m) ==> language_tag_outcome(tag@) matches Err(t) && m@ == t,
{
    match tag.parse::<fluent_templates::LanguageIdentifier>() {
        Ok(id) => Ok(id),
        Err(e) => Err(e.to_string()),
    }
}

} // verus!
