use vstd::prelude::*;

use crate::value::JsonValue;

verus! {

/// An argument of a child block as the template wrote it: a literal value,
/// or something only render-time evaluation could resolve.
pub enum BlockArg {
    /// A literal JSON value written directly in the template source.
    Literal(JsonValue),
    /// A variable path or sub-expression; named parameter blocks reject
    /// these, their one argument must be a string literal.
    Dynamic,
}

/// A named child block of the helper's attached template, with its body
/// already rendered to text by the host.
pub struct BlockNode {
    /// The block's name.
    pub name: String,
    /// The block's arguments as written in the template.
    pub args: Vec<BlockArg>,
    /// The block's body, rendered to text through the host's buffering
    /// primitive.
    pub body: String,
}

/// A direct child of the helper's attached template. Only blocks matter to
/// parameter collection; text and expression children are ignored.
pub enum ChildNode {
    /// A named block child.
    Block(BlockNode),
    /// Any other node kind: plain text, an expression, a comment.
    Other,
}

/// One named parameter collected from a `fluentparam` child block: the
/// declared parameter name and the rendered, possibly trimmed, body text.
pub struct FluentParam {
    /// The parameter name, the block's single string-literal argument.
    pub name: String,
    /// The parameter's value, the block body rendered to text.
    pub value: String,
}

/// The mathematical shape of a collected parameter.
pub struct ParamView {
    pub name: Seq<char>,
    pub value: Seq<char>,
}

impl View for FluentParam {
    type V = ParamView;

    open spec fn view(&self) -> ParamView {
        ParamView { name: self.name@, value: self.value@ }
    }
}

/// The views of a sequence of collected parameters.
pub open spec fn params_view(s: Seq<FluentParam>) -> Seq<ParamView> {
    s.map_values(|p: FluentParam| p@)
}

} // verus!
