use vstd::prelude::*;

use crate::error::ErrorView;
use crate::error::FluentError;
use crate::node::BlockArg;
use crate::node::ChildNode;
use crate::node::FluentParam;
use crate::node::ParamView;
use crate::node::params_view;
use crate::table::ArgumentTable;
use crate::text::str_equal;
use crate::text::trim_spec;
use crate::text::trim_text;
use crate::value::ArgValue;
use crate::value::ArgValueView;
use crate::value::JsonValue;

verus! {

/// What one direct child contributes to parameter collection: nothing for a
/// non-block child, one named parameter for a well-formed `fluentparam`
/// block, an error otherwise.
pub open spec fn spec_child(c: ChildNode, trim: bool) -> Result<Option<ParamView>, ErrorView> {
    match c {
        ChildNode::Other => Ok(None),
        ChildNode::Block(b) => {
            if b.name@ != "fluentparam"@ {
                Err(ErrorView::UnexpectedChildBlock(b.name@))
            } else if b.args@.len() != 1 {
                Err(ErrorView::InvalidParamBlockArity)
            } else {
                match b.args@[0] {
                    BlockArg::Literal(JsonValue::Text(s)) => Ok(
                        Some(
                            ParamView {
                                name: s@,
                                value: if trim {
                                    trim_spec(b.body@)
                                } else {
                                    b.body@
                                },
                            },
                        ),
                    ),
                    _ => Err(ErrorView::InvalidParamBlockArgumentType),
                }
            }
        },
    }
}

/// The named parameters that the attached block's children yield, in order,
/// or the first offending child's error.
pub open spec fn spec_collect(children: Seq<ChildNode>, trim: bool) -> Result<
    Seq<ParamView>,
    ErrorView,
>
    decreases children.len(),
{
    if children.len() == 0 {
        Ok(Seq::empty())
    } else {
        match spec_child(children[0], trim) {
            Err(e) => Err(e),
            Ok(head) => match spec_collect(children.drop_first(), trim) {
                Err(e) => Err(e),
                Ok(rest) => Ok(
                    match head {
                        Some(p) => seq![p] + rest,
                        None => rest,
                    },
                ),
            },
        }
    }
}

/// Collect the named parameters of the attached block's direct children.
/// Every `fluentparam` child must carry exactly one argument, a string
/// literal naming the parameter; its rendered body, trimmed when `trim` is
/// set, becomes the parameter's value. A block child under any other name is
/// an error; non-block children are ignored.
#[verifier::loop_isolation(false)]
pub fn collect_block_params(children: Vec<ChildNode>, trim: bool) -> (r: Result<
    Vec<FluentParam>,
    FluentError,
>)
    ensures
        match spec_collect(children@, trim) {
            Ok(ps) => r matches Ok(v) && params_view(v@) == ps,
            Err(ev) => r matches Err(e) && e@ == ev,
        },
{
    let ghost orig = children@;
    let mut rest = children;
    let mut out: Vec<FluentParam> = Vec::new();
    while rest.len() > 0
        invariant
            spec_collect(orig, trim) == match spec_collect(rest@, trim) {
                Ok(ps) => Ok::<Seq<ParamView>, ErrorView>(params_view(out@) + ps),
                Err(e) => Err::<Seq<ParamView>, ErrorView>(e),
            },
        decreases rest@.len(),
    {
        let ghost before = rest@;
        let child = rest.remove(0);
        proof {
            assert(rest@ =~= before.drop_first());
            assert(child == before[0]);
        }
        match child {
            ChildNode::Other => {},
            ChildNode::Block(b) => {
                if !str_equal(b.name.as_str(), "fluentparam") {
                    return Err(FluentError::UnexpectedChildBlock(b.name));
                }
                if b.args.len() != 1 {
                    return Err(FluentError::InvalidParamBlockArity);
                }
                let mut args = b.args;
                let arg = args.remove(0);
                match arg {
                    BlockArg::Literal(JsonValue::Text(s)) => {
                        let value = if trim {
                            trim_text(b.body.as_str())
                        } else {
                            b.body
                        };
                        let param = FluentParam { name: s, value };
                        let ghost p = param@;
                        let ghost prev_out = out@;
                        proof {
                            assert(spec_child(before[0], trim) == Ok::<
                                Option<ParamView>,
                                ErrorView,
                            >(Some(p)));
                        }
                        out.push(param);
                        proof {
                            assert(params_view(out@) =~= params_view(prev_out).push(p));
                            match spec_collect(rest@, trim) {
                                Ok(ps) => {
                                    assert(params_view(prev_out) + (seq![p] + ps)
                                        =~= params_view(out@) + ps);
                                },
                                Err(_) => {},
                            }
                        }
                    },
                    _ => {
                        return Err(FluentError::InvalidParamBlockArgumentType);
                    },
                }
            },
        }
    }
    proof {
        match spec_collect(orig, trim) {
            Ok(ps) => {
                assert(params_view(out@) + Seq::<ParamView>::empty() =~= params_view(out@));
            },
            Err(_) => {},
        }
    }
    Ok(out)
}

/// The table after the collected parameters are written into it in order,
/// each overwriting whatever its name held.
pub open spec fn apply_params(
    t: Map<Seq<char>, ArgValueView>,
    ps: Seq<ParamView>,
) -> Map<Seq<char>, ArgValueView>
    decreases ps.len(),
{
    if ps.len() == 0 {
        t
    } else {
        apply_params(t, ps.drop_last()).insert(
            ps.last().name,
            ArgValueView::Text(ps.last().value),
        )
    }
}

/// A name set by some named parameter block ends up bound to the last such
/// block's value, whatever the table held before: block parameters override
/// hash arguments, never the reverse.
pub proof fn lemma_apply_params_overrides(
    t: Map<Seq<char>, ArgValueView>,
    ps: Seq<ParamView>,
    i: int,
)
    requires
        0 <= i < ps.len(),
        forall|j: int| i < j < ps.len() ==> ps[j].name != ps[i].name,
    ensures
        apply_params(t, ps).dom().contains(ps[i].name),
        apply_params(t, ps)[ps[i].name] == ArgValueView::Text(ps[i].value),
    decreases ps.len(),
{
    if i < ps.len() - 1 {
        let d = ps.drop_last();
        lemma_apply_params_overrides(t, d, i);
        assert(ps.last().name != ps[i].name);
    }
}

/// A name no named parameter block sets keeps exactly the binding the table
/// gave it: collection touches nothing else.
pub proof fn lemma_apply_params_untouched(
    t: Map<Seq<char>, ArgValueView>,
    ps: Seq<ParamView>,
    k: Seq<char>,
)
    requires
        forall|j: int| 0 <= j < ps.len() ==> ps[j].name != k,
    ensures
        apply_params(t, ps).dom().contains(k) == t.dom().contains(k),
        t.dom().contains(k) ==> apply_params(t, ps)[k] == t[k],
    decreases ps.len(),
{
    if ps.len() > 0 {
        let d = ps.drop_last();
        lemma_apply_params_untouched(t, d, k);
        assert(ps.last().name != k);
    }
}

/// Write the collected parameters into the table in order, later ones
/// overwriting earlier bindings of the same name.
pub fn merge_params(table: &mut ArgumentTable, params: Vec<FluentParam>)
    requires
        old(table).wf(),
    ensures
        final(table).wf(),
        final(table)@ == apply_params(old(table)@, params_view(params@)),
{
    let ghost orig_table = old(table)@;
    let ghost orig = params@;
    let mut rest = params;
    while rest.len() > 0
        invariant
            table.wf(),
            rest@.len() <= orig.len(),
            rest@ == orig.skip(orig.len() - rest@.len()),
            table@ == apply_params(orig_table, params_view(orig.take(orig.len() - rest@.len()))),
        decreases rest@.len(),
    {
        let ghost i = orig.len() - rest@.len();
        let p = rest.remove(0);
        proof {
            assert(rest@ =~= orig.skip(i + 1));
            assert(p == orig[i as int]);
            assert(params_view(orig.take(i + 1)).drop_last() =~= params_view(orig.take(i as int)));
            assert(params_view(orig.take(i + 1)).last() == orig[i as int]@);
        }
        table.insert(p.name, ArgValue::Text(p.value));
    }
    proof {
        assert(orig.take(orig.len() as int) =~= orig);
        assert(params_view(orig.take(orig.len() as int)) =~= params_view(orig));
    }
}

} // verus!
