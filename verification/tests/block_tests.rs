use bracket_fluent::ArgValue;
use bracket_fluent::ArgumentTable;
use bracket_fluent::BlockArg;
use bracket_fluent::BlockNode;
use bracket_fluent::ChildNode;
use bracket_fluent::FluentError;
use bracket_fluent::JsonValue;
use bracket_fluent::collect_block_params;
use bracket_fluent::merge_params;

fn param_block(name: &str, body: &str) -> ChildNode {
    ChildNode::Block(BlockNode {
        name: String::from("fluentparam"),
        args: vec![BlockArg::Literal(JsonValue::Text(String::from(name)))],
        body: String::from(body),
    })
}

#[test]
fn collects_params_in_order() {
    let children = vec![param_block("var1", "A"), param_block("var2", "B")];
    let params = collect_block_params(children, false).expect("both blocks are well-formed");
    assert_eq!(params.len(), 2);
    assert_eq!(params[0].name, "var1");
    assert_eq!(params[0].value, "A");
    assert_eq!(params[1].name, "var2");
    assert_eq!(params[1].value, "B");
}

#[test]
fn trim_enabled_strips_surrounding_whitespace() {
    let children = vec![param_block("var1", "  hello\n")];
    let params = collect_block_params(children, true).expect("well-formed block");
    assert_eq!(params[0].value, "hello");
}

#[test]
fn trim_disabled_keeps_whitespace_exactly() {
    let children = vec![param_block("var1", "  hello\n")];
    let params = collect_block_params(children, false).expect("well-formed block");
    assert_eq!(params[0].value, "  hello\n");
}

#[test]
fn two_arguments_fail_with_arity_error() {
    let children = vec![ChildNode::Block(BlockNode {
        name: String::from("fluentparam"),
        args: vec![
            BlockArg::Literal(JsonValue::Text(String::from("a"))),
            BlockArg::Literal(JsonValue::Text(String::from("b"))),
        ],
        body: String::from("body"),
    })];
    let r = collect_block_params(children, false);
    assert!(matches!(r, Err(FluentError::InvalidParamBlockArity)));
}

#[test]
fn zero_arguments_fail_with_arity_error() {
    let children = vec![ChildNode::Block(BlockNode {
        name: String::from("fluentparam"),
        args: Vec::new(),
        body: String::from("body"),
    })];
    let r = collect_block_params(children, false);
    assert!(matches!(r, Err(FluentError::InvalidParamBlockArity)));
}

#[test]
fn number_literal_argument_fails_with_type_error() {
    let children = vec![ChildNode::Block(BlockNode {
        name: String::from("fluentparam"),
        args: vec![BlockArg::Literal(JsonValue::Number(serde_json::Number::from(7u64)))],
        body: String::from("body"),
    })];
    let r = collect_block_params(children, false);
    assert!(matches!(r, Err(FluentError::InvalidParamBlockArgumentType)));
}

#[test]
fn dynamic_argument_fails_with_type_error() {
    let children = vec![ChildNode::Block(BlockNode {
        name: String::from("fluentparam"),
        args: vec![BlockArg::Dynamic],
        body: String::from("body"),
    })];
    let r = collect_block_params(children, false);
    assert!(matches!(r, Err(FluentError::InvalidParamBlockArgumentType)));
}

#[test]
fn foreign_child_block_is_rejected_by_name() {
    let children = vec![ChildNode::Block(BlockNode {
        name: String::from("bold"),
        args: Vec::new(),
        body: String::from("body"),
    })];
    let r = collect_block_params(children, false);
    match r {
        Err(FluentError::UnexpectedChildBlock(name)) => assert_eq!(name, "bold"),
        _ => panic!("expected an unexpected-child-block error"),
    }
}

#[test]
fn non_block_children_are_ignored() {
    let children = vec![ChildNode::Other, param_block("v", "x"), ChildNode::Other];
    let params = collect_block_params(children, false).expect("text children are invisible");
    assert_eq!(params.len(), 1);
    assert_eq!(params[0].name, "v");
}

#[test]
fn first_offending_child_decides_the_error() {
    let children = vec![
        ChildNode::Block(BlockNode {
            name: String::from("bold"),
            args: Vec::new(),
            body: String::from(""),
        }),
        ChildNode::Block(BlockNode {
            name: String::from("fluentparam"),
            args: Vec::new(),
            body: String::from(""),
        }),
    ];
    let r = collect_block_params(children, false);
    assert!(matches!(r, Err(FluentError::UnexpectedChildBlock(_))));
}

#[test]
fn merged_params_override_hash_values() {
    let mut table = ArgumentTable::new();
    table.insert(String::from("name"), ArgValue::Text(String::from("hash")));
    table.insert(String::from("other"), ArgValue::Text(String::from("kept")));
    let children = vec![param_block("name", "block")];
    let params = collect_block_params(children, false).expect("well-formed block");
    merge_params(&mut table, params);
    assert_eq!(table.len(), 2);
    match table.get("name") {
        Some(ArgValue::Text(s)) => assert_eq!(s, "block"),
        _ => panic!("'name' should be text"),
    }
    match table.get("other") {
        Some(ArgValue::Text(s)) => assert_eq!(s, "kept"),
        _ => panic!("'other' should be text"),
    }
}

#[test]
fn later_param_block_wins_over_earlier() {
    let mut table = ArgumentTable::new();
    let children = vec![param_block("v", "first"), param_block("v", "second")];
    let params = collect_block_params(children, false).expect("well-formed blocks");
    merge_params(&mut table, params);
    assert_eq!(table.len(), 1);
    match table.get("v") {
        Some(ArgValue::Text(s)) => assert_eq!(s, "second"),
        _ => panic!("'v' should be text"),
    }
}
