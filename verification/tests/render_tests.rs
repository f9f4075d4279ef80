use bracket_fluent::ArgValue;
use bracket_fluent::ArgumentTable;
use bracket_fluent::BlockArg;
use bracket_fluent::BlockNode;
use bracket_fluent::ChildNode;
use bracket_fluent::FluentError;
use bracket_fluent::FluentHelper;
use bracket_fluent::JsonValue;
use bracket_fluent::TranslationBackend;
use fluent_templates::LanguageIdentifier;

fn lang_en() -> Option<JsonValue> {
    Some(JsonValue::Text(String::from("en")))
}

fn id_arg(id: &str) -> Vec<JsonValue> {
    vec![JsonValue::Text(String::from(id))]
}

fn param_block(name: &str, body: &str) -> ChildNode {
    ChildNode::Block(BlockNode {
        name: String::from("fluentparam"),
        args: vec![BlockArg::Literal(JsonValue::Text(String::from(name)))],
        body: String::from(body),
    })
}

/// Resolves `welcome` for `en` and insists that no argument table arrives.
struct WelcomeBackend;

impl TranslationBackend for WelcomeBackend {
    fn lookup_complete(
        &self,
        lang: &LanguageIdentifier,
        message_id: &str,
        args: Option<&ArgumentTable>,
    ) -> String {
        assert_eq!(lang.to_string(), "en");
        assert_eq!(message_id, "welcome");
        assert!(args.is_none(), "no hash or block arguments must reach the backend as None");
        String::from("Hello!")
    }
}

/// Resolves `greeting` for `en`, interpolating the `name` argument.
struct GreetingBackend;

impl TranslationBackend for GreetingBackend {
    fn lookup_complete(
        &self,
        lang: &LanguageIdentifier,
        message_id: &str,
        args: Option<&ArgumentTable>,
    ) -> String {
        assert_eq!(lang.to_string(), "en");
        assert_eq!(message_id, "greeting");
        let table = args.expect("one hash argument must reach the backend");
        assert_eq!(table.len(), 1);
        let name = match table.get("name") {
            Some(ArgValue::Text(s)) => s.clone(),
            _ => panic!("'name' must arrive as text"),
        };
        format!("Hello {}!", name)
    }
}

/// Resolves `block` for `en` from the two block parameters.
struct BlockBackend;

impl TranslationBackend for BlockBackend {
    fn lookup_complete(
        &self,
        lang: &LanguageIdentifier,
        message_id: &str,
        args: Option<&ArgumentTable>,
    ) -> String {
        assert_eq!(lang.to_string(), "en");
        assert_eq!(message_id, "block");
        let table = args.expect("block parameters must reach the backend");
        assert_eq!(table.len(), 2);
        let v1 = match table.get("var1") {
            Some(ArgValue::Text(s)) => s.clone(),
            _ => panic!("'var1' must arrive as text"),
        };
        let v2 = match table.get("var2") {
            Some(ArgValue::Text(s)) => s.clone(),
            _ => panic!("'var2' must arrive as text"),
        };
        format!("{} {}", v1, v2)
    }
}

/// Returns a fixed message, whatever is asked.
struct FixedBackend(&'static str);

impl TranslationBackend for FixedBackend {
    fn lookup_complete(
        &self,
        _lang: &LanguageIdentifier,
        _message_id: &str,
        _args: Option<&ArgumentTable>,
    ) -> String {
        String::from(self.0)
    }
}

/// Fails the test if the lookup is ever reached.
struct UnreachedBackend;

impl TranslationBackend for UnreachedBackend {
    fn lookup_complete(
        &self,
        _lang: &LanguageIdentifier,
        _message_id: &str,
        _args: Option<&ArgumentTable>,
    ) -> String {
        panic!("the backend must not be consulted for an invalid invocation");
    }
}

#[test]
fn welcome_end_to_end() {
    let helper = FluentHelper::new(WelcomeBackend);
    let out = helper.render(lang_en(), id_arg("welcome"), Vec::new(), None).expect("renders");
    assert_eq!(out, "Hello!");
}

#[test]
fn greeting_with_hash_argument() {
    let helper = FluentHelper::new(GreetingBackend);
    let hash = vec![(String::from("name"), JsonValue::Text(String::from("world")))];
    let out = helper.render(lang_en(), id_arg("greeting"), hash, None).expect("renders");
    assert_eq!(out, "Hello world!");
}

#[test]
fn block_parameters_end_to_end() {
    let helper = FluentHelper::new(BlockBackend);
    let children = vec![param_block("var1", "A"), param_block("var2", "B")];
    let out = helper
        .render(lang_en(), id_arg("block"), Vec::new(), Some(children))
        .expect("renders");
    assert_eq!(out, "A B");
}

#[test]
fn block_parameter_overrides_hash_argument() {
    let helper = FluentHelper::new(GreetingBackend);
    let hash = vec![(String::from("name"), JsonValue::Text(String::from("hash")))];
    let children = vec![param_block("name", "world")];
    let out = helper
        .render(lang_en(), id_arg("greeting"), hash, Some(children))
        .expect("renders");
    assert_eq!(out, "Hello world!");
}

#[test]
fn escaped_and_raw_modes_differ_on_markup() {
    let escaped = FluentHelper::new(FixedBackend("a<b"));
    assert!(escaped.escape, "escaping is the default");
    assert!(!escaped.trim, "trimming is off by default");
    let out = escaped.render(lang_en(), id_arg("m"), Vec::new(), None).expect("renders");
    assert_eq!(out, "a&lt;b");

    let mut raw = FluentHelper::new(FixedBackend("a<b"));
    raw.escape = false;
    let out = raw.render(lang_en(), id_arg("m"), Vec::new(), None).expect("renders");
    assert_eq!(out, "a<b");
}

#[test]
fn trim_option_reaches_block_parameters() {
    let mut helper = FluentHelper::new(GreetingBackend);
    helper.trim = true;
    let children = vec![param_block("name", "  world\n")];
    let out = helper
        .render(lang_en(), id_arg("greeting"), Vec::new(), Some(children))
        .expect("renders");
    assert_eq!(out, "Hello world!");
}

#[test]
fn missing_lang_variable_fails() {
    let helper = FluentHelper::new(UnreachedBackend);
    let r = helper.render(None, id_arg("welcome"), Vec::new(), None);
    assert!(matches!(r, Err(FluentError::MissingLanguageVariable)));
}

#[test]
fn non_string_lang_fails() {
    let helper = FluentHelper::new(UnreachedBackend);
    let lang = Some(JsonValue::Number(serde_json::Number::from(123u64)));
    let r = helper.render(lang, id_arg("welcome"), Vec::new(), None);
    assert!(matches!(r, Err(FluentError::LanguageNotString)));
}

#[test]
fn unparsable_lang_tag_fails() {
    let helper = FluentHelper::new(UnreachedBackend);
    let lang = Some(JsonValue::Text(String::from("not-a-tag!!")));
    let r = helper.render(lang, id_arg("welcome"), Vec::new(), None);
    match r {
        Err(FluentError::InvalidLanguageTag(message)) => {
            assert!(!message.is_empty(), "the parser's message is propagated");
        },
        _ => panic!("expected an invalid-language-tag error"),
    }
}

#[test]
fn missing_message_id_fails() {
    let helper = FluentHelper::new(UnreachedBackend);
    let r = helper.render(lang_en(), Vec::new(), Vec::new(), None);
    assert!(matches!(r, Err(FluentError::MissingMessageId)));
}

#[test]
fn non_string_message_id_fails() {
    let helper = FluentHelper::new(UnreachedBackend);
    let positional = vec![JsonValue::Number(serde_json::Number::from(1u64))];
    let r = helper.render(lang_en(), positional, Vec::new(), None);
    assert!(matches!(r, Err(FluentError::MessageIdNotString)));
}

#[test]
fn offending_block_errors_pass_through_render() {
    let helper = FluentHelper::new(UnreachedBackend);
    let children = vec![ChildNode::Block(BlockNode {
        name: String::from("bold"),
        args: Vec::new(),
        body: String::from(""),
    })];
    let r = helper.render(lang_en(), id_arg("welcome"), Vec::new(), Some(children));
    match r {
        Err(FluentError::UnexpectedChildBlock(name)) => assert_eq!(name, "bold"),
        _ => panic!("expected an unexpected-child-block error"),
    }
}

#[test]
fn extra_positional_arguments_are_ignored() {
    let helper = FluentHelper::new(WelcomeBackend);
    let positional = vec![
        JsonValue::Text(String::from("welcome")),
        JsonValue::Text(String::from("spare")),
    ];
    let out = helper.render(lang_en(), positional, Vec::new(), None).expect("renders");
    assert_eq!(out, "Hello!");
}

/// Expects an argument table that is present but empty.
struct EmptyTableBackend;

impl TranslationBackend for EmptyTableBackend {
    fn lookup_complete(
        &self,
        _lang: &LanguageIdentifier,
        message_id: &str,
        args: Option<&ArgumentTable>,
    ) -> String {
        assert_eq!(message_id, "welcome");
        let table = args.expect("an attached block makes the table exist");
        assert!(table.is_empty());
        String::from("Hello!")
    }
}

#[test]
fn attached_block_without_params_gives_empty_table() {
    let helper = FluentHelper::new(EmptyTableBackend);
    let children = vec![ChildNode::Other];
    let out = helper
        .render(lang_en(), id_arg("welcome"), Vec::new(), Some(children))
        .expect("renders");
    assert_eq!(out, "Hello!");
}

#[test]
fn prepare_builds_the_backend_request() {
    let hash = vec![(String::from("name"), JsonValue::Text(String::from("world")))];
    let req = bracket_fluent::prepare(lang_en(), id_arg("greeting"), hash, None, false)
        .expect("a well-formed invocation prepares");
    assert_eq!(req.lang.to_string(), "en");
    assert_eq!(req.message_id, "greeting");
    let table = req.args.expect("one hash argument gives a table");
    assert_eq!(table.len(), 1);
}

#[test]
fn error_messages_name_the_problem() {
    let missing = FluentError::MissingLanguageVariable.message();
    assert!(missing.contains("lang"));
    let unexpected = FluentError::UnexpectedChildBlock(String::from("bold")).message();
    assert!(unexpected.contains("'bold'"));
    assert!(unexpected.contains("fluentparam"));
}
