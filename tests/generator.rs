use rest_api::endpoint::{endpoint_tags_valid, get_endpoint_attr};
use rest_api::error::{GenError, GenReason};
use rest_api::generate::{api, get_impl_item, get_impl_method};
use rest_api::model::{
    Interface, InterfaceItem, Meta, MethodDecl, Param, Pattern, Signature, Tag, TagArg,
};
use rest_api::strip::{strip_interface, strip_method_tags, strip_signature, visit_fn_arg};
use rest_api::template::{format_path, placeholder_count, request_url};

fn word(name: &str) -> Tag {
    Tag { text: format!("#[{}]", name), meta: Meta::Word(name.to_string()) }
}

fn endpoint(lit: &str) -> Tag {
    let token = format!("\"{}\"", lit);
    Tag {
        text: format!("#[endpoint({})]", token),
        meta: Meta::List("endpoint".to_string(), vec![TagArg::Str(token)]),
    }
}

fn doc(text: &str) -> Tag {
    Tag { text: format!("#[doc = \"{}\"]", text), meta: Meta::NameValue("doc".to_string()) }
}

fn arg(name: &str, tags: Vec<Tag>) -> Param {
    Param::Typed { tags, pat: Pattern::Ident(name.to_string()) }
}

fn method(tags: Vec<Tag>, name: &str, params: Vec<Param>) -> MethodDecl {
    MethodDecl { tags, sig: Signature { name: name.to_string(), params } }
}

fn tag_texts(tags: &[Tag]) -> Vec<String> {
    tags.iter().map(|t| t.text.clone()).collect()
}

fn param_tag_count(p: &Param) -> usize {
    match p {
        Param::Receiver { tags } => tags.len(),
        Param::Typed { tags, .. } => tags.len(),
    }
}

fn describe(i: &Interface) -> Vec<String> {
    let mut out = vec![i.name.clone()];
    for item in &i.items {
        match item {
            InterfaceItem::Method(m) => {
                out.push(format!("fn {} {:?}", m.sig.name, tag_texts(&m.tags)));
                for p in &m.sig.params {
                    out.push(format!("param tags {}", param_tag_count(p)));
                }
            }
            InterfaceItem::Other(s) => out.push(s.clone()),
        }
    }
    out
}

#[test]
fn test_endpoint_none() {
    let a = method(vec![], "foo", vec![]);
    assert_eq!(get_endpoint_attr(&a), None);
}

#[test]
fn test_endpoint_some() {
    let a = method(vec![endpoint("foo")], "foo", vec![]);
    assert_eq!(get_endpoint_attr(&a), Some("foo".to_owned()));
}

#[test]
fn test_endpoint_none2() {
    let a = method(vec![word("keep")], "foo", vec![]);
    assert_eq!(get_endpoint_attr(&a), None);
}

#[test]
fn lib_test_endpoint_some() {
    let a = method(vec![endpoint("foo")], "foo", vec![]);
    assert_eq!(get_endpoint_attr(&a), Some("foo".to_owned()));
}

#[test]
fn untagged_method_uses_its_name() {
    let m = method(vec![], "listItems", vec![Param::Receiver { tags: vec![] }]);
    let g = get_impl_method(&m).unwrap();
    assert_eq!(g.endpoint, "listItems");
    assert_eq!(g.name, "listItems");
    assert!(g.args.is_empty());
}

#[test]
fn literal_wins_over_name() {
    let m = method(vec![endpoint("things")], "listItems", vec![]);
    assert_eq!(get_impl_method(&m).unwrap().endpoint, "things");
}

#[test]
fn keep_alone_falls_back_to_name() {
    let m = method(vec![word("keep")], "listItems", vec![]);
    assert_eq!(get_endpoint_attr(&m), None);
    assert_eq!(get_impl_method(&m).unwrap().endpoint, "listItems");
}

#[test]
fn keep_and_endpoint_in_either_order() {
    let a = method(vec![word("keep"), endpoint("x")], "foo", vec![]);
    let b = method(vec![endpoint("x"), word("keep")], "foo", vec![]);
    assert_eq!(get_endpoint_attr(&a), Some("x".to_owned()));
    assert_eq!(get_endpoint_attr(&b), Some("x".to_owned()));
}

#[test]
fn generated_signature_has_no_tags() {
    let m = method(
        vec![word("keep"), endpoint("a/{}")],
        "f",
        vec![Param::Receiver { tags: vec![doc("r")] }, arg("a", vec![word("keep")])],
    );
    let g = get_impl_method(&m).unwrap();
    assert_eq!(g.sig.name, "f");
    assert_eq!(g.sig.params.len(), 2);
    assert!(g.sig.params.iter().all(|p| param_tag_count(p) == 0));
    match &g.sig.params[1] {
        Param::Typed { pat: Pattern::Ident(n), .. } => assert_eq!(n, "a"),
        _ => panic!("the typed parameter was lost"),
    }
}

#[test]
fn endpoint_found_in_any_position() {
    let orders = [
        vec![word("keep"), doc("d"), endpoint("x")],
        vec![endpoint("x"), word("keep"), doc("d")],
        vec![doc("d"), endpoint("x"), word("keep")],
    ];
    for tags in orders {
        let m = method(tags, "foo", vec![]);
        assert_eq!(get_endpoint_attr(&m), Some("x".to_owned()));
        assert_eq!(get_impl_method(&m).unwrap().endpoint, "x");
    }
}

#[test]
fn non_string_endpoint_argument_is_refused() {
    let other = Tag {
        text: "#[endpoint(42)]".to_string(),
        meta: Meta::List("endpoint".to_string(), vec![TagArg::Other]),
    };
    let m = method(vec![other, endpoint("y")], "foo", vec![]);
    assert!(!endpoint_tags_valid(&m.tags));
    assert_eq!(get_impl_method(&m).err(), Some(GenReason::MissingEndpointLiteral));
}

#[test]
fn first_string_literal_inside_the_tag_is_read() {
    let tag = Tag {
        text: "#[endpoint(42, \"y\", \"z\")]".to_string(),
        meta: Meta::List(
            "endpoint".to_string(),
            vec![TagArg::Other, TagArg::Str("\"y\"".to_string()), TagArg::Str("\"z\"".to_string())],
        ),
    };
    let m = method(vec![tag], "foo", vec![]);
    assert!(endpoint_tags_valid(&m.tags));
    assert_eq!(get_endpoint_attr(&m), Some("y".to_owned()));
}

#[test]
fn bare_endpoint_word_is_refused() {
    let m = method(vec![word("endpoint")], "foo", vec![]);
    assert_eq!(get_impl_method(&m).err(), Some(GenReason::MissingEndpointLiteral));
}

#[test]
fn literal_escapes_are_resolved() {
    let m = method(vec![endpoint("\\x41/{}")], "f", vec![arg("a", vec![])]);
    assert_eq!(get_endpoint_attr(&m), Some("A/{}".to_owned()));
    assert_eq!(get_impl_method(&m).unwrap().endpoint, "A/{}");
}

#[test]
fn text_that_is_no_string_literal_is_refused() {
    for token in ["nope", "r", "rx", "c\"x\"", "cr\"x\"", "b\"x\"", "\"x\" \"y\"", ""] {
        let bad = Tag {
            text: format!("#[endpoint({})]", token),
            meta: Meta::List("endpoint".to_string(), vec![TagArg::Str(token.to_string())]),
        };
        let m = method(vec![bad], "foo", vec![]);
        assert!(!endpoint_tags_valid(&m.tags), "{}", token);
        assert_eq!(get_impl_method(&m).err(), Some(GenReason::MissingEndpointLiteral));
    }
}

#[test]
fn deeply_nested_text_after_a_literal_is_refused() {
    let token = format!("\"x\"{}{}", "(".repeat(100_000), ")".repeat(100_000));
    let bad = Tag {
        text: "#[endpoint(...)]".to_string(),
        meta: Meta::List("endpoint".to_string(), vec![TagArg::Str(token)]),
    };
    let m = method(vec![bad], "foo", vec![]);
    assert_eq!(get_impl_method(&m).err(), Some(GenReason::MissingEndpointLiteral));
}

#[test]
fn carriage_return_in_a_literal_is_refused() {
    let token = "r\"a\r\nb\"".to_string();
    let bad = Tag {
        text: "#[endpoint(...)]".to_string(),
        meta: Meta::List("endpoint".to_string(), vec![TagArg::Str(token)]),
    };
    let m = method(vec![bad], "foo", vec![]);
    assert!(!endpoint_tags_valid(&m.tags));
}

#[test]
fn raw_string_literal_is_read() {
    let tag = Tag {
        text: "#[endpoint(r\"a\\b\")]".to_string(),
        meta: Meta::List("endpoint".to_string(), vec![TagArg::Str("r\"a\\b\"".to_string())]),
    };
    let m = method(vec![tag], "foo", vec![]);
    assert_eq!(get_endpoint_attr(&m), Some("a\\b".to_owned()));
}

#[test]
fn empty_endpoint_after_literal_is_refused() {
    let empty = Tag {
        text: "#[endpoint()]".to_string(),
        meta: Meta::List("endpoint".to_string(), vec![]),
    };
    let m = method(vec![endpoint("z"), empty], "foo", vec![]);
    assert!(!endpoint_tags_valid(&m.tags));
    assert_eq!(get_impl_method(&m).err(), Some(GenReason::MissingEndpointLiteral));
}

#[test]
fn empty_endpoint_tag_is_refused() {
    let empty = Tag {
        text: "#[endpoint()]".to_string(),
        meta: Meta::List("endpoint".to_string(), vec![]),
    };
    let m = method(vec![empty], "foo", vec![]);
    assert!(!endpoint_tags_valid(&m.tags));
    assert_eq!(get_impl_method(&m).err(), Some(GenReason::MissingEndpointLiteral));
}

#[test]
fn get_user_round_trip() {
    let m = method(
        vec![endpoint("users/{}")],
        "getUser",
        vec![Param::Receiver { tags: vec![] }, arg("id", vec![])],
    );
    let g = get_impl_method(&m).unwrap();
    assert_eq!(g.sig.name, "getUser");
    assert_eq!(g.sig.params.len(), 2);
    assert_eq!(g.endpoint, "users/{}");
    assert_eq!(g.args, vec!["id".to_string()]);
    let values = vec!["42".to_string()];
    assert_eq!(format_path(&g.endpoint, &values), Some("users/42".to_string()));
    assert_eq!(
        request_url("http://api.test/", &g.endpoint, &values),
        Some("http://api.test/users/42".to_string())
    );
}

#[test]
fn unnamed_patterns_are_not_arguments() {
    let m = method(
        vec![endpoint("a/{}")],
        "f",
        vec![Param::Typed { tags: vec![], pat: Pattern::Other }, arg("b", vec![])],
    );
    assert_eq!(get_impl_method(&m).unwrap().args, vec!["b".to_string()]);
}

#[test]
fn arity_mismatch_is_refused() {
    let m = method(vec![endpoint("users/{}/{}")], "getUser", vec![arg("id", vec![])]);
    assert_eq!(
        get_impl_method(&m).err(),
        Some(GenReason::ArityMismatch { placeholders: 2, params: 1 })
    );
    let untagged = method(vec![], "getUser", vec![arg("id", vec![])]);
    assert_eq!(
        get_impl_method(&untagged).err(),
        Some(GenReason::ArityMismatch { placeholders: 0, params: 1 })
    );
}

#[test]
fn malformed_template_is_refused() {
    let m = method(vec![endpoint("users/{id}")], "getUser", vec![arg("id", vec![])]);
    assert_eq!(get_impl_method(&m).err(), Some(GenReason::MalformedTemplate));
}

#[test]
fn non_method_item_is_refused() {
    let item = InterfaceItem::Other("const X: u32 = 1;".to_string());
    assert_eq!(get_impl_item(&item).err(), Some(GenReason::NotAMethod));
    let i = Interface {
        name: "Svc".to_string(),
        items: vec![
            InterfaceItem::Method(method(vec![], "ping", vec![])),
            InterfaceItem::Other("type T;".to_string()),
            InterfaceItem::Method(method(vec![], "pong", vec![])),
        ],
    };
    assert_eq!(api(i).err(), Some(GenError { index: 1, reason: GenReason::NotAMethod }));
}

#[test]
fn first_failing_item_is_reported() {
    let i = Interface {
        name: "Svc".to_string(),
        items: vec![
            InterfaceItem::Method(method(vec![], "ping", vec![])),
            InterfaceItem::Method(method(vec![endpoint("{")], "bad", vec![])),
            InterfaceItem::Other("type T;".to_string()),
        ],
    };
    assert_eq!(
        api(i).err(),
        Some(GenError { index: 1, reason: GenReason::MalformedTemplate })
    );
}

#[test]
fn api_generates_client() {
    let i = Interface {
        name: "Users".to_string(),
        items: vec![
            InterfaceItem::Method(method(
                vec![doc("fetch one"), endpoint("users/{}")],
                "getUser",
                vec![Param::Receiver { tags: vec![word("keep")] }, arg("id", vec![word("keep")])],
            )),
            InterfaceItem::Method(method(vec![word("keep")], "listItems", vec![])),
        ],
    };
    let c = api(i).unwrap();
    assert_eq!(c.struct_name, "UsersRestClient");
    assert_eq!(c.methods.len(), 2);
    assert_eq!(c.methods[0].name, "getUser");
    assert_eq!(c.methods[0].endpoint, "users/{}");
    assert_eq!(c.methods[0].args, vec!["id".to_string()]);
    assert_eq!(c.methods[1].endpoint, "listItems");
    assert_eq!(
        describe(&c.interface),
        vec![
            "Users".to_string(),
            "fn getUser [\"#[doc = \\\"fetch one\\\"]\"]".to_string(),
            "param tags 0".to_string(),
            "param tags 0".to_string(),
            "fn listItems []".to_string(),
        ]
    );
}

#[test]
fn strip_is_idempotent() {
    let build = || Interface {
        name: "Svc".to_string(),
        items: vec![
            InterfaceItem::Method(method(
                vec![word("keep"), doc("d"), endpoint("x/{}")],
                "f",
                vec![Param::Receiver { tags: vec![doc("r")] }, arg("a", vec![word("keep")])],
            )),
            InterfaceItem::Other("type T;".to_string()),
        ],
    };
    let once = strip_interface(build());
    let twice = strip_interface(strip_interface(build()));
    assert_eq!(describe(&once), describe(&twice));
    assert_eq!(describe(&once)[1], "fn f [\"#[doc = \\\"d\\\"]\"]");
    assert_eq!(describe(&once)[4], "type T;");
}

#[test]
fn strip_method_tags_keeps_foreign_tags_in_order() {
    let tags = vec![doc("a"), endpoint("x"), word("keep"), word("inline"), doc("b")];
    let kept = strip_method_tags(tags);
    assert_eq!(tag_texts(&kept), vec!["#[doc = \"a\"]", "#[inline]", "#[doc = \"b\"]"]);
}

#[test]
fn receiver_and_params_lose_all_tags() {
    let r = visit_fn_arg(&Param::Receiver { tags: vec![doc("r")] });
    assert_eq!(param_tag_count(&r), 0);
    let sig = Signature {
        name: "g".to_string(),
        params: vec![Param::Receiver { tags: vec![word("x")] }, arg("a", vec![doc("y")])],
    };
    let s = strip_signature(&sig);
    assert_eq!(s.name, "g");
    assert_eq!(s.params.len(), 2);
    assert!(s.params.iter().all(|p| param_tag_count(p) == 0));
    match &s.params[1] {
        Param::Typed { pat: Pattern::Ident(n), .. } => assert_eq!(n, "a"),
        _ => panic!("the typed parameter was lost"),
    }
}

#[test]
fn format_handles_escapes_and_counts() {
    let none: Vec<String> = vec![];
    assert_eq!(format_path("a{{b}}c", &none), Some("a{b}c".to_string()));
    assert_eq!(format_path("listItems", &none), Some("listItems".to_string()));
    assert_eq!(format_path("", &none), Some(String::new()));
    let two = vec!["1".to_string(), "2".to_string()];
    assert_eq!(format_path("x/{}/y/{}", &two), Some("x/1/y/2".to_string()));
    assert_eq!(format_path("x/{}", &two), None);
    assert_eq!(format_path("x/{}/{}/{}", &two), None);
    assert_eq!(format_path("x}", &none), None);
    assert_eq!(placeholder_count("x/{}/{{}}/{}"), Some(2));
    assert_eq!(placeholder_count("{:?}"), None);
    assert_eq!(placeholder_count(""), Some(0));
    assert_eq!(request_url("b/", "{", &none), None);
}
