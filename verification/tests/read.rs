use dao_rollup::read::{parse_invocation, target, usage};

#[test]
fn a_node_and_a_request() {
    let v = parse_invocation("other.os \"Routers\"", "me.os").unwrap();
    assert_eq!(v.node, "other.os");
    assert_eq!(v.request, "\"Routers\"");
}

#[test]
fn our_stands_for_the_own_node() {
    let v = parse_invocation("our \"All\"", "me.os").unwrap();
    assert_eq!(v.node, "me.os");
    assert_eq!(v.request, "\"All\"");
}

#[test]
fn only_the_first_space_splits() {
    let v = parse_invocation("a b c", "me.os").unwrap();
    assert_eq!((v.node.as_str(), v.request.as_str()), ("a", "b c"));
    let v = parse_invocation(" b", "me.os").unwrap();
    assert_eq!((v.node.as_str(), v.request.as_str()), ("", "b"));
    let v = parse_invocation("ä ", "me.os").unwrap();
    assert_eq!((v.node.as_str(), v.request.as_str()), ("ä", ""));
}

#[test]
fn without_a_space_there_is_nothing_to_ask() {
    assert!(parse_invocation("our", "me.os").is_none());
    assert!(parse_invocation("", "me.os").is_none());
}

#[test]
fn an_invocation_is_read_back() {
    let body = "node.os {\"x\": 1}";
    let v = parse_invocation(body, "me.os").unwrap();
    assert_eq!(format!("{} {}", v.node, v.request), body);
}

#[test]
fn the_usage_names_the_package() {
    assert_eq!(
        usage("dao"),
        "usage:\nread:dao:nick1udwig.os node read_request\ne.g.\nread:dao:nick1udwig.os our \"Routers\""
    );
    assert_eq!(target("dao"), "sequencer:dao:nick1udwig.os");
}
