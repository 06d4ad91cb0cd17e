use rutmf::api::query::encode;
use rutmf::api::{FilterOp, Query};

#[test]
fn renders_params_in_stable_order() {
    let a = Query::new().filter("b", "2").filter("a", "1").limit(5);
    let b = Query::new().limit(5).filter("a", "1").filter("b", "2");
    assert_eq!(a.to_query_string(), b.to_query_string());
    assert_eq!(a.to_query_string(), "a=1&b=2&limit=5");
}

#[test]
fn encodes_reserved_characters() {
    let q = Query::new().filter("name", "Basic Firewall & More");
    assert_eq!(q.to_query_string(), "name=Basic%20Firewall%20%26%20More");
}

#[test]
fn joins_fields_and_sort() {
    let q = Query::new().fields(&["id", "name"]).sort("-name").sort("id");
    let params = q.to_params();
    assert_eq!(params.get("fields").unwrap().as_str(), "id,name");
    assert_eq!(params.get("sort").unwrap().as_str(), "-name,id");
}

#[test]
fn a_repeated_attribute_widens_rather_than_replacing() {
    let q = Query::new()
        .filter("state", "held")
        .filter("state", "pending");
    assert_eq!(q.to_params().get("state").unwrap().as_str(), "held,pending");
}

#[test]
fn operators_render_as_a_suffix_on_the_attribute() {
    let q = Query::new()
        .filter_op("orderDate", FilterOp::Gte, "2026-01-01")
        .filter_op("orderDate", FilterOp::Lt, "2027-01-01");
    let params = q.to_params();
    assert_eq!(params.get("orderDate.gte").unwrap().as_str(), "2026-01-01");
    assert_eq!(params.get("orderDate.lt").unwrap().as_str(), "2027-01-01");
    assert_eq!(params.len(), 2, "the two bounds must not collide");
}

#[test]
fn equality_needs_no_suffix() {
    assert_eq!(FilterOp::Eq.parameter_for("state"), "state");
    assert_eq!(FilterOp::Regex.parameter_for("name"), "name.regex");
}

#[test]
fn alternatives_render_as_one_comma_list() {
    let q = Query::new().filter_any("state", &["acknowledged", "inProgress"]);
    assert_eq!(q.to_params().get("state").unwrap().as_str(), "acknowledged,inProgress");
}

#[test]
fn filters_on_different_names_commute() {
    let a = Query::new().filter("x", "1").filter_op("y", FilterOp::Ne, "2");
    let b = Query::new().filter_op("y", FilterOp::Ne, "2").filter("x", "1");
    assert_eq!(a.to_query_string(), b.to_query_string());
    assert_eq!(a.to_query_string(), "x=1&y.ne=2");
}

#[test]
fn every_operator_has_its_suffix() {
    assert_eq!(FilterOp::Eq.suffix(), None);
    assert_eq!(FilterOp::Ne.suffix(), Some("ne"));
    assert_eq!(FilterOp::Gt.suffix(), Some("gt"));
    assert_eq!(FilterOp::Gte.suffix(), Some("gte"));
    assert_eq!(FilterOp::Lt.suffix(), Some("lt"));
    assert_eq!(FilterOp::Lte.suffix(), Some("lte"));
    assert_eq!(FilterOp::Regex.suffix(), Some("regex"));
}

#[test]
fn reserved_names_win_over_a_filter_of_the_same_name() {
    let q = Query::new().filter("limit", "99").limit(5);
    let params = q.to_params();
    assert_eq!(params.get("limit").unwrap().as_str(), "5");
    assert_eq!(params.len(), 1);
}

#[test]
fn cursors_and_json_path_render_under_their_own_names() {
    let q = Query::new().after("c1").before("c0").json_path("$.x").offset(3);
    assert_eq!(q.to_query_string(), "after=c1&before=c0&filter=%24.x&offset=3");
    assert_eq!(q.offset_value(), Some(3));
    assert_eq!(q.limit_value(), None);
}

#[test]
fn unreserved_characters_pass_through_and_utf8_is_escaped_per_byte() {
    assert_eq!(encode("AZaz09-._~"), "AZaz09-._~");
    assert_eq!(encode("a/b"), "a%2Fb");
    assert_eq!(encode("é"), "%C3%A9");
    assert_eq!(encode(""), "");
}

#[test]
fn an_empty_query_renders_nothing() {
    let q = Query::new();
    assert!(q.to_params().is_empty());
    assert_eq!(q.to_query_string(), "");
}

#[test]
fn the_default_query_is_the_new_one() {
    assert_eq!(Query::default().to_query_string(), Query::new().to_query_string());
    assert_eq!(Query::default().to_query_string(), "");
    assert!(Query::default().limit_value().is_none());
    assert!(Query::default().offset_value().is_none());
}

#[test]
fn alternatives_at_once_are_alternatives_one_by_one() {
    let at_once = Query::new().filter_any("state", &["acknowledged", "inProgress", "held"]);
    let one_by_one = Query::new()
        .filter("state", "acknowledged")
        .filter("state", "inProgress")
        .filter("state", "held");
    assert_eq!(at_once.to_query_string(), one_by_one.to_query_string());
    assert_eq!(at_once.to_query_string(), "state=acknowledged%2CinProgress%2Cheld");
}
