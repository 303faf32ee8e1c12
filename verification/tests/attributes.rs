use wasm_bindgen_helper_macros::syntax::Attribute;
use wasm_bindgen_helper_macros::util::parse_attrs;

fn attribute(path: &[&str], tokens: &str) -> Attribute {
    Attribute { path: path.iter().map(|s| s.to_string()).collect(), tokens: tokens.to_string() }
}

fn markers(attrs: &[Attribute]) -> usize {
    attrs.iter().filter(|attr| attr.is_marker()).count()
}

#[test]
fn marker_is_added_where_none_is_written() {
    let merged = parse_attrs(vec![attribute(&["derive"], "(Clone)")]);
    assert_eq!(merged, vec![attribute(&["wasm_bindgen"], ""), attribute(&["derive"], "(Clone)")]);
}

#[test]
fn marker_is_added_to_no_attributes() {
    assert_eq!(parse_attrs(Vec::new()), vec![Attribute::marker()]);
}

#[test]
fn marker_that_is_written_is_not_added_again() {
    let written = vec![attribute(&["derive"], "(Clone)"), attribute(&["wasm_bindgen"], "")];
    let merged = parse_attrs(written.clone());
    assert_eq!(merged, written);
    assert_eq!(markers(&merged), 1);
}

#[test]
fn marker_with_arguments_counts_as_the_marker() {
    let written = vec![attribute(&["wasm_bindgen"], "(js_name = pairs)")];
    assert_eq!(parse_attrs(written.clone()), written);
}

#[test]
fn marker_is_known_by_the_first_segment_of_its_path() {
    let first = vec![attribute(&["wasm_bindgen", "prelude"], "")];
    assert_eq!(parse_attrs(first.clone()), first);
    let last = vec![attribute(&["prelude", "wasm_bindgen"], "")];
    assert_eq!(markers(&parse_attrs(last)), 1);
    assert!(!attribute(&[], "").is_marker());
}

#[test]
fn merging_twice_changes_nothing_more() {
    let once = parse_attrs(vec![attribute(&["doc"], " = \"text\"")]);
    let twice = parse_attrs(once.clone());
    assert_eq!(once, twice);
    assert_eq!(markers(&twice), 1);
}

#[test]
fn marker_written_twice_stays_twice() {
    let written = vec![attribute(&["wasm_bindgen"], ""), attribute(&["wasm_bindgen"], "")];
    assert_eq!(parse_attrs(written.clone()), written);
}
