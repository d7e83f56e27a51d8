use sqllib::join::{
    array_to_string2NvecNN, array_to_string2Nvec__, array_to_string2_vecN_,
    array_to_string2_vec_N, array_to_string2_vec__, array_to_string3NvecNNN,
    array_to_string3_vecN_N, array_to_string3_vecN_N_helper, array_to_string3_vecN__,
    array_to_string3_vecNNN, array_to_string3_vec__N, array_to_string3_vec___,
};

fn s(x: &str) -> String {
    x.to_string()
}

fn elems() -> Vec<Option<String>> {
    vec![Some(s("a")), None, Some(s("c"))]
}

#[test]
fn absent_element_without_placeholder_is_omitted() {
    assert_eq!(array_to_string2_vecN_(elems(), s(",")), "a,c");
    assert_eq!(array_to_string3_vecN_N(elems(), s(","), None), Some(s("a,c")));
}

#[test]
fn absent_element_with_placeholder() {
    assert_eq!(array_to_string3_vecN__(elems(), s(","), s("X")), "a,X,c");
    assert_eq!(array_to_string3_vecNNN(elems(), Some(s(",")), Some(s("X"))), Some(s("a,X,c")));
}

#[test]
fn absent_separator_gives_absent() {
    assert_eq!(array_to_string3_vecNNN(elems(), None, Some(s("X"))), None);
    assert_eq!(array_to_string2_vec_N(vec![s("a")], None), None);
}

#[test]
fn absent_collection_gives_absent() {
    assert_eq!(array_to_string3NvecNNN(None, Some(s(",")), None), None);
    assert_eq!(array_to_string2Nvec__(None, s(",")), None);
    assert_eq!(array_to_string2NvecNN(Some(elems()), Some(s("-"))), Some(s("a-c")));
}

#[test]
fn empty_tokens_give_empty_string() {
    assert_eq!(array_to_string3_vecN_N_helper(vec![None, None], s(","), None), "");
    assert_eq!(array_to_string2_vec__(vec![], s(",")), "");
}

#[test]
fn present_elements_join() {
    assert_eq!(array_to_string2_vec__(vec![s("a"), s("b")], s(", ")), "a, b");
    assert_eq!(array_to_string3_vec___(vec![s("a"), s("b")], s("|"), s("X")), "a|b");
    assert_eq!(array_to_string3_vec__N(vec![s("a")], s("|"), None), Some(s("a")));
}
