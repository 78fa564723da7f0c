use plugin_host::dispatch::first_present;

fn s(v: &str) -> Option<String> {
    Some(v.to_string())
}

#[test]
fn short_circuit_after_first_verdict() {
    let (v, n) = first_present(&vec![None, s("second"), s("third")]);
    assert_eq!(v, s("second"));
    assert_eq!(n, 2);
}

#[test]
fn registry_order_decides() {
    assert_eq!(first_present(&vec![s("a"), s("b")]).0, s("a"));
    assert_eq!(first_present(&vec![s("b"), s("a")]).0, s("b"));
}

#[test]
fn absent_answers_continue() {
    assert_eq!(first_present(&vec![None, None, s("x")]), (s("x"), 3));
    assert_eq!(first_present(&vec![None, None]), (None, 2));
    assert_eq!(first_present(&vec![]), (None, 0));
}
