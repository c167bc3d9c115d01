use sys_abi::url_decode;
use sys_abi::url_encode;

#[test]
fn encode_plain_text_unchanged() {
    assert_eq!(url_encode("hello world"), "hello world");
    assert_eq!(url_encode(""), "");
}

#[test]
fn encode_exact_forms() {
    assert_eq!(url_encode("&"), "&amp;");
    assert_eq!(url_encode(":"), "&col;");
    assert_eq!(url_encode("="), "&eq;");
    assert_eq!(url_encode("a=b&c:d"), "a&eq;b&amp;c&col;d");
}

#[test]
fn decode_exact_forms() {
    assert_eq!(url_decode("&amp;"), "&");
    assert_eq!(url_decode("&col;"), ":");
    assert_eq!(url_decode("&eq;"), "=");
    assert_eq!(url_decode("a&eq;b&amp;c&col;d"), "a=b&c:d");
}

#[test]
fn round_trip_simple() {
    let inputs = ["", "plain", "key=value", "a&b", "x:y:z", "=&:", "päge:ünïcode=ök&"];
    for s in inputs {
        assert_eq!(url_decode(&url_encode(s)), s);
    }
}

#[test]
fn round_trip_inputs_that_look_escaped() {
    let inputs = ["&amp;", "&col;", "&eq;", "&&eq;;", "&amp;amp;", "&e&eq;q;", "&col&eq;;"];
    for s in inputs {
        assert_eq!(url_decode(&url_encode(s)), s);
    }
}

#[test]
fn encoded_output_has_no_unescaped_delimiter() {
    let inputs = ["", "a=b&c:d", "&amp;", ":=&", "text", "&&&===:::"];
    for s in inputs {
        let e: Vec<char> = url_encode(s).chars().collect();
        let mut i = 0;
        while i < e.len() {
            assert_ne!(e[i], ':');
            assert_ne!(e[i], '=');
            if e[i] == '&' {
                let rest: String = e[i..].iter().collect();
                assert!(
                    rest.starts_with("&amp;") || rest.starts_with("&col;")
                        || rest.starts_with("&eq;"),
                    "bare & at {} in {:?}",
                    i,
                    rest
                );
            }
            i += 1;
        }
    }
}

#[test]
fn decode_copies_non_escape_text() {
    assert_eq!(url_decode("plain"), "plain");
    assert_eq!(url_decode("&amp"), "&amp");
    assert_eq!(url_decode("&x;"), "&x;");
    assert_eq!(url_decode(""), "");
}

#[test]
fn decode_never_reexpands_its_own_output() {
    // An unescaping must not feed its result back into a later substitution:
    // the `&` that comes out of `&amp;` does not start a new escape.
    assert_eq!(url_decode("&amp;col;"), "&col;");
    assert_eq!(url_decode("&amp;eq;"), "&eq;");
    assert_eq!(url_decode("&&eq;"), "&=");
}
