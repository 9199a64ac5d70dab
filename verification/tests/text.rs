use quoteapp::text::{join_commas, push_decimal, same_text, split_commas, split_words};

#[test]
fn words_split_on_any_unicode_whitespace() {
    assert_eq!(split_words("STREAM 127.0.0.1:9090 AAPL,MSFT\n"), vec!["STREAM", "127.0.0.1:9090", "AAPL,MSFT"]);
    assert_eq!(split_words("  a\tb\r\n c  "), vec!["a", "b", "c"]);
    assert_eq!(split_words("\u{3000}x\u{a0}y\u{2003}"), vec!["x", "y"]);
    assert!(split_words("").is_empty());
    assert!(split_words(" \n\t").is_empty());
    let s = "héllo wörld  ünïcode";
    let ours = split_words(s);
    let std: Vec<&str> = s.split_whitespace().collect();
    assert_eq!(ours, std);
}

#[test]
fn commas_split_like_str_split() {
    for s in ["a,b,c", "a,,b", "", ",", "abc", "a,", ",a", "AAPL,MSFT,TSLA"] {
        let std: Vec<&str> = s.split(',').collect();
        assert_eq!(split_commas(s), std);
    }
}

#[test]
fn join_puts_commas_between() {
    let v: Vec<String> = vec!["AAPL".into(), "MSFT".into(), "TSLA".into()];
    assert_eq!(join_commas(&v), "AAPL,MSFT,TSLA");
    assert_eq!(join_commas(&vec!["X".to_string()]), "X");
    assert_eq!(join_commas(&Vec::new()), "");
    assert_eq!(split_commas(&join_commas(&v)), v);
}

#[test]
fn decimal_text() {
    for n in [0u64, 7, 10, 99, 1024, 65535, u64::MAX] {
        let mut s = String::from("n=");
        push_decimal(&mut s, n);
        assert_eq!(s, format!("n={}", n));
    }
}

#[test]
fn same_text_compares_characters() {
    assert!(same_text("", ""));
    assert!(same_text("ünï", "ünï"));
    assert!(!same_text("ab", "abc"));
    assert!(!same_text("ab", "aB"));
}
