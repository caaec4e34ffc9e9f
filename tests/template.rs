use mcl_rs::template::{lookup_value, substitute};

fn context(pairs: &[(&str, &str)]) -> Vec<(String, String)> {
    pairs.iter().map(|(k, v)| (k.to_string(), v.to_string())).collect()
}

#[test]
fn substitutes_game_directory() {
    let c = context(&[("game_directory", "/home/u/.minecraft")]);
    assert_eq!(substitute("${game_directory}/saves", &c), "/home/u/.minecraft/saves");
}

#[test]
fn unknown_placeholder_stays_verbatim() {
    let c = context(&[("game_directory", "/g")]);
    assert_eq!(substitute("${user_type}", &c), "${user_type}");
    assert_eq!(substitute("a${nope}b${game_directory}", &c), "a${nope}b/g");
}

#[test]
fn every_placeholder_is_substituted() {
    let c = context(&[("a", "1"), ("b", "22")]);
    assert_eq!(substitute("${a}-${b}-${a}", &c), "1-22-1");
    assert_eq!(substitute("plain", &c), "plain");
    assert_eq!(substitute("", &c), "");
}

#[test]
fn unclosed_placeholder_is_kept() {
    let c = context(&[("a", "1")]);
    assert_eq!(substitute("x${a", &c), "x${a");
    assert_eq!(substitute("$a}", &c), "$a}");
}

#[test]
fn values_are_not_rescanned() {
    let c = context(&[("a", "${b}"), ("b", "no")]);
    assert_eq!(substitute("${a}", &c), "${b}");
}

#[test]
fn first_entry_of_a_name_wins() {
    let c = context(&[("a", "first"), ("a", "second")]);
    assert_eq!(lookup_value(&c, "a").map(|s| s.as_str()), Some("first"));
    assert_eq!(lookup_value(&c, "z"), None);
}
