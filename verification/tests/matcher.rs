use policy_casbin::matcher::{ascii_list, plain_matcher, Names};

fn names(ascii_request: bool, ascii_policy: bool) -> Names {
    Names {
        request: vec!["r_sub".to_string(), "r_obj".to_string()],
        policy: vec!["p_sub".to_string(), "p_obj".to_string()],
        ascii_request,
        ascii_policy,
    }
}

#[test]
fn comparisons_lookups_and_roles_are_plain() {
    for matcher in [
        "r_sub == p_sub && r_obj == p_obj && r_act == p_act",
        "g(r_sub, p_sub) && r_obj == p_obj",
        "g (r_sub, p_sub, r_dom) || g2(r_obj, p_obj)",
        "r_sub == \"root\" || !(r_sub != p_sub)",
        "r_sub == \"/a.b*(c)\" && ! (r_act == p_act)",
        "keyGet2(r_obj, p_obj, \"id\") == \"1\"",
        "r_level >= p_level",
        "r_level<p_level || r_level > 5 || r_level <= p_level",
        "r_act in [\"read\", \"write\"] || r_act !in [\"x\"] || r_act in (p_act)",
        "r_sub.age > 18",
        "keyMatch(\"/a\", p_obj)",
        "keyMatch(5, p_obj)",
        "true",
        "",
    ] {
        assert!(plain_matcher(matcher, &names(false, false)), "{}", matcher);
        assert!(plain_matcher(matcher, &names(true, true)), "{}", matcher);
    }
}

#[test]
fn cuts_of_ascii_are_plain() {
    for matcher in [
        "keyMatch(r_obj, p_obj)",
        "g(r_sub, p_sub) && keyMatch ( r_obj , p_obj )",
        "keyGet(r_obj, \"\u{e9}\") == \"x\"",
    ] {
        assert!(plain_matcher(matcher, &names(true, false)), "{}", matcher);
        assert!(!plain_matcher(matcher, &names(false, true)), "{}", matcher);
    }
    let matcher = "keyMatch(p_obj, r_obj)";
    assert!(plain_matcher(matcher, &names(false, true)));
    assert!(!plain_matcher(matcher, &names(true, false)));
    for matcher in ["r_obj.keyMatch(p_obj)", "keyMatch((r_obj), p_obj)"] {
        assert!(plain_matcher(matcher, &names(true, true)), "{}", matcher);
        assert!(!plain_matcher(matcher, &names(true, false)), "{}", matcher);
        assert!(!plain_matcher(matcher, &names(false, true)), "{}", matcher);
    }
    assert!(!plain_matcher("keyMatch(\"\u{e9}\", p_obj)", &names(true, true)));
}

#[test]
fn a_policy_entry_hides_a_request_entry_of_its_name() {
    let mut names = names(true, false);
    names.policy.push("r_obj".to_string());
    assert!(!plain_matcher("keyMatch(r_obj, p_obj)", &names));
}

#[test]
fn other_matchers_are_not_plain() {
    for matcher in [
        "regexMatch(r_obj, p_obj)",
        "regexMatch (r_obj, p_obj)",
        "regexMatch!(r_obj, p_obj)",
        "regexMatch ! (r_obj, p_obj)",
        "keyMatch2(r_obj, p_obj)",
        "keyMatch3(r_obj, p_obj)",
        "keyMatch4(r_obj, p_obj)",
        "keyMatch5(r_obj, p_obj)",
        "keyGet3(r_obj, p_obj, \"id\")",
        "eval(p_rule)",
        "gx(r_sub, p_sub)",
        "r_sub.regexMatch(p_sub)",
        "Fn(\"regexMatch\").call(r_obj, p_obj)",
        "1 / 0 == 1",
        "1 << 99 == 1",
        "1 >> 99 == 1",
        "1..2 == 1",
        "r_sub == \"\\\"\" || regexMatch(r_obj, p_obj)",
        "r_sub == `x`",
        "r_sub[9] == p_sub",
        "[1][2] == p_sub",
        "r_sub in [\"a\"][3]",
    ] {
        assert!(!plain_matcher(matcher, &names(true, true)), "{}", matcher);
    }
}

#[test]
fn a_list_is_ascii_if_all_of_it_is() {
    assert!(ascii_list(&vec![]));
    assert!(ascii_list(&vec!["".to_string(), "a\u{7f}".to_string()]));
    assert!(!ascii_list(&vec!["a".to_string(), "b\u{80}".to_string()]));
}
