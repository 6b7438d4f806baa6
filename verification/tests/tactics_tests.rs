use sctt::tactics::Tactic;

#[test]
fn from_name_knows_the_bare_tactics() {
    assert!(matches!(Tactic::from_name("intro"), Some(Tactic::Intro(x)) if x == "x"));
    assert!(matches!(Tactic::from_name("assumption"), Some(Tactic::Assumption)));
    assert!(matches!(Tactic::from_name("reflexivity"), Some(Tactic::Reflexivity)));
    assert!(matches!(Tactic::from_name("auto"), Some(Tactic::Auto(5))));
    assert!(matches!(Tactic::from_name("simp"), Some(Tactic::Simp)));
}

#[test]
fn from_name_rejects_unknown_names() {
    assert!(Tactic::from_name("destruct").is_none());
    assert!(Tactic::from_name("").is_none());
    assert!(Tactic::from_name("Intro").is_none());
}
