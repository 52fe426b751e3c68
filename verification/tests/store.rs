use school_rules::store::check_present;
use school_rules::store::check_unique;
use school_rules::store::has_conflict;
use school_rules::store::pattern_for;
use school_rules::store::query_by_description;
use school_rules::store::query_by_key;
use school_rules::store::MatchBy;

fn keys(list: &[&str]) -> Vec<String> {
    list.iter().map(|k| k.to_string()).collect()
}

#[test]
fn pattern_is_field_value_semicolon() {
    assert_eq!(pattern_for("reference", "EXP-2024-AB12CD34"), "reference=EXP-2024-AB12CD34;");
    assert_eq!(pattern_for("name", ""), "name=;");
}

#[test]
fn a_new_record_conflicts_with_every_record_found() {
    assert!(!has_conflict(&keys(&[]), ""));
    assert!(has_conflict(&keys(&["k1"]), ""));
    assert!(has_conflict(&keys(&[""]), ""));
}

#[test]
fn an_update_does_not_conflict_with_its_own_record() {
    assert!(!has_conflict(&keys(&["k1"]), "k1"));
    assert!(!has_conflict(&keys(&["k1", "k1"]), "k1"));
    assert!(has_conflict(&keys(&["k1", "k2"]), "k1"));
    assert!(has_conflict(&keys(&["k2"]), "k1"));
    assert!(!has_conflict(&keys(&[]), "k1"));
}

#[test]
fn two_writers_of_one_reference_one_after_the_other() {
    // Nothing is stored: the first writer passes.
    let before = Ok(keys(&[]));
    assert_eq!(check_unique(&before, "k1", "Reference '", "R", "' already exists"), Ok(()));
    // The first is committed under k1: the second, under k2, is rejected.
    let after = Ok(keys(&["k1"]));
    assert_eq!(
        check_unique(&after, "k2", "Reference '", "R", "' already exists"),
        Err("Reference 'R' already exists".to_string())
    );
    // The first may be written again.
    assert_eq!(check_unique(&after, "k1", "Reference '", "R", "' already exists"), Ok(()));
}

#[test]
fn two_writers_of_one_reference_at_once_both_pass() {
    let before = Ok(keys(&[]));
    assert_eq!(check_unique(&before, "k1", "Reference '", "R", "' already exists"), Ok(()));
    assert_eq!(check_unique(&before, "k2", "Reference '", "R", "' already exists"), Ok(()));
}

#[test]
fn a_failure_of_the_store_is_the_rejection() {
    let failed = Err("store unavailable".to_string());
    assert_eq!(
        check_unique(&failed, "k1", "Reference '", "R", "' already exists"),
        Err("store unavailable".to_string())
    );
    assert_eq!(check_present(&failed, "Class '", "c1", "' not found"), Err("store unavailable".to_string()));
}

#[test]
fn a_referenced_record_must_be_found() {
    assert_eq!(check_present(&Ok(keys(&["c1"])), "Class '", "c1", "' not found"), Ok(()));
    assert_eq!(
        check_present(&Ok(keys(&[])), "Class '", "c1", "' not found"),
        Err("Class 'c1' not found".to_string())
    );
}

#[test]
fn a_question_names_the_collection_and_the_pattern() {
    let q = query_by_description("expenses", "reference=R;".to_string());
    assert_eq!(q.collection, "expenses");
    assert_eq!(q.by, MatchBy::Description);
    assert_eq!(q.pattern, "reference=R;");
    let q = query_by_key("classes", "jss1");
    assert_eq!(q.collection, "classes");
    assert_eq!(q.by, MatchBy::Key);
    assert_eq!(q.pattern, "jss1");
}
