use school_rules::status::expense_graph;
use school_rules::status::payment_graph;
use school_rules::status::salary_graph;
use school_rules::status::transfer_graph;
use school_rules::status::StatusGraph;
use school_rules::status::StatusRule;

fn statuses(graph: &StatusGraph) -> Vec<&'static str> {
    graph.rules.iter().map(|rule| rule.status).collect()
}

#[test]
fn expense_graph_is_the_stated_one() {
    let g = expense_graph();
    assert_eq!(statuses(&g), vec!["pending", "approved", "rejected", "paid"]);
    assert_eq!(g.initial, vec!["pending"]);
    assert!(g.allows("pending", "approved"));
    assert!(g.allows("pending", "rejected"));
    assert!(g.allows("approved", "paid"));
    assert!(!g.allows("pending", "paid"));
    assert!(!g.allows("approved", "pending"));
    assert!(!g.allows("rejected", "approved"));
    assert!(!g.allows("paid", "approved"));
    assert_eq!(g.successors_text("pending"), "approved, rejected");
    assert_eq!(g.successors_text("paid"), "");
    assert_eq!(g.statuses_text(), "pending, approved, rejected, paid");
}

#[test]
fn payment_graph_is_the_stated_one() {
    let g = payment_graph();
    assert_eq!(statuses(&g), vec!["pending", "confirmed", "cancelled", "refunded"]);
    assert!(g.may_start("pending"));
    assert!(g.may_start("confirmed"));
    assert!(!g.may_start("cancelled"));
    assert!(!g.may_start("refunded"));
    assert!(g.allows("pending", "confirmed"));
    assert!(g.allows("pending", "cancelled"));
    assert!(g.allows("confirmed", "refunded"));
    assert!(!g.allows("cancelled", "pending"));
    assert!(!g.allows("refunded", "confirmed"));
    assert!(!g.allows("pending", "refunded"));
}

#[test]
fn salary_graph_is_the_stated_one() {
    let g = salary_graph();
    assert_eq!(statuses(&g), vec!["pending", "approved", "paid"]);
    assert!(g.may_start("pending"));
    assert!(!g.may_start("approved"));
    assert!(g.allows("pending", "approved"));
    assert!(g.allows("approved", "paid"));
    assert!(!g.allows("pending", "paid"));
    assert!(!g.allows("paid", "pending"));
}

#[test]
fn transfer_graph_is_the_stated_one() {
    let g = transfer_graph();
    assert_eq!(statuses(&g), vec!["pending", "approved", "completed", "rejected", "cancelled"]);
    for status in ["pending", "approved", "completed", "rejected", "cancelled"] {
        assert!(g.may_start(status));
        assert!(g.knows(status));
    }
    assert!(g.allows("pending", "approved"));
    assert!(g.allows("pending", "rejected"));
    assert!(g.allows("pending", "cancelled"));
    assert!(g.allows("approved", "completed"));
    assert!(!g.allows("pending", "completed"));
    for terminal in ["completed", "rejected", "cancelled"] {
        for to in ["pending", "approved", "completed", "rejected", "cancelled"] {
            assert!(!g.allows(terminal, to));
        }
    }
}

#[test]
fn a_change_along_no_edge_is_rejected_with_the_transition_error() {
    let graphs = vec![expense_graph(), payment_graph(), salary_graph(), transfer_graph()];
    for g in graphs.iter() {
        let all = statuses(g);
        for from in all.iter() {
            for to in all.iter() {
                let verdict = g.check_transition(from, to);
                if from == to || g.allows(from, to) {
                    assert_eq!(verdict, Ok(()));
                } else {
                    let expected = format!(
                        "Invalid status transition from '{}' to '{}'. {}: [{}]",
                        from,
                        to,
                        g.allowed_label,
                        g.successors_text(from)
                    );
                    assert_eq!(verdict, Err(expected));
                }
            }
        }
    }
}

#[test]
fn transition_error_names_both_statuses_and_the_successors() {
    assert_eq!(
        expense_graph().check_transition("pending", "paid"),
        Err("Invalid status transition from 'pending' to 'paid'. Allowed transitions: [approved, rejected]"
            .to_string())
    );
    assert_eq!(
        expense_graph().check_transition("paid", "pending"),
        Err("Invalid status transition from 'paid' to 'pending'. Allowed transitions: []".to_string())
    );
    assert_eq!(
        payment_graph().check_transition("confirmed", "cancelled"),
        Err("Invalid status transition from 'confirmed' to 'cancelled'. Allowed: [refunded]".to_string())
    );
}

#[test]
fn each_graph_lists_the_successors_under_its_own_words() {
    assert_eq!(expense_graph().allowed_label, "Allowed transitions");
    assert_eq!(payment_graph().allowed_label, "Allowed");
    assert_eq!(salary_graph().allowed_label, "Allowed");
    assert_eq!(transfer_graph().allowed_label, "Allowed");
    assert_eq!(
        salary_graph().check_transition("pending", "paid"),
        Err("Invalid status transition from 'pending' to 'paid'. Allowed: [approved]".to_string())
    );
    assert_eq!(
        transfer_graph().check_transition("approved", "pending"),
        Err("Invalid status transition from 'approved' to 'pending'. Allowed: [completed]".to_string())
    );
}

#[test]
fn a_status_without_a_rule_has_no_successors() {
    let g = expense_graph();
    assert!(!g.knows("archived"));
    assert_eq!(g.position("archived"), None);
    assert_eq!(g.position("rejected"), Some(2));
    assert_eq!(
        g.check_transition("archived", "pending"),
        Err("Invalid status transition from 'archived' to 'pending'. Allowed transitions: []".to_string())
    );
    assert_eq!(g.check_transition("archived", "archived"), Ok(()));
}

#[test]
fn keeping_the_status_always_passes() {
    for g in [expense_graph(), payment_graph(), salary_graph(), transfer_graph()] {
        for status in statuses(&g) {
            assert_eq!(g.check_transition(status, status), Ok(()));
        }
        assert_eq!(g.check_transition("", ""), Ok(()));
    }
}

#[test]
fn the_first_rule_for_a_status_decides() {
    let g = StatusGraph {
        initial: vec!["a"],
        rules: vec![
            StatusRule { status: "a", next: vec!["b"] },
            StatusRule { status: "a", next: vec!["c"] },
            StatusRule { status: "b", next: vec![] },
        ],
        allowed_label: "Next",
    };
    assert_eq!(g.position("a"), Some(0));
    assert!(g.allows("a", "b"));
    assert!(!g.allows("a", "c"));
    assert_eq!(g.statuses_text(), "a, a, b");
    assert_eq!(
        g.check_transition("a", "c"),
        Err("Invalid status transition from 'a' to 'c'. Next: [b]".to_string())
    );
}
