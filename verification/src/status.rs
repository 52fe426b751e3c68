//! The state machine that every record with a status follows.
//!
//! A graph lists, for each status, the statuses that may follow it, and the
//! statuses that a new record may have. One evaluator serves every kind of
//! record; each kind brings its own graph.

use vstd::prelude::*;
use crate::text::is_one_of;
use crate::text::join_strs;
use crate::text::joined;
use crate::text::literal_views;
use crate::text::str_equal;
use crate::verdict::outcome;
use crate::verdict::Verdict;

verus! {

/// One status of a graph and the statuses that may follow it.
pub struct StatusRule {
    pub status: &'static str,
    pub next: Vec<&'static str>,
}

/// The statuses of one kind of record: those that a new record may have, and
/// for each status its successors; and the words under which a rejected
/// change lists the successors.
pub struct StatusGraph {
    pub initial: Vec<&'static str>,
    pub rules: Vec<StatusRule>,
    pub allowed_label: &'static str,
}

/// A rule as texts.
pub struct RuleModel {
    pub status: Seq<char>,
    pub next: Seq<Seq<char>>,
}

/// A graph as texts.
pub struct GraphModel {
    pub initial: Seq<Seq<char>>,
    pub rules: Seq<RuleModel>,
    pub allowed_label: Seq<char>,
}

impl View for StatusRule {
    type V = RuleModel;

    open spec fn view(&self) -> RuleModel {
        RuleModel { status: self.status@, next: literal_views(self.next@) }
    }
}

impl View for StatusGraph {
    type V = GraphModel;

    open spec fn view(&self) -> GraphModel {
        GraphModel {
            initial: literal_views(self.initial@),
            rules: Seq::new(self.rules@.len(), |i: int| self.rules@[i]@),
            allowed_label: self.allowed_label@,
        }
    }
}

/// The place of the first rule for `status`, if there is one.
pub open spec fn rule_index(rules: Seq<RuleModel>, status: Seq<char>) -> Option<int>
    decreases rules.len(),
{
    if rules.len() == 0 {
        None
    } else {
        match rule_index(rules.drop_last(), status) {
            Some(i) => Some(i),
            None => if rules.last().status == status {
                Some(rules.len() - 1)
            } else {
                None
            },
        }
    }
}

/// `rule_index` finds the first rule for the status, and finds one wherever
/// there is one.
pub proof fn lemma_rule_index(rules: Seq<RuleModel>, status: Seq<char>)
    ensures
        rule_index(rules, status) is Some ==> 0 <= rule_index(rules, status)->0 < rules.len(),
        rule_index(rules, status) is Some ==> rules[rule_index(rules, status)->0].status == status,
        forall|j: int|
            0 <= j < rules.len() && (#[trigger] rules[j]).status == status ==> rule_index(
                rules,
                status,
            ) is Some && rule_index(rules, status)->0 <= j,
    decreases rules.len(),
{
    if rules.len() > 0 {
        let earlier = rules.drop_last();
        lemma_rule_index(earlier, status);
        assert forall|j: int|
            0 <= j < rules.len() && (#[trigger] rules[j]).status == status implies rule_index(
            rules,
            status,
        ) is Some && rule_index(rules, status)->0 <= j by {
            if j < rules.len() - 1 {
                assert(earlier[j] == rules[j]);
            }
        }
        if rule_index(earlier, status) is Some {
            assert(earlier[rule_index(earlier, status)->0] == rules[rule_index(earlier, status)->0]);
        }
    }
}

proof fn lemma_rule_index_stays(rules: Seq<RuleModel>, status: Seq<char>, k: int)
    requires
        0 <= k <= rules.len(),
        rule_index(rules.take(k), status) is Some,
    ensures
        rule_index(rules, status) == rule_index(rules.take(k), status),
    decreases rules.len() - k,
{
    if k == rules.len() {
        assert(rules.take(k) =~= rules);
    } else {
        assert(rules.drop_last().take(k) =~= rules.take(k));
        lemma_rule_index_stays(rules.drop_last(), status, k);
    }
}

impl GraphModel {
    /// Whether the graph has a rule for `status`.
    pub open spec fn knows(self, status: Seq<char>) -> bool {
        rule_index(self.rules, status) is Some
    }

    /// The statuses that may follow `status`: none where the graph has no
    /// rule for it.
    pub open spec fn successors(self, status: Seq<char>) -> Seq<Seq<char>> {
        match rule_index(self.rules, status) {
            Some(i) => self.rules[i].next,
            None => Seq::empty(),
        }
    }

    /// Whether `to` may follow `from`.
    pub open spec fn allows(self, from: Seq<char>, to: Seq<char>) -> bool {
        self.successors(from).contains(to)
    }

    /// Whether nothing may follow `status`.
    pub open spec fn is_terminal(self, status: Seq<char>) -> bool {
        self.successors(status).len() == 0
    }

    /// Whether a new record may have `status`.
    pub open spec fn may_start(self, status: Seq<char>) -> bool {
        self.initial.contains(status)
    }

    /// A graph is well formed where no status has two rules, and where every
    /// successor and every initial status has a rule.
    pub open spec fn well_formed(self) -> bool {
        &&& forall|i: int, j: int|
            0 <= i < j < self.rules.len() ==> (#[trigger] self.rules[i]).status != (
            #[trigger] self.rules[j]).status
        &&& forall|i: int, k: int|
            0 <= i < self.rules.len() && 0 <= k < self.rules[i].next.len() ==> self.knows(
                #[trigger] self.rules[i].next[k],
            )
        &&& forall|k: int| 0 <= k < self.initial.len() ==> self.knows(#[trigger] self.initial[k])
    }
}

/// The rejection of a change of status that the graph does not allow: it
/// names both statuses and, under the words of `label`, the ones that may
/// follow the first.
pub open spec fn transition_message(
    from: Seq<char>,
    to: Seq<char>,
    label: Seq<char>,
    next: Seq<Seq<char>>,
) -> Seq<char> {
    "Invalid status transition from '"@ + from + "' to '"@ + to + "'. "@ + label + ": ["@ + joined(
        next,
        ", "@,
    ) + "]"@
}

/// Whether a record may go from `from` to `to`: it may keep its status, and
/// it may move along an edge of the graph.
pub open spec fn transition_verdict(graph: GraphModel, from: Seq<char>, to: Seq<char>) -> Verdict {
    if from == to || graph.allows(from, to) {
        Ok(())
    } else {
        Err(transition_message(from, to, graph.allowed_label, graph.successors(from)))
    }
}

/// A change of status along no edge of the graph is rejected, and the
/// rejection is the transition error.
pub proof fn lemma_missing_edge_rejected(graph: GraphModel, from: Seq<char>, to: Seq<char>)
    requires
        from != to,
        !graph.allows(from, to),
    ensures
        transition_verdict(graph, from, to) == Err::<(), Seq<char>>(
            transition_message(from, to, graph.allowed_label, graph.successors(from)),
        ),
{
}

/// No record leaves a terminal status.
pub proof fn lemma_terminal_is_final(graph: GraphModel, from: Seq<char>, to: Seq<char>)
    requires
        graph.is_terminal(from),
        from != to,
    ensures
        transition_verdict(graph, from, to) is Err,
{
}

/// A record that keeps its status passes, whatever the graph.
pub proof fn lemma_same_status_passes(graph: GraphModel, status: Seq<char>)
    ensures
        transition_verdict(graph, status, status) is Ok,
{
}

impl StatusGraph {
    /// The place of the rule for `status`.
    pub fn position(&self, status: &str) -> (r: Option<usize>)
        ensures
            r is Some ==> rule_index(self@.rules, status@) == Some(r->0 as int),
            r is Some ==> r->0 < self.rules@.len(),
            r is None ==> rule_index(self@.rules, status@) is None,
    {
        let mut i: usize = 0;
        while i < self.rules.len()
            invariant
                i <= self.rules.len(),
                rule_index(self@.rules.take(i as int), status@) is None,
            decreases self.rules.len() - i,
        {
            proof {
                assert(self@.rules.take(i + 1).drop_last() =~= self@.rules.take(i as int));
                assert(self@.rules.take(i + 1).last() == self.rules@[i as int]@);
            }
            if str_equal(self.rules[i].status, status) {
                proof {
                    lemma_rule_index_stays(self@.rules, status@, i + 1);
                }
                return Some(i);
            }
            i = i + 1;
        }
        proof {
            assert(self@.rules.take(self.rules.len() as int) =~= self@.rules);
        }
        None
    }

    /// Whether the graph has a rule for `status`.
    pub fn knows(&self, status: &str) -> (r: bool)
        ensures
            r == self@.knows(status@),
    {
        self.position(status).is_some()
    }

    /// Whether a new record may have `status`.
    pub fn may_start(&self, status: &str) -> (r: bool)
        ensures
            r == self@.may_start(status@),
    {
        is_one_of(status, &self.initial)
    }

    /// Whether `to` may follow `from`.
    pub fn allows(&self, from: &str, to: &str) -> (r: bool)
        ensures
            r == self@.allows(from@, to@),
    {
        match self.position(from) {
            Some(i) => {
                proof {
                    assert(self@.rules[i as int] == self.rules@[i as int]@);
                }
                is_one_of(to, &self.rules[i].next)
            },
            None => {
                proof {
                    assert(!Seq::<Seq<char>>::empty().contains(to@));
                }
                false
            },
        }
    }

    /// The statuses that may follow `status`, joined by `, `.
    pub fn successors_text(&self, status: &str) -> (out: String)
        ensures
            out@ == joined(self@.successors(status@), ", "@),
    {
        match self.position(status) {
            Some(i) => {
                proof {
                    assert(self@.rules[i as int] == self.rules@[i as int]@);
                }
                join_strs(&self.rules[i].next, ", ")
            },
            None => String::new(),
        }
    }

    /// Decides whether a record may go from `from` to `to`.
    pub fn check_transition(&self, from: &str, to: &str) -> (res: Result<(), String>)
        ensures
            outcome(res) == transition_verdict(self@, from@, to@),
    {
        if str_equal(from, to) || self.allows(from, to) {
            return Ok(());
        }
        let mut message = "Invalid status transition from '".to_string();
        message.append(from);
        message.append("' to '");
        message.append(to);
        message.append("'. ");
        message.append(self.allowed_label);
        message.append(": [");
        let next = self.successors_text(from);
        message.append(next.as_str());
        message.append("]");
        Err(message)
    }
}

impl GraphModel {
    /// The statuses that the graph has a rule for, in the order of the rules.
    pub open spec fn statuses(self) -> Seq<Seq<char>> {
        Seq::new(self.rules.len(), |i: int| self.rules[i].status)
    }
}

impl StatusGraph {
    /// The statuses of the graph, joined by `, `.
    pub fn statuses_text(&self) -> (out: String)
        ensures
            out@ == joined(self@.statuses(), ", "@),
    {
        let mut names: Vec<&'static str> = Vec::new();
        let mut i: usize = 0;
        while i < self.rules.len()
            invariant
                i <= self.rules.len(),
                names@.len() == i,
                forall|j: int| 0 <= j < i ==> (#[trigger] names@[j])@ == self.rules@[j].status@,
            decreases self.rules.len() - i,
        {
            names.push(self.rules[i].status);
            i = i + 1;
        }
        proof {
            assert(literal_views(names@) =~= self@.statuses());
        }
        join_strs(&names, ", ")
    }
}

// ---------------------------------------------------------------------------
// The graphs of the records that have a status
// ---------------------------------------------------------------------------

/// Expenses: pending, then approved or rejected; approved, then paid. A new
/// expense is pending. A rejected change lists the successors under the
/// words `Allowed transitions`.
pub open spec fn expense_statuses() -> GraphModel {
    GraphModel {
        initial: seq!["pending"@],
        rules: seq![
            RuleModel { status: "pending"@, next: seq!["approved"@, "rejected"@] },
            RuleModel { status: "approved"@, next: seq!["paid"@] },
            RuleModel { status: "rejected"@, next: Seq::empty() },
            RuleModel { status: "paid"@, next: Seq::empty() },
        ],
        allowed_label: "Allowed transitions"@,
    }
}

/// Payments: pending, then confirmed or cancelled; confirmed, then refunded.
/// A new payment is pending, or confirmed at once. A rejected change lists
/// the successors under the word `Allowed`.
pub open spec fn payment_statuses() -> GraphModel {
    GraphModel {
        initial: seq!["pending"@, "confirmed"@],
        rules: seq![
            RuleModel { status: "pending"@, next: seq!["confirmed"@, "cancelled"@] },
            RuleModel { status: "confirmed"@, next: seq!["refunded"@] },
            RuleModel { status: "cancelled"@, next: Seq::empty() },
            RuleModel { status: "refunded"@, next: Seq::empty() },
        ],
        allowed_label: "Allowed"@,
    }
}

/// Salary runs: pending, then approved, then paid. A new run is pending. A
/// rejected change lists the successors under the word `Allowed`.
pub open spec fn salary_statuses() -> GraphModel {
    GraphModel {
        initial: seq!["pending"@],
        rules: seq![
            RuleModel { status: "pending"@, next: seq!["approved"@] },
            RuleModel { status: "approved"@, next: seq!["paid"@] },
            RuleModel { status: "paid"@, next: Seq::empty() },
        ],
        allowed_label: "Allowed"@,
    }
}

/// Transfers: pending, then approved, rejected or cancelled; approved, then
/// completed. A transfer may be entered with any of its statuses. A rejected
/// change lists the successors under the word `Allowed`.
pub open spec fn transfer_statuses() -> GraphModel {
    GraphModel {
        initial: seq!["pending"@, "approved"@, "completed"@, "rejected"@, "cancelled"@],
        rules: seq![
            RuleModel { status: "pending"@, next: seq!["approved"@, "rejected"@, "cancelled"@] },
            RuleModel { status: "approved"@, next: seq!["completed"@] },
            RuleModel { status: "completed"@, next: Seq::empty() },
            RuleModel { status: "rejected"@, next: Seq::empty() },
            RuleModel { status: "cancelled"@, next: Seq::empty() },
        ],
        allowed_label: "Allowed"@,
    }
}

fn rule(status: &'static str, next: Vec<&'static str>) -> (r: StatusRule)
    ensures
        r@ == (RuleModel { status: status@, next: literal_views(next@) }),
{
    StatusRule { status, next }
}

fn graph(initial: Vec<&'static str>, rules: Vec<StatusRule>, allowed_label: &'static str) -> (g:
    StatusGraph)
    ensures
        g@.initial == literal_views(initial@),
        g@.allowed_label == allowed_label@,
        g@.rules.len() == rules@.len(),
        forall|i: int| 0 <= i < rules@.len() ==> g@.rules[i] == (#[trigger] rules@[i])@,
{
    StatusGraph { initial, rules, allowed_label }
}

/// The graph of expenses.
pub fn expense_graph() -> (g: StatusGraph)
    ensures
        g@ == expense_statuses(),
{
    let initial: Vec<&'static str> = vec!["pending"];
    let after_pending: Vec<&'static str> = vec!["approved", "rejected"];
    let after_approved: Vec<&'static str> = vec!["paid"];
    proof {
        assert(literal_views(initial@) =~= seq!["pending"@]);
        assert(literal_views(after_pending@) =~= seq!["approved"@, "rejected"@]);
        assert(literal_views(after_approved@) =~= seq!["paid"@]);
        assert(literal_views(Seq::<&'static str>::empty()) =~= Seq::<Seq<char>>::empty());
    }
    let rules: Vec<StatusRule> = vec![
        rule("pending", after_pending),
        rule("approved", after_approved),
        rule("rejected", Vec::new()),
        rule("paid", Vec::new()),
    ];
    let g = graph(initial, rules, "Allowed transitions");
    proof {
        assert(g@.rules =~= expense_statuses().rules);
    }
    g
}

/// The graph of payments.
pub fn payment_graph() -> (g: StatusGraph)
    ensures
        g@ == payment_statuses(),
{
    let initial: Vec<&'static str> = vec!["pending", "confirmed"];
    let after_pending: Vec<&'static str> = vec!["confirmed", "cancelled"];
    let after_confirmed: Vec<&'static str> = vec!["refunded"];
    proof {
        assert(literal_views(initial@) =~= seq!["pending"@, "confirmed"@]);
        assert(literal_views(after_pending@) =~= seq!["confirmed"@, "cancelled"@]);
        assert(literal_views(after_confirmed@) =~= seq!["refunded"@]);
        assert(literal_views(Seq::<&'static str>::empty()) =~= Seq::<Seq<char>>::empty());
    }
    let rules: Vec<StatusRule> = vec![
        rule("pending", after_pending),
        rule("confirmed", after_confirmed),
        rule("cancelled", Vec::new()),
        rule("refunded", Vec::new()),
    ];
    let g = graph(initial, rules, "Allowed");
    proof {
        assert(g@.rules =~= payment_statuses().rules);
    }
    g
}

/// The graph of salary runs.
pub fn salary_graph() -> (g: StatusGraph)
    ensures
        g@ == salary_statuses(),
{
    let initial: Vec<&'static str> = vec!["pending"];
    let after_pending: Vec<&'static str> = vec!["approved"];
    let after_approved: Vec<&'static str> = vec!["paid"];
    proof {
        assert(literal_views(initial@) =~= seq!["pending"@]);
        assert(literal_views(after_pending@) =~= seq!["approved"@]);
        assert(literal_views(after_approved@) =~= seq!["paid"@]);
        assert(literal_views(Seq::<&'static str>::empty()) =~= Seq::<Seq<char>>::empty());
    }
    let rules: Vec<StatusRule> = vec![
        rule("pending", after_pending),
        rule("approved", after_approved),
        rule("paid", Vec::new()),
    ];
    let g = graph(initial, rules, "Allowed");
    proof {
        assert(g@.rules =~= salary_statuses().rules);
    }
    g
}

/// The graph of transfers between accounts.
pub fn transfer_graph() -> (g: StatusGraph)
    ensures
        g@ == transfer_statuses(),
{
    let initial: Vec<&'static str> = vec!["pending", "approved", "completed", "rejected", "cancelled"];
    let after_pending: Vec<&'static str> = vec!["approved", "rejected", "cancelled"];
    let after_approved: Vec<&'static str> = vec!["completed"];
    proof {
        assert(literal_views(initial@) =~= seq![
            "pending"@,
            "approved"@,
            "completed"@,
            "rejected"@,
            "cancelled"@,
        ]);
        assert(literal_views(after_pending@) =~= seq!["approved"@, "rejected"@, "cancelled"@]);
        assert(literal_views(after_approved@) =~= seq!["completed"@]);
        assert(literal_views(Seq::<&'static str>::empty()) =~= Seq::<Seq<char>>::empty());
    }
    let rules: Vec<StatusRule> = vec![
        rule("pending", after_pending),
        rule("approved", after_approved),
        rule("completed", Vec::new()),
        rule("rejected", Vec::new()),
        rule("cancelled", Vec::new()),
    ];
    let g = graph(initial, rules, "Allowed");
    proof {
        assert(g@.rules =~= transfer_statuses().rules);
    }
    g
}

/// The expense graph is well formed; `rejected` and `paid` are terminal, and
/// no expense is paid before it is approved.
pub proof fn lemma_expense_statuses()
    ensures
        expense_statuses().well_formed(),
        expense_statuses().allows("pending"@, "approved"@),
        expense_statuses().allows("pending"@, "rejected"@),
        expense_statuses().allows("approved"@, "paid"@),
        !expense_statuses().allows("pending"@, "paid"@),
        expense_statuses().is_terminal("rejected"@),
        expense_statuses().is_terminal("paid"@),
{
    reveal_strlit("pending");
    reveal_strlit("approved");
    reveal_strlit("rejected");
    reveal_strlit("paid");
    assert("approved"@[0] != "rejected"@[0]);
    let g = expense_statuses();
    lemma_rule_index(g.rules, "pending"@);
    lemma_rule_index(g.rules, "approved"@);
    lemma_rule_index(g.rules, "rejected"@);
    lemma_rule_index(g.rules, "paid"@);
    assert(g.rules[0].status == "pending"@);
    assert(g.rules[1].status == "approved"@);
    assert(g.rules[2].status == "rejected"@);
    assert(g.rules[3].status == "paid"@);
    assert(rule_index(g.rules, "pending"@) == Some(0int));
    assert(rule_index(g.rules, "approved"@) == Some(1int));
    assert(rule_index(g.rules, "rejected"@) == Some(2int));
    assert(rule_index(g.rules, "paid"@) == Some(3int));
    assert(g.rules[0].next[0] == "approved"@);
    assert(g.rules[0].next[1] == "rejected"@);
    assert(g.rules[1].next[0] == "paid"@);
    assert(g.initial[0] == "pending"@);
}

/// The payment graph is well formed; `cancelled` and `refunded` are
/// terminal, and no payment is refunded before it is confirmed.
pub proof fn lemma_payment_statuses()
    ensures
        payment_statuses().well_formed(),
        payment_statuses().allows("pending"@, "confirmed"@),
        payment_statuses().allows("pending"@, "cancelled"@),
        payment_statuses().allows("confirmed"@, "refunded"@),
        !payment_statuses().allows("pending"@, "refunded"@),
        payment_statuses().is_terminal("cancelled"@),
        payment_statuses().is_terminal("refunded"@),
{
    reveal_strlit("pending");
    reveal_strlit("confirmed");
    reveal_strlit("cancelled");
    reveal_strlit("refunded");
    assert("confirmed"@[1] != "cancelled"@[1]);
    let g = payment_statuses();
    lemma_rule_index(g.rules, "pending"@);
    lemma_rule_index(g.rules, "confirmed"@);
    lemma_rule_index(g.rules, "cancelled"@);
    lemma_rule_index(g.rules, "refunded"@);
    assert(g.rules[0].status == "pending"@);
    assert(g.rules[1].status == "confirmed"@);
    assert(g.rules[2].status == "cancelled"@);
    assert(g.rules[3].status == "refunded"@);
    assert(rule_index(g.rules, "pending"@) == Some(0int));
    assert(rule_index(g.rules, "confirmed"@) == Some(1int));
    assert(rule_index(g.rules, "cancelled"@) == Some(2int));
    assert(rule_index(g.rules, "refunded"@) == Some(3int));
    assert(g.rules[0].next[0] == "confirmed"@);
    assert(g.rules[0].next[1] == "cancelled"@);
    assert(g.rules[1].next[0] == "refunded"@);
    assert(g.initial[0] == "pending"@);
    assert(g.initial[1] == "confirmed"@);
}

/// The salary graph is well formed; `paid` is terminal, and no salary is
/// paid before it is approved.
pub proof fn lemma_salary_statuses()
    ensures
        salary_statuses().well_formed(),
        salary_statuses().allows("pending"@, "approved"@),
        salary_statuses().allows("approved"@, "paid"@),
        !salary_statuses().allows("pending"@, "paid"@),
        salary_statuses().is_terminal("paid"@),
{
    reveal_strlit("pending");
    reveal_strlit("approved");
    reveal_strlit("paid");
    let g = salary_statuses();
    lemma_rule_index(g.rules, "pending"@);
    lemma_rule_index(g.rules, "approved"@);
    lemma_rule_index(g.rules, "paid"@);
    assert(g.rules[0].status == "pending"@);
    assert(g.rules[1].status == "approved"@);
    assert(g.rules[2].status == "paid"@);
    assert(rule_index(g.rules, "pending"@) == Some(0int));
    assert(rule_index(g.rules, "approved"@) == Some(1int));
    assert(rule_index(g.rules, "paid"@) == Some(2int));
    assert(g.rules[0].next[0] == "approved"@);
    assert(g.rules[1].next[0] == "paid"@);
    assert(g.initial[0] == "pending"@);
}

/// The transfer graph is well formed; `completed`, `rejected` and
/// `cancelled` are terminal, and no transfer is completed before it is
/// approved.
pub proof fn lemma_transfer_statuses()
    ensures
        transfer_statuses().well_formed(),
        transfer_statuses().allows("pending"@, "approved"@),
        transfer_statuses().allows("pending"@, "rejected"@),
        transfer_statuses().allows("pending"@, "cancelled"@),
        transfer_statuses().allows("approved"@, "completed"@),
        !transfer_statuses().allows("pending"@, "completed"@),
        transfer_statuses().is_terminal("completed"@),
        transfer_statuses().is_terminal("rejected"@),
        transfer_statuses().is_terminal("cancelled"@),
{
    reveal_strlit("pending");
    reveal_strlit("approved");
    reveal_strlit("completed");
    reveal_strlit("rejected");
    reveal_strlit("cancelled");
    assert("approved"@[0] != "rejected"@[0]);
    assert("completed"@[1] != "cancelled"@[1]);
    let g = transfer_statuses();
    lemma_rule_index(g.rules, "pending"@);
    lemma_rule_index(g.rules, "approved"@);
    lemma_rule_index(g.rules, "completed"@);
    lemma_rule_index(g.rules, "rejected"@);
    lemma_rule_index(g.rules, "cancelled"@);
    assert(g.rules[0].status == "pending"@);
    assert(g.rules[1].status == "approved"@);
    assert(g.rules[2].status == "completed"@);
    assert(g.rules[3].status == "rejected"@);
    assert(g.rules[4].status == "cancelled"@);
    assert(rule_index(g.rules, "pending"@) == Some(0int));
    assert(rule_index(g.rules, "approved"@) == Some(1int));
    assert(rule_index(g.rules, "completed"@) == Some(2int));
    assert(rule_index(g.rules, "rejected"@) == Some(3int));
    assert(rule_index(g.rules, "cancelled"@) == Some(4int));
    assert(g.rules[0].next[0] == "approved"@);
    assert(g.rules[0].next[1] == "rejected"@);
    assert(g.rules[0].next[2] == "cancelled"@);
    assert(g.rules[1].next[0] == "completed"@);
    assert(g.initial[0] == "pending"@);
    assert(g.initial[1] == "approved"@);
    assert(g.initial[2] == "completed"@);
    assert(g.initial[3] == "rejected"@);
    assert(g.initial[4] == "cancelled"@);
}

} // verus!
