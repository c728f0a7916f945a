//! Rules: the immutable unit of configured behaviour (an optional command, an
//! optional notification template, an optional ordered action map, a working
//! directory), and the decision engine that says what running a rule does.
//!
//! Running a rule has two branches that the caller drives concurrently: the
//! command branch (`command_branch`) and the notification branch, a small
//! state machine (`notify_step`) that the caller feeds with what happened
//! (display outcome, selected action) and that answers with the next action.

use indexmap::IndexMap;
use vstd::prelude::*;

verus! {

/// Importance level attached to a displayed notification.
#[derive(Clone, Copy, PartialEq, Eq, Structural, Debug)]
pub enum Urgency {
    Low,
    Normal,
    Critical,
}

/// A notification template as plain values: what the platform notification is
/// later built from, with the action labels in their configured order.
#[derive(Debug, PartialEq)]
pub struct NotificationSpec {
    pub summary: Option<String>,
    pub body: Option<String>,
    pub icon: Option<String>,
    pub appname: Option<String>,
    pub urgency: Option<Urgency>,
    pub actions: Vec<String>,
    pub timeout_secs: Option<u64>,
}

/// The mathematical value of a `NotificationSpec`.
#[verifier::ext_equal]
pub struct NotificationSpecV {
    pub summary: Option<Seq<char>>,
    pub body: Option<Seq<char>>,
    pub icon: Option<Seq<char>>,
    pub appname: Option<Seq<char>>,
    pub urgency: Option<Urgency>,
    pub actions: Seq<Seq<char>>,
    pub timeout_secs: Option<u64>,
}

/// The view of an optional owned string.
pub open spec fn str_opt_view(o: Option<String>) -> Option<Seq<char>> {
    match o {
        Some(s) => Some(s@),
        None => None,
    }
}

impl View for NotificationSpec {
    type V = NotificationSpecV;

    open spec fn view(&self) -> NotificationSpecV {
        NotificationSpecV {
            summary: str_opt_view(self.summary),
            body: str_opt_view(self.body),
            icon: str_opt_view(self.icon),
            appname: str_opt_view(self.appname),
            urgency: self.urgency,
            actions: self.actions.deep_view(),
            timeout_secs: self.timeout_secs,
        }
    }
}

/// The view of an optional notification template.
pub open spec fn notif_opt_view(o: Option<NotificationSpec>) -> Option<NotificationSpecV> {
    match o {
        Some(n) => Some(n@),
        None => None,
    }
}

/// Makes indexmap::IndexMap usable in signatures and fields; the value is
/// opaque here, read only through `action_entries` and the wrappers below.
#[verifier::external_type_specification]
#[verifier::external_body]
#[verifier::reject_recursive_types(K)]
#[verifier::reject_recursive_types(V)]
#[verifier::reject_recursive_types(S)]
pub struct ExIndexMap<K, V, S>(IndexMap<K, V, S>);

/// What an action map holds: its label/command entries, in their stored order.
pub uninterp spec fn action_entries(m: IndexMap<String, String>) -> Seq<(Seq<char>, Seq<char>)>;

/// Relies on indexmap::IndexMap::get: the value stored for an equal key, or
/// None when no entry carries the key.
#[verifier::external_body]
pub(crate) fn actions_get<'a>(m: &'a IndexMap<String, String>, label: &str) -> (r: Option<
    &'a String,
>)
    ensures
        match r {
            Some(cmd) => exists|i: int|
                0 <= i < action_entries(*m).len() && #[trigger] action_entries(*m)[i] == (
                label@,
                cmd@,
                ) && (forall|j: int|
                    0 <= j < i ==> (#[trigger] action_entries(*m)[j]).0 != label@),
            None => forall|i: int|
                0 <= i < action_entries(*m).len() ==> (#[trigger] action_entries(*m)[i]).0
                    != label@,
        },
{
    m.get(label)
}

/// Relies on indexmap::IndexMap::keys: the keys of the entries, in their
/// stored order, cloned into owned strings.
#[verifier::external_body]
pub(crate) fn action_labels(m: &IndexMap<String, String>) -> (r: Vec<String>)
    ensures
        r.deep_view() == action_entries(*m).map_values(|e: (Seq<char>, Seq<char>)| e.0),
{
    m.keys().cloned().collect()
}

/// The view of an optional action map.
pub open spec fn actions_opt_view(o: Option<IndexMap<String, String>>) -> Option<
    Seq<(Seq<char>, Seq<char>)>,
> {
    match o {
        Some(m) => Some(action_entries(m)),
        None => None,
    }
}

/// An immutable configured response: optional notification template, optional
/// ordered action map, optional command, and the fixed working directory in
/// which every command of this rule runs.
pub struct Rule {
    pub(crate) notification_templ: Option<NotificationSpec>,
    pub(crate) actions: Option<IndexMap<String, String>>,
    pub(crate) cmd: Option<String>,
    pub(crate) exec_in_dir: String,
}

/// The mathematical value of a `Rule`.
#[verifier::ext_equal]
pub struct RuleV {
    pub notification_templ: Option<NotificationSpecV>,
    pub actions: Option<Seq<(Seq<char>, Seq<char>)>>,
    pub cmd: Option<Seq<char>>,
    pub exec_in_dir: Seq<char>,
}

impl View for Rule {
    type V = RuleV;

    closed spec fn view(&self) -> RuleV {
        RuleV {
            notification_templ: notif_opt_view(self.notification_templ),
            actions: actions_opt_view(self.actions),
            cmd: str_opt_view(self.cmd),
            exec_in_dir: self.exec_in_dir@,
        }
    }
}

/// The view of an optional rule.
pub open spec fn rule_opt_view(o: Option<Rule>) -> Option<RuleV> {
    match o {
        Some(r) => Some(r@),
        None => None,
    }
}

/// A command to hand to the default shell, with the directory to run it in.
#[derive(Debug, PartialEq)]
pub struct ShellJob {
    pub working_dir: String,
    pub cmd: String,
}

/// The mathematical value of a `ShellJob`.
#[verifier::ext_equal]
pub struct ShellJobV {
    pub working_dir: Seq<char>,
    pub cmd: Seq<char>,
}

impl View for ShellJob {
    type V = ShellJobV;

    open spec fn view(&self) -> ShellJobV {
        ShellJobV { working_dir: self.working_dir@, cmd: self.cmd@ }
    }
}

/// The view of an optional shell job.
pub open spec fn job_opt_view(o: Option<ShellJob>) -> Option<ShellJobV> {
    match o {
        Some(j) => Some(j@),
        None => None,
    }
}

/// What happened on the notification branch: it is about to start, the
/// display attempt finished (successfully or not), or the user selected an
/// action label (`None` stands for a dismissal).
pub enum NotifyEvent {
    Begin,
    Displayed(bool),
    Selected(Option<String>),
}

/// The mathematical value of a `NotifyEvent`.
pub enum NotifyEventV {
    Begin,
    Displayed(bool),
    Selected(Option<Seq<char>>),
}

impl View for NotifyEvent {
    type V = NotifyEventV;

    open spec fn view(&self) -> NotifyEventV {
        match self {
            NotifyEvent::Begin => NotifyEventV::Begin,
            NotifyEvent::Displayed(ok) => NotifyEventV::Displayed(*ok),
            NotifyEvent::Selected(sel) => NotifyEventV::Selected(
                match sel {
                    Some(s) => Some(s@),
                    None => None,
                },
            ),
        }
    }
}

/// What the notification branch does next: display the template, block until
/// the user selects or dismisses, run an action's command, or finish.
#[derive(Debug, PartialEq)]
pub enum NotifyAction<'a> {
    Display(&'a NotificationSpec),
    AwaitSelection,
    Run(ShellJob),
    Finish,
}

/// The mathematical value of a `NotifyAction`.
pub enum NotifyActionV {
    Display(NotificationSpecV),
    AwaitSelection,
    Run(ShellJobV),
    Finish,
}

impl<'a> View for NotifyAction<'a> {
    type V = NotifyActionV;

    open spec fn view(&self) -> NotifyActionV {
        match self {
            NotifyAction::Display(n) => NotifyActionV::Display((*n)@),
            NotifyAction::AwaitSelection => NotifyActionV::AwaitSelection,
            NotifyAction::Run(j) => NotifyActionV::Run(j@),
            NotifyAction::Finish => NotifyActionV::Finish,
        }
    }
}

/// The command mapped to `label`: the value of the first entry whose key is
/// `label`, or `None` when no entry carries it.
pub open spec fn entries_lookup(es: Seq<(Seq<char>, Seq<char>)>, label: Seq<char>) -> Option<
    Seq<char>,
>
    decreases es.len(),
{
    if es.len() == 0 {
        None
    } else if es[0].0 == label {
        Some(es[0].1)
    } else {
        entries_lookup(es.drop_first(), label)
    }
}

proof fn lemma_lookup_from_first_match(es: Seq<(Seq<char>, Seq<char>)>, label: Seq<char>, i: int)
    requires
        0 <= i < es.len(),
        es[i].0 == label,
        forall|j: int| 0 <= j < i ==> (#[trigger] es[j]).0 != label,
    ensures
        entries_lookup(es, label) == Some(es[i].1),
    decreases i,
{
    if i == 0 {
    } else {
        assert(es[0].0 != label);
        assert(forall|j: int|
            0 <= j < i - 1 ==> (#[trigger] es.drop_first()[j]).0 == es[j + 1].0 && es[j + 1].0
                != label);
        assert(es.drop_first()[i - 1] == es[i]);
        lemma_lookup_from_first_match(es.drop_first(), label, i - 1);
    }
}

proof fn lemma_lookup_none(es: Seq<(Seq<char>, Seq<char>)>, label: Seq<char>)
    requires
        forall|i: int| 0 <= i < es.len() ==> (#[trigger] es[i]).0 != label,
    ensures
        entries_lookup(es, label) is None,
    decreases es.len(),
{
    if es.len() > 0 {
        assert(forall|j: int|
            0 <= j < es.len() - 1 ==> (#[trigger] es.drop_first()[j]).0 == es[j + 1].0 && es[j
                + 1].0 != label);
        lemma_lookup_none(es.drop_first(), label);
    }
}

/// The command branch of running a rule: the configured command, if any, as a
/// job in the rule's working directory.
pub open spec fn spec_command_branch(r: RuleV) -> Option<ShellJobV> {
    match r.cmd {
        Some(c) => Some((ShellJobV { working_dir: r.exec_in_dir, cmd: c })),
        None => None,
    }
}

/// The notification branch of running a rule, one decision at a time.
pub open spec fn spec_notify_step(r: RuleV, ev: NotifyEventV) -> NotifyActionV {
    match ev {
        NotifyEventV::Begin => match r.notification_templ {
            Some(n) => NotifyActionV::Display(n),
            None => NotifyActionV::Finish,
        },
        NotifyEventV::Displayed(ok) => if ok && r.actions is Some {
            NotifyActionV::AwaitSelection
        } else {
            NotifyActionV::Finish
        },
        NotifyEventV::Selected(sel) => match (r.actions, sel) {
            (Some(es), Some(label)) => match entries_lookup(es, label) {
                Some(c) => NotifyActionV::Run(
                    (ShellJobV { working_dir: r.exec_in_dir, cmd: c }),
                ),
                None => NotifyActionV::Finish,
            },
            _ => NotifyActionV::Finish,
        },
    }
}

impl Rule {
    /// Build a rule from its parts; the rule keeps exactly what it is given.
    pub fn new(
        notification_templ: Option<NotificationSpec>,
        cmd: Option<String>,
        actions: Option<IndexMap<String, String>>,
        exec_in_dir: String,
    ) -> (r: Rule)
        ensures
            r@.notification_templ == notif_opt_view(notification_templ),
            r@.actions == actions_opt_view(actions),
            r@.cmd == str_opt_view(cmd),
            r@.exec_in_dir == exec_in_dir@,
    {
        Rule { notification_templ, cmd, actions, exec_in_dir }
    }

    /// The notification template this rule displays, if any.
    pub fn notification_templ(&self) -> (r: &Option<NotificationSpec>)
        ensures
            notif_opt_view(*r) == self@.notification_templ,
    {
        &self.notification_templ
    }

    /// The command branch: the job to run, if a command is configured.
    pub fn command_branch(&self) -> (r: Option<ShellJob>)
        ensures
            job_opt_view(r) == spec_command_branch(self@),
    {
        match &self.cmd {
            Some(c) => Some(
                ShellJob { working_dir: self.exec_in_dir.clone(), cmd: c.clone() },
            ),
            None => None,
        }
    }

    /// The next action of the notification branch after `ev`.
    pub fn notify_step<'a>(&'a self, ev: &NotifyEvent) -> (r: NotifyAction<'a>)
        ensures
            r@ == spec_notify_step(self@, ev@),
    {
        match ev {
            NotifyEvent::Begin => match &self.notification_templ {
                Some(n) => NotifyAction::Display(n),
                None => NotifyAction::Finish,
            },
            NotifyEvent::Displayed(ok) => {
                if *ok && self.actions.is_some() {
                    NotifyAction::AwaitSelection
                } else {
                    NotifyAction::Finish
                }
            },
            NotifyEvent::Selected(sel) => {
                match (&self.actions, sel) {
                    (Some(m), Some(label)) => {
                        match actions_get(m, label.as_str()) {
                            Some(c) => {
                                proof {
                                    let es = action_entries(self.actions->0);
                                    let i = choose|i: int|
                                        0 <= i < es.len() && #[trigger] es[i] == (label@, c@) && (
                                        forall|j: int|
                                            0 <= j < i ==> (#[trigger] es[j]).0 != label@);
                                    lemma_lookup_from_first_match(es, label@, i);
                                }
                                NotifyAction::Run(
                                    ShellJob {
                                        working_dir: self.exec_in_dir.clone(),
                                        cmd: c.clone(),
                                    },
                                )
                            },
                            None => {
                                proof {
                                    lemma_lookup_none(action_entries(self.actions->0), label@);
                                }
                                NotifyAction::Finish
                            },
                        }
                    },
                    _ => NotifyAction::Finish,
                }
            },
        }
    }
}

/// A rule with a command and no notification template runs exactly that
/// command and never displays anything: no event makes the notification
/// branch display.
pub proof fn lemma_command_only_rule(r: RuleV, ev: NotifyEventV)
    requires
        r.cmd is Some,
        r.notification_templ is None,
    ensures
        spec_command_branch(r) == Some((ShellJobV { working_dir: r.exec_in_dir, cmd: r.cmd->0 })),
        !(spec_notify_step(r, ev) is Display),
{
}

/// A rule with a notification template and no action map displays the
/// template and finishes without waiting for a selection.
pub proof fn lemma_display_without_actions(r: RuleV)
    requires
        r.notification_templ is Some,
        r.actions is None,
    ensures
        spec_notify_step(r, NotifyEventV::Begin) == NotifyActionV::Display(r.notification_templ->0),
        forall|ok: bool|
            spec_notify_step(r, NotifyEventV::Displayed(ok)) == NotifyActionV::Finish,
{
}

/// With an action map, selecting a mapped label runs exactly the command the
/// map carries for it, in the rule's working directory; dismissing the
/// notification or selecting an unmapped label runs nothing.
pub proof fn lemma_selection_runs_mapped_command(r: RuleV, label: Seq<char>)
    requires
        r.actions is Some,
    ensures
        entries_lookup(r.actions->0, label) matches Some(c) ==> spec_notify_step(
            r,
            NotifyEventV::Selected(Some(label)),
        ) == NotifyActionV::Run((ShellJobV { working_dir: r.exec_in_dir, cmd: c })),
        entries_lookup(r.actions->0, label) is None ==> spec_notify_step(
            r,
            NotifyEventV::Selected(Some(label)),
        ) == NotifyActionV::Finish,
        spec_notify_step(r, NotifyEventV::Selected(None)) == NotifyActionV::Finish,
{
}

} // verus!
