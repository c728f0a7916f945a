//! Config: the rules read at startup. A configuration is a set of named
//! entries; the names "ac" and "bat" bind the power-state rules, a decimal
//! name within [0, 100] binds a percentage rule, and any other name is
//! ignored. Building the notification template out of an entry and folding
//! the entries into a `Config` is done here, on plain values; reading and
//! decoding the on-disk file is the caller's business.

use indexmap::IndexMap;
use std::collections::HashMap;
use vstd::prelude::*;

use crate::dispatch::{classify_event, spec_event_key, EventKey};
use crate::rules::{
    action_labels, actions_opt_view, notif_opt_view, rule_opt_view, str_opt_view, NotificationSpec,
    NotificationSpecV, Rule, RuleV, Urgency,
};

verus! {

broadcast use vstd::std_specs::hash::group_hash_axioms;

/// One parsed configuration entry, as plain values.
pub struct ConfigRule {
    pub cmd: Option<String>,
    pub summary: Option<String>,
    pub body: Option<String>,
    pub icon: Option<String>,
    pub appname: Option<String>,
    pub urgency: Option<Urgency>,
    pub actions: Option<IndexMap<String, String>>,
    pub timeout_secs: Option<u64>,
}

/// The mathematical value of a `ConfigRule`.
#[verifier::ext_equal]
pub struct ConfigRuleV {
    pub cmd: Option<Seq<char>>,
    pub summary: Option<Seq<char>>,
    pub body: Option<Seq<char>>,
    pub icon: Option<Seq<char>>,
    pub appname: Option<Seq<char>>,
    pub urgency: Option<Urgency>,
    pub actions: Option<Seq<(Seq<char>, Seq<char>)>>,
    pub timeout_secs: Option<u64>,
}

impl View for ConfigRule {
    type V = ConfigRuleV;

    open spec fn view(&self) -> ConfigRuleV {
        ConfigRuleV {
            cmd: str_opt_view(self.cmd),
            summary: str_opt_view(self.summary),
            body: str_opt_view(self.body),
            icon: str_opt_view(self.icon),
            appname: str_opt_view(self.appname),
            urgency: self.urgency,
            actions: actions_opt_view(self.actions),
            timeout_secs: self.timeout_secs,
        }
    }
}

/// The notification template an entry yields: present exactly when at least
/// one template field is set, the timeout among them. The action labels are
/// the entry's action keys, in order.
pub open spec fn spec_build_notification(cr: ConfigRuleV) -> Option<NotificationSpecV> {
    if cr.summary is Some || cr.body is Some || cr.icon is Some || cr.appname is Some
        || cr.urgency is Some || cr.actions is Some || cr.timeout_secs is Some {
        Some(
            (NotificationSpecV {
                summary: cr.summary,
                body: cr.body,
                icon: cr.icon,
                appname: cr.appname,
                urgency: cr.urgency,
                actions: match cr.actions {
                    Some(es) => es.map_values(|e: (Seq<char>, Seq<char>)| e.0),
                    None => Seq::empty(),
                },
                timeout_secs: cr.timeout_secs,
            }),
        )
    } else {
        None
    }
}

fn clone_opt_string(o: &Option<String>) -> (r: Option<String>)
    ensures
        str_opt_view(r) == str_opt_view(*o),
{
    match o {
        Some(s) => Some(s.clone()),
        None => None,
    }
}

/// Build the notification template of one entry, exactly as
/// `spec_build_notification` states.
pub fn build_notification(rule: &ConfigRule) -> (r: Option<NotificationSpec>)
    ensures
        notif_opt_view(r) == spec_build_notification(rule@),
{
    let edited = rule.summary.is_some() || rule.body.is_some() || rule.icon.is_some()
        || rule.appname.is_some() || rule.urgency.is_some() || rule.actions.is_some()
        || rule.timeout_secs.is_some();
    if !edited {
        return None;
    }
    let labels: Vec<String> = match &rule.actions {
        Some(m) => action_labels(m),
        None => Vec::new(),
    };
    let n = NotificationSpec {
        summary: clone_opt_string(&rule.summary),
        body: clone_opt_string(&rule.body),
        icon: clone_opt_string(&rule.icon),
        appname: clone_opt_string(&rule.appname),
        urgency: rule.urgency,
        actions: labels,
        timeout_secs: rule.timeout_secs,
    };
    proof {
        assert(n@ =~~= spec_build_notification(rule@)->0);
    }
    Some(n)
}

/// The percentage rules: at most one rule per integer percent.
pub type PercentageRules = HashMap<i8, Rule>;

/// The configured rules: one for AC, one for battery, and the percentage map.
pub struct Config {
    pub rule_ac: Option<Rule>,
    pub rule_bat: Option<Rule>,
    pub percentage_rules: PercentageRules,
}

/// The view of a percentage-rule map: the same keys, each rule by value.
pub open spec fn rules_map_view(m: Map<i8, Rule>) -> Map<i8, RuleV> {
    Map::new(|k: i8| m.dom().contains(k), |k: i8| m[k]@)
}

/// The mathematical value of a `Config`.
#[verifier::ext_equal]
pub struct ConfigV {
    pub rule_ac: Option<RuleV>,
    pub rule_bat: Option<RuleV>,
    pub percentage_rules: Map<i8, RuleV>,
}

impl View for Config {
    type V = ConfigV;

    open spec fn view(&self) -> ConfigV {
        ConfigV {
            rule_ac: rule_opt_view(self.rule_ac),
            rule_bat: rule_opt_view(self.rule_bat),
            percentage_rules: rules_map_view(self.percentage_rules@),
        }
    }
}

/// The rule an integer percent selects in config `c`, if any.
pub open spec fn spec_rule_for_percentage(c: ConfigV, p: i8) -> Option<RuleV> {
    if c.percentage_rules.contains_key(p) {
        Some(c.percentage_rules[p])
    } else {
        None
    }
}

/// The rule one entry yields: its notification template, its action map, its
/// command, and the shared working directory.
pub open spec fn spec_rule_of(cr: ConfigRuleV, dir: Seq<char>) -> RuleV {
    RuleV {
        notification_templ: spec_build_notification(cr),
        actions: cr.actions,
        cmd: cr.cmd,
        exec_in_dir: dir,
    }
}

/// The views of a sequence of named entries.
pub open spec fn entries_view(es: Seq<(String, ConfigRule)>) -> Seq<(Seq<char>, ConfigRuleV)> {
    es.map_values(|e: (String, ConfigRule)| (e.0@, e.1@))
}

/// The config the entries fold to, in order: a later entry for the same name
/// replaces an earlier one, and an entry with an unknown name is dropped.
pub open spec fn spec_config_of(entries: Seq<(Seq<char>, ConfigRuleV)>, dir: Seq<char>) -> ConfigV
    decreases entries.len(),
{
    if entries.len() == 0 {
        ConfigV { rule_ac: None, rule_bat: None, percentage_rules: Map::empty() }
    } else {
        let prev = spec_config_of(entries.drop_last(), dir);
        let k = entries.last().0;
        let cr = entries.last().1;
        match spec_event_key(k) {
            EventKey::Ac => ConfigV { rule_ac: Some(spec_rule_of(cr, dir)), ..prev },
            EventKey::Bat => ConfigV { rule_bat: Some(spec_rule_of(cr, dir)), ..prev },
            EventKey::Percent(p) => ConfigV {
                percentage_rules: prev.percentage_rules.insert(p, spec_rule_of(cr, dir)),
                ..prev
            },
            EventKey::Unknown => prev,
        }
    }
}

impl Config {
    /// Every percentage key lies within [0, 100].
    pub open spec fn wf(self) -> bool {
        forall|k: i8| #[trigger] self@.percentage_rules.dom().contains(k) ==> 0 <= k <= 100
    }

    /// Fold named entries into a config, exactly as `spec_config_of` states;
    /// every command of every rule runs in `exec_in_dir`.
    pub fn get(entries: Vec<(String, ConfigRule)>, exec_in_dir: String) -> (c: Config)
        ensures
            c@ == spec_config_of(entries_view(entries@), exec_in_dir@),
            c.wf(),
    {
        let ghost orig = entries@;
        let mut es = entries;
        let mut rule_ac: Option<Rule> = None;
        let mut rule_bat: Option<Rule> = None;
        let mut percentage_rules: PercentageRules = HashMap::new();
        let ghost mut done: int = 0;
        proof {
            assert(entries_view(orig.take(0)) =~= Seq::<(Seq<char>, ConfigRuleV)>::empty());
            assert(rules_map_view(percentage_rules@) =~= Map::<i8, RuleV>::empty());
        }
        while es.len() > 0
            invariant
                0 <= done <= orig.len(),
                es@ == orig.skip(done),
                (ConfigV {
                    rule_ac: rule_opt_view(rule_ac),
                    rule_bat: rule_opt_view(rule_bat),
                    percentage_rules: rules_map_view(percentage_rules@),
                }) == spec_config_of(entries_view(orig.take(done)), exec_in_dir@),
                forall|k: i8| #[trigger]
                    percentage_rules@.dom().contains(k) ==> 0 <= k <= 100,
            decreases es@.len(),
        {
            let (k, cr) = es.remove(0);
            proof {
                assert(orig.skip(done)[0] == orig[done]);
                assert(es@ =~= orig.skip(done + 1));
            }
            let notification = build_notification(&cr);
            let rule = Rule::new(notification, cr.cmd, cr.actions, exec_in_dir.clone());
            let ghost prefix = entries_view(orig.take(done));
            let ghost prefix1 = entries_view(orig.take(done + 1));
            proof {
                assert(prefix1.drop_last() =~= prefix);
                assert(prefix1.last() == (k@, cr@));
                assert(rule@ =~= spec_rule_of(cr@, exec_in_dir@));
            }
            match classify_event(k.as_str()) {
                EventKey::Ac => {
                    rule_ac = Some(rule);
                },
                EventKey::Bat => {
                    rule_bat = Some(rule);
                },
                EventKey::Percent(p) => {
                    let ghost before = percentage_rules@;
                    percentage_rules.insert(p, rule);
                    proof {
                        assert(rules_map_view(percentage_rules@) =~= rules_map_view(
                            before,
                        ).insert(p, spec_rule_of(cr@, exec_in_dir@)));
                    }
                },
                EventKey::Unknown => {},
            }
            proof {
                done = done + 1;
                assert((ConfigV {
                    rule_ac: rule_opt_view(rule_ac),
                    rule_bat: rule_opt_view(rule_bat),
                    percentage_rules: rules_map_view(percentage_rules@),
                }) =~= spec_config_of(entries_view(orig.take(done)), exec_in_dir@));
            }
        }
        proof {
            assert(orig.take(done) =~= orig);
        }
        let c = Config { rule_ac, rule_bat, percentage_rules };
        proof {
            assert(c@ =~= spec_config_of(entries_view(orig), exec_in_dir@));
        }
        c
    }
}

} // verus!
