//! Dispatch: classify an incoming event key, and resolve an event to the
//! rule that should run, if any. A boolean power-state event picks the
//! battery or the AC rule; a percentage event is an exact lookup of the
//! integer percent; a one-shot test key is parsed first.

use vstd::prelude::*;

use crate::config::{spec_rule_for_percentage, Config};
use crate::parse::{parse_i8, spec_parse_i8};
use crate::rules::{rule_opt_view, Rule, RuleV};

verus! {

/// What an event key names: the AC rule, the battery rule, a percent in
/// [0, 100], or nothing.
#[derive(Clone, Copy, PartialEq, Eq, Structural, Debug)]
pub enum EventKey {
    Ac,
    Bat,
    Percent(i8),
    Unknown,
}

/// Classification of a raw event key: the two keywords first, then a decimal
/// percent within [0, 100]; anything else is unknown.
pub open spec fn spec_event_key(s: Seq<char>) -> EventKey {
    if s == "ac"@ {
        EventKey::Ac
    } else if s == "bat"@ {
        EventKey::Bat
    } else if spec_parse_i8(s) is Some && 0 <= spec_parse_i8(s)->0 <= 100 {
        EventKey::Percent(spec_parse_i8(s)->0 as i8)
    } else {
        EventKey::Unknown
    }
}

/// Classify an event key, exactly as `spec_event_key` states.
pub fn classify_event(s: &str) -> (k: EventKey)
    ensures
        k == spec_event_key(s@),
{
    let n = s.unicode_len();
    if n == 2 {
        let c0 = s.get_char(0);
        let c1 = s.get_char(1);
        if c0 == 'a' && c1 == 'c' {
            proof {
                reveal_strlit("ac");
                assert(s@ =~= "ac"@);
            }
            return EventKey::Ac;
        }
    }
    if n == 3 {
        let c0 = s.get_char(0);
        let c1 = s.get_char(1);
        let c2 = s.get_char(2);
        if c0 == 'b' && c1 == 'a' && c2 == 't' {
            proof {
                reveal_strlit("ac");
                reveal_strlit("bat");
                assert(s@ =~= "bat"@);
                assert(s@ != "ac"@);
            }
            return EventKey::Bat;
        }
    }
    proof {
        reveal_strlit("ac");
        reveal_strlit("bat");
        assert(s@ != "ac"@);
        assert(s@ != "bat"@);
    }
    match parse_i8(s) {
        Some(p) => {
            if 0 <= p && p <= 100 {
                EventKey::Percent(p)
            } else {
                EventKey::Unknown
            }
        },
        None => EventKey::Unknown,
    }
}

/// The outcome of a one-shot test lookup: the key was not understood, it was
/// understood but no rule is configured for it, or a rule matched.
pub enum TestLookup<'a> {
    UnknownKey,
    NoRule,
    Matched(&'a Rule),
}

/// The mathematical value of a `TestLookup`.
pub enum TestLookupV {
    UnknownKey,
    NoRule,
    Matched(RuleV),
}

impl<'a> View for TestLookup<'a> {
    type V = TestLookupV;

    open spec fn view(&self) -> TestLookupV {
        match self {
            TestLookup::UnknownKey => TestLookupV::UnknownKey,
            TestLookup::NoRule => TestLookupV::NoRule,
            TestLookup::Matched(r) => TestLookupV::Matched((*r)@),
        }
    }
}

/// What a one-shot test lookup of `s` resolves to in config `c`.
pub open spec fn spec_test_lookup(c: crate::config::ConfigV, s: Seq<char>) -> TestLookupV {
    match spec_event_key(s) {
        EventKey::Ac => match c.rule_ac {
            Some(r) => TestLookupV::Matched(r),
            None => TestLookupV::NoRule,
        },
        EventKey::Bat => match c.rule_bat {
            Some(r) => TestLookupV::Matched(r),
            None => TestLookupV::NoRule,
        },
        EventKey::Percent(p) => match spec_rule_for_percentage(c, p) {
            Some(r) => TestLookupV::Matched(r),
            None => TestLookupV::NoRule,
        },
        EventKey::Unknown => TestLookupV::UnknownKey,
    }
}

impl Config {
    /// The rule a power-state change selects: the battery rule when on
    /// battery, else the AC rule.
    pub fn rule_for_power_state(&self, on_battery: bool) -> (r: &Option<Rule>)
        ensures
            rule_opt_view(*r) == if on_battery {
                self@.rule_bat
            } else {
                self@.rule_ac
            },
    {
        if on_battery {
            &self.rule_bat
        } else {
            &self.rule_ac
        }
    }

    /// The rule an integer percent selects: the exact-match entry, if any.
    pub fn rule_for_percentage(&self, percentage: i8) -> (r: Option<&Rule>)
        ensures
            match r {
                Some(rule) => spec_rule_for_percentage(self@, percentage) == Some(rule@),
                None => spec_rule_for_percentage(self@, percentage) is None,
            },
    {
        self.percentage_rules.get(&percentage)
    }

    /// Resolve a one-shot test key, exactly as `spec_test_lookup` states.
    pub fn test_lookup<'a>(&'a self, event: &str) -> (r: TestLookup<'a>)
        ensures
            r@ == spec_test_lookup(self@, event@),
    {
        match classify_event(event) {
            EventKey::Ac => match &self.rule_ac {
                Some(r) => TestLookup::Matched(r),
                None => TestLookup::NoRule,
            },
            EventKey::Bat => match &self.rule_bat {
                Some(r) => TestLookup::Matched(r),
                None => TestLookup::NoRule,
            },
            EventKey::Percent(p) => match self.rule_for_percentage(p) {
                Some(r) => TestLookup::Matched(r),
                None => TestLookup::NoRule,
            },
            EventKey::Unknown => TestLookup::UnknownKey,
        }
    }
}

/// A rule stored for percent key `p` is reached both by the live percentage
/// dispatch and by a one-shot test lookup of any key that names `p`.
pub proof fn lemma_percent_rule_reachable(c: crate::config::ConfigV, p: i8, s: Seq<char>)
    requires
        spec_event_key(s) == EventKey::Percent(p),
        c.percentage_rules.contains_key(p),
    ensures
        spec_rule_for_percentage(c, p) == Some(c.percentage_rules[p]),
        spec_test_lookup(c, s) == TestLookupV::Matched(c.percentage_rules[p]),
{
}

/// A key that is no keyword and no percent within [0, 100] resolves to
/// "unknown key" in every config, matching no rule.
pub proof fn lemma_unknown_key_matches_nothing(c: crate::config::ConfigV, s: Seq<char>)
    requires
        spec_event_key(s) == EventKey::Unknown,
    ensures
        spec_test_lookup(c, s) == TestLookupV::UnknownKey,
{
}

/// In a well-formed config a raw percent outside [0, 100] finds no rule.
pub proof fn lemma_out_of_range_percent_finds_no_rule(c: Config, p: i8)
    requires
        c.wf(),
        !(0 <= p <= 100),
    ensures
        spec_rule_for_percentage(c@, p) is None,
{
}

} // verus!
