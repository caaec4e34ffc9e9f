//! Conditional inclusion of libraries and launch arguments.
use vstd::prelude::*;

verus! {

/// What a rule asks for when all of its filters match.
#[derive(Clone, Copy, Debug, PartialEq, Eq, Structural)]
pub enum RuleAction {
    Allow,
    Disallow,
}

impl RuleAction {
    pub open spec fn spec_value(self) -> bool {
        self is Allow
    }

    pub open spec fn inverted(self) -> RuleAction {
        match self {
            RuleAction::Allow => RuleAction::Disallow,
            RuleAction::Disallow => RuleAction::Allow,
        }
    }

    /// `true` for `Allow`.
    pub fn value(self) -> (r: bool)
        ensures
            r == self.spec_value(),
    {
        match self {
            RuleAction::Allow => true,
            RuleAction::Disallow => false,
        }
    }

    /// Swaps `Allow` and `Disallow`.
    pub fn invert(self) -> (r: RuleAction)
        ensures
            r == self.inverted(),
    {
        match self {
            RuleAction::Allow => RuleAction::Disallow,
            RuleAction::Disallow => RuleAction::Allow,
        }
    }

    /// `Allow` only when both are `Allow`.
    pub fn chain(self, other: RuleAction) -> (r: RuleAction)
        ensures
            r == (if self is Allow && other is Allow {
                RuleAction::Allow
            } else {
                RuleAction::Disallow
            }),
    {
        match (self, other) {
            (RuleAction::Allow, RuleAction::Allow) => RuleAction::Allow,
            _ => RuleAction::Disallow,
        }
    }
}

/// The operating system a rule is restricted to. Each present field is a filter.
#[derive(Debug)]
pub struct OsDescription {
    pub name: Option<String>,
    pub version: Option<String>,
    pub arch: Option<String>,
}

/// One conditional-inclusion rule.
#[derive(Debug)]
pub struct Rule {
    pub action: RuleAction,
    pub os: Option<OsDescription>,
    /// Required values of feature flags.
    pub features: Option<Vec<(String, bool)>>,
}

/// An ordered list of rules. It allows when at least one rule yields `Allow`.
#[derive(Debug)]
pub struct Rules(pub Vec<Rule>);

/// The runtime platform and feature flags that rules are evaluated against.
#[derive(Debug)]
pub struct PlatformContext {
    pub os_name: String,
    pub arch: String,
    /// Feature flags; a flag that is not listed is `false`. The first entry of a name counts.
    pub features: Vec<(String, bool)>,
}

/// The value of feature `name` in `features`: its first entry, or `false`.
pub open spec fn feature_value(features: Seq<(String, bool)>, name: Seq<char>) -> bool
    decreases features.len(),
{
    if features.len() == 0 {
        false
    } else if features[0].0@ == name {
        features[0].1
    } else {
        feature_value(features.drop_first(), name)
    }
}

/// No two entries share a name, as in the description's JSON object.
pub open spec fn feature_names_unique(features: Seq<(String, bool)>) -> bool {
    forall|a: int, b: int|
        0 <= a < b < features.len() ==> (#[trigger] features[a]).0@ != (#[trigger] features[b]).0@
}

/// With unique names, a feature's value is that of its entry wherever it stands.
pub proof fn lemma_unique_feature_value(features: Seq<(String, bool)>, i: int)
    requires
        feature_names_unique(features),
        0 <= i < features.len(),
    ensures
        feature_value(features, features[i].0@) == features[i].1,
    decreases features.len(),
{
    if i > 0 {
        let rest = features.drop_first();
        assert(features[0].0@ != features[i].0@);
        assert(rest[i - 1] == features[i]);
        assert forall|a: int, b: int| 0 <= a < b < rest.len() implies (#[trigger] rest[a]).0@ != (
        #[trigger] rest[b]).0@ by {
            assert(rest[a] == features[a + 1] && rest[b] == features[b + 1]);
        }
        lemma_unique_feature_value(rest, i - 1);
    }
}

pub open spec fn os_matches(os: OsDescription, ctx: PlatformContext) -> bool {
    &&& (os.name is Some ==> os.name->0@ == ctx.os_name@)
    &&& (os.arch is Some ==> os.arch->0@ == ctx.arch@)
}

pub open spec fn features_match(required: Seq<(String, bool)>, ctx: PlatformContext) -> bool {
    forall|i: int|
        0 <= i < required.len() ==> feature_value(ctx.features@, #[trigger] required[i].0@)
            == required[i].1
}

/// Whether every filter of `rule` matches `ctx`. An OS version filter is not
/// supported yet and is ignored.
pub open spec fn rule_matches(rule: Rule, ctx: PlatformContext) -> bool {
    &&& (rule.os is Some ==> os_matches(rule.os->0, ctx))
    &&& (rule.features is Some ==> features_match(rule.features->0@, ctx))
}

/// The rule's action, inverted when one of its filters does not match.
pub open spec fn effective_action(rule: Rule, ctx: PlatformContext) -> RuleAction {
    if rule_matches(rule, ctx) {
        rule.action
    } else {
        rule.action.inverted()
    }
}

/// A rule set allows iff some rule's effective action is `Allow`.
pub open spec fn rules_allow(rules: Seq<Rule>, ctx: PlatformContext) -> bool {
    exists|i: int| 0 <= i < rules.len() && #[trigger] effective_action(rules[i], ctx) is Allow
}

fn same_text(a: &String, b: &String) -> (r: bool)
    ensures
        r == (a@ == b@),
{
    a.eq(b)
}

/// An empty rule set never allows, whatever the platform.
pub proof fn lemma_empty_rules_disallow(rules: Rules, ctx: PlatformContext)
    requires
        rules.0@.len() == 0,
    ensures
        !rules_allow(rules.0@, ctx),
{
}

impl PlatformContext {
    /// A context for the given platform with no feature flags set.
    pub fn new(os_name: String, arch: String) -> (r: PlatformContext)
        ensures
            r.os_name@ == os_name@,
            r.arch@ == arch@,
            r.features@.len() == 0,
    {
        PlatformContext { os_name, arch, features: Vec::new() }
    }

    /// Sets feature `name` to `value`, taking precedence over earlier entries.
    pub fn set_feature(&mut self, name: String, value: bool)
        ensures
            final(self).os_name == old(self).os_name,
            final(self).arch == old(self).arch,
            forall|k: Seq<char>|
                #![trigger feature_value(final(self).features@, k)]
                feature_value(final(self).features@, k) == if k == name@ {
                    value
                } else {
                    feature_value(old(self).features@, k)
                },
    {
        self.features.insert(0, (name, value));
        proof {
            assert(self.features@.drop_first() =~= old(self).features@);
        }
    }

    /// The value of feature `name`; `false` when it is not set.
    pub fn feature(&self, name: &String) -> (r: bool)
        ensures
            r == feature_value(self.features@, name@),
    {
        let mut i: usize = 0;
        assert(self.features@.subrange(0, self.features@.len() as int) =~= self.features@);
        while i < self.features.len()
            invariant
                i <= self.features@.len(),
                feature_value(self.features@, name@) == feature_value(
                    self.features@.subrange(i as int, self.features@.len() as int),
                    name@,
                ),
            decreases self.features@.len() - i,
        {
            let ghost rest = self.features@.subrange(i as int, self.features@.len() as int);
            if same_text(&self.features[i].0, name) {
                return self.features[i].1;
            }
            assert(rest.drop_first() =~= self.features@.subrange(
                i + 1,
                self.features@.len() as int,
            ));
            i = i + 1;
        }
        false
    }
}

impl Rule {
    /// The required feature flags name each flag once.
    pub open spec fn well_formed(self) -> bool {
        match self.features {
            Some(features) => feature_names_unique(features@),
            None => true,
        }
    }

    fn os_filter_matches(os: &OsDescription, ctx: &PlatformContext) -> (r: bool)
        ensures
            r == os_matches(*os, *ctx),
    {
        if let Some(name) = &os.name {
            if !same_text(name, &ctx.os_name) {
                return false;
            }
        }
        if let Some(arch) = &os.arch {
            if !same_text(arch, &ctx.arch) {
                return false;
            }
        }
        true
    }

    fn features_filter_matches(required: &Vec<(String, bool)>, ctx: &PlatformContext) -> (r: bool)
        ensures
            r == features_match(required@, *ctx),
    {
        let mut i: usize = 0;
        while i < required.len()
            invariant
                i <= required@.len(),
                forall|j: int|
                    0 <= j < i ==> feature_value(ctx.features@, #[trigger] required@[j].0@)
                        == required@[j].1,
            decreases required@.len() - i,
        {
            if ctx.feature(&required[i].0) != required[i].1 {
                return false;
            }
            i = i + 1;
        }
        true
    }

    /// The action after inversion by the filters that do not match.
    pub fn calculate_action(&self, ctx: &PlatformContext) -> (r: RuleAction)
        ensures
            r == effective_action(*self, *ctx),
    {
        if let Some(os) = &self.os {
            if !Self::os_filter_matches(os, ctx) {
                return self.action.invert();
            }
        }
        if let Some(features) = &self.features {
            if !Self::features_filter_matches(features, ctx) {
                return self.action.invert();
            }
        }
        self.action
    }

    /// Whether this rule, on its own, allows.
    pub fn is_allowed(&self, ctx: &PlatformContext) -> (r: bool)
        ensures
            r == (effective_action(*self, *ctx) is Allow),
    {
        self.calculate_action(ctx) == RuleAction::Allow
    }
}

impl Rules {
    /// Whether at least one rule allows; an empty set never does.
    pub fn is_allowed(&self, ctx: &PlatformContext) -> (r: bool)
        ensures
            r == rules_allow(self.0@, *ctx),
    {
        let mut i: usize = 0;
        while i < self.0.len()
            invariant
                i <= self.0@.len(),
                forall|j: int| 0 <= j < i ==> !(#[trigger] effective_action(self.0@[j], *ctx) is Allow),
            decreases self.0@.len() - i,
        {
            if self.0[i].is_allowed(ctx) {
                return true;
            }
            i = i + 1;
        }
        false
    }
}

} // verus!
