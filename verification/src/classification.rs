//! Classification tiers and scatter policies.
//!
//! Classification drives scatter policy (k-of-n erasure coding and the
//! number of jurisdictions), retention, and access control. A policy is an
//! ordered rule list plus an optional floor; classifying a path takes the
//! highest tier among the floor and every matching rule.

use vstd::prelude::*;
use vstd::string::{StrSliceExecFns, StringExecFns};

verus! {

/// Data classification tiers, ordered by sensitivity.
#[derive(Debug, Clone, Copy, PartialEq, Eq, PartialOrd, Ord, Hash, Structural)]
pub enum Classification {
    Public,
    Internal,
    Confidential,
    Restricted,
    Sovereign,
}

/// Scatter distribution policy derived from a classification tier.
#[derive(Debug, Clone, Copy, PartialEq, Eq, Structural)]
pub struct ScatterPolicy {
    /// Minimum shards needed to reconstruct (erasure coding threshold).
    pub k: u32,
    /// Total shards distributed.
    pub n: u32,
    /// Minimum distinct jurisdictions for shard placement.
    pub jurisdictions: u32,
}

/// A classification rule: glob pattern → classification.
#[derive(Debug, Clone)]
pub struct ClassificationRule {
    /// Glob pattern to match (for example `*.xlsx` or `/finance/**`).
    pub pattern: String,
    /// Classification to assign when the pattern matches.
    pub classification: Classification,
}

/// Classification policy: ordered rule list plus an optional minimum floor.
#[derive(Debug, Clone)]
pub struct ClassificationPolicy {
    pub rules: Vec<ClassificationRule>,
    /// Minimum classification for all data.
    pub minimum: Option<Classification>,
}

/// Numeric sensitivity rank of a tier, lowest first.
pub open spec fn spec_level(c: Classification) -> int {
    match c {
        Classification::Public => 0,
        Classification::Internal => 1,
        Classification::Confidential => 2,
        Classification::Restricted => 3,
        Classification::Sovereign => 4,
    }
}

/// The scatter policy each tier carries.
pub open spec fn spec_scatter_policy(c: Classification) -> ScatterPolicy {
    match c {
        Classification::Public => ScatterPolicy { k: 2, n: 3, jurisdictions: 1 },
        Classification::Internal => ScatterPolicy { k: 3, n: 5, jurisdictions: 2 },
        Classification::Confidential => ScatterPolicy { k: 5, n: 7, jurisdictions: 3 },
        Classification::Restricted => ScatterPolicy { k: 7, n: 9, jurisdictions: 3 },
        Classification::Sovereign => ScatterPolicy { k: 9, n: 13, jurisdictions: 5 },
    }
}

/// The canonical upper-case name of each tier.
pub open spec fn spec_tier_name(c: Classification) -> Seq<char> {
    match c {
        Classification::Public => "PUBLIC"@,
        Classification::Internal => "INTERNAL"@,
        Classification::Confidential => "CONFIDENTIAL"@,
        Classification::Restricted => "RESTRICTED"@,
        Classification::Sovereign => "SOVEREIGN"@,
    }
}

/// A character's code with ASCII lower-case letters folded to upper case.
pub open spec fn upper_code(c: char) -> u32 {
    if 97 <= c as u32 && c as u32 <= 122 {
        (c as u32 - 32) as u32
    } else {
        c as u32
    }
}

/// The two character sequences are equal up to ASCII case.
pub open spec fn eq_ignore_ascii_case(a: Seq<char>, b: Seq<char>) -> bool {
    a.len() == b.len() && forall|i: int| 0 <= i < a.len() ==> upper_code(a[i]) == upper_code(b[i])
}

/// The tier a string names, compared ASCII-case-insensitively.
pub open spec fn spec_tier_of(s: Seq<char>) -> Option<Classification> {
    if eq_ignore_ascii_case(s, "PUBLIC"@) {
        Some(Classification::Public)
    } else if eq_ignore_ascii_case(s, "INTERNAL"@) {
        Some(Classification::Internal)
    } else if eq_ignore_ascii_case(s, "CONFIDENTIAL"@) {
        Some(Classification::Confidential)
    } else if eq_ignore_ascii_case(s, "RESTRICTED"@) {
        Some(Classification::Restricted)
    } else if eq_ignore_ascii_case(s, "SOVEREIGN"@) {
        Some(Classification::Sovereign)
    } else {
        None
    }
}

impl Classification {
    /// Numeric sensitivity rank, for comparing tiers.
    pub fn level(&self) -> (r: u8)
        ensures
            r as int == spec_level(*self),
    {
        match self {
            Classification::Public => 0,
            Classification::Internal => 1,
            Classification::Confidential => 2,
            Classification::Restricted => 3,
            Classification::Sovereign => 4,
        }
    }

    /// The scatter policy for this classification tier.
    pub fn scatter_policy(&self) -> (r: ScatterPolicy)
        ensures
            r == spec_scatter_policy(*self),
    {
        match self {
            Classification::Public => ScatterPolicy { k: 2, n: 3, jurisdictions: 1 },
            Classification::Internal => ScatterPolicy { k: 3, n: 5, jurisdictions: 2 },
            Classification::Confidential => ScatterPolicy { k: 5, n: 7, jurisdictions: 3 },
            Classification::Restricted => ScatterPolicy { k: 7, n: 9, jurisdictions: 3 },
            Classification::Sovereign => ScatterPolicy { k: 9, n: 13, jurisdictions: 5 },
        }
    }

    /// Parse a tier name, ignoring ASCII case.
    pub fn from_str(s: &str) -> (r: Option<Classification>)
        ensures
            r == spec_tier_of(s@),
    {
        if eq_tier_name(s, "PUBLIC") {
            Some(Classification::Public)
        } else if eq_tier_name(s, "INTERNAL") {
            Some(Classification::Internal)
        } else if eq_tier_name(s, "CONFIDENTIAL") {
            Some(Classification::Confidential)
        } else if eq_tier_name(s, "RESTRICTED") {
            Some(Classification::Restricted)
        } else if eq_tier_name(s, "SOVEREIGN") {
            Some(Classification::Sovereign)
        } else {
            None
        }
    }

    /// The canonical upper-case name of this tier.
    pub fn as_str(&self) -> (r: &'static str)
        ensures
            r@ == spec_tier_name(*self),
    {
        match self {
            Classification::Public => "PUBLIC",
            Classification::Internal => "INTERNAL",
            Classification::Confidential => "CONFIDENTIAL",
            Classification::Restricted => "RESTRICTED",
            Classification::Sovereign => "SOVEREIGN",
        }
    }
}

/// Compare a string against a tier name, ignoring ASCII case.
#[verifier::loop_isolation(false)]
fn eq_tier_name(s: &str, name: &str) -> (r: bool)
    ensures
        r == eq_ignore_ascii_case(s@, name@),
{
    let n = s.unicode_len();
    if n != name.unicode_len() {
        return false;
    }
    let mut i: usize = 0;
    while i < n
        invariant
            i <= n,
            forall|a: int| 0 <= a < i ==> upper_code(s@[a]) == upper_code(name@[a]),
        decreases n - i,
    {
        if upper_code_of(s.get_char(i)) != upper_code_of(name.get_char(i)) {
            return false;
        }
        i += 1;
    }
    true
}

/// A character's code with ASCII lower-case letters folded to upper case.
fn upper_code_of(c: char) -> (r: u32)
    ensures
        r == upper_code(c),
{
    let u = c as u32;
    if 97 <= u && u <= 122 {
        u - 32
    } else {
        u
    }
}

/// The simplified glob dialect the classification rules use: `**` matches
/// everything, `*.ext` matches by suffix `.ext`, `dir/**` matches by prefix
/// `dir`, and any other pattern matches only itself.
pub open spec fn spec_glob_match(pattern: Seq<char>, path: Seq<char>) -> bool {
    if pattern.len() == 2 && pattern[0] == '*' && pattern[1] == '*' {
        true
    } else if pattern.len() >= 2 && pattern[0] == '*' && pattern[1] == '.' {
        let suffix = seq!['.'] + pattern.skip(2);
        path.len() >= suffix.len() && path.skip(path.len() - suffix.len()) == suffix
    } else if pattern.len() >= 3 && pattern[pattern.len() - 3] == '/' && pattern[pattern.len()
        - 2] == '*' && pattern[pattern.len() - 1] == '*' {
        let prefix = pattern.take(pattern.len() - 3);
        path.len() >= prefix.len() && path.take(prefix.len() as int) == prefix
    } else {
        path == pattern
    }
}

/// Match a path against a glob pattern of the simplified dialect.
pub fn glob_match(pattern: &str, path: &str) -> (r: bool)
    ensures
        r == spec_glob_match(pattern@, path@),
{
    proof {
        reveal_strlit("**");
        reveal_strlit(".");
    }
    let plen = pattern.unicode_len();
    let palen = path.unicode_len();
    if pattern.to_owned() == String::from_str("**") {
        return true;
    }
    proof {
        if plen == 2 && pattern@[0] == '*' && pattern@[1] == '*' {
            assert(pattern@ =~= "**"@);
        }
    }
    if plen >= 2 && pattern.get_char(0) == '*' && pattern.get_char(1) == '.' {
        let slen = plen - 1;
        if palen < slen {
            return false;
        }
        let tail = path.substring_char(palen - slen, palen);
        let mut expected = String::from_str(".");
        expected.append(pattern.substring_char(2, plen));
        let r = tail.to_owned() == expected;
        proof {
            assert(tail@ =~= path@.skip(palen - slen));
            assert(expected@ =~= seq!['.'] + pattern@.skip(2));
        }
        return r;
    }
    if plen >= 3 && pattern.get_char(plen - 3) == '/' && pattern.get_char(plen - 2) == '*'
        && pattern.get_char(plen - 1) == '*' {
        let prefl = plen - 3;
        if palen < prefl {
            return false;
        }
        let head = path.substring_char(0, prefl);
        let pref = pattern.substring_char(0, prefl);
        let r = head.to_owned() == pref.to_owned();
        proof {
            assert(head@ =~= path@.take(prefl as int));
            assert(pref@ =~= pattern@.take(prefl as int));
        }
        return r;
    }
    pattern.to_owned() == path.to_owned()
}

/// The classification a rule walk assigns: starting from `start`, every
/// matching rule whose tier is higher than the running result raises it.
pub open spec fn spec_classify_from(
    rules: Seq<ClassificationRule>,
    path: Seq<char>,
    start: Classification,
) -> Classification
    decreases rules.len(),
{
    if rules.len() == 0 {
        start
    } else {
        let next = if spec_glob_match(rules[0].pattern@, path) && spec_level(
            rules[0].classification,
        ) > spec_level(start) {
            rules[0].classification
        } else {
            start
        };
        spec_classify_from(rules.skip(1), path, next)
    }
}

/// The floor a policy starts from: its minimum, or `Public`.
pub open spec fn spec_policy_floor(policy: ClassificationPolicy) -> Classification {
    match policy.minimum {
        Some(m) => m,
        None => Classification::Public,
    }
}

/// Evaluate the classification of a path against a policy.
#[verifier::loop_isolation(false)]
pub fn classify(path: &str, policy: &ClassificationPolicy) -> (r: Classification)
    ensures
        r == spec_classify_from(policy.rules@, path@, spec_policy_floor(*policy)),
{
    let mut result = match &policy.minimum {
        Some(m) => *m,
        None => Classification::Public,
    };
    let n = policy.rules.len();
    let mut i: usize = 0;
    proof {
        assert(policy.rules@.skip(0) =~= policy.rules@);
    }
    while i < n
        invariant
            i <= n,
            spec_classify_from(policy.rules@, path@, spec_policy_floor(*policy))
                == spec_classify_from(policy.rules@.skip(i as int), path@, result),
        decreases n - i,
    {
        proof {
            assert(policy.rules@.skip(i as int)[0] == policy.rules@[i as int]);
            assert(policy.rules@.skip(i as int).skip(1) =~= policy.rules@.skip(i as int + 1));
        }
        let rule = &policy.rules[i];
        if glob_match(rule.pattern.as_str(), path) && rule.classification.level()
            > result.level() {
            result = rule.classification;
        }
        i += 1;
    }
    proof {
        assert(policy.rules@.skip(n as int) =~= Seq::<ClassificationRule>::empty());
    }
    result
}

} // verus!
