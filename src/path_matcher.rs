use vstd::prelude::*;

verus! {

/// How a rule's pattern is compared with a request path.
#[derive(Debug, Clone, Copy, PartialEq, Eq, Structural)]
pub enum MatchKind {
    /// The path equals the pattern.
    Exact,
    /// The path starts with the pattern.
    Prefix,
}

/// A path rule: paths that match `pattern` need authentication when
/// `requires_auth` holds.
#[derive(Debug)]
pub struct PathRule {
    pub pattern: String,
    pub kind: MatchKind,
    pub requires_auth: bool,
}

/// Ordered rules, the first matching one deciding, and an explicit policy for
/// paths that no rule matches.
#[derive(Debug)]
pub struct PathMatcher {
    pub rules: Vec<PathRule>,
    pub protect_by_default: bool,
}

pub open spec fn is_prefix_of(p: Seq<char>, s: Seq<char>) -> bool {
    p.len() <= s.len() && s.subrange(0, p.len() as int) == p
}

impl PathRule {
    pub open spec fn matches_spec(&self, path: Seq<char>) -> bool {
        match self.kind {
            MatchKind::Exact => path == self.pattern@,
            MatchKind::Prefix => is_prefix_of(self.pattern@, path),
        }
    }

    pub fn exact(pattern: &str, requires_auth: bool) -> (r: PathRule)
        ensures
            r.pattern@ == pattern@,
            r.kind == MatchKind::Exact,
            r.requires_auth == requires_auth,
    {
        PathRule { pattern: String::from_str(pattern), kind: MatchKind::Exact, requires_auth }
    }

    pub fn prefix(pattern: &str, requires_auth: bool) -> (r: PathRule)
        ensures
            r.pattern@ == pattern@,
            r.kind == MatchKind::Prefix,
            r.requires_auth == requires_auth,
    {
        PathRule { pattern: String::from_str(pattern), kind: MatchKind::Prefix, requires_auth }
    }

    pub fn matches(&self, path: &str) -> (r: bool)
        ensures
            r == self.matches_spec(path@),
    {
        let p = self.pattern.as_str();
        let plen = p.unicode_len();
        let slen = path.unicode_len();
        if plen > slen {
            return false;
        }
        if self.kind == MatchKind::Exact && plen != slen {
            proof {
                assert(path@.len() != self.pattern@.len());
            }
            return false;
        }
        let mut i: usize = 0;
        while i < plen
            invariant
                plen == p@.len(),
                slen == path@.len(),
                p@ == self.pattern@,
                plen <= slen,
                i <= plen,
                forall|j: int| 0 <= j < i ==> path@[j] == p@[j],
            decreases plen - i,
        {
            if p.get_char(i) != path.get_char(i) {
                proof {
                    assert(path@.subrange(0, plen as int)[i as int] != p@[i as int]);
                }
                return false;
            }
            i = i + 1;
        }
        proof {
            assert(path@.subrange(0, plen as int) =~= p@);
            if self.kind == MatchKind::Exact {
                assert(path@ =~= p@);
            }
        }
        true
    }
}

/// The verdict for `path` of rules `i..` of `rules`, or `default` when none of
/// them matches.
pub open spec fn verdict_from(rules: Seq<PathRule>, default: bool, path: Seq<char>, i: int) -> bool
    decreases rules.len() - i,
{
    if i < 0 || i >= rules.len() {
        default
    } else if rules[i].matches_spec(path) {
        rules[i].requires_auth
    } else {
        verdict_from(rules, default, path, i + 1)
    }
}

impl PathMatcher {
    pub open spec fn requires_auth_spec(&self, path: Seq<char>) -> bool {
        verdict_from(self.rules@, self.protect_by_default, path, 0)
    }

    pub fn new(rules: Vec<PathRule>, protect_by_default: bool) -> (r: PathMatcher)
        ensures
            r.rules == rules,
            r.protect_by_default == protect_by_default,
    {
        PathMatcher { rules, protect_by_default }
    }

    /// Whether `path` needs authentication: the first rule that matches
    /// decides, and the default policy applies when none does.
    pub fn requires_auth(&self, path: &str) -> (r: bool)
        ensures
            r == self.requires_auth_spec(path@),
    {
        let n = self.rules.len();
        let mut i: usize = 0;
        while i < n
            invariant
                n == self.rules@.len(),
                i <= n,
                verdict_from(self.rules@, self.protect_by_default, path@, i as int)
                    == self.requires_auth_spec(path@),
            decreases n - i,
        {
            let rule = &self.rules[i];
            if rule.matches(path) {
                return rule.requires_auth;
            }
            i = i + 1;
        }
        self.protect_by_default
    }
}

impl Default for PathMatcher {
    /// No rules, and every path is open.
    fn default() -> (r: PathMatcher)
        ensures
            r.rules@.len() == 0,
            !r.protect_by_default,
    {
        PathMatcher { rules: Vec::new(), protect_by_default: false }
    }
}

/// A path that no rule matches gets the default policy.
pub proof fn lemma_unmatched_path_gets_default(m: PathMatcher, path: Seq<char>)
    requires
        forall|i: int| 0 <= i < m.rules@.len() ==> !(#[trigger] m.rules@[i]).matches_spec(path),
    ensures
        m.requires_auth_spec(path) == m.protect_by_default,
{
    lemma_unmatched_from(m.rules@, m.protect_by_default, path, 0);
}

proof fn lemma_unmatched_from(rules: Seq<PathRule>, default: bool, path: Seq<char>, i: int)
    requires
        0 <= i,
        forall|k: int| 0 <= k < rules.len() ==> !(#[trigger] rules[k]).matches_spec(path),
    ensures
        verdict_from(rules, default, path, i) == default,
    decreases rules.len() - i,
{
    if i < rules.len() {
        lemma_unmatched_from(rules, default, path, i + 1);
    }
}

/// The first rule that matches decides: rules after it have no say.
pub proof fn lemma_first_match_decides(m: PathMatcher, path: Seq<char>, k: int)
    requires
        0 <= k < m.rules@.len(),
        m.rules@[k].matches_spec(path),
        forall|i: int| 0 <= i < k ==> !(#[trigger] m.rules@[i]).matches_spec(path),
    ensures
        m.requires_auth_spec(path) == m.rules@[k].requires_auth,
{
    lemma_first_match_from(m.rules@, m.protect_by_default, path, 0, k);
}

proof fn lemma_first_match_from(rules: Seq<PathRule>, default: bool, path: Seq<char>, i: int, k: int)
    requires
        0 <= i <= k < rules.len(),
        rules[k].matches_spec(path),
        forall|j: int| 0 <= j < k ==> !(#[trigger] rules[j]).matches_spec(path),
    ensures
        verdict_from(rules, default, path, i) == rules[k].requires_auth,
    decreases k - i,
{
    if i < k {
        lemma_first_match_from(rules, default, path, i + 1, k);
    }
}

} // verus!
