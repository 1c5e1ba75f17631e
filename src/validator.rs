use vstd::prelude::*;

use crate::config::ObserverConfig;
use crate::error::ConfigError;
use crate::github_api::GitHubAPISecret;

verus! {

/// The digits `0` to `9`.
pub open spec fn is_decimal_digit(c: char) -> bool {
    '0' <= c && c <= '9'
}

/// Characters allowed before the retention suffix: `A`-`Z`, `0`-`9` and `_`.
pub open spec fn is_prefix_char(c: char) -> bool {
    ('A' <= c && c <= 'Z') || is_decimal_digit(c) || c == '_'
}

/// The number written by a run of decimal digits.
pub open spec fn digits_value(s: Seq<char>) -> int
    decreases s.len(),
{
    if s.len() == 0 {
        0
    } else {
        digits_value(s.drop_last()) * 10 + (s.last() as int - '0' as int)
    }
}

/// `name` ends in `_R` followed by exactly `k` digits (1 to 4), after a
/// non-empty prefix of upper-case letters, digits and underscores.
pub open spec fn has_retention_suffix(name: Seq<char>, k: int) -> bool {
    &&& 1 <= k <= 4
    &&& k + 3 <= name.len()
    &&& forall|i: int| name.len() - k <= i < name.len() ==> is_decimal_digit(#[trigger] name[i])
    &&& name[name.len() - k - 1] == 'R'
    &&& name[name.len() - k - 2] == '_'
    &&& forall|i: int| 0 <= i < name.len() - k - 2 ==> is_prefix_char(#[trigger] name[i])
}

/// The retention, in days, that a secret's own name asks for, if any.
pub open spec fn retention_override(name: Seq<char>) -> Option<int> {
    if has_retention_suffix(name, 1) {
        Some(digits_value(name.subrange(name.len() - 1, name.len() as int)))
    } else if has_retention_suffix(name, 2) {
        Some(digits_value(name.subrange(name.len() - 2, name.len() as int)))
    } else if has_retention_suffix(name, 3) {
        Some(digits_value(name.subrange(name.len() - 3, name.len() as int)))
    } else if has_retention_suffix(name, 4) {
        Some(digits_value(name.subrange(name.len() - 4, name.len() as int)))
    } else {
        None
    }
}

/// Ten to the power `n`.
pub open spec fn pow10(n: nat) -> int
    decreases n,
{
    if n == 0 {
        1
    } else {
        10 * pow10((n - 1) as nat)
    }
}

/// Facts about the run of trailing digits that `parse_retention_override`
/// measures: `t` digits end the name and the run stops there, or has reached
/// five characters or the whole name.
pub open spec fn trailing_digits(name: Seq<char>, t: int) -> bool {
    &&& 0 <= t <= 5
    &&& t <= name.len()
    &&& forall|i: int| name.len() - t <= i < name.len() ==> is_decimal_digit(#[trigger] name[i])
    &&& (t == 5 || t == name.len() || !is_decimal_digit(name[name.len() - 1 - t]))
}

proof fn lemma_suffix_length_unique(name: Seq<char>, t: int, k: int)
    requires
        trailing_digits(name, t),
        has_retention_suffix(name, k),
    ensures
        k == t,
{
    if k < t {
        assert(is_decimal_digit(name[name.len() - k - 1]));
    } else if k > t {
        assert(is_decimal_digit(name[name.len() - 1 - t]));
    }
}

proof fn lemma_override_is_suffix(name: Seq<char>, t: int)
    requires
        trailing_digits(name, t),
    ensures
        has_retention_suffix(name, t) ==> retention_override(name) == Some(
            digits_value(name.subrange(name.len() - t, name.len() as int)),
        ),
        !has_retention_suffix(name, t) ==> retention_override(name) is None,
{
    if has_retention_suffix(name, 1) {
        lemma_suffix_length_unique(name, t, 1);
    }
    if has_retention_suffix(name, 2) {
        lemma_suffix_length_unique(name, t, 2);
    }
    if has_retention_suffix(name, 3) {
        lemma_suffix_length_unique(name, t, 3);
    }
    if has_retention_suffix(name, 4) {
        lemma_suffix_length_unique(name, t, 4);
    }
}

fn is_ascii_digit(c: char) -> (r: bool)
    ensures
        r == is_decimal_digit(c),
{
    '0' <= c && c <= '9'
}

/// Reads the retention override encoded at the end of a secret's name: a
/// non-empty prefix of `A`-`Z`, `0`-`9` and `_`, then `_R` and one to four
/// digits.
pub fn parse_retention_override(name: &str) -> (r: Option<i64>)
    ensures
        r matches Some(n) ==> retention_override(name@) == Some(n as int) && 0 <= n <= 9999,
        r is None ==> retention_override(name@) is None,
{
    let len = name.unicode_len();
    let mut t: usize = 0;
    let mut scanning = true;
    while scanning
        invariant
            len == name@.len(),
            t <= 5,
            t <= len,
            forall|i: int| len - t <= i < len ==> is_decimal_digit(#[trigger] name@[i]),
            !scanning ==> trailing_digits(name@, t as int),
        decreases 5 - t + (if scanning { 1int } else { 0int }),
    {
        if t < 5 && t < len && is_ascii_digit(name.get_char(len - 1 - t)) {
            t = t + 1;
        } else {
            scanning = false;
        }
    }
    proof {
        lemma_override_is_suffix(name@, t as int);
    }
    if t < 1 || t > 4 || len < t + 3 {
        return None;
    }
    if name.get_char(len - t - 1) != 'R' || name.get_char(len - t - 2) != '_' {
        return None;
    }
    let mut j: usize = 0;
    while j < len - t - 2
        invariant
            len == name@.len(),
            1 <= t <= 4,
            t + 3 <= len,
            j <= len - t - 2,
            forall|i: int| 0 <= i < j ==> is_prefix_char(#[trigger] name@[i]),
        decreases len - t - 2 - j,
    {
        let c = name.get_char(j);
        if !(('A' <= c && c <= 'Z') || is_ascii_digit(c) || c == '_') {
            return None;
        }
        j = j + 1;
    }
    let start = len - t;
    let mut v: i64 = 0;
    let mut i: usize = start;
    proof {
        assert(pow10(0) == 1);
        assert(pow10(1) == 10);
        assert(pow10(2) == 100);
        assert(pow10(3) == 1000);
        assert(pow10(4) == 10000);
        assert forall|n: nat| n <= 4 implies #[trigger] pow10(n) <= 10000 by {
            if n == 0 {
            } else if n == 1 {
            } else if n == 2 {
            } else if n == 3 {
            }
        }
        assert(name@.subrange(start as int, start as int) =~= Seq::<char>::empty());
    }
    while i < len
        invariant
            len == name@.len(),
            1 <= t <= 4,
            start == len - t,
            start <= i <= len,
            forall|k: int| start <= k < len ==> is_decimal_digit(#[trigger] name@[k]),
            v == digits_value(name@.subrange(start as int, i as int)),
            0 <= v < pow10((i - start) as nat),
            forall|n: nat| n <= 4 ==> #[trigger] pow10(n) <= 10000,
        decreases len - i,
    {
        let c = name.get_char(i);
        let d = (c as u32 - '0' as u32) as i64;
        let ghost p = pow10((i - start) as nat);
        proof {
            assert(name@.subrange(start as int, i + 1).drop_last() =~= name@.subrange(
                start as int,
                i as int,
            ));
            assert(0 <= d <= 9);
            assert(v * 10 + d < 10 * p) by (nonlinear_arith)
                requires
                    0 <= v < p,
                    0 <= d <= 9,
            ;
        }
        v = v * 10 + d;
        i = i + 1;
    }
    Some(v)
}

/// Whether `pattern` compiles as a regular expression.
pub uninterp spec fn regex_accepts(pattern: Seq<char>) -> bool;

/// Whether the regular expression `pattern` matches somewhere in `text`.
pub uninterp spec fn regex_matches(pattern: Seq<char>, text: Seq<char>) -> bool;

/// Relies on regex::Regex::new: `None` when `pattern` compiles, else the
/// text of the error it returns.
#[verifier::external_body]
fn pattern_error(pattern: &str) -> (r: Option<String>)
    ensures
        r is None <==> regex_accepts(pattern@),
{
    regex::Regex::new(pattern).err().map(|e| e.to_string())
}

/// Relies on regex::Regex::is_match, on the expression that
/// regex::Regex::new compiles from `pattern`: whether it matches somewhere in
/// `text`.
#[verifier::external_body]
fn pattern_matches(pattern: &str, text: &str) -> (r: bool)
    requires
        regex_accepts(pattern@),
    ensures
        r == regex_matches(pattern@, text@),
{
    match regex::Regex::new(pattern) {
        Ok(re) => re.is_match(text),
        Err(_) => false,
    }
}

/// Relies on chrono::Utc::now and DateTime::timestamp: the current time in
/// whole seconds since the Unix epoch. Nothing is known of its value.
#[verifier::external_body]
fn now_timestamp() -> (r: i64) {
    chrono::Utc::now().timestamp()
}

/// How a secret stands against the policy.
#[derive(Clone, Copy, Debug, PartialEq, Eq, Structural)]
pub enum ValidatorState {
    Expired,
    NotExpired,
    Ignored,
    ExpiresSoon,
}

/// The verdict on one secret. `days_left` counts for `NotExpired` and
/// `ExpiresSoon`, `days_overdue` for `Expired`; the other is zero.
#[derive(Clone, Copy, Debug, PartialEq, Eq, Structural)]
pub struct ValidatorResult {
    pub state: ValidatorState,
    pub days_left: i64,
    pub days_overdue: i64,
}

/// Seconds in a day.
pub const SECONDS_PER_DAY: i64 = 86400;

/// Whole days from `updated_at` to `now`, both in seconds; a time in the
/// future counts as age zero.
pub open spec fn age_days(now: int, updated_at: int) -> int {
    if now <= updated_at {
        0
    } else {
        (now - updated_at) / 86400
    }
}

/// The verdict for a secret of age `age` held for `retention` days, with a
/// notice window of `notice` days.
pub open spec fn verdict(ignored: bool, retention: int, notice: int, age: int) -> ValidatorResult {
    if ignored {
        ValidatorResult { state: ValidatorState::Ignored, days_left: 0, days_overdue: 0 }
    } else if age >= retention {
        ValidatorResult {
            state: ValidatorState::Expired,
            days_left: 0,
            days_overdue: (age - retention) as i64,
        }
    } else if age >= retention - notice {
        ValidatorResult {
            state: ValidatorState::ExpiresSoon,
            days_left: (retention - age) as i64,
            days_overdue: 0,
        }
    } else {
        ValidatorResult {
            state: ValidatorState::NotExpired,
            days_left: (retention - age) as i64,
            days_overdue: 0,
        }
    }
}

/// `name` is one of the listed names.
pub open spec fn listed(names: Option<Vec<String>>, name: Seq<char>) -> bool {
    &&& names is Some
    &&& exists|i: int| 0 <= i < names->0@.len() && (#[trigger] names->0@[i])@ == name
}

/// The secret is ignored by name or by pattern.
pub open spec fn is_ignored_by(policy: ObserverConfig, name: Seq<char>) -> bool {
    listed(policy.ignore_secrets, name) || match policy.ignore_pattern {
        Some(p) => regex_matches(p@, name),
        None => false,
    }
}

/// The retention that applies to the secret called `name`.
pub open spec fn retention_days(policy: ObserverConfig, name: Seq<char>) -> int {
    match retention_override(name) {
        Some(n) => n,
        None => policy.default_rotation_days as int,
    }
}

/// A policy that a validator can hold.
pub open spec fn policy_valid(policy: ObserverConfig) -> bool {
    &&& policy.default_rotation_days > 0
    &&& policy.expiration_notice_days >= 0
    &&& match policy.ignore_pattern {
        Some(p) => regex_accepts(p@),
        None => true,
    }
}

/// The verdict on the secret called `name`, last updated `age` days ago.
pub open spec fn classification(policy: ObserverConfig, name: Seq<char>, age: int) -> ValidatorResult {
    verdict(
        is_ignored_by(policy, name),
        retention_days(policy, name),
        policy.expiration_notice_days as int,
        age,
    )
}

/// Whole days from `updated_at` to `now`, both in seconds since the epoch;
/// zero when `updated_at` lies in the future.
pub fn age_in_days(now: i64, updated_at: i64) -> (r: i64)
    ensures
        r == age_days(now as int, updated_at as int),
        r >= 0,
{
    if now <= updated_at {
        0
    } else {
        let diff: i128 = now as i128 - updated_at as i128;
        (diff / (SECONDS_PER_DAY as i128)) as i64
    }
}

/// The verdict for a secret of age `age_days` held for `retention_days` days,
/// with a notice window of `notice_days` days.
pub fn resolve_verdict(ignored: bool, retention_days: i64, notice_days: i64, age_days: i64) -> (r:
    ValidatorResult)
    requires
        retention_days >= 0,
        notice_days >= 0,
        age_days >= 0,
    ensures
        r == verdict(ignored, retention_days as int, notice_days as int, age_days as int),
{
    if ignored {
        ValidatorResult { state: ValidatorState::Ignored, days_left: 0, days_overdue: 0 }
    } else if age_days >= retention_days {
        ValidatorResult {
            state: ValidatorState::Expired,
            days_left: 0,
            days_overdue: age_days - retention_days,
        }
    } else if age_days >= retention_days - notice_days {
        ValidatorResult {
            state: ValidatorState::ExpiresSoon,
            days_left: retention_days - age_days,
            days_overdue: 0,
        }
    } else {
        ValidatorResult {
            state: ValidatorState::NotExpired,
            days_left: retention_days - age_days,
            days_overdue: 0,
        }
    }
}

/// Classifies secrets against one policy.
pub struct Validator {
    config: ObserverConfig,
}

impl Validator {
    #[verifier::type_invariant]
    spec fn wf(self) -> bool {
        policy_valid(self.config)
    }

    /// The policy this validator holds secrets to.
    pub closed spec fn policy(&self) -> ObserverConfig {
        self.config
    }

    /// A validator for `config`; fails when the ignore pattern does not
    /// compile.
    pub fn new(config: ObserverConfig) -> (r: Result<Validator, ConfigError>)
        requires
            config.default_rotation_days > 0,
            config.expiration_notice_days >= 0,
        ensures
            r is Ok <==> policy_valid(config),
            r matches Ok(v) ==> v.policy() == config,
            r matches Err(e) ==> e is InvalidIgnorePattern,
    {
        let problem = match &config.ignore_pattern {
            Some(p) => pattern_error(p.as_str()),
            None => None,
        };
        match problem {
            Some(message) => Err(ConfigError::InvalidIgnorePattern(message)),
            None => Ok(Validator { config }),
        }
    }

    /// Whether `name` is on the list of ignored names.
    pub fn is_ignored(&self, name: &str) -> (r: bool)
        ensures
            r == listed(self.policy().ignore_secrets, name@),
    {
        match &self.config.ignore_secrets {
            Some(names) => {
                let wanted = String::from_str(name);
                let mut i: usize = 0;
                while i < names.len()
                    invariant
                        0 <= i <= names@.len(),
                        wanted@ == name@,
                        self.config.ignore_secrets == Some(*names),
                        forall|j: int| 0 <= j < i ==> names@[j]@ != name@,
                    decreases names@.len() - i,
                {
                    if names[i] == wanted {
                        assert(names@[i as int]@ == name@);
                        let ghost o = Some(*names);
                        assert(o->0@[i as int]@ == name@);
                        return true;
                    }
                    i = i + 1;
                }
                false
            },
            None => false,
        }
    }

    /// Whether the ignore pattern, if one is set, matches `name`.
    pub fn is_ignored_by_pattern(&self, name: &str) -> (r: bool)
        ensures
            r == match self.policy().ignore_pattern {
                Some(p) => regex_matches(p@, name@),
                None => false,
            },
    {
        proof {
            use_type_invariant(self);
        }
        match &self.config.ignore_pattern {
            Some(p) => pattern_matches(p.as_str(), name),
            None => false,
        }
    }

    /// The verdict on `secret` at time `now` (seconds since the epoch), given
    /// whether the ignore pattern matched its name.
    pub fn evaluate(&self, secret: &GitHubAPISecret, now: i64, pattern_hit: bool) -> (r:
        ValidatorResult)
        ensures
            r == verdict(
                listed(self.policy().ignore_secrets, secret.name@) || (
                self.policy().ignore_pattern is Some && pattern_hit),
                retention_days(self.policy(), secret.name@),
                self.policy().expiration_notice_days as int,
                age_days(now as int, secret.updated_at as int),
            ),
    {
        proof {
            use_type_invariant(self);
        }
        let ignored = self.is_ignored(secret.name.as_str()) || (self.config.ignore_pattern.is_some()
            && pattern_hit);
        let retention = match parse_retention_override(secret.name.as_str()) {
            Some(n) => n,
            None => self.config.default_rotation_days,
        };
        let age = age_in_days(now, secret.updated_at);
        resolve_verdict(ignored, retention, self.config.expiration_notice_days, age)
    }

    /// The verdict on `secret` at time `now` (seconds since the epoch).
    pub fn classify(&self, secret: &GitHubAPISecret, now: i64) -> (r: ValidatorResult)
        ensures
            r == classification(self.policy(), secret.name@, age_days(now as int, secret.updated_at as int)),
    {
        let hit = self.is_ignored_by_pattern(secret.name.as_str());
        self.evaluate(secret, now, hit)
    }

    /// The verdict on `secret` at the current time.
    pub fn validate_secret(&self, secret: &GitHubAPISecret) -> (r: ValidatorResult)
        ensures
            exists|now: i64|
                r == classification(
                    self.policy(),
                    secret.name@,
                    age_days(now as int, secret.updated_at as int),
                ),
    {
        let now = now_timestamp();
        self.classify(secret, now)
    }
}

/// Without an ignore and without a retention override, a secret is expired
/// exactly when its age reaches the default retention, and it is then
/// overdue by the difference.
pub proof fn law_default_retention(policy: ObserverConfig, name: Seq<char>, age: i64)
    requires
        policy_valid(policy),
        !is_ignored_by(policy, name),
        retention_override(name) is None,
    ensures
        (classification(policy, name, age as int).state == ValidatorState::Expired) <==> age
            >= policy.default_rotation_days,
        age >= policy.default_rotation_days ==> classification(policy, name, age as int).days_overdue
            == age - policy.default_rotation_days,
{
}

/// A name that ends in `_R` and one to four digits is held to that many
/// days, whatever the configured default.
pub proof fn law_retention_override(
    policy: ObserverConfig,
    other: ObserverConfig,
    name: Seq<char>,
    age: int,
    days: int,
)
    requires
        retention_override(name) == Some(days),
        other == (ObserverConfig { default_rotation_days: other.default_rotation_days, ..policy }),
    ensures
        retention_days(policy, name) == days,
        classification(policy, name, age) == classification(other, name, age),
{
}

/// An ignored name, by the list or by the pattern, is reported as ignored
/// with both day counts zero, whatever its age or retention.
pub proof fn law_ignore_precedence(policy: ObserverConfig, name: Seq<char>, age: int)
    requires
        listed(policy.ignore_secrets, name) || (policy.ignore_pattern matches Some(p)
            && regex_matches(p@, name)),
    ensures
        classification(policy, name, age) == (ValidatorResult {
            state: ValidatorState::Ignored,
            days_left: 0,
            days_overdue: 0,
        }),
{
}

/// A secret that is not ignored expires soon exactly when its age lies in
/// the notice window before its retention ends.
pub proof fn law_expires_soon_window(policy: ObserverConfig, name: Seq<char>, age: int)
    requires
        !is_ignored_by(policy, name),
    ensures
        (classification(policy, name, age).state == ValidatorState::ExpiresSoon) <==> (
        retention_days(policy, name) - policy.expiration_notice_days <= age < retention_days(
            policy,
            name,
        )),
{
}

/// Classification is a function of the secret's name and age and the
/// policy: two classifications of the same secret at the same time agree.
pub proof fn law_classification_deterministic(
    validator: Validator,
    secret: GitHubAPISecret,
    now: i64,
    first: ValidatorResult,
    second: ValidatorResult,
)
    requires
        first == classification(
            validator.policy(),
            secret.name@,
            age_days(now as int, secret.updated_at as int),
        ),
        second == classification(
            validator.policy(),
            secret.name@,
            age_days(now as int, secret.updated_at as int),
        ),
    ensures
        first == second,
{
}

} // verus!
