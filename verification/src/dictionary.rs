//! The dictionary transform: an ordered sequence of substitution rules,
//! each literal or regular-expression based, applied to the raw message
//! text with each rule's output feeding the next.

use vstd::prelude::*;
use crate::text::{replaced, no_occurrence, replace_all, lemma_replaced_no_occurrence};

verus! {

/// One substitution rule of a guild's dictionary.
pub struct DictionaryRule {
    pub pattern: String,
    pub replacement: String,
    pub is_regex: bool,
}

/// The mathematical shape of a rule.
pub struct RuleSpec {
    pub pattern: Seq<char>,
    pub replacement: Seq<char>,
    pub is_regex: bool,
}

impl View for DictionaryRule {
    type V = RuleSpec;

    open spec fn view(&self) -> RuleSpec {
        RuleSpec {
            pattern: self.pattern@,
            replacement: self.replacement@,
            is_regex: self.is_regex,
        }
    }
}

/// The views of a whole rule list.
pub open spec fn dict_view(rules: Seq<DictionaryRule>) -> Seq<RuleSpec> {
    rules.map_values(|r: DictionaryRule| r@)
}

/// A guild's configuration, read from the external config store: the
/// ordered dictionary applied to every narrated message.
pub struct ServerConfig {
    pub dictionary: Vec<DictionaryRule>,
}

impl View for ServerConfig {
    type V = Seq<RuleSpec>;

    open spec fn view(&self) -> Seq<RuleSpec> {
        dict_view(self.dictionary@)
    }
}

/// Whether a pattern is accepted by the regular-expression engine.
pub uninterp spec fn regex_compiles(pattern: Seq<char>) -> bool;

/// The text with every non-overlapping match of the regular expression
/// `pattern` replaced by `replacement`.
pub uninterp spec fn regex_replaced(
    pattern: Seq<char>,
    replacement: Seq<char>,
    text: Seq<char>,
) -> Seq<char>;

/// Relies on regex::Regex::new, whose success depends on the pattern alone,
/// and regex::Regex::replace_all, which replaces every non-overlapping match
/// and whose result depends on pattern, replacement and haystack alone.
#[verifier::external_body]
fn regex_replace_all(pattern: &str, replacement: &str, text: &str) -> (res: Option<String>)
    ensures
        res is Some <==> regex_compiles(pattern@),
        res is Some ==> res->Some_0@ == regex_replaced(pattern@, replacement@, text@),
{
    match regex::Regex::new(pattern) {
        Ok(re) => Some(re.replace_all(text, replacement).into_owned()),
        Err(_) => None,
    }
}

/// One rule applied to a text. A regex rule whose pattern is empty or fails
/// to compile is skipped; a literal rule with an empty pattern is a no-op.
pub open spec fn apply_rule_spec(rule: RuleSpec, t: Seq<char>) -> Seq<char> {
    if rule.is_regex {
        if rule.pattern.len() == 0 || !regex_compiles(rule.pattern) {
            t
        } else {
            regex_replaced(rule.pattern, rule.replacement, t)
        }
    } else {
        replaced(t, rule.pattern, rule.replacement)
    }
}

/// The rules applied in order, each rule's output feeding the next.
pub open spec fn apply_rules_spec(rules: Seq<RuleSpec>, t: Seq<char>) -> Seq<char>
    decreases rules.len(),
{
    if rules.len() == 0 {
        t
    } else {
        apply_rules_spec(rules.skip(1), apply_rule_spec(rules[0], t))
    }
}

/// Applies the dictionary to a message text. A malformed regex rule is
/// skipped without aborting the remaining rules.
pub fn apply_rules(rules: &Vec<DictionaryRule>, text: &str) -> (res: String)
    ensures
        res@ == apply_rules_spec(dict_view(rules@), text@),
{
    let mut cur = text.to_owned();
    let mut idx: usize = 0;
    proof {
        assert(dict_view(rules@).skip(0) =~= dict_view(rules@));
    }
    while idx < rules.len()
        invariant
            idx <= rules.len(),
            apply_rules_spec(dict_view(rules@).skip(idx as int), cur@) == apply_rules_spec(
                dict_view(rules@),
                text@,
            ),
        decreases rules.len() - idx,
    {
        let ghost pending = dict_view(rules@).skip(idx as int);
        proof {
            assert(pending[0] == rules@[idx as int]@);
            assert(pending.skip(1) =~= dict_view(rules@).skip(idx + 1));
        }
        let rule = &rules[idx];
        if rule.is_regex {
            if !rule.pattern.as_str().is_empty() {
                match regex_replace_all(
                    rule.pattern.as_str(),
                    rule.replacement.as_str(),
                    cur.as_str(),
                ) {
                    Some(s) => {
                        cur = s;
                    },
                    None => {},
                }
            }
        } else {
            cur = replace_all(cur.as_str(), rule.pattern.as_str(), rule.replacement.as_str());
        }
        idx += 1;
    }
    proof {
        assert(dict_view(rules@).skip(rules@.len() as int) =~= Seq::<RuleSpec>::empty());
    }
    cur
}

/// Whether a rule list is acceptable configuration: a regular-expression
/// rule with an empty pattern is rejected, to rule out catastrophic
/// matching; everything else is allowed.
pub fn validate_rules(rules: &Vec<DictionaryRule>) -> (ok: bool)
    ensures
        ok <==> (forall|i: int|
            0 <= i < rules@.len() ==> (rules@[i]@.is_regex ==> rules@[i]@.pattern.len() > 0)),
{
    let mut idx: usize = 0;
    while idx < rules.len()
        invariant
            idx <= rules.len(),
            forall|i: int|
                0 <= i < idx ==> (rules@[i]@.is_regex ==> rules@[i]@.pattern.len() > 0),
        decreases rules.len() - idx,
    {
        let rule = &rules[idx];
        if rule.is_regex && rule.pattern.as_str().is_empty() {
            return false;
        }
        idx += 1;
    }
    true
}

/// A literal rule list whose patterns no longer occur in a text leaves that
/// text unchanged.
pub proof fn lemma_apply_rules_identity(rules: Seq<RuleSpec>, u: Seq<char>)
    requires
        forall|i: int| 0 <= i < rules.len() ==> !rules[i].is_regex,
        forall|i: int|
            0 <= i < rules.len() ==> (rules[i].pattern.len() == 0 || no_occurrence(
                u,
                rules[i].pattern,
            )),
    ensures
        apply_rules_spec(rules, u) == u,
    decreases rules.len(),
{
    if rules.len() > 0 {
        if rules[0].pattern.len() == 0 {
        } else {
            lemma_replaced_no_occurrence(u, rules[0].pattern, rules[0].replacement);
        }
        assert(apply_rule_spec(rules[0], u) == u);
        assert forall|i: int| 0 <= i < rules.skip(1).len() implies !rules.skip(1)[i].is_regex && (
        rules.skip(1)[i].pattern.len() == 0 || no_occurrence(u, rules.skip(1)[i].pattern)) by {
            assert(rules.skip(1)[i] == rules[i + 1]);
        }
        lemma_apply_rules_identity(rules.skip(1), u);
    }
}

/// Idempotence of the dictionary on settled output: when one application of
/// a literal rule list yields a text in which no rule's pattern occurs any
/// more, a second application returns that text unchanged.
pub proof fn lemma_dictionary_idempotent(rules: Seq<RuleSpec>, t: Seq<char>)
    requires
        forall|i: int| 0 <= i < rules.len() ==> !rules[i].is_regex,
        forall|i: int|
            0 <= i < rules.len() ==> (rules[i].pattern.len() == 0 || no_occurrence(
                apply_rules_spec(rules, t),
                rules[i].pattern,
            )),
    ensures
        apply_rules_spec(rules, apply_rules_spec(rules, t)) == apply_rules_spec(rules, t),
{
    lemma_apply_rules_identity(rules, apply_rules_spec(rules, t));
}

} // verus!
