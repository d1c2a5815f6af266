//! Context-window management: a heuristic token estimator (one token for
//! every four bytes of text, rounded up), a token budget with a response reservation,
//! per-provider policy selection, pruning of the oldest history, and
//! summarisation of the history that pruning drops.
use vstd::prelude::*;

use crate::domain::{msgs_view, ChatMessage, ChatMessageView, MessagePart, MessageRole, PartView};
use crate::text::{
    collapse_whitespace, collapse_whitespace_spec, contains, contains_spec, eq_ignore_ascii_case,
    eq_ignore_ascii_case_spec, lowercase, to_lowercase, trim_end, trim_end_spec, utf8_len,
};

verus! {

// ── Token estimation ────────────────────────────────────────────────────────

/// Tokens of a text: `ceil(len / 4)` with a minimum of one.
pub open spec fn text_tokens(s: Seq<char>) -> nat {
    let q = (utf8_len(s) + 3) / 4;
    if q >= 1 {
        q
    } else {
        1
    }
}

/// Tokens of one part: images cost 85 plus one per thousand bytes of data.
pub open spec fn part_tokens(p: PartView) -> nat {
    match p {
        PartView::Text { text } => text_tokens(text),
        PartView::Image { data, .. } => 85 + utf8_len(data) / 1000,
        PartView::File { data, .. } => text_tokens(data),
    }
}

/// Tokens of a sequence of parts.
pub open spec fn parts_tokens(ps: Seq<PartView>) -> nat
    decreases ps.len(),
{
    if ps.len() == 0 {
        0
    } else {
        parts_tokens(ps.drop_last()) + part_tokens(ps.last())
    }
}

/// Tokens of a message: four tokens of role overhead plus its parts.
pub open spec fn message_tokens(m: ChatMessageView) -> nat {
    4 + parts_tokens(m.parts)
}

/// Tokens of a sequence of messages.
pub open spec fn messages_tokens(ms: Seq<ChatMessageView>) -> nat
    decreases ms.len(),
{
    if ms.len() == 0 {
        0
    } else {
        messages_tokens(ms.drop_last()) + message_tokens(ms.last())
    }
}

proof fn lemma_parts_tokens_prefix(ps: Seq<PartView>, i: int)
    requires
        0 <= i <= ps.len(),
    ensures
        parts_tokens(ps.take(i)) <= parts_tokens(ps),
    decreases ps.len(),
{
    if i < ps.len() {
        lemma_parts_tokens_prefix(ps.drop_last(), i);
        assert(ps.drop_last().take(i) =~= ps.take(i));
    } else {
        assert(ps.take(i) =~= ps);
    }
}

/// The tokens of a prefix never exceed the tokens of the whole sequence.
pub proof fn lemma_messages_tokens_prefix(ms: Seq<ChatMessageView>, i: int)
    requires
        0 <= i <= ms.len(),
    ensures
        messages_tokens(ms.take(i)) <= messages_tokens(ms),
    decreases ms.len(),
{
    if i < ms.len() {
        lemma_messages_tokens_prefix(ms.drop_last(), i);
        assert(ms.drop_last().take(i) =~= ms.take(i));
    } else {
        assert(ms.take(i) =~= ms);
    }
}

/// A text costs the fewest whole tokens of four bytes that cover it, and at
/// least one: four tokens cover its bytes, and one token fewer would not
/// (unless that would be zero tokens).
pub proof fn law_text_tokens_cover_bytes(s: Seq<char>)
    ensures
        text_tokens(s) >= 1,
        4 * text_tokens(s) >= utf8_len(s),
        text_tokens(s) > 1 ==> 4 * (text_tokens(s) - 1) < utf8_len(s),
{
}

/// Heuristic token counter (no tokenizer; about four bytes per token).
pub struct TokenEstimator;

impl TokenEstimator {
    /// `ceil(len / 4)` with a minimum of one token, `len` being the UTF-8 byte length.
    pub fn estimate_text(text: &str) -> (r: usize)
        ensures
            r == text_tokens(text@),
    {
        let len = text.len();
        let q = if len % 4 == 0 {
            len / 4
        } else {
            len / 4 + 1
        };
        if q >= 1 {
            q
        } else {
            1
        }
    }

    /// Token estimate of one message part.
    pub fn estimate_part(part: &MessagePart) -> (r: usize)
        ensures
            r == part_tokens(part@),
    {
        match part {
            MessagePart::Text { text } => Self::estimate_text(text.as_str()),
            MessagePart::Image { data, .. } => 85 + data.as_str().len() / 1000,
            MessagePart::File { data, .. } => Self::estimate_text(data.as_str()),
        }
    }

    /// Token estimate of a message, including the four tokens of role overhead.
    pub fn estimate_message(msg: &ChatMessage) -> (r: usize)
        requires
            message_tokens(msg@) <= usize::MAX,
        ensures
            r == message_tokens(msg@),
    {
        let overhead: usize = 4;
        let mut content: usize = 0;
        let mut i: usize = 0;
        while i < msg.parts.len()
            invariant
                i <= msg.parts.len(),
                content == parts_tokens(msg@.parts.take(i as int)),
                4 + parts_tokens(msg@.parts) <= usize::MAX,
            decreases msg.parts.len() - i,
        {
            proof {
                assert(msg@.parts.take(i + 1).drop_last() =~= msg@.parts.take(i as int));
                assert(msg@.parts[i as int] == msg.parts@[i as int]@);
                lemma_parts_tokens_prefix(msg@.parts, i + 1);
            }
            content = content + Self::estimate_part(&msg.parts[i]);
            i = i + 1;
        }
        proof {
            assert(msg@.parts.take(i as int) =~= msg@.parts);
        }
        overhead + content
    }

    /// Sum of the message estimates.
    pub fn estimate_messages(messages: &[ChatMessage]) -> (r: usize)
        requires
            messages_tokens(msgs_view(messages@)) <= usize::MAX,
        ensures
            r == messages_tokens(msgs_view(messages@)),
    {
        let ghost v = msgs_view(messages@);
        let mut total: usize = 0;
        let mut i: usize = 0;
        while i < messages.len()
            invariant
                v == msgs_view(messages@),
                i <= messages.len(),
                total == messages_tokens(v.take(i as int)),
                messages_tokens(v) <= usize::MAX,
            decreases messages.len() - i,
        {
            proof {
                assert(v.take(i + 1).drop_last() =~= v.take(i as int));
                lemma_messages_tokens_prefix(v, i + 1);
                assert(v[i as int] == messages@[i as int]@);
                assert(message_tokens(v[i as int]) <= messages_tokens(v.take(i + 1)));
            }
            total = total + Self::estimate_message(&messages[i]);
            i = i + 1;
        }
        proof {
            assert(v.take(i as int) =~= v);
        }
        total
    }
}

/// The token estimate of `messages` (see `messages_tokens`), or none when it
/// does not fit in `usize`.
pub fn checked_estimate_messages(messages: &[ChatMessage]) -> (r: Option<usize>)
    ensures
        r matches Some(n) ==> n == messages_tokens(msgs_view(messages@)),
        r is None ==> messages_tokens(msgs_view(messages@)) > usize::MAX,
{
    let ghost v = msgs_view(messages@);
    let mut total: usize = 0;
    let mut i: usize = 0;
    while i < messages.len()
        invariant
            v == msgs_view(messages@),
            i <= messages.len(),
            total == messages_tokens(v.take(i as int)),
        decreases messages.len() - i,
    {
        proof {
            assert(v.take(i + 1).drop_last() =~= v.take(i as int));
            assert(v[i as int] == messages@[i as int]@);
        }
        let m = &messages[i];
        let ghost ps = m@.parts;
        let mut tokens: usize = 4;
        let mut j: usize = 0;
        while j < m.parts.len()
            invariant
                v == msgs_view(messages@),
                i < messages@.len(),
                *m == messages@[i as int],
                ps == m@.parts,
                ps == v[i as int].parts,
                j <= m.parts.len(),
                tokens == 4 + parts_tokens(ps.take(j as int)),
            decreases m.parts.len() - j,
        {
            proof {
                assert(ps.take(j + 1).drop_last() =~= ps.take(j as int));
                assert(ps[j as int] == m.parts@[j as int]@);
            }
            match tokens.checked_add(TokenEstimator::estimate_part(&m.parts[j])) {
                Some(t) => tokens = t,
                None => {
                    proof {
                        lemma_parts_tokens_prefix(ps, j + 1);
                        lemma_messages_tokens_prefix(v, i + 1);
                        assert(v.take(i + 1).drop_last() =~= v.take(i as int));
                        assert(v.take(i + 1).last() == v[i as int]);
                    }
                    return None;
                },
            }
            j = j + 1;
        }
        proof {
            assert(ps.take(j as int) =~= ps);
        }
        match total.checked_add(tokens) {
            Some(t) => total = t,
            None => {
                proof {
                    lemma_messages_tokens_prefix(v, i + 1);
                }
                return None;
            },
        }
        i = i + 1;
    }
    proof {
        assert(v.take(i as int) =~= v);
    }
    Some(total)
}

// ── Policy ──────────────────────────────────────────────────────────────────

/// Token budget of a context window.
#[derive(Debug, Clone, Copy)]
pub struct ContextWindowPolicy {
    /// Hard token limit of the model's context window.
    pub max_tokens: usize,
    /// Tokens reserved for the model's answer.
    pub reserve_for_response: usize,
    /// Non-system messages always kept, even above budget.
    pub min_history_messages: usize,
}

impl ContextWindowPolicy {
    /// Budget left for messages: `max_tokens - reserve_for_response`, floored at zero.
    pub open spec fn budget(self) -> nat {
        if self.max_tokens >= self.reserve_for_response {
            (self.max_tokens - self.reserve_for_response) as nat
        } else {
            0
        }
    }

    /// Effective token budget for the message list.
    pub fn message_budget(&self) -> (r: usize)
        ensures
            r == self.budget(),
    {
        self.max_tokens.saturating_sub(self.reserve_for_response)
    }
}

impl Default for ContextWindowPolicy {
    fn default() -> (r: Self)
        ensures
            r.max_tokens == 8192,
            r.reserve_for_response == 1024,
            r.min_history_messages == 2,
    {
        ContextWindowPolicy { max_tokens: 8192, reserve_for_response: 1024, min_history_messages: 2 }
    }
}

/// A policy that applies to one provider, optionally only to models whose name
/// contains a needle.
#[derive(Debug)]
pub struct ContextPolicyOverride {
    pub provider: String,
    pub model_contains: Option<String>,
    pub policy: ContextWindowPolicy,
}

/// Default policy plus provider-specific overrides, the first match winning.
#[derive(Debug)]
pub struct ContextWindowManager {
    pub default_policy: ContextWindowPolicy,
    pub overrides: Vec<ContextPolicyOverride>,
}

/// Whether an override applies to a provider and model.
pub open spec fn override_matches(o: ContextPolicyOverride, provider: Seq<char>, model: Seq<char>) -> bool {
    &&& eq_ignore_ascii_case_spec(o.provider@, provider)
    &&& match o.model_contains {
        None => true,
        Some(needle) => contains_spec(lowercase(model), lowercase(needle@)),
    }
}

/// The policy of the first matching override, else the default policy.
pub open spec fn policy_for_spec(overrides: Seq<ContextPolicyOverride>, default_policy: ContextWindowPolicy, provider: Seq<char>, model: Seq<char>) -> ContextWindowPolicy
    decreases overrides.len(),
{
    if overrides.len() == 0 {
        default_policy
    } else if override_matches(overrides[0], provider, model) {
        overrides[0].policy
    } else {
        policy_for_spec(overrides.drop_first(), default_policy, provider, model)
    }
}

fn make_override(provider: &str, model_contains: Option<&str>, max_tokens: usize, reserve: usize, min_history: usize) -> (r: ContextPolicyOverride)
    ensures
        r.provider@ == provider@,
        match model_contains {
            None => r.model_contains is None,
            Some(n) => r.model_contains matches Some(m) && m@ == n@,
        },
        r.policy.max_tokens == max_tokens,
        r.policy.reserve_for_response == reserve,
        r.policy.min_history_messages == min_history,
{
    let model_contains = match model_contains {
        None => None,
        Some(n) => Some(n.to_owned()),
    };
    ContextPolicyOverride {
        provider: provider.to_owned(),
        model_contains,
        policy: ContextWindowPolicy {
            max_tokens,
            reserve_for_response: reserve,
            min_history_messages: min_history,
        },
    }
}

impl Default for ContextWindowManager {
    fn default() -> (r: Self)
        ensures
            r.default_policy.max_tokens == 8192,
            r.default_policy.reserve_for_response == 1024,
            r.default_policy.min_history_messages == 2,
            r.overrides@.len() == 3,
            r.overrides@[0].provider@ == "gemini"@,
            r.overrides@[0].model_contains matches Some(m) && m@ == "pro"@,
            r.overrides@[0].policy.max_tokens == 32768,
            r.overrides@[0].policy.reserve_for_response == 2048,
            r.overrides@[0].policy.min_history_messages == 4,
            r.overrides@[1].provider@ == "openai"@,
            r.overrides@[1].model_contains matches Some(m) && m@ == "4o"@,
            r.overrides@[1].policy.max_tokens == 16384,
            r.overrides@[1].policy.reserve_for_response == 2048,
            r.overrides@[1].policy.min_history_messages == 4,
            r.overrides@[2].provider@ == "ollama"@,
            r.overrides@[2].model_contains is None,
            r.overrides@[2].policy.max_tokens == 8192,
            r.overrides@[2].policy.reserve_for_response == 1024,
            r.overrides@[2].policy.min_history_messages == 3,
    {
        let mut overrides: Vec<ContextPolicyOverride> = Vec::new();
        overrides.push(make_override("gemini", Some("pro"), 32768, 2048, 4));
        overrides.push(make_override("openai", Some("4o"), 16384, 2048, 4));
        overrides.push(make_override("ollama", None, 8192, 1024, 3));
        ContextWindowManager { default_policy: ContextWindowPolicy::default(), overrides }
    }
}

impl ContextWindowManager {
    /// The policy of the first override whose provider equals `provider` (ignoring
    /// ASCII case) and whose needle, if any, occurs in the lower-cased model name.
    pub fn policy_for(&self, provider: &str, model: &str) -> (r: ContextWindowPolicy)
        ensures
            r == policy_for_spec(self.overrides@, self.default_policy, provider@, model@),
    {
        let mut i: usize = 0;
        proof {
            assert(self.overrides@.skip(0) =~= self.overrides@);
        }
        while i < self.overrides.len()
            invariant
                i <= self.overrides.len(),
                policy_for_spec(self.overrides@, self.default_policy, provider@, model@)
                    == policy_for_spec(self.overrides@.skip(i as int), self.default_policy, provider@, model@),
            decreases self.overrides.len() - i,
        {
            let entry = &self.overrides[i];
            proof {
                assert(self.overrides@.skip(i as int)[0] == self.overrides@[i as int]);
                assert(self.overrides@.skip(i as int).drop_first() =~= self.overrides@.skip(i + 1));
            }
            let matches_model = match &entry.model_contains {
                None => true,
                Some(needle) => {
                    let lower_model = to_lowercase(model);
                    let lower_needle = to_lowercase(needle.as_str());
                    contains(lower_model.as_str(), lower_needle.as_str())
                },
            };
            if eq_ignore_ascii_case(entry.provider.as_str(), provider) && matches_model {
                return entry.policy;
            }
            i = i + 1;
        }
        self.default_policy
    }
}

// ── Pruning ─────────────────────────────────────────────────────────────────

/// The system messages of `s`, in order.
pub open spec fn system_part(s: Seq<ChatMessageView>) -> Seq<ChatMessageView>
    decreases s.len(),
{
    if s.len() == 0 {
        s
    } else if s.last().is_system() {
        system_part(s.drop_last()).push(s.last())
    } else {
        system_part(s.drop_last())
    }
}

/// The non-system messages of `s`, in order.
pub open spec fn history_part(s: Seq<ChatMessageView>) -> Seq<ChatMessageView>
    decreases s.len(),
{
    if s.len() == 0 {
        s
    } else if !s.last().is_system() {
        history_part(s.drop_last()).push(s.last())
    } else {
        history_part(s.drop_last())
    }
}

/// History kept by a walk from the newest message to the oldest: a message is
/// kept when it still fits in `remaining` or fewer than `min_keep` are kept so
/// far; the walk stops at the first message that is not kept, so every older
/// message is dropped with it. `used` and `kept` are the tokens and messages
/// kept by the newer messages.
pub open spec fn select_recent(ns: Seq<ChatMessageView>, remaining: nat, min_keep: nat, used: nat, kept: nat) -> Seq<ChatMessageView>
    decreases ns.len(),
{
    if ns.len() == 0 {
        ns
    } else {
        let cost = message_tokens(ns.last());
        if used + cost <= remaining || kept < min_keep {
            select_recent(ns.drop_last(), remaining, min_keep, used + cost, kept + 1).push(ns.last())
        } else {
            Seq::empty()
        }
    }
}

/// Result of pruning `s` under `policy`: `s` itself when it fits the budget;
/// otherwise its system messages, then the history kept by `select_recent`
/// under the budget left after the system messages.
pub open spec fn prune_spec(s: Seq<ChatMessageView>, policy: ContextWindowPolicy) -> Seq<ChatMessageView> {
    let budget = policy.budget();
    if messages_tokens(s) <= budget {
        s
    } else {
        let sys = system_part(s);
        let remaining: nat = if budget >= messages_tokens(sys) {
            (budget - messages_tokens(sys)) as nat
        } else {
            0
        };
        sys + select_recent(history_part(s), remaining, policy.min_history_messages as nat, 0, 0)
    }
}

/// Tokens split between the system messages and the history.
pub proof fn lemma_tokens_split(s: Seq<ChatMessageView>)
    ensures
        messages_tokens(s) == messages_tokens(system_part(s)) + messages_tokens(history_part(s)),
    decreases s.len(),
{
    if s.len() > 0 {
        lemma_tokens_split(s.drop_last());
        let sys = system_part(s.drop_last());
        let hist = history_part(s.drop_last());
        assert(sys.push(s.last()).drop_last() =~= sys);
        assert(hist.push(s.last()).drop_last() =~= hist);
    }
}

proof fn lemma_system_part_prefix(s: Seq<ChatMessageView>, i: int)
    requires
        0 <= i < s.len(),
    ensures
        system_part(s.take(i + 1)) == if s[i].is_system() {
            system_part(s.take(i)).push(s[i])
        } else {
            system_part(s.take(i))
        },
        history_part(s.take(i + 1)) == if !s[i].is_system() {
            history_part(s.take(i)).push(s[i])
        } else {
            history_part(s.take(i))
        },
{
    assert(s.take(i + 1).drop_last() =~= s.take(i));
}

/// Every message of `select_recent` is one of the history messages given to it.
proof fn lemma_select_recent_len(ns: Seq<ChatMessageView>, remaining: nat, min_keep: nat, used: nat, kept: nat)
    ensures
        select_recent(ns, remaining, min_keep, used, kept).len() <= ns.len(),
        kept < min_keep ==> select_recent(ns, remaining, min_keep, used, kept).len() >= if ns.len() < min_keep - kept {
            ns.len() as int
        } else {
            min_keep - kept
        },
    decreases ns.len(),
{
    if ns.len() > 0 {
        let cost = message_tokens(ns.last());
        if used + cost <= remaining || kept < min_keep {
            lemma_select_recent_len(ns.drop_last(), remaining, min_keep, used + cost, kept + 1);
        }
    }
}

/// What `select_recent` keeps is a suffix of the history given to it.
proof fn lemma_select_recent_suffix(ns: Seq<ChatMessageView>, remaining: nat, min_keep: nat, used: nat, kept: nat)
    ensures
        select_recent(ns, remaining, min_keep, used, kept).len() <= ns.len(),
        select_recent(ns, remaining, min_keep, used, kept)
            == ns.skip(ns.len() - select_recent(ns, remaining, min_keep, used, kept).len()),
    decreases ns.len(),
{
    if ns.len() == 0 {
        assert(ns.skip(0) =~= ns);
    } else {
        let cost = message_tokens(ns.last());
        if used + cost <= remaining || kept < min_keep {
            let rest = ns.drop_last();
            lemma_select_recent_suffix(rest, remaining, min_keep, used + cost, kept + 1);
            let sel = select_recent(rest, remaining, min_keep, used + cost, kept + 1);
            assert(rest.skip(rest.len() - sel.len()).push(ns.last()) =~= ns.skip(ns.len() - (sel.len() + 1)));
        } else {
            assert(ns.skip(ns.len() as int) =~= Seq::<ChatMessageView>::empty());
        }
    }
}

/// Collect the system messages and the history of `messages`, cloned, in order.
pub(crate) fn split_messages(messages: &[ChatMessage]) -> (r: (Vec<ChatMessage>, Vec<ChatMessage>))
    ensures
        msgs_view(r.0@) == system_part(msgs_view(messages@)),
        msgs_view(r.1@) == history_part(msgs_view(messages@)),
{
    let ghost v = msgs_view(messages@);
    let mut sys: Vec<ChatMessage> = Vec::new();
    let mut hist: Vec<ChatMessage> = Vec::new();
    let mut i: usize = 0;
    while i < messages.len()
        invariant
            v == msgs_view(messages@),
            i <= messages.len(),
            msgs_view(sys@) == system_part(v.take(i as int)),
            msgs_view(hist@) == history_part(v.take(i as int)),
        decreases messages.len() - i,
    {
        proof {
            lemma_system_part_prefix(v, i as int);
        }
        let m = messages[i].clone();
        if m.is_system() {
            sys.push(m);
            proof {
                assert(msgs_view(sys@) =~= system_part(v.take(i as int)).push(v[i as int]));
            }
        } else {
            hist.push(m);
            proof {
                assert(msgs_view(hist@) =~= history_part(v.take(i as int)).push(v[i as int]));
            }
        }
        i = i + 1;
    }
    proof {
        assert(v.take(i as int) =~= v);
    }
    (sys, hist)
}

/// Clone every message of a slice.
fn clone_messages(messages: &[ChatMessage]) -> (r: Vec<ChatMessage>)
    ensures
        msgs_view(r@) == msgs_view(messages@),
{
    let mut r: Vec<ChatMessage> = Vec::new();
    let mut i: usize = 0;
    while i < messages.len()
        invariant
            i <= messages.len(),
            r@.len() == i,
            forall|j: int| 0 <= j < i ==> #[trigger] r@[j]@ == messages@[j]@,
        decreases messages.len() - i,
    {
        let c = messages[i].clone();
        r.push(c);
        i = i + 1;
    }
    proof {
        assert(msgs_view(r@) =~= msgs_view(messages@));
    }
    r
}

/// Prune `messages` to fit `policy.message_budget()`.
///
/// System messages are always kept. The history is walked from the newest
/// message to the oldest; a message is kept while it fits the budget left
/// after the system messages, and at least `min_history_messages` are kept
/// even above budget. The walk stops at the first message that is not kept,
/// so only the oldest history is dropped. The result holds the system
/// messages first, then the kept history in its original order.
pub fn prune_messages(messages: &[ChatMessage], policy: &ContextWindowPolicy) -> (r: Vec<ChatMessage>)
    requires
        messages_tokens(msgs_view(messages@)) <= usize::MAX,
    ensures
        msgs_view(r@) == prune_spec(msgs_view(messages@), *policy),
{
    let ghost v = msgs_view(messages@);
    let budget = policy.message_budget();
    if TokenEstimator::estimate_messages(messages) <= budget {
        return clone_messages(messages);
    }
    let (system_msgs, history) = split_messages(messages);
    proof {
        lemma_tokens_split(v);
    }
    let system_tokens = TokenEstimator::estimate_messages(system_msgs.as_slice());
    let remaining_budget = budget.saturating_sub(system_tokens);
    let ghost hv = msgs_view(history@);
    let ghost min_keep = policy.min_history_messages as nat;
    let mut rev_selected: Vec<ChatMessage> = Vec::new();
    let mut used: usize = 0;
    let mut kept: usize = 0;
    let mut i: usize = history.len();
    let ghost rem = remaining_budget as nat;
    proof {
        assert(hv.take(i as int) =~= hv);
        assert(msgs_view(rev_selected@).reverse() =~= Seq::<ChatMessageView>::empty());
        assert(select_recent(hv, rem, min_keep, 0, 0) =~= select_recent(hv, rem, min_keep, 0, 0) + Seq::<ChatMessageView>::empty());
    }
    while i > 0
        invariant_except_break
            select_recent(hv, rem, min_keep, 0, 0) == select_recent(hv.take(i as int), rem, min_keep, used as nat, kept as nat)
                + msgs_view(rev_selected@).reverse(),
        invariant
            hv == msgs_view(history@),
            min_keep == policy.min_history_messages,
            rem == remaining_budget,
            i <= history.len(),
            messages_tokens(hv) <= usize::MAX,
            used + messages_tokens(hv.take(i as int)) <= messages_tokens(hv),
            kept == rev_selected@.len(),
            kept <= history@.len() - i,
        ensures
            select_recent(hv, rem, min_keep, 0, 0) == msgs_view(rev_selected@).reverse(),
        decreases i,
    {
        i = i - 1;
        proof {
            lemma_walk_step(hv, i as int);
            assert(hv[i as int] == history@[i as int]@);
        }
        let cost = TokenEstimator::estimate_message(&history[i]);
        if used + cost <= remaining_budget || kept < policy.min_history_messages {
            let ghost old_rev = rev_selected@;
            rev_selected.push(history[i].clone());
            proof {
                lemma_rev_push(msgs_view(old_rev), hv[i as int]);
                assert(msgs_view(rev_selected@) =~= msgs_view(old_rev).push(hv[i as int]));
                lemma_select_keep(hv.take(i + 1), rem, min_keep, used as nat, kept as nat, msgs_view(old_rev).reverse());
            }
            used = used + cost;
            kept = kept + 1;
        } else {
            proof {
                lemma_select_stop(hv.take(i + 1), rem, min_keep, used as nat, kept as nat);
                assert(select_recent(hv, rem, min_keep, 0, 0) =~= msgs_view(rev_selected@).reverse());
            }
            break;
        }
        proof {
            if i == 0 {
                assert(hv.take(0) =~= Seq::<ChatMessageView>::empty());
                assert(select_recent(hv, rem, min_keep, 0, 0) =~= msgs_view(rev_selected@).reverse());
            }
        }
    }
    let mut result = system_msgs;
    let ghost sys_v = msgs_view(result@);
    let ghost sel = msgs_view(rev_selected@).reverse();
    let n = rev_selected.len();
    let mut j: usize = n;
    proof {
        assert(sys_v + sel.take(0) =~= sys_v);
    }
    while j > 0
        invariant
            j <= n,
            n == rev_selected@.len(),
            sel == msgs_view(rev_selected@).reverse(),
            msgs_view(result@) == sys_v + sel.take(n - j),
        decreases j,
    {
        j = j - 1;
        let c = rev_selected[j].clone();
        proof {
            assert(sel[n - 1 - j] == rev_selected@[j as int]@);
            assert(sel.take(n - j) =~= sel.take(n - 1 - j).push(c@));
        }
        let ghost old_r = result@;
        result.push(c);
        proof {
            assert(msgs_view(result@) =~= msgs_view(old_r).push(c@));
            assert(msgs_view(result@) =~= sys_v + sel.take(n - j));
        }
    }
    proof {
        assert(sel.take(n as int) =~= sel);
    }
    result
}

proof fn lemma_walk_step(hv: Seq<ChatMessageView>, i: int)
    requires
        0 <= i < hv.len(),
    ensures
        hv.take(i + 1).drop_last() == hv.take(i),
        hv.take(i + 1).last() == hv[i],
        messages_tokens(hv.take(i + 1)) == messages_tokens(hv.take(i)) + message_tokens(hv[i]),
{
    assert(hv.take(i + 1).drop_last() =~= hv.take(i));
}

proof fn lemma_rev_push(s: Seq<ChatMessageView>, x: ChatMessageView)
    ensures
        s.push(x).reverse() == seq![x] + s.reverse(),
{
    assert(s.push(x).reverse() =~= seq![x] + s.reverse());
}

proof fn lemma_select_keep(ns: Seq<ChatMessageView>, rem: nat, min_keep: nat, used: nat, kept: nat, tail: Seq<ChatMessageView>)
    requires
        ns.len() > 0,
        used + message_tokens(ns.last()) <= rem || kept < min_keep,
    ensures
        select_recent(ns, rem, min_keep, used, kept) + tail == select_recent(ns.drop_last(), rem, min_keep, used + message_tokens(ns.last()), kept + 1) + (seq![ns.last()] + tail),
{
    let a = select_recent(ns.drop_last(), rem, min_keep, used + message_tokens(ns.last()), kept + 1);
    assert(a.push(ns.last()) + tail =~= a + (seq![ns.last()] + tail));
}

proof fn lemma_select_stop(ns: Seq<ChatMessageView>, rem: nat, min_keep: nat, used: nat, kept: nat)
    requires
        ns.len() > 0,
        !(used + message_tokens(ns.last()) <= rem || kept < min_keep),
    ensures
        select_recent(ns, rem, min_keep, used, kept) == Seq::<ChatMessageView>::empty(),
{
}

// ── Summaries ───────────────────────────────────────────────────────────────

/// Label of a role in a summary line.
pub open spec fn role_label(role: MessageRole) -> Seq<char> {
    match role {
        MessageRole::System => "System"@,
        MessageRole::User => "User"@,
        MessageRole::Assistant => "Assistant"@,
    }
}

/// Summary line of a message: `- {role}: {words}\n`.
pub open spec fn summary_line(m: ChatMessageView) -> Seq<char> {
    "- "@ + role_label(m.role) + ": "@ + collapse_whitespace_spec(m.content()) + "\n"@
}

/// Summary accumulated over `ms` and whether accumulation has stopped: messages
/// without words are skipped; the first line that would take the summary past
/// `max_chars` bytes stops it.
pub open spec fn summary_state(ms: Seq<ChatMessageView>, max_chars: nat) -> (Seq<char>, bool)
    decreases ms.len(),
{
    if ms.len() == 0 {
        (Seq::empty(), false)
    } else {
        let (s, stopped) = summary_state(ms.drop_last(), max_chars);
        if stopped {
            (s, true)
        } else if collapse_whitespace_spec(ms.last().content()).len() == 0 {
            (s, false)
        } else {
            let line = summary_line(ms.last());
            if utf8_len(s) + utf8_len(line) > max_chars {
                (s, true)
            } else {
                (s + line, false)
            }
        }
    }
}

/// Each line a summary gains names the role of its own message: summarising one
/// more message either leaves the summary as it was or appends
/// `- User: {words}\n` for a user message, `- Assistant: {words}\n` for an
/// assistant message and `- System: {words}\n` for a system message, the words
/// being the message text with its whitespace collapsed. A message with words
/// is appended whenever the summary has not stopped and the line fits.
pub proof fn law_summary_lines_name_their_role(ms: Seq<ChatMessageView>, m: ChatMessageView, max_chars: nat)
    ensures
        ({
            let before = summary_state(ms, max_chars).0;
            let after = summary_state(ms.push(m), max_chars).0;
            let words = collapse_whitespace_spec(m.content());
            &&& m.role == MessageRole::User ==> after == before || after == before + "- User: "@ + words + "\n"@
            &&& m.role == MessageRole::Assistant ==> after == before || after == before + "- Assistant: "@ + words
                + "\n"@
            &&& m.role == MessageRole::System ==> after == before || after == before + "- System: "@ + words + "\n"@
            &&& !summary_state(ms, max_chars).1 && words.len() > 0 && utf8_len(before) + utf8_len(
                summary_line(m),
            ) <= max_chars ==> after == before + summary_line(m)
        }),
{
    let words = collapse_whitespace_spec(m.content());
    assert(ms.push(m).drop_last() =~= ms);
    reveal_strlit("- ");
    reveal_strlit(": ");
    reveal_strlit("User");
    reveal_strlit("Assistant");
    reveal_strlit("System");
    reveal_strlit("- User: ");
    reveal_strlit("- Assistant: ");
    reveal_strlit("- System: ");
    assert("- "@ + "User"@ + ": "@ =~= "- User: "@);
    assert("- "@ + "Assistant"@ + ": "@ =~= "- Assistant: "@);
    assert("- "@ + "System"@ + ": "@ =~= "- System: "@);
}

/// Text of an empty summary.
pub open spec fn empty_summary() -> Seq<char> {
    "- No prior conversation details preserved."@
}

/// Summary of `ms`: the accumulated lines without trailing whitespace, or the
/// placeholder when no line was kept.
pub open spec fn summarize_spec(ms: Seq<ChatMessageView>, max_chars: nat) -> Seq<char> {
    let s = summary_state(ms, max_chars).0;
    if s.len() == 0 {
        empty_summary()
    } else {
        trim_end_spec(s)
    }
}

/// Summarise `messages` into at most `max_chars` bytes of `- role: text` lines.
pub fn summarize_messages(messages: &[ChatMessage], max_chars: usize) -> (r: String)
    ensures
        r@ == summarize_spec(msgs_view(messages@), max_chars as nat),
{
    let ghost v = msgs_view(messages@);
    let mut summary = String::new();
    let mut i: usize = 0;
    while i < messages.len()
        invariant
            v == msgs_view(messages@),
            i <= messages.len(),
            (summary@, false) == summary_state(v.take(i as int), max_chars as nat),
        decreases messages.len() - i,
    {
        let message = &messages[i];
        proof {
            assert(v.take(i + 1).drop_last() =~= v.take(i as int));
            assert(v[i as int] == message@);
        }
        let role: &str = match message.role {
            MessageRole::System => "System",
            MessageRole::User => "User",
            MessageRole::Assistant => "Assistant",
        };
        let text = message.content();
        let content = collapse_whitespace(text.as_str());
        if content.as_str().is_empty() {
            i = i + 1;
            continue ;
        }
        let mut line = String::new();
        line.append("- ");
        line.append(role);
        line.append(": ");
        line.append(content.as_str());
        line.append("\n");
        proof {
            assert(line@ =~= summary_line(v[i as int]));
        }
        let fits = match summary.as_str().len().checked_add(line.as_str().len()) {
            None => false,
            Some(total) => total <= max_chars,
        };
        if !fits {
            proof {
                lemma_summary_state_stopped(v, i as int, max_chars as nat);
            }
            return finish_summary(summary);
        }
        summary.append(line.as_str());
        i = i + 1;
    }
    proof {
        assert(v.take(i as int) =~= v);
    }
    finish_summary(summary)
}

/// Once accumulation stops at message `i`, later messages change nothing.
proof fn lemma_summary_state_stopped(v: Seq<ChatMessageView>, i: int, max_chars: nat)
    requires
        0 <= i < v.len(),
        summary_state(v.take(i + 1), max_chars).1,
    ensures
        summary_state(v, max_chars) == summary_state(v.take(i + 1), max_chars),
    decreases v.len(),
{
    if v.len() > i + 1 {
        assert(v.drop_last().take(i + 1) =~= v.take(i + 1));
        lemma_summary_state_stopped(v.drop_last(), i, max_chars);
    } else {
        assert(v.take(i + 1) =~= v);
    }
}

/// The final form of an accumulated summary: trimmed, or the placeholder when empty.
fn finish_summary(summary: String) -> (r: String)
    ensures
        r@ == if summary@.len() == 0 {
            empty_summary()
        } else {
            trim_end_spec(summary@)
        },
{
    if summary.as_str().is_empty() {
        "- No prior conversation details preserved.".to_owned()
    } else {
        trim_end(summary.as_str())
    }
}

} // verus!

verus! {

/// The oldest history messages that pruning dropped.
pub open spec fn dropped_history(s: Seq<ChatMessageView>, policy: ContextWindowPolicy) -> Seq<ChatMessageView> {
    let kept = history_part(prune_spec(s, policy)).len();
    let all = history_part(s).len();
    let dropped = if all >= kept {
        all - kept
    } else {
        0
    };
    history_part(s).take(dropped)
}

/// The system message that carries a summary.
pub open spec fn summary_message(summary: Seq<char>) -> ChatMessageView {
    ChatMessageView {
        role: MessageRole::System,
        parts: seq![PartView::Text { text: "Conversation summary:\n"@ + summary }],
    }
}

/// The pruned messages with a summary of the dropped history inserted after the
/// system messages.
pub open spec fn rebuilt_spec(s: Seq<ChatMessageView>, policy: ContextWindowPolicy) -> Seq<ChatMessageView> {
    let pruned = prune_spec(s, policy);
    system_part(pruned) + seq![summary_message(summarize_spec(dropped_history(s, policy), 480))]
        + history_part(pruned)
}

/// Result of `summarize_and_prune_messages`: the pruned messages when pruning
/// dropped no history; otherwise the rebuilt list, pruned again.
pub open spec fn summarize_and_prune_spec(s: Seq<ChatMessageView>, policy: ContextWindowPolicy) -> Seq<ChatMessageView> {
    let pruned = prune_spec(s, policy);
    if pruned.len() == s.len() || dropped_history(s, policy).len() == 0 {
        pruned
    } else {
        prune_spec(rebuilt_spec(s, policy), policy)
    }
}

/// Clone the first `k` messages of a vector.
pub(crate) fn clone_prefix(v: &Vec<ChatMessage>, k: usize) -> (r: Vec<ChatMessage>)
    requires
        k <= v@.len(),
    ensures
        msgs_view(r@) == msgs_view(v@).take(k as int),
{
    let mut r: Vec<ChatMessage> = Vec::new();
    let mut i: usize = 0;
    while i < k
        invariant
            k <= v@.len(),
            i <= k,
            r@.len() == i,
            forall|j: int| 0 <= j < i ==> #[trigger] r@[j]@ == v@[j]@,
        decreases k - i,
    {
        let c = v[i].clone();
        r.push(c);
        i = i + 1;
    }
    proof {
        assert(msgs_view(r@) =~= msgs_view(v@).take(k as int));
    }
    r
}

/// Prune `messages`; when history was dropped, insert a system message holding
/// a summary (at most 480 bytes) of the dropped history after the system
/// messages, and prune that list again.
pub fn summarize_and_prune_messages(messages: &[ChatMessage], policy: &ContextWindowPolicy) -> (r: Vec<ChatMessage>)
    requires
        messages_tokens(msgs_view(messages@)) <= usize::MAX,
        messages_tokens(rebuilt_spec(msgs_view(messages@), *policy)) <= usize::MAX,
    ensures
        msgs_view(r@) == summarize_and_prune_spec(msgs_view(messages@), *policy),
{
    let ghost v = msgs_view(messages@);
    let pruned = prune_messages(messages, policy);
    if pruned.len() == messages.len() {
        return pruned;
    }
    let (_, original_history) = split_messages(messages);
    let (pruned_system, pruned_history) = split_messages(pruned.as_slice());
    proof {
        assert(msgs_view(pruned@) == prune_spec(v, *policy));
    }
    let dropped_count = original_history.len().saturating_sub(pruned_history.len());
    if dropped_count == 0 {
        return pruned;
    }
    let dropped = clone_prefix(&original_history, dropped_count);
    let summary = summarize_messages(dropped.as_slice(), 480);
    let mut text = "Conversation summary:\n".to_owned();
    text.append(summary.as_str());
    let summary_msg = ChatMessage::new(MessageRole::System, text.as_str());
    let mut rebuilt = pruned_system;
    rebuilt.push(summary_msg);
    let mut i: usize = 0;
    let ghost base = msgs_view(rebuilt@);
    proof {
        assert(base + msgs_view(pruned_history@).take(0) =~= base);
    }
    while i < pruned_history.len()
        invariant
            i <= pruned_history@.len(),
            msgs_view(rebuilt@) == base + msgs_view(pruned_history@).take(i as int),
        decreases pruned_history@.len() - i,
    {
        let c = pruned_history[i].clone();
        let ghost old_r = rebuilt@;
        rebuilt.push(c);
        proof {
            assert(msgs_view(rebuilt@) =~= msgs_view(old_r).push(c@));
            assert(msgs_view(rebuilt@) =~= base + msgs_view(pruned_history@).take(i + 1));
        }
        i = i + 1;
    }
    proof {
        assert(msgs_view(pruned_history@).take(i as int) =~= msgs_view(pruned_history@));
        assert(summary_msg@ == summary_message(summary@));
        assert(msgs_view(rebuilt@) =~= rebuilt_spec(v, *policy));
    }
    prune_messages(rebuilt.as_slice(), policy)
}

} // verus!

verus! {

// ── Laws of pruning ─────────────────────────────────────────────────────────

/// Whether every message of `s` is a system message.
pub open spec fn all_system(s: Seq<ChatMessageView>) -> bool {
    forall|i: int| 0 <= i < s.len() ==> (#[trigger] s[i]).is_system()
}

/// Whether no message of `s` is a system message.
pub open spec fn no_system(s: Seq<ChatMessageView>) -> bool {
    forall|i: int| 0 <= i < s.len() ==> !(#[trigger] s[i]).is_system()
}

pub(crate) proof fn lemma_split_kinds(s: Seq<ChatMessageView>)
    ensures
        all_system(system_part(s)),
        no_system(history_part(s)),
    decreases s.len(),
{
    if s.len() > 0 {
        lemma_split_kinds(s.drop_last());
    }
}

pub(crate) proof fn lemma_split_concat(a: Seq<ChatMessageView>, b: Seq<ChatMessageView>)
    ensures
        system_part(a + b) == system_part(a) + system_part(b),
        history_part(a + b) == history_part(a) + history_part(b),
    decreases b.len(),
{
    if b.len() == 0 {
        assert(a + b =~= a);
        assert(system_part(a) + system_part(b) =~= system_part(a));
        assert(history_part(a) + history_part(b) =~= history_part(a));
    } else {
        lemma_split_concat(a, b.drop_last());
        assert((a + b).drop_last() =~= a + b.drop_last());
        assert((a + b).last() == b.last());
        assert(system_part(a) + system_part(b.drop_last()).push(b.last()) =~= (system_part(a) + system_part(b.drop_last())).push(b.last()));
        assert(history_part(a) + history_part(b.drop_last()).push(b.last()) =~= (history_part(a) + history_part(b.drop_last())).push(b.last()));
    }
}

pub(crate) proof fn lemma_split_uniform(s: Seq<ChatMessageView>)
    ensures
        all_system(s) ==> system_part(s) == s && history_part(s) == Seq::<ChatMessageView>::empty(),
        no_system(s) ==> history_part(s) == s && system_part(s) == Seq::<ChatMessageView>::empty(),
    decreases s.len(),
{
    if s.len() > 0 {
        lemma_split_uniform(s.drop_last());
        if all_system(s) {
            assert(all_system(s.drop_last()));
            assert(s.drop_last().push(s.last()) =~= s);
        }
        if no_system(s) {
            assert(no_system(s.drop_last()));
            assert(s.drop_last().push(s.last()) =~= s);
        }
    } else {
        assert(s =~= Seq::<ChatMessageView>::empty());
    }
}

proof fn lemma_select_no_system(ns: Seq<ChatMessageView>, rem: nat, min_keep: nat, used: nat, kept: nat)
    requires
        no_system(ns),
    ensures
        no_system(select_recent(ns, rem, min_keep, used, kept)),
    decreases ns.len(),
{
    if ns.len() > 0 {
        let cost = message_tokens(ns.last());
        assert(no_system(ns.drop_last()));
        lemma_select_no_system(ns.drop_last(), rem, min_keep, used + cost, kept + 1);
    }
}

/// Shape of a pruned list: its system messages and its history.
proof fn lemma_prune_shape(s: Seq<ChatMessageView>, policy: ContextWindowPolicy)
    ensures
        messages_tokens(s) > policy.budget() ==> {
            let budget = policy.budget();
            let sys = system_part(s);
            let remaining: nat = if budget >= messages_tokens(sys) {
                (budget - messages_tokens(sys)) as nat
            } else {
                0
            };
            &&& system_part(prune_spec(s, policy)) == system_part(s)
            &&& history_part(prune_spec(s, policy)) == select_recent(history_part(s), remaining, policy.min_history_messages as nat, 0, 0)
        },
{
    if messages_tokens(s) > policy.budget() {
        let budget = policy.budget();
        let sys = system_part(s);
        let remaining: nat = if budget >= messages_tokens(sys) {
            (budget - messages_tokens(sys)) as nat
        } else {
            0
        };
        let sel = select_recent(history_part(s), remaining, policy.min_history_messages as nat, 0, 0);
        lemma_split_kinds(s);
        lemma_select_no_system(history_part(s), remaining, policy.min_history_messages as nat, 0, 0);
        lemma_split_concat(sys, sel);
        lemma_split_uniform(sys);
        lemma_split_uniform(sel);
        assert(sys + Seq::<ChatMessageView>::empty() =~= sys);
        assert(Seq::<ChatMessageView>::empty() + sel =~= sel);
    }
}

/// Pruning keeps every system message, in order: the system messages of the
/// pruned list are exactly those of the input.
pub proof fn law_prune_keeps_system_messages(s: Seq<ChatMessageView>, policy: ContextWindowPolicy)
    ensures
        system_part(prune_spec(s, policy)) == system_part(s),
{
    lemma_prune_shape(s, policy);
}

/// Pruning keeps at least `min_history_messages` non-system messages, or all of
/// them when there are fewer.
pub proof fn law_prune_keeps_min_history(s: Seq<ChatMessageView>, policy: ContextWindowPolicy)
    ensures
        history_part(prune_spec(s, policy)).len() >= if history_part(s).len() < policy.min_history_messages {
            history_part(s).len() as int
        } else {
            policy.min_history_messages as int
        },
{
    lemma_prune_shape(s, policy);
    if messages_tokens(s) > policy.budget() {
        let budget = policy.budget();
        let sys = system_part(s);
        let remaining: nat = if budget >= messages_tokens(sys) {
            (budget - messages_tokens(sys)) as nat
        } else {
            0
        };
        lemma_select_recent_len(history_part(s), remaining, policy.min_history_messages as nat, 0, 0);
    }
}

/// Pruning never adds messages: the pruned history is no longer than the input history.
pub proof fn law_prune_never_grows_history(s: Seq<ChatMessageView>, policy: ContextWindowPolicy)
    ensures
        history_part(prune_spec(s, policy)).len() <= history_part(s).len(),
{
    lemma_prune_shape(s, policy);
    if messages_tokens(s) > policy.budget() {
        let budget = policy.budget();
        let sys = system_part(s);
        let remaining: nat = if budget >= messages_tokens(sys) {
            (budget - messages_tokens(sys)) as nat
        } else {
            0
        };
        lemma_select_recent_len(history_part(s), remaining, policy.min_history_messages as nat, 0, 0);
    }
}

/// The newest non-system message survives pruning whenever the policy keeps at
/// least one history message.
pub proof fn law_prune_keeps_newest_history(s: Seq<ChatMessageView>, policy: ContextWindowPolicy)
    requires
        policy.min_history_messages >= 1,
        history_part(s).len() > 0,
    ensures
        history_part(prune_spec(s, policy)).len() > 0,
        history_part(prune_spec(s, policy)).last() == history_part(s).last(),
{
    lemma_prune_shape(s, policy);
}

/// Pruning drops only the oldest history: the history of the pruned list is a
/// suffix of the input history.
pub proof fn law_prune_drops_only_oldest_history(s: Seq<ChatMessageView>, policy: ContextWindowPolicy)
    ensures
        history_part(prune_spec(s, policy)).len() <= history_part(s).len(),
        history_part(prune_spec(s, policy))
            == history_part(s).skip(history_part(s).len() - history_part(prune_spec(s, policy)).len()),
{
    lemma_prune_shape(s, policy);
    if messages_tokens(s) > policy.budget() {
        let budget = policy.budget();
        let sys = system_part(s);
        let remaining: nat = if budget >= messages_tokens(sys) {
            (budget - messages_tokens(sys)) as nat
        } else {
            0
        };
        lemma_select_recent_suffix(history_part(s), remaining, policy.min_history_messages as nat, 0, 0);
    } else {
        assert(history_part(s).skip(0) =~= history_part(s));
    }
}

/// A list that fits the budget is returned unchanged.
pub proof fn law_prune_within_budget_is_identity(s: Seq<ChatMessageView>, policy: ContextWindowPolicy)
    requires
        messages_tokens(s) <= policy.budget(),
    ensures
        prune_spec(s, policy) == s,
{
}

proof fn lemma_split_lengths(s: Seq<ChatMessageView>)
    ensures
        system_part(s).len() + history_part(s).len() == s.len(),
    decreases s.len(),
{
    if s.len() > 0 {
        lemma_split_lengths(s.drop_last());
    }
}

/// Pruning never adds messages: the pruned list is no longer than the input.
pub proof fn law_prune_never_grows(s: Seq<ChatMessageView>, policy: ContextWindowPolicy)
    ensures
        prune_spec(s, policy).len() <= s.len(),
{
    law_prune_keeps_system_messages(s, policy);
    law_prune_never_grows_history(s, policy);
    lemma_split_lengths(s);
    lemma_split_lengths(prune_spec(s, policy));
}

} // verus!
