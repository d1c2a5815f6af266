//! Message-history policy: every system message is kept, the history is
//! capped with a truncation strategy, and an optional token budget drops the
//! oldest history messages until the list fits.
use vstd::prelude::*;

use crate::context_window::{
    history_part, lemma_split_concat, lemma_split_kinds, lemma_split_uniform, no_system, split_messages,
    system_part,
};
use crate::domain::{msgs_view, ChatMessage, ChatMessageView};
use crate::text::utf8_len;

verus! {

/// How a history over the cap is cut down.
#[derive(Debug, Clone, Copy, PartialEq, Eq, Structural)]
pub enum TruncationPlan {
    /// Keep the newest messages.
    KeepNewest,
    /// Keep `head_count` of the oldest messages and fill the cap with the newest.
    KeepBalanced { head_count: usize },
    /// Summarisation is not available here; keeps the newest messages.
    Summarize,
}

/// Settings of the history policy, with the truncation strategy resolved to
/// a plan.
#[derive(Debug, Clone, Copy, PartialEq, Eq)]
pub struct HistoryPolicy {
    /// Most history (non-system) messages kept.
    pub max_history_messages: usize,
    /// System messages always retained: the budget trim stops once the list
    /// is no longer than this.
    pub min_system_messages: usize,
    /// Token budget of the whole list.
    pub token_budget: Option<usize>,
    pub plan: TruncationPlan,
}

impl Default for HistoryPolicy {
    fn default() -> (r: Self)
        ensures
            r.max_history_messages == 50,
            r.min_system_messages == 1,
            r.token_budget is None,
            r.plan == TruncationPlan::KeepNewest,
    {
        HistoryPolicy { max_history_messages: 50, min_system_messages: 1, token_budget: None, plan: TruncationPlan::KeepNewest }
    }
}

/// UTF-8 bytes of the text of a list of messages.
pub open spec fn content_bytes(ms: Seq<ChatMessageView>) -> nat
    decreases ms.len(),
{
    if ms.len() == 0 {
        0
    } else {
        content_bytes(ms.drop_last()) + utf8_len(ms.last().content())
    }
}

/// Token estimate of a list: a quarter of its text bytes, rounded up.
pub open spec fn list_tokens(ms: Seq<ChatMessageView>) -> nat {
    (content_bytes(ms) + 3) / 4
}

/// Whether the list holds a non-system message.
pub open spec fn has_history(ms: Seq<ChatMessageView>) -> bool {
    exists|i: int| 0 <= i < ms.len() && !(#[trigger] ms[i]).is_system()
}

/// The list without its first non-system message.
pub open spec fn drop_oldest_history(ms: Seq<ChatMessageView>) -> Seq<ChatMessageView>
    decreases ms.len(),
{
    if ms.len() == 0 {
        ms
    } else if !ms[0].is_system() {
        ms.drop_first()
    } else {
        seq![ms[0]] + drop_oldest_history(ms.drop_first())
    }
}

/// Dropping the oldest history message shortens a list that has one by one.
pub proof fn lemma_drop_oldest_len(ms: Seq<ChatMessageView>)
    requires
        has_history(ms),
    ensures
        drop_oldest_history(ms).len() == ms.len() - 1,
    decreases ms.len(),
{
    if ms[0].is_system() {
        let i = choose|i: int| 0 <= i < ms.len() && !(#[trigger] ms[i]).is_system();
        assert(ms.drop_first()[i - 1] == ms[i]);
        lemma_drop_oldest_len(ms.drop_first());
    }
}

/// The list after dropping its oldest history messages while it is over the
/// budget and longer than `min_system`.
pub open spec fn trim_to_budget(ms: Seq<ChatMessageView>, budget: nat, min_system: nat) -> Seq<ChatMessageView>
    decreases ms.len(),
{
    if list_tokens(ms) > budget && ms.len() > min_system && has_history(ms) {
        proof {
            lemma_drop_oldest_len(ms);
        }
        trim_to_budget(drop_oldest_history(ms), budget, min_system)
    } else {
        ms
    }
}

/// The history after the message cap: unchanged within the cap; else the
/// newest `max` messages, or for a balanced plan the first `head_count` (at
/// most all) and enough of the newest to fill the cap.
pub open spec fn capped_history(hist: Seq<ChatMessageView>, max: nat, plan: TruncationPlan) -> Seq<ChatMessageView> {
    if hist.len() <= max {
        hist
    } else {
        match plan {
            TruncationPlan::KeepBalanced { head_count } => {
                let h: nat = if head_count < hist.len() {
                    head_count as nat
                } else {
                    hist.len()
                };
                let t: nat = if max >= h {
                    (max - h) as nat
                } else {
                    0
                };
                let start: int = if hist.len() >= t {
                    hist.len() - t
                } else {
                    0
                };
                hist.take(h as int) + hist.skip(start)
            },
            _ => hist.skip(hist.len() - max),
        }
    }
}

/// The list a policy keeps: every system message, then the capped history,
/// then trimmed to the token budget when there is one.
pub open spec fn applied_policy(ms: Seq<ChatMessageView>, policy: HistoryPolicy) -> Seq<ChatMessageView> {
    let result = system_part(ms) + capped_history(history_part(ms), policy.max_history_messages as nat, policy.plan);
    match policy.token_budget {
        Some(b) => trim_to_budget(result, b as nat, policy.min_system_messages as nat),
        None => result,
    }
}

fn clone_range(v: &Vec<ChatMessage>, start: usize, end: usize) -> (r: Vec<ChatMessage>)
    requires
        start <= end <= v@.len(),
    ensures
        msgs_view(r@) == msgs_view(v@).subrange(start as int, end as int),
{
    let mut r: Vec<ChatMessage> = Vec::new();
    let mut i: usize = start;
    while i < end
        invariant
            start <= i <= end <= v@.len(),
            msgs_view(r@) == msgs_view(v@).subrange(start as int, i as int),
        decreases end - i,
    {
        let ghost before = r@;
        r.push(v[i].clone());
        proof {
            assert(msgs_view(r@) =~= msgs_view(before).push(v@[i as int]@));
            assert(msgs_view(v@).subrange(start as int, i + 1) =~= msgs_view(v@).subrange(start as int, i as int).push(v@[i as int]@));
        }
        i = i + 1;
    }
    r
}

fn append_all(dst: &mut Vec<ChatMessage>, src: Vec<ChatMessage>)
    ensures
        msgs_view(final(dst)@) == msgs_view(old(dst)@) + msgs_view(src@),
{
    let mut src = src;
    let ghost a = dst@;
    let ghost b = src@;
    dst.append(&mut src);
    proof {
        assert(msgs_view(a + b) =~= msgs_view(a) + msgs_view(b));
    }
}

proof fn lemma_content_bytes_drop(ms: Seq<ChatMessageView>)
    requires
        has_history(ms),
    ensures
        content_bytes(drop_oldest_history(ms)) <= content_bytes(ms),
    decreases ms.len(),
{
    lemma_content_bytes_concat(seq![ms[0]], ms.drop_first());
    assert(seq![ms[0]] + ms.drop_first() =~= ms);
    if ms[0].is_system() {
        let i = choose|i: int| 0 <= i < ms.len() && !(#[trigger] ms[i]).is_system();
        assert(ms.drop_first()[i - 1] == ms[i]);
        lemma_content_bytes_drop(ms.drop_first());
        lemma_content_bytes_concat(seq![ms[0]], drop_oldest_history(ms.drop_first()));
    }
}

proof fn lemma_content_bytes_concat(a: Seq<ChatMessageView>, b: Seq<ChatMessageView>)
    ensures
        content_bytes(a + b) == content_bytes(a) + content_bytes(b),
    decreases b.len(),
{
    if b.len() == 0 {
        assert(a + b =~= a);
    } else {
        lemma_content_bytes_concat(a, b.drop_last());
        assert((a + b).drop_last() =~= a + b.drop_last());
    }
}

fn bytes_of(messages: &Vec<ChatMessage>) -> (r: usize)
    requires
        content_bytes(msgs_view(messages@)) <= usize::MAX,
    ensures
        r == content_bytes(msgs_view(messages@)),
{
    let ghost v = msgs_view(messages@);
    let mut total: usize = 0;
    let mut i: usize = 0;
    while i < messages.len()
        invariant
            i <= messages@.len(),
            v == msgs_view(messages@),
            content_bytes(v) <= usize::MAX,
            total == content_bytes(v.take(i as int)),
        decreases messages@.len() - i,
    {
        proof {
            assert(v.take(i + 1).drop_last() =~= v.take(i as int));
            lemma_content_bytes_concat(v.take(i + 1), v.skip(i + 1));
            assert(v.take(i + 1) + v.skip(i + 1) =~= v);
        }
        let c = messages[i].content();
        total = total + c.as_str().len();
        i = i + 1;
    }
    proof {
        assert(v.take(i as int) =~= v);
    }
    total
}

fn first_history_index(messages: &Vec<ChatMessage>) -> (r: Option<usize>)
    ensures
        r is None <==> !has_history(msgs_view(messages@)),
        r matches Some(i) ==> i < messages@.len() && msgs_view(messages@).remove(i as int) == drop_oldest_history(msgs_view(messages@)),
{
    let ghost v = msgs_view(messages@);
    let mut i: usize = 0;
    while i < messages.len()
        invariant
            i <= messages@.len(),
            v == msgs_view(messages@),
            forall|j: int| 0 <= j < i ==> (#[trigger] v[j]).is_system(),
        decreases messages@.len() - i,
    {
        if !messages[i].is_system() {
            proof {
                lemma_drop_oldest_at(v, i as int);
            }
            return Some(i);
        }
        i = i + 1;
    }
    None
}

proof fn lemma_drop_oldest_at(v: Seq<ChatMessageView>, i: int)
    requires
        0 <= i < v.len(),
        !v[i].is_system(),
        forall|j: int| 0 <= j < i ==> (#[trigger] v[j]).is_system(),
    ensures
        v.remove(i) == drop_oldest_history(v),
    decreases i,
{
    if i == 0 {
        assert(v.remove(0) =~= v.drop_first());
    } else {
        assert(v[0].is_system());
        let w = v.drop_first();
        assert forall|j: int| 0 <= j < i - 1 implies (#[trigger] w[j]).is_system() by {
            assert(w[j] == v[j + 1]);
        }
        lemma_drop_oldest_at(w, i - 1);
        assert(v.remove(i) =~= seq![v[0]] + w.remove(i - 1));
    }
}

/// The messages a policy keeps (see `applied_policy`).
pub fn apply_history_policy(messages: &[ChatMessage], policy: &HistoryPolicy) -> (r: Vec<ChatMessage>)
    requires
        content_bytes(msgs_view(messages@)) <= usize::MAX,
    ensures
        msgs_view(r@) == applied_policy(msgs_view(messages@), *policy),
{
    let ghost v = msgs_view(messages@);
    let (kept_sys, hist) = split_messages(messages);
    let n = hist.len();
    let max = policy.max_history_messages;
    let kept_hist = if n > max {
        match policy.plan {
            TruncationPlan::KeepBalanced { head_count } => {
                let h = if head_count < n { head_count } else { n };
                let t = if max >= h { max - h } else { 0 };
                let start = if n >= t { n - t } else { 0 };
                let mut head = clone_range(&hist, 0, h);
                let tail = clone_range(&hist, start, n);
                proof {
                    assert(msgs_view(hist@).subrange(0, h as int) =~= msgs_view(hist@).take(h as int));
                    assert(msgs_view(hist@).subrange(start as int, n as int) =~= msgs_view(hist@).skip(start as int));
                }
                append_all(&mut head, tail);
                head
            },
            _ => {
                let r = clone_range(&hist, n - max, n);
                proof {
                    assert(msgs_view(hist@).subrange((n - max) as int, n as int) =~= msgs_view(hist@).skip(n - max));
                }
                r
            },
        }
    } else {
        hist
    };
    let mut result = kept_sys;
    append_all(&mut result, kept_hist);
    proof {
        lemma_content_bytes_parts(v);
        let sp = system_part(v);
        let hp = history_part(v);
        lemma_content_bytes_concat(msgs_view(kept_sys@), msgs_view(kept_hist@));
        if hp.len() > max {
            match policy.plan {
                TruncationPlan::KeepBalanced { head_count } => {
                    let h: int = if head_count < hp.len() { head_count as int } else { hp.len() as int };
                    let t: int = if max >= h { max - h } else { 0 };
                    let start: int = if hp.len() >= t { hp.len() - t } else { 0 };
                    lemma_content_bytes_gap(hp, h, start);
                },
                _ => {
                    lemma_content_bytes_gap(hp, 0, hp.len() - max);
                    assert(hp.take(0) + hp.skip(hp.len() - max) =~= hp.skip(hp.len() - max));
                },
            }
        }
    }
    match policy.token_budget {
        Some(budget) => {
            loop
                invariant
                    content_bytes(msgs_view(result@)) <= content_bytes(v),
                    content_bytes(v) <= usize::MAX,
                    policy.token_budget == Some(budget),
                    trim_to_budget(msgs_view(result@), budget as nat, policy.min_system_messages as nat)
                        == applied_policy(v, *policy),
                ensures
                    msgs_view(result@) == applied_policy(v, *policy),
                decreases result@.len(),
            {
                let bytes = bytes_of(&result);
                let tokens = bytes / 4 + if bytes % 4 != 0 { 1 } else { 0 };
                proof {
                    assert(tokens == (bytes + 3) / 4);
                }
                if !(tokens > budget && result.len() > policy.min_system_messages) {
                    break;
                }
                match first_history_index(&result) {
                    Some(pos) => {
                        let ghost before = msgs_view(result@);
                        result.remove(pos);
                        proof {
                            assert(msgs_view(result@) =~= before.remove(pos as int));
                            lemma_content_bytes_drop(before);
                        }
                    },
                    None => {
                        break;
                    },
                }
            }
            result
        },
        None => result,
    }
}

proof fn lemma_content_bytes_parts(v: Seq<ChatMessageView>)
    ensures
        content_bytes(system_part(v)) + content_bytes(history_part(v)) == content_bytes(v),
    decreases v.len(),
{
    if v.len() > 0 {
        lemma_content_bytes_parts(v.drop_last());
        let w = v.drop_last();
        if v.last().is_system() {
            assert(system_part(w).push(v.last()).drop_last() =~= system_part(w));
        } else {
            assert(history_part(w).push(v.last()).drop_last() =~= history_part(w));
        }
    }
}

proof fn lemma_content_bytes_gap(s: Seq<ChatMessageView>, h: int, start: int)
    requires
        0 <= h <= start <= s.len(),
    ensures
        content_bytes(s.take(h) + s.skip(start)) <= content_bytes(s),
{
    lemma_content_bytes_concat(s.take(h), s.skip(start));
    lemma_content_bytes_concat(s.take(h), s.subrange(h, start));
    lemma_content_bytes_concat(s.take(h) + s.subrange(h, start), s.skip(start));
    assert(s.take(h) + s.subrange(h, start) + s.skip(start) =~= s);
}

/// After trimming, the list fits the budget, or it is no longer than the
/// system-message allowance, or only system messages are left.
pub proof fn law_trim_fits_budget(ms: Seq<ChatMessageView>, budget: nat, min_system: nat)
    ensures
        ({
            let t = trim_to_budget(ms, budget, min_system);
            list_tokens(t) <= budget || t.len() <= min_system || !has_history(t)
        }),
    decreases ms.len(),
{
    if list_tokens(ms) > budget && ms.len() > min_system && has_history(ms) {
        lemma_drop_oldest_len(ms);
        law_trim_fits_budget(drop_oldest_history(ms), budget, min_system);
    }
}

/// The capped history holds at most `max` messages when the balanced plan's
/// head does not exceed the cap (a head ratio of at most one).
pub proof fn law_capped_history_within_cap(hist: Seq<ChatMessageView>, max: nat, plan: TruncationPlan)
    requires
        plan matches TruncationPlan::KeepBalanced { head_count } ==> head_count <= max,
    ensures
        capped_history(hist, max, plan).len() <= if hist.len() <= max {
            hist.len()
        } else {
            max
        },
{
}

proof fn lemma_drop_oldest_keeps_system(ms: Seq<ChatMessageView>)
    requires
        has_history(ms),
    ensures
        system_part(drop_oldest_history(ms)) == system_part(ms),
    decreases ms.len(),
{
    let head = seq![ms[0]];
    let rest = ms.drop_first();
    assert(head + rest =~= ms);
    assert(head.drop_last() =~= Seq::<ChatMessageView>::empty());
    assert(head.last() == ms[0]);
    assert(system_part(Seq::<ChatMessageView>::empty()) =~= Seq::<ChatMessageView>::empty());
    lemma_split_concat(head, rest);
    if ms[0].is_system() {
        assert(system_part(head) =~= seq![ms[0]]);
        let i = choose|i: int| 0 <= i < ms.len() && !(#[trigger] ms[i]).is_system();
        assert(rest[i - 1] == ms[i]);
        lemma_drop_oldest_keeps_system(rest);
        lemma_split_concat(head, drop_oldest_history(rest));
    } else {
        assert(system_part(head) =~= Seq::<ChatMessageView>::empty());
        assert(Seq::<ChatMessageView>::empty() + system_part(rest) =~= system_part(rest));
    }
}

proof fn lemma_trim_keeps_system(ms: Seq<ChatMessageView>, budget: nat, min_system: nat)
    ensures
        system_part(trim_to_budget(ms, budget, min_system)) == system_part(ms),
    decreases ms.len(),
{
    if list_tokens(ms) > budget && ms.len() > min_system && has_history(ms) {
        lemma_drop_oldest_len(ms);
        lemma_drop_oldest_keeps_system(ms);
        lemma_trim_keeps_system(drop_oldest_history(ms), budget, min_system);
    }
}

proof fn lemma_capped_no_system(hist: Seq<ChatMessageView>, max: nat, plan: TruncationPlan)
    requires
        no_system(hist),
    ensures
        no_system(capped_history(hist, max, plan)),
{
    let c = capped_history(hist, max, plan);
    if hist.len() > max {
        match plan {
            TruncationPlan::KeepBalanced { head_count } => {
                let h: nat = if head_count < hist.len() {
                    head_count as nat
                } else {
                    hist.len()
                };
                let t: nat = if max >= h {
                    (max - h) as nat
                } else {
                    0
                };
                let start: int = if hist.len() >= t {
                    hist.len() - t
                } else {
                    0
                };
                assert forall|i: int| 0 <= i < c.len() implies !(#[trigger] c[i]).is_system() by {
                    if i < h {
                        assert(c[i] == hist[i]);
                    } else {
                        assert(c[i] == hist[start + i - h]);
                    }
                }
            },
            _ => {
                assert forall|i: int| 0 <= i < c.len() implies !(#[trigger] c[i]).is_system() by {
                    assert(c[i] == hist[hist.len() - max + i]);
                }
            },
        }
    }
}

/// A history policy keeps every system message, in order: the system messages
/// of the result are exactly those of the input.
pub proof fn law_policy_keeps_system_messages(ms: Seq<ChatMessageView>, policy: HistoryPolicy)
    ensures
        system_part(applied_policy(ms, policy)) == system_part(ms),
{
    let sys = system_part(ms);
    let capped = capped_history(history_part(ms), policy.max_history_messages as nat, policy.plan);
    lemma_split_kinds(ms);
    lemma_capped_no_system(history_part(ms), policy.max_history_messages as nat, policy.plan);
    lemma_split_concat(sys, capped);
    lemma_split_uniform(sys);
    lemma_split_uniform(capped);
    assert(sys + Seq::<ChatMessageView>::empty() =~= sys);
    match policy.token_budget {
        Some(b) => {
            lemma_trim_keeps_system(sys + capped, b as nat, policy.min_system_messages as nat);
        },
        None => {},
    }
}

} // verus!
