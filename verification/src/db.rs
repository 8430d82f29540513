//! What the library decides about stored conversations: how a thread's context is assembled
//! from the rows read for it, and which messages survive archiving after a summary.
use vstd::prelude::*;
use crate::gemini::{summarized_count, SUMMARY_THRESHOLD};
use crate::models::{ChatContext, ChatMessage};

verus! {

/// The summary of a thread as read from its row: the stored summary, or empty where the
/// thread has no row or no summary yet.
pub open spec fn summary_of_row(row: Option<Option<String>>) -> Seq<char> {
    match row {
        Some(Some(s)) => s@,
        _ => Seq::<char>::empty(),
    }
}

/// The context of a thread from what was read for it: the summary column of the thread's
/// row (if there is a row) and all of the thread's messages not yet summarized, oldest first.
pub fn context_from_rows(summary_row: Option<Option<String>>, messages: Vec<ChatMessage>) -> (r: ChatContext)
    ensures
        r.summary@ == summary_of_row(summary_row),
        r.messages == messages,
{
    let summary = match summary_row {
        Some(Some(s)) => s,
        _ => String::new(),
    };
    ChatContext { summary, messages }
}

/// Message identifiers grow strictly from the oldest message to the newest, as in a thread's
/// context read in order of identifier (identifiers are unique within a chat).
pub open spec fn ids_increasing(msgs: Seq<ChatMessage>) -> bool {
    forall|i: int, j: int| 0 <= i < j < msgs.len() ==> msgs[i].message_id < msgs[j].message_id
}

/// The messages that archiving up to `last_id` keeps: those with a greater identifier.
pub open spec fn kept_after(last_id: i64) -> spec_fn(ChatMessage) -> bool {
    |m: ChatMessage| m.message_id > last_id
}

/// The messages that archiving up to `last_id` deletes: those with an identifier up to it.
pub open spec fn archived_by(last_id: i64) -> spec_fn(ChatMessage) -> bool {
    |m: ChatMessage| m.message_id <= last_id
}

proof fn lemma_filter_at_split(s: Seq<ChatMessage>, k: int, j: int)
    requires
        ids_increasing(s),
        0 < k <= s.len(),
        0 <= j <= s.len(),
    ensures
        s.take(j).filter(kept_after(s[k - 1].message_id)) == (if j <= k {
            Seq::<ChatMessage>::empty()
        } else {
            s.subrange(k, j)
        }),
        s.take(j).filter(archived_by(s[k - 1].message_id)) == (if j <= k {
            s.take(j)
        } else {
            s.take(k)
        }),
    decreases j,
{
    reveal(Seq::filter);
    let t = s[k - 1].message_id;
    if j == 0 {
        assert(s.take(0) =~= Seq::<ChatMessage>::empty());
    } else {
        lemma_filter_at_split(s, k, j - 1);
        let p = s.take(j);
        assert(p.drop_last() =~= s.take(j - 1));
        assert(p.last() == s[j - 1]);
        if j <= k {
            assert(s[j - 1].message_id <= t);
            assert(s.take(j - 1).push(s[j - 1]) =~= s.take(j));
        } else {
            assert(s[j - 1].message_id > t);
            if j - 1 <= k {
                assert(Seq::<ChatMessage>::empty().push(s[j - 1]) =~= s.subrange(k, j));
            } else {
                assert(s.subrange(k, j - 1).push(s[j - 1]) =~= s.subrange(k, j));
            }
        }
    }
}

/// Archiving after a summary keeps exactly the newest `KEPT_MESSAGES` messages: in a context
/// of more than `SUMMARY_THRESHOLD` messages in order of identifier, the messages with an
/// identifier up to the `last_id` of the summary request are exactly the ones the summary
/// covers, and the ones after it are the newest `KEPT_MESSAGES`.
pub proof fn lemma_archive_keeps_newest(msgs: Seq<ChatMessage>)
    requires
        ids_increasing(msgs),
        msgs.len() > SUMMARY_THRESHOLD,
    ensures
        ({
            let k = summarized_count(msgs.len() as int);
            let last_id = msgs[k - 1].message_id;
            &&& msgs.filter(archived_by(last_id)) == msgs.take(k)
            &&& msgs.filter(kept_after(last_id)) == msgs.skip(k)
        }),
{
    let n = msgs.len() as int;
    let k = summarized_count(n);
    lemma_filter_at_split(msgs, k, n);
    assert(msgs.take(n) =~= msgs);
    assert(msgs.subrange(k, n) =~= msgs.skip(k));
}


/// Archiving up to the newest message a summary covers keeps exactly fifty messages: in a
/// conversation of more than a hundred messages in order of identifier, the messages with an
/// identifier above that of the fifty-first from the end are the newest fifty, and those up
/// to it are all the others.
pub proof fn lemma_archive_keeps_fifty(msgs: Seq<ChatMessage>)
    requires
        ids_increasing(msgs),
        msgs.len() > 100,
    ensures
        ({
            let n = msgs.len() as int;
            let last_id = msgs[n - 51].message_id;
            &&& msgs.filter(kept_after(last_id)) == msgs.subrange(n - 50, n)
            &&& msgs.filter(kept_after(last_id)).len() == 50
            &&& msgs.filter(archived_by(last_id)) == msgs.subrange(0, n - 50)
            &&& msgs.filter(archived_by(last_id)).len() == n - 50
        }),
{
    let n = msgs.len() as int;
    lemma_filter_at_split(msgs, n - 50, n);
    assert(msgs.take(n) =~= msgs);
    assert(msgs.take(n - 50) =~= msgs.subrange(0, n - 50));
}

} // verus!
