//! Properties of the library that span its functions, each proved.
use crate::capability::SceneParticipant;
use crate::domain::actor_uuid::ActorUuid;
use crate::capability::GetArgs;
use crate::domain::job::effects::{Next, Reply, WorkerCall};
use crate::domain::job::person_action_handler::{ActionHandleError, HandleAction, MoveToScene};
use crate::domain::job::process_reaction_common::reaction_input::ReactionExecutionInput;
use crate::domain::job::task_transition::{TaskTransition, TaskTransitionError};
use crate::domain::scene_uuid::SceneUuid;
use crate::domain::job::person_hibernating::{hibernation_run_at, PersonHibernatingJob};
use crate::domain::job::person_waiting::{waiting_run_at, PersonWaitingJob};
use crate::domain::job::process_message::ProcessMessageJob;
use crate::domain::job::process_message::ProcessMessageStep;
use crate::domain::job::process_person_join::JoinStep;
use crate::domain::job::process_reaction_common::scene_reaction::{
    message_ids, ReactionContext, ReactionStep, SceneReaction,
};
use crate::domain::job::send_message_to_scene::SendMessage;
use crate::domain::job::send_message_to_scene::{is_sender, process_message_jobs, recipient_uuids};
use crate::domain::job::{job_kind_name, parse_job_kind, JobData, JobKind};
use crate::domain::job_uuid::JobUuid;
use crate::domain::logger::{level_priority, Level};
use crate::domain::memory::{contents_within, kept_memory_contents, MemorySearchResult};
use crate::domain::message::Message;
use crate::domain::message::MessageSender;
use crate::domain::message_uuid::MessageUuid;
use crate::domain::person_task::{outcome_name, PersonTaskTerminalOutcome};
use crate::domain::person_uuid::PersonUuid;
use crate::job_runner::{
    active_ms_after, after_join, after_process_message, after_send, clock_reading, ActiveClock, RunJobStep,
};
use crate::migrations::{
    ends_with_sql, first_piece_end, human_name, last_piece_start, new_migration_file_name_text, separator_at,
    timestamp_text,
};
use crate::num::{clamp_i64, max_i64};
use crate::open_ai::completion::{CompletionError, Response};
use crate::open_ai::embedding::body_preview;
use crate::json::JsonV;
use crate::open_ai::tool_call::ToolCallV;
use crate::person_actions::{
    action_kind_name, all_action_names_spec, all_reflection_names_spec, reaction_from_tool_call, reflection_name,
    scan_choice_args, ChoiceArgsV, PersonActionKind, PersonActionV, ReflectionDecision,
};
use crate::tasks::summarize_memories_v2::{
    clamped_words, eq_ignore_ascii_case, has_like, mapped_uuids, normalized_list, section_count, section_of,
    section_start, words, PersonSummary, SummaryStep, SectionSummary, SectionStep, after_section, section_answer,
};
use crate::text::{is_white_space, join_seq, leading_ws, trailing_ws, trim_chars, trim_start_chars};
use vstd::prelude::*;
use vstd::string::*;

verus! {

/// Whether the decoded data of a stored job holds the payload of `k`.
pub open spec fn carries(data: JobData, k: JobKind) -> bool {
    match k {
        JobKind::Ping => true,
        JobKind::SendMessageToScene(j) => data.as_send_message_to_scene == Ok::<_, String>(j),
        JobKind::ProcessMessage(j) => data.as_process_message == Ok::<_, String>(j),
        JobKind::ProcessPersonJoin(j) => data.as_process_person_join == Ok::<_, String>(j),
        JobKind::PersonWaiting(j) => data.as_person_waiting == Ok::<_, String>(j),
        JobKind::PersonHibernating(j) => data.as_person_hibernating == Ok::<_, String>(j),
    }
}

/// A job stored under its name, with data that decodes to its payload, is
/// read back as the same job.
pub proof fn law_job_name_reads_back(k: JobKind, data: JobData)
    requires
        carries(data, k),
    ensures
        parse_job_kind(job_kind_name(k), Some(data)) == Ok::<JobKind, crate::domain::job::ParseErrorV>(k),
{
    reveal_strlit("ping");
    reveal_strlit("send message to scene");
    reveal_strlit("process message");
    reveal_strlit("process person join");
    reveal_strlit("person waiting");
    reveal_strlit("person hibernating");
    assert("ping"@.len() == 4);
    assert("send message to scene"@.len() == 21);
    assert("process message"@.len() == 15);
    assert("process person join"@.len() == 19);
    assert("person waiting"@.len() == 14);
    assert("person hibernating"@.len() == 18);
}

/// Distinct task outcomes have distinct names, so a name read back gives the
/// outcome it was written from.
pub proof fn law_outcome_names_distinct(a: PersonTaskTerminalOutcome, b: PersonTaskTerminalOutcome)
    requires
        outcome_name(a) == outcome_name(b),
    ensures
        a == b,
{
    reveal_strlit("completed");
    reveal_strlit("failed");
    reveal_strlit("abandoned");
    assert("completed"@[0] == 'c');
    assert("failed"@[0] == 'f');
    assert("abandoned"@[0] == 'a');
}

/// Distinct actions have distinct names in the choice tool, and so do the
/// two reflection decisions.
pub proof fn law_choice_names_distinct(a: PersonActionKind, b: PersonActionKind, r: ReflectionDecision, s: ReflectionDecision)
    ensures
        action_kind_name(a) == action_kind_name(b) ==> a == b,
        reflection_name(r) == reflection_name(s) ==> r == s,
{
    reveal_strlit("wait");
    reveal_strlit("hibernate");
    reveal_strlit("idle");
    reveal_strlit("say in scene");
    reveal_strlit("move to scene");
    reveal_strlit("reflection");
    reveal_strlit("no_reflection");
    assert("wait"@[0] == 'w');
    assert("hibernate"@[0] == 'h');
    assert("idle"@[0] == 'i');
    assert("say in scene"@[0] == 's');
    assert("move to scene"@[0] == 'm');
    assert("reflection"@[0] == 'r');
    assert("no_reflection"@[0] == 'n');
}

/// The recipients of a message are AI persons present in the scene, and the
/// sender is never one of them.
pub proof fn law_recipients_exclude_sender(sender: MessageSender, ps: Seq<SceneParticipant>, i: int)
    requires
        0 <= i < recipient_uuids(sender, ps).len(),
    ensures
        !is_sender(sender, ActorUuid::AiPerson(recipient_uuids(sender, ps)[i])),
        exists|j: int| 0 <= j < ps.len() && #[trigger] ps[j].actor_uuid == ActorUuid::AiPerson(recipient_uuids(sender, ps)[i]),
    decreases ps.len(),
{
    let rest = recipient_uuids(sender, ps.drop_last());
    if i < rest.len() {
        law_recipients_exclude_sender(sender, ps.drop_last(), i);
        let j = choose|j: int| 0 <= j < ps.drop_last().len() && #[trigger] ps.drop_last()[j].actor_uuid == ActorUuid::AiPerson(rest[i]);
        assert(ps[j] == ps.drop_last()[j]);
    } else {
        assert(ps[ps.len() - 1] == ps.last());
    }
}

/// Every recipient gets exactly one job to react to the message, in order.
pub proof fn law_one_job_per_recipient(message_uuid: MessageUuid, recipients: Seq<PersonUuid>)
    ensures
        process_message_jobs(message_uuid, recipients).len() == recipients.len(),
        forall|i: int|
            0 <= i < recipients.len() ==> #[trigger] process_message_jobs(message_uuid, recipients)[i]
                == JobKind::ProcessMessage(ProcessMessageJob { message_uuid, recipient_person_uuid: recipients[i] }),
{
}

/// The active clock never runs backwards: more elapsed time never gives an
/// earlier active time, and the active time is never before the stored one.
pub proof fn law_active_clock_monotone(base_active_ms: i64, e1: u128, e2: u128)
    requires
        e1 <= e2,
    ensures
        active_ms_after(base_active_ms, e1) <= active_ms_after(base_active_ms, e2),
        base_active_ms <= active_ms_after(base_active_ms, e1),
{
}

/// Two successive readings of one active clock never decrease, and none is
/// before the stored time.
pub proof fn law_clock_readings_never_decrease(c0: ActiveClock, r1: i64, c1: ActiveClock, r2: i64, c2: ActiveClock)
    requires
        clock_reading(c0, r1, c1),
        clock_reading(c1, r2, c2),
    ensures
        c0.base_active_ms <= r1 <= r2,
{
}

/// A wait or a hibernation never ends before it starts.
pub proof fn law_waits_end_after_start(w: PersonWaitingJob, h: PersonHibernatingJob)
    ensures
        w.start_active_ms <= waiting_run_at(w),
        h.start_active_ms <= hibernation_run_at(h),
{
}

/// A logger that passes a level passes every more important level too.
pub proof fn law_logging_monotone(least: Level, a: Level, b: Level)
    requires
        level_priority(a) >= level_priority(least),
        level_priority(b) >= level_priority(a),
    ensures
        level_priority(b) >= level_priority(least),
{
}

proof fn lemma_within_grows(rs: Seq<MemorySearchResult>, k: nat)
    ensures
        contents_within(rs, k).len() <= contents_within(rs, k + 1).len(),
        contents_within(rs, k + 1).len() <= rs.len(),
    decreases rs.len(),
{
    if rs.len() > 0 {
        lemma_within_grows(rs.drop_last(), k);
    }
}

/// Loosening the distance threshold never drops a memory, and the memories
/// kept from a search are never more than its results.
pub proof fn law_memory_thresholds(rs: Seq<MemorySearchResult>, k: nat)
    ensures
        contents_within(rs, k).len() <= contents_within(rs, k + 1).len(),
        kept_memory_contents(rs).len() <= rs.len(),
{
    lemma_within_grows(rs, k);
    lemma_within_grows(rs, 0);
    lemma_within_grows(rs, 1);
    lemma_within_grows(rs, 2);
}

/// The preview of a response body is never longer than 200 characters and
/// the `...` that marks a cut.
pub proof fn law_preview_bounded(body: Seq<char>)
    ensures
        body_preview(body).len() <= 203,
{
    reveal_strlit("<empty>");
    reveal_strlit("...");
}

/// A person who is disabled does not react: no reaction is asked for, and
/// the pending messages, if any, are marked handled.
pub proof fn law_disabled_person_does_not_react(ctx: ReactionContext, pending: Vec<Message>, res: ReactionStep)
    requires
        (SceneReaction::AwaitingEnabled { ctx, pending }).step(Reply::Flag(Ok(false)), res),
    ensures
        !(res.1 matches Next::Call(WorkerCall::GetReaction { .. })),
        pending@.len() > 0 ==> (res.1 matches Next::Call(WorkerCall::MarkSceneMessagesHandled { person_uuid, message_uuids })
            && person_uuid == ctx.person_uuid && message_uuids@ == message_ids(pending@)),
        pending@.len() == 0 ==> res.1 == Next::<Result<(), crate::domain::job::process_reaction_common::Error>>::Done(Ok(())),
{
}

/// A person who hibernates does not react either: no reaction is asked for,
/// and the pending messages, if any, are marked handled.
pub proof fn law_hibernating_person_does_not_react(ctx: ReactionContext, pending: Vec<Message>, res: ReactionStep)
    requires
        (SceneReaction::AwaitingHibernation { ctx, pending }).step(Reply::Flag(Ok(true)), res),
    ensures
        !(res.1 matches Next::Call(WorkerCall::GetReaction { .. })),
        pending@.len() > 0 ==> (res.1 matches Next::Call(WorkerCall::MarkSceneMessagesHandled { person_uuid, message_uuids })
            && person_uuid == ctx.person_uuid && message_uuids@ == message_ids(pending@)),
        pending@.len() == 0 ==> res.1 == Next::<Result<(), crate::domain::job::process_reaction_common::Error>>::Done(Ok(())),
{
}

/// The first `k` sections of `n`, one after another.
pub open spec fn joined_sections(ms: Seq<String>, n: nat, k: nat) -> Seq<String>
    decreases k,
{
    if k == 0 {
        Seq::empty()
    } else {
        joined_sections(ms, n, (k - 1) as nat) + section_of(ms, n, (k - 1) as nat)
    }
}

proof fn lemma_joined_prefix(ms: Seq<String>, n: nat, k: nat)
    requires
        0 < n,
        k <= n,
    ensures
        section_start(ms.len(), n, k) <= ms.len(),
        joined_sections(ms, n, k) == ms.take(section_start(ms.len(), n, k) as int),
    decreases k,
{
    let len = ms.len();
    if k == 0 {
        assert(0 * len / n == 0) by (nonlinear_arith)
            requires
                0 < n,
        ;
        assert(ms.take(0) =~= Seq::<String>::empty());
    } else {
        let km1: nat = (k - 1) as nat;
        lemma_joined_prefix(ms, n, km1);
        let a = section_start(len, n, km1);
        let b = section_start(len, n, k);
        assert(km1 * len <= k * len) by (nonlinear_arith)
            requires
                km1 <= k,
        ;
        assert(k * len <= n * len) by (nonlinear_arith)
            requires
                k <= n,
        ;
        assert(km1 * len / n <= k * len / n) by (nonlinear_arith)
            requires
                km1 * len <= k * len,
                0 < n,
        ;
        assert(k * len / n <= n * len / n) by (nonlinear_arith)
            requires
                k * len <= n * len,
                0 < n,
        ;
        assert(n * len / n == len) by (nonlinear_arith)
            requires
                0 < n,
        ;
        assert(km1 + 1 == k);
        assert(ms.take(a as int) + ms.subrange(a as int, b as int) =~= ms.take(b as int));
    }
}

proof fn lemma_section_nonempty(len: nat, n: nat, i: nat)
    requires
        0 < n <= len,
        i < n,
    ensures
        section_start(len, n, i) < section_start(len, n, i + 1),
{
    let a = i * len;
    assert((i + 1) * len == a + len) by (nonlinear_arith)
        requires
            a == i * len,
    ;
    assert((a + len) / n >= (a + n) / n) by (nonlinear_arith)
        requires
            n <= len,
            0 < n,
    ;
    assert((a + n) / n == a / n + 1) by (nonlinear_arith)
        requires
            0 < n,
    ;
}

/// Splitting memories into sections loses and repeats nothing: the sections,
/// one after another, are the memories; and with at least as many memories as
/// sections, no section is empty.
pub proof fn law_sections_partition(ms: Seq<String>, target_sections: nat)
    requires
        target_sections > 0,
    ensures
        ({
            let n = section_count(ms.len(), target_sections);
            &&& n > 0 ==> joined_sections(ms, n, n) == ms
            &&& forall|i: nat| i < n ==> #[trigger] section_of(ms, n, i).len() > 0
        }),
{
    let n = section_count(ms.len(), target_sections);
    if n > 0 {
        lemma_joined_prefix(ms, n, n);
        assert(n * ms.len() / n == ms.len()) by (nonlinear_arith)
            requires
                0 < n,
        ;
        assert(ms.take(ms.len() as int) =~= ms);
        assert forall|i: nat| i < n implies #[trigger] section_of(ms, n, i).len() > 0 by {
            lemma_section_nonempty(ms.len(), n, i);
            lemma_joined_prefix(ms, n, i + 1);
        }
    }
}

/// A normalized list holds no empty entry and no two entries equal up to the
/// case of ASCII letters.
pub proof fn law_normalized_list_distinct(values: Seq<Seq<char>>)
    ensures
        forall|i: int| 0 <= i < normalized_list(values).len() ==> #[trigger] normalized_list(values)[i].len() > 0,
        forall|i: int, j: int|
            0 <= i < j < normalized_list(values).len() ==> !eq_ignore_ascii_case(
                #[trigger] normalized_list(values)[i],
                #[trigger] normalized_list(values)[j],
            ),
    decreases values.len(),
{
    if values.len() > 0 {
        law_normalized_list_distinct(values.drop_last());
        let kept = normalized_list(values.drop_last());
        let t = crate::text::trim_chars(values.last());
        if !(t.len() == 0 || has_like(kept, t)) {
            let r = kept.push(t);
            assert forall|i: int, j: int| 0 <= i < j < r.len() implies !eq_ignore_ascii_case(
                #[trigger] r[i],
                #[trigger] r[j],
            ) by {
                if j == r.len() - 1 {
                    assert(r[j] == t);
                    assert(r[i] == kept[i]);
                    if eq_ignore_ascii_case(kept[i], t) {
                        assert(has_like(kept, t));
                    }
                } else {
                    assert(r[i] == kept[i]);
                    assert(r[j] == kept[j]);
                }
            }
        }
    }
}

/// The people a memory names are stored each once: the identifiers that the
/// names map to hold no repeats.
pub proof fn law_mapped_uuids_distinct(names: Seq<Seq<char>>, entries: Seq<(Seq<char>, u128)>)
    ensures
        mapped_uuids(names, entries).no_duplicates(),
    decreases names.len(),
{
    if names.len() > 0 {
        law_mapped_uuids_distinct(names.drop_last(), entries);
        let prev = mapped_uuids(names.drop_last(), entries);
        match crate::tasks::summarize_memories_v2::index_lookup(
            entries,
            crate::tasks::summarize_memories_v2::lowercase(names.last()),
        ) {
            Some(u) => {
                if !prev.contains(u) {
                    let r = prev.push(u);
                    assert forall|i: int, j: int| 0 <= i < r.len() && 0 <= j < r.len() && i != j implies r[i]
                        != r[j] by {
                        if j == r.len() - 1 {
                            assert(r[i] == prev[i]);
                        } else if i == r.len() - 1 {
                            assert(r[j] == prev[j]);
                        } else {
                            assert(r[i] == prev[i]);
                            assert(r[j] == prev[j]);
                        }
                    }
                }
            },
            None => {},
        }
    }
}

/// Whether a text is a word: not empty, and without white space.
pub open spec fn is_word(w: Seq<char>) -> bool {
    w.len() > 0 && forall|j: int| 0 <= j < w.len() ==> !is_white_space(#[trigger] w[j])
}

/// Whether a text is all white space.
pub open spec fn all_white(t: Seq<char>) -> bool {
    forall|j: int| 0 <= j < t.len() ==> is_white_space(#[trigger] t[j])
}

proof fn lemma_words_are_words(s: Seq<char>)
    ensures
        forall|i: int| 0 <= i < words(s).len() ==> is_word(#[trigger] words(s)[i]),
    decreases s.len(),
{
    if s.len() > 0 {
        let p = s.drop_last();
        let c = s.last();
        lemma_words_are_words(p);
        let w = words(p);
        if !is_white_space(c) && p.len() > 0 && !is_white_space(p.last()) {
            crate::tasks::summarize_memories_v2::lemma_words_nonempty(p);
            let r = w.drop_last().push(w.last().push(c));
            assert forall|i: int| 0 <= i < r.len() implies is_word(#[trigger] r[i]) by {
                if i < r.len() - 1 {
                    assert(r[i] == w[i]);
                } else {
                    assert(is_word(w[w.len() - 1]));
                    assert(r[i] == w.last().push(c));
                }
            }
        } else if !is_white_space(c) {
            let r = w.push(seq![c]);
            assert forall|i: int| 0 <= i < r.len() implies is_word(#[trigger] r[i]) by {
                if i < r.len() - 1 {
                    assert(r[i] == w[i]);
                }
            }
        }
    }
}

proof fn lemma_words_append_white(s: Seq<char>, t: Seq<char>)
    requires
        all_white(t),
    ensures
        words(s + t) == words(s),
    decreases t.len(),
{
    if t.len() == 0 {
        assert(s + t =~= s);
    } else {
        assert((s + t).drop_last() =~= s + t.drop_last());
        assert((s + t).last() == t.last());
        lemma_words_append_white(s, t.drop_last());
    }
}

proof fn lemma_words_prepend_white(t: Seq<char>, s: Seq<char>)
    requires
        all_white(t),
    ensures
        words(t + s) == words(s),
    decreases s.len(),
{
    if s.len() == 0 {
        assert(t + s =~= Seq::<char>::empty() + t);
        lemma_words_append_white(Seq::<char>::empty(), t);
        assert(words(Seq::<char>::empty()) =~= Seq::<Seq<char>>::empty());
    } else {
        let p = s.drop_last();
        assert((t + s).drop_last() =~= t + p);
        assert((t + s).last() == s.last());
        lemma_words_prepend_white(t, p);
        if p.len() > 0 {
            assert((t + p).last() == p.last());
        } else {
            assert(t + p =~= t);
            if t.len() > 0 {
                assert(is_white_space(t[t.len() - 1]));
            }
        }
    }
}

proof fn lemma_leading_white(s: Seq<char>)
    ensures
        leading_ws(s) <= s.len(),
        all_white(s.take(leading_ws(s) as int)),
    decreases s.len(),
{
    if s.len() > 0 && is_white_space(s[0]) {
        lemma_leading_white(s.drop_first());
        let k = leading_ws(s.drop_first());
        assert forall|j: int| 0 <= j < s.take(leading_ws(s) as int).len() implies is_white_space(
            #[trigger] s.take(leading_ws(s) as int)[j],
        ) by {
            if j > 0 {
                assert(s.take(leading_ws(s) as int)[j] == s.drop_first().take(k as int)[j - 1]);
            }
        }
    }
}

proof fn lemma_trailing_white(s: Seq<char>)
    ensures
        trailing_ws(s) <= s.len(),
        all_white(s.skip(s.len() - trailing_ws(s))),
    decreases s.len(),
{
    if s.len() > 0 && is_white_space(s.last()) {
        let p = s.drop_last();
        lemma_trailing_white(p);
        let k = trailing_ws(p);
        let tail = s.skip(s.len() - trailing_ws(s));
        assert forall|j: int| 0 <= j < tail.len() implies is_white_space(#[trigger] tail[j]) by {
            if j < tail.len() - 1 {
                assert(tail[j] == p.skip(p.len() - k)[j]);
            } else {
                assert(tail[j] == s.last());
            }
        }
    }
}

proof fn lemma_words_trim(s: Seq<char>)
    ensures
        words(trim_chars(s)) == words(s),
{
    let k = leading_ws(s);
    lemma_leading_white(s);
    let t = trim_start_chars(s);
    assert(s =~= s.take(k as int) + t);
    lemma_words_prepend_white(s.take(k as int), t);
    lemma_trailing_white(t);
    let m = trailing_ws(t);
    assert(t =~= trim_chars(s) + t.skip(t.len() - m));
    lemma_words_append_white(trim_chars(s), t.skip(t.len() - m));
}

proof fn lemma_words_push_word(a: Seq<char>, x: Seq<char>)
    requires
        is_word(x),
    ensures
        words(a + " "@ + x) == words(a).push(x),
    decreases x.len(),
{
    reveal_strlit(" ");
    let sp = " "@;
    assert(all_white(sp)) by {
        assert(sp.len() == 1);
        assert(sp[0] == ' ');
    }
    lemma_words_append_white(a, sp);
    let b = a + sp + x;
    let p = x.drop_last();
    assert(b.drop_last() =~= a + sp + p);
    assert(b.last() == x.last());
    assert(!is_white_space(x[x.len() - 1]));
    if p.len() == 0 {
        assert(a + sp + p =~= a + sp);
        assert(x =~= seq![x.last()]);
    } else {
        assert(is_word(p)) by {
            assert forall|j: int| 0 <= j < p.len() implies !is_white_space(#[trigger] p[j]) by {
                assert(p[j] == x[j]);
            }
        }
        lemma_words_push_word(a, p);
        assert((a + sp + p).last() == p.last());
        assert(!is_white_space(x[p.len() - 1]));
        assert(words(a).push(p).drop_last() =~= words(a));
        assert(p.push(x.last()) =~= x);
    }
}

proof fn lemma_words_of_join(xs: Seq<Seq<char>>)
    requires
        forall|i: int| 0 <= i < xs.len() ==> is_word(#[trigger] xs[i]),
    ensures
        words(join_seq(xs, " "@)) == xs,
    decreases xs.len(),
{
    if xs.len() == 0 {
        assert(words(Seq::<char>::empty()) =~= xs);
    } else if xs.len() == 1 {
        let x = xs[0];
        reveal_strlit(" ");
        assert(all_white(" "@)) by {
            assert(" "@[0] == ' ');
        }
        lemma_words_push_word(Seq::<char>::empty(), x);
        assert(Seq::<char>::empty() + " "@ + x =~= " "@ + x);
        lemma_words_prepend_white(" "@, x);
        assert(words(Seq::<char>::empty()) =~= Seq::<Seq<char>>::empty());
        assert(Seq::<Seq<char>>::empty().push(x) =~= xs);
    } else {
        lemma_words_of_join(xs.drop_last());
        assert(is_word(xs[xs.len() - 1]));
        lemma_words_push_word(join_seq(xs.drop_last(), " "@), xs.last());
        assert(xs.drop_last().push(xs.last()) =~= xs);
    }
}

/// Clamping a text to `max_words` words keeps its first `max_words` words, in
/// order, and no more: a text with no more words keeps all of them.
pub proof fn law_clamp_keeps_first_words(input: Seq<char>, max_words: nat)
    ensures
        words(clamped_words(input, max_words)) == (if words(input).len() <= max_words {
            words(input)
        } else {
            words(input).take(max_words as int)
        }),
        words(clamped_words(input, max_words)).len() <= max_words,
{
    let ws = words(input);
    if ws.len() <= max_words {
        lemma_words_trim(input);
    } else {
        lemma_words_are_words(input);
        let first = ws.take(max_words as int);
        assert forall|i: int| 0 <= i < first.len() implies is_word(#[trigger] first[i]) by {
            assert(first[i] == ws[i]);
        }
        lemma_words_of_join(first);
    }
}

/// Summarizing a person's memories gives one memory for each section: when a
/// step ends the summary with memories, there are as many as sections.
pub proof fn law_one_memory_per_section(
    s: PersonSummary,
    answer: Result<Response, CompletionError>,
    res: (PersonSummary, SummaryStep),
)
    requires
        s.wf(),
        s.step(answer, res),
    ensures
        match (s, res.1) {
            (PersonSummary::Summarizing { sections, .. }, SummaryStep::Done(Ok(v))) => v@.len() == sections@.len(),
            _ => true,
        },
{
    match s {
        PersonSummary::Summarizing { person_name, sections, done, current } => {
            let sub = choose|sub: (SectionSummary, SectionStep)|
                #[trigger] section_answer(current, answer, sub) && after_section(sub, person_name, sections, done, res);
            assert(after_section(sub, person_name, sections, done, res));
        },
        PersonSummary::Finished => {},
    }
}

proof fn lemma_scan_before_separator(s: Seq<char>, p: int, i: int)
    requires
        0 <= i <= p,
        p + 4 <= s.len(),
        forall|k: int| 0 <= k < p ==> s[k] != '_',
    ensures
        last_piece_start(s, i, 0) == last_piece_start(s, p, 0),
        first_piece_end(s, i) == first_piece_end(s, p),
    decreases p - i,
{
    if i < p {
        assert(!separator_at(s, i)) by {
            reveal_strlit("____");
            if separator_at(s, i) {
                assert(s.subrange(i, i + 4)[0] == s[i]);
                assert("____"@[0] == '_');
            }
        }
        lemma_scan_before_separator(s, p, i + 1);
    }
}

proof fn lemma_scan_after_separator(s: Seq<char>, name: Seq<char>, base: int, i: int)
    requires
        0 <= base <= i,
        s.len() == base + name.len() + 4,
        forall|j: int| 0 <= j < name.len() ==> s[base + j] == name[j],
        forall|j: int| 0 <= j < 4 ==> s[base + name.len() + j] == #[trigger] ".sql"@[j],
        forall|j: int| !separator_at(name, j),
    ensures
        last_piece_start(s, i, base) == base,
    decreases s.len() - i,
{
    if i < s.len() {
        assert(!separator_at(s, i)) by {
            reveal_strlit("____");
            reveal_strlit(".sql");
            if separator_at(s, i) {
                let w = s.subrange(i, i + 4);
                let n = name.len() as int;
                if i + 4 <= base + n {
                    assert(name.subrange(i - base, i - base + 4) =~= w);
                    assert(separator_at(name, i - base));
                } else {
                    let k = if i >= base + n { i } else { base + n };
                    assert(w[k - i] == s[k]);
                    assert(s[base + n + (k - base - n)] == ".sql"@[k - base - n]);
                    assert(w[k - i] == "____"@[k - i]);
                }
            }
        }
        lemma_scan_after_separator(s, name, base, i + 1);
    }
}

/// The file name of a new migration gives back what it was made from: its
/// timestamp is the time it was made at, and the name shown while it runs is
/// the name it was given, where the time holds no `_` and the name no
/// separator.
pub proof fn law_new_migration_reads_back(now: Seq<char>, name: Seq<char>)
    requires
        forall|k: int| 0 <= k < now.len() ==> now[k] != '_',
        forall|j: int| !separator_at(name, j),
    ensures
        timestamp_text(new_migration_file_name_text(now, name)) == now,
        ends_with_sql(new_migration_file_name_text(now, name)),
        human_name(new_migration_file_name_text(now, name)) == name,
{
    reveal_strlit("____");
    reveal_strlit(".sql");
    let s = new_migration_file_name_text(now, name);
    let p = now.len() as int;
    let n = name.len() as int;
    assert(s.len() == p + 4 + n + 4);
    assert forall|k: int| 0 <= k < p implies s[k] != '_' by {
        assert(s[k] == now[k]);
    }
    lemma_scan_before_separator(s, p, 0);
    assert(s.subrange(p, p + 4) =~= "____"@);
    assert(separator_at(s, p));
    assert forall|j: int| 0 <= j < n implies s[p + 4 + j] == name[j] by {}
    assert forall|j: int| 0 <= j < 4 implies s[p + 4 + n + j] == #[trigger] ".sql"@[j] by {}
    lemma_scan_after_separator(s, name, p + 4, p + 4);
    assert(s.take(p) =~= now);
    assert(s.subrange(s.len() - 4, s.len() as int) =~= ".sql"@);
    assert(s.subrange(p + 4, s.len() - 4) =~= name);
}

/// The action a choice names, with the comment, scene name and duration that
/// come with it.
pub open spec fn chosen_action(action: Seq<char>, comment: Seq<char>, scene_name: Seq<char>, duration: u64) -> PersonActionV {
    if action == "wait"@ {
        PersonActionV::Wait { duration }
    } else if action == "hibernate"@ {
        PersonActionV::Hibernate { duration }
    } else if action == "idle"@ {
        PersonActionV::Idle
    } else if action == "say in scene"@ {
        PersonActionV::SayInScene { comment, destination_scene_name: None }
    } else {
        PersonActionV::MoveToScene { scene_name }
    }
}

/// The arguments of a choice with every slot filled.
pub open spec fn full_choice_args(
    reflection: Seq<char>,
    action: Seq<char>,
    comment: Seq<char>,
    scene_name: Seq<char>,
    duration: u64,
) -> Seq<(Seq<char>, JsonV)> {
    seq![
        ("reflection"@, JsonV::Str(reflection)),
        ("action"@, JsonV::Str(action)),
        ("comment"@, JsonV::Str(comment)),
        ("scene_name"@, JsonV::Str(scene_name)),
        ("duration"@, JsonV::PosInt(duration)),
    ]
}

/// Every choice the choice tool advertises parses: a `choose_action` call
/// with any advertised reflection and action, and the comment, scene name and
/// duration that actions take, reads as that reflection and that action.
pub proof fn law_advertised_choices_parse(
    i: int,
    j: int,
    comment: Seq<char>,
    scene_name: Seq<char>,
    duration: u64,
)
    requires
        0 <= i < all_reflection_names_spec().len(),
        0 <= j < all_action_names_spec().len(),
    ensures
        ({
            let r = all_reflection_names_spec()[i];
            let a = all_action_names_spec()[j];
            let call = ToolCallV {
                name: "choose_action"@,
                arguments: full_choice_args(r, a, comment, scene_name, duration),
            };
            reaction_from_tool_call(call) matches Ok((action, reflection)) && reflection_name(reflection) == r
                && action == chosen_action(a, comment, scene_name, duration)
        }),
{
    reveal_strlit("choose_action");
    reveal_strlit("reflection");
    reveal_strlit("no_reflection");
    reveal_strlit("action");
    reveal_strlit("comment");
    reveal_strlit("destination_scene_name");
    reveal_strlit("scene_name");
    reveal_strlit("duration");
    reveal_strlit("wait");
    reveal_strlit("hibernate");
    reveal_strlit("idle");
    reveal_strlit("say in scene");
    reveal_strlit("move to scene");
    let r = all_reflection_names_spec()[i];
    let a = all_action_names_spec()[j];
    let args = full_choice_args(r, a, comment, scene_name, duration);
    let t = "choose_action"@;
    let p4 = args.drop_last();
    let p3 = p4.drop_last();
    let p2 = p3.drop_last();
    let p1 = p2.drop_last();
    assert(p1.drop_last() =~= Seq::<(Seq<char>, JsonV)>::empty());
    assert(p1.last() == ("reflection"@, JsonV::Str(r)));
    assert(p2.last() == ("action"@, JsonV::Str(a)));
    assert(p3.last() == ("comment"@, JsonV::Str(comment)));
    assert(p4.last() == ("scene_name"@, JsonV::Str(scene_name)));
    assert(args.last() == ("duration"@, JsonV::PosInt(duration)));
    assert("reflection"@.len() == 10);
    assert("no_reflection"@.len() == 13);
    assert("action"@.len() == 6);
    assert("comment"@.len() == 7);
    assert("destination_scene_name"@.len() == 22);
    assert("scene_name"@.len() == 10 && "scene_name"@[0] != "reflection"@[0]);
    assert("duration"@.len() == 8);
    assert("wait"@.len() == 4);
    assert("hibernate"@.len() == 9);
    assert("idle"@.len() == 4 && "idle"@[0] != "wait"@[0]);
    assert("say in scene"@.len() == 12);
    assert("move to scene"@.len() == 13);
    assert(p1.len() == 1 && p2.len() == 2 && p3.len() == 3 && p4.len() == 4);
    assert(scan_choice_args(t, p1.drop_last()) == Ok::<ChoiceArgsV, crate::person_actions::PersonActionErrorV>(
        ChoiceArgsV {
            reflection: None,
            action: None,
            comment: None,
            destination_scene_name: None,
            scene_name: None,
            duration: None,
        },
    ));
    assert(scan_choice_args(t, p1) matches Ok(x) && x.reflection == Some(r) && x.action is None);
    assert(p2.drop_last() == p1);
    assert(p3.drop_last() == p2);
    assert(p4.drop_last() == p3);
    assert(scan_choice_args(t, p2) matches Ok(x) && x.reflection == Some(r) && x.action == Some(a) && x.comment is None);
    assert(scan_choice_args(t, p3) matches Ok(x) && x.reflection == Some(r) && x.action == Some(a)
        && x.comment == Some(comment) && x.scene_name is None && x.destination_scene_name is None);
    assert(scan_choice_args(t, p4) matches Ok(x) && x.reflection == Some(r) && x.action == Some(a)
        && x.comment == Some(comment) && x.scene_name == Some(scene_name) && x.destination_scene_name is None
        && x.duration is None);
    assert(scan_choice_args(t, args) matches Ok(x) && x.reflection == Some(r) && x.action == Some(a)
        && x.comment == Some(comment) && x.scene_name == Some(scene_name) && x.destination_scene_name is None
        && x.duration == Some(duration));
    assert(r == "reflection"@ || r == "no_reflection"@);
}

proof fn lemma_within_members(rs: Seq<MemorySearchResult>, k: nat)
    ensures
        forall|m: Seq<char>|
            #[trigger] contents_within(rs, k).contains(m) <==> exists|i: int|
                0 <= i < rs.len() && rs[i].distance_tier <= k && #[trigger] rs[i].content@ == m,
    decreases rs.len(),
{
    if rs.len() > 0 {
        let p = rs.drop_last();
        lemma_within_members(p, k);
        assert forall|m: Seq<char>|
            #[trigger] contents_within(rs, k).contains(m) <==> exists|i: int|
                0 <= i < rs.len() && rs[i].distance_tier <= k && #[trigger] rs[i].content@ == m by {
            if contents_within(rs, k).contains(m) {
                if contents_within(p, k).contains(m) {
                    let i = choose|i: int| 0 <= i < p.len() && p[i].distance_tier <= k && #[trigger] p[i].content@ == m;
                    assert(rs[i] == p[i]);
                } else {
                    let w = contents_within(p, k).push(rs.last().content@);
                    let j = choose|j: int| 0 <= j < w.len() && w[j] == m;
                    assert(j == w.len() - 1);
                    assert(rs[rs.len() - 1].content@ == m);
                }
            }
            if exists|i: int| 0 <= i < rs.len() && rs[i].distance_tier <= k && #[trigger] rs[i].content@ == m {
                let i = choose|i: int| 0 <= i < rs.len() && rs[i].distance_tier <= k && #[trigger] rs[i].content@ == m;
                if i < rs.len() - 1 {
                    assert(p[i] == rs[i]);
                    assert(contents_within(p, k).contains(m));
                    let j = choose|j: int| 0 <= j < contents_within(p, k).len() && contents_within(p, k)[j] == m;
                    if rs.last().distance_tier <= k {
                        assert(contents_within(rs, k)[j] == m);
                    }
                } else {
                    let w = contents_within(rs, k);
                    assert(w[w.len() - 1] == m);
                }
            }
        }
    } else {
        assert forall|m: Seq<char>| !#[trigger] contents_within(rs, k).contains(m) by {}
    }
}

/// Recall keeps the memories of the tightest distance tier that holds any:
/// where the closest results have tier `k` (one of the three thresholds),
/// something is kept, each kept memory is one of those closest results, and
/// every one of them is kept.
pub proof fn law_memories_from_tightest_tier(rs: Seq<MemorySearchResult>, k: nat)
    requires
        k < 3,
        exists|i: int| 0 <= i < rs.len() && #[trigger] rs[i].distance_tier == k,
        forall|i: int| 0 <= i < rs.len() ==> #[trigger] rs[i].distance_tier >= k,
    ensures
        kept_memory_contents(rs).len() > 0,
        forall|m: Seq<char>|
            #[trigger] kept_memory_contents(rs).contains(m) ==> exists|i: int|
                0 <= i < rs.len() && rs[i].distance_tier == k && #[trigger] rs[i].content@ == m,
        forall|i: int| 0 <= i < rs.len() && rs[i].distance_tier == k ==> #[trigger] kept_memory_contents(rs).contains(
            rs[i].content@,
        ),
{
    let w = choose|i: int| 0 <= i < rs.len() && #[trigger] rs[i].distance_tier == k;
    lemma_within_members(rs, 0);
    lemma_within_members(rs, 1);
    lemma_within_members(rs, 2);
    lemma_within_members(rs, k);
    assert forall|j: nat| j < k implies contents_within(rs, j).len() == 0 by {
        lemma_within_members(rs, j);
        if contents_within(rs, j).len() > 0 {
            assert(contents_within(rs, j).contains(contents_within(rs, j)[0]));
        }
    }
    assert(contents_within(rs, k).contains(rs[w].content@));
    assert(kept_memory_contents(rs) == contents_within(rs, k));
}

/// A search with no result within the loosest threshold recalls nothing.
pub proof fn law_no_memories_beyond_loosest_tier(rs: Seq<MemorySearchResult>)
    requires
        forall|i: int| 0 <= i < rs.len() ==> #[trigger] rs[i].distance_tier >= 3,
    ensures
        kept_memory_contents(rs).len() == 0,
{
    assert forall|j: nat| j < 3 implies contents_within(rs, j).len() == 0 by {
        lemma_within_members(rs, j);
        if contents_within(rs, j).len() > 0 {
            assert(contents_within(rs, j).contains(contents_within(rs, j)[0]));
        }
    }
}

/// A spoken reaction keeps the destination it names: a `choose_action` call
/// for "say in scene" with a comment and a destination scene reads as saying
/// that comment and then going to that scene, whichever reflection it names.
pub proof fn law_say_keeps_destination(i: int, comment: Seq<char>, destination: Seq<char>)
    requires
        0 <= i < all_reflection_names_spec().len(),
    ensures
        ({
            let r = all_reflection_names_spec()[i];
            let call = ToolCallV {
                name: "choose_action"@,
                arguments: seq![
                    ("reflection"@, JsonV::Str(r)),
                    ("action"@, JsonV::Str("say in scene"@)),
                    ("comment"@, JsonV::Str(comment)),
                    ("destination_scene_name"@, JsonV::Str(destination)),
                ],
            };
            reaction_from_tool_call(call) matches Ok((action, reflection)) && reflection_name(reflection) == r
                && action == (PersonActionV::SayInScene { comment, destination_scene_name: Some(destination) })
        }),
{
    reveal_strlit("choose_action");
    reveal_strlit("reflection");
    reveal_strlit("no_reflection");
    reveal_strlit("action");
    reveal_strlit("comment");
    reveal_strlit("destination_scene_name");
    reveal_strlit("say in scene");
    let r = all_reflection_names_spec()[i];
    let args = seq![
        ("reflection"@, JsonV::Str(r)),
        ("action"@, JsonV::Str("say in scene"@)),
        ("comment"@, JsonV::Str(comment)),
        ("destination_scene_name"@, JsonV::Str(destination)),
    ];
    let t = "choose_action"@;
    let p3 = args.drop_last();
    let p2 = p3.drop_last();
    let p1 = p2.drop_last();
    assert(p1.drop_last() =~= Seq::<(Seq<char>, JsonV)>::empty());
    assert(p1.len() == 1 && p2.len() == 2 && p3.len() == 3);
    assert(p1.last() == ("reflection"@, JsonV::Str(r)));
    assert(p2.last() == ("action"@, JsonV::Str("say in scene"@)));
    assert(p3.last() == ("comment"@, JsonV::Str(comment)));
    assert(args.last() == ("destination_scene_name"@, JsonV::Str(destination)));
    assert(p2.drop_last() == p1);
    assert(p3.drop_last() == p2);
    assert("reflection"@.len() == 10);
    assert("no_reflection"@.len() == 13);
    assert("action"@.len() == 6);
    assert("comment"@.len() == 7);
    assert("destination_scene_name"@.len() == 22);
    assert(scan_choice_args(t, p1.drop_last()) == Ok::<ChoiceArgsV, crate::person_actions::PersonActionErrorV>(
        ChoiceArgsV {
            reflection: None,
            action: None,
            comment: None,
            destination_scene_name: None,
            scene_name: None,
            duration: None,
        },
    ));
    assert(scan_choice_args(t, p1) matches Ok(x) && x.reflection == Some(r) && x.action is None);
    assert(scan_choice_args(t, p2) matches Ok(x) && x.reflection == Some(r) && x.action == Some("say in scene"@)
        && x.comment is None && x.destination_scene_name is None);
    assert(scan_choice_args(t, p3) matches Ok(x) && x.reflection == Some(r) && x.action == Some("say in scene"@)
        && x.comment == Some(comment) && x.destination_scene_name is None);
    assert(scan_choice_args(t, args) matches Ok(x) && x.reflection == Some(r) && x.action == Some("say in scene"@)
        && x.comment == Some(comment) && x.destination_scene_name == Some(destination));
    assert(r == "reflection"@ || r == "no_reflection"@);
}

/// Speaking with a destination moves the speaker there: once the comment has
/// been sent, the next call starts moving the same person to the named scene
/// (by asking for the person's name), and the reaction will be recorded as
/// speaking and moving.
pub proof fn law_say_with_destination_moves(
    send: SendMessage,
    person_uuid: PersonUuid,
    scene_uuid: SceneUuid,
    destination: String,
    current_active_ms: i64,
    reply: Reply,
    res: (HandleAction, Next<Result<(), ActionHandleError>>),
)
    requires
        (HandleAction::Sending { send, person_uuid, scene_uuid, destination: Some(destination), current_active_ms }).step(
            reply,
            res,
        ),
        forall|sub: (SendMessage, Next<Result<MessageUuid, crate::domain::job::send_message_to_scene::Error>>)|
            #[trigger] send.step(reply, sub) ==> sub.1 is Done && sub.1->Done_0 is Ok,
    ensures
        res.1 == Next::<Result<(), ActionHandleError>>::Call(WorkerCall::GetPersonsName { person_uuid }),
        match res.0 {
            HandleAction::Moving { mv, person_uuid: p, reaction_kind } => p == person_uuid && reaction_kind@
                == "say_in_scene_and_move_to_scene"@ && mv == (MoveToScene::AwaitingName {
                person_uuid,
                scene_name: destination,
                current_active_ms,
            }),
            _ => false,
        },
{
    let sub = choose|sub: (SendMessage, Next<Result<MessageUuid, crate::domain::job::send_message_to_scene::Error>>)|
        #[trigger] send.step(reply, sub) && crate::domain::job::person_action_handler::after_send(
            sub,
            person_uuid,
            scene_uuid,
            Some(destination),
            current_active_ms,
            res,
        );
    assert(send.step(reply, sub));
}

/// A reaction that calls for reflection reflects: once the person's task is up
/// to date, the next call fetches the person's recent events (the start of the
/// reflection), never the memories of the reaction; without reflection the
/// next call offers the reaction as memories of that person.
pub proof fn law_reflection_follows_the_choice(
    sub: TaskTransition,
    ctx: ReactionContext,
    pending: Vec<Message>,
    input: ReactionExecutionInput,
    summary: String,
    reflection: ReflectionDecision,
    reply: Reply,
    res: ReactionStep,
)
    requires
        (SceneReaction::Updating { sub, ctx, pending, input, summary, reflection }).step(reply, res),
        forall|s: (TaskTransition, Next<Result<(), TaskTransitionError>>)|
            #[trigger] sub.step(reply, s) ==> s.1 == Next::<Result<(), TaskTransitionError>>::Done(Ok(())),
    ensures
        reflection == ReflectionDecision::Reflection ==> res.1 == Next::<Result<(), crate::domain::job::process_reaction_common::Error>>::Call(
            WorkerCall::GetEvents { args: GetArgs { person_uuid: Some(ctx.person_uuid), scene_uuid: None } },
        ),
        reflection == ReflectionDecision::NoReflection ==> (res.1 matches Next::Call(
            WorkerCall::MaybeCreateMemoriesFromDescription { person_uuid, .. },
        ) && person_uuid == ctx.person_uuid),
{
    let s = choose|s: (TaskTransition, Next<Result<(), TaskTransitionError>>)|
        #[trigger] sub.step(reply, s) && crate::domain::job::process_reaction_common::scene_reaction::after_update(
            s,
            ctx,
            pending,
            input,
            summary,
            reflection,
            res,
        );
    assert(sub.step(reply, s));
}

/// Whether the job is marked finished or failed.
pub open spec fn marks_job(job_uuid: JobUuid, res: RunJobStep) -> bool {
    ||| res.1 == Next::<Result<crate::job_runner::RunJobOutcome, crate::job_runner::RunJobError>>::Call(
        WorkerCall::MarkJobFinished { job_uuid },
    )
    ||| res.1 matches Next::Call(WorkerCall::MarkJobFailed { job_uuid: u, .. }) && u == job_uuid
}

/// Once a message, reaction or join job has done its work, with success or
/// not, the job is marked finished or failed.
pub proof fn law_finished_work_is_marked(
    send: (SendMessage, Next<Result<MessageUuid, crate::domain::job::send_message_to_scene::Error>>),
    message: ProcessMessageStep,
    join: JoinStep,
    job_uuid: JobUuid,
    r1: RunJobStep,
    r2: RunJobStep,
    r3: RunJobStep,
)
    requires
        after_send(send, job_uuid, r1),
        after_process_message(message, job_uuid, r2),
        after_join(join, job_uuid, r3),
    ensures
        send.1 is Done ==> marks_job(job_uuid, r1),
        message.1 is Done ==> marks_job(job_uuid, r2),
        join.1 is Done ==> marks_job(job_uuid, r3),
{
}

} // verus!
