//! What of a request counts for its end.

use vstd::prelude::*;

#[allow(unused_imports)]
use crate::restore::{carries, restore_next};
use crate::restore::{RestoreEvent, RestoreStep, Session};
#[allow(unused_imports)]
use crate::restore_laws::{
    data_after, data_fits_step, is_restore, received, restore_answers, restore_follows, session_of,
    upload_keeps_up, uploaded,
};

verus! {

/// A part of a request, as far as it has been read.
pub enum Part {
    /// A file with these bytes.
    File { bytes: Seq<u8> },
    /// A one-time code.
    Code { code: String },
    /// Anything else.
    Other,
}

/// The parts of the request that were read up to the event at `i`.
pub open spec fn parts_read(run: Seq<RestoreEvent>, i: int) -> Seq<Part>
    decreases i,
{
    if i <= 0 {
        Seq::empty()
    } else {
        let before = parts_read(run, i - 1);
        match run[i] {
            RestoreEvent::FieldRead { result: Ok(Some(field)), .. } => if carries(field, "file"@) {
                before.push(Part::File { bytes: Seq::empty() })
            } else if carries(field, "totp_code"@) {
                before
            } else {
                before.push(Part::Other)
            },
            RestoreEvent::ChunkRead { result: Ok(Some(chunk)), .. } => before.drop_last().push(
                Part::File { bytes: before.last()->bytes + chunk@ },
            ),
            RestoreEvent::CodeRead { result: Ok(code), .. } => before.push(Part::Code { code }),
            _ => before,
        }
    }
}

/// The bytes of the last file among the parts.
pub open spec fn last_file(parts: Seq<Part>) -> Option<Seq<u8>>
    decreases parts.len(),
{
    if parts.len() == 0 {
        None
    } else {
        match parts.last() {
            Part::File { bytes } => Some(bytes),
            _ => last_file(parts.drop_last()),
        }
    }
}

/// The last one-time code among the parts.
pub open spec fn last_code(parts: Seq<Part>) -> Option<String>
    decreases parts.len(),
{
    if parts.len() == 0 {
        None
    } else {
        match parts.last() {
            Part::Code { code } => Some(code),
            _ => last_code(parts.drop_last()),
        }
    }
}

/// Whether the request was read to its end by the event at `end`.
pub open spec fn request_ends(run: Seq<RestoreEvent>, end: int) -> bool {
    &&& is_restore(run)
    &&& 0 <= end < run.len()
    &&& run[end] matches RestoreEvent::FieldRead { result: Ok(None), .. }
}

/// Whether the step reads a file.
spec fn reads_file(step: RestoreStep) -> bool {
    step is CreateUpload || step is ReadChunk || step is WriteChunk || step is FlushUpload
}

proof fn request_so_far(run: Seq<RestoreEvent>, i: int)
    requires
        is_restore(run),
        0 <= i < run.len(),
        session_of(restore_next(run[i])) is Some,
    ensures
        ({
            let step = restore_next(run[i]);
            let parts = parts_read(run, i);
            &&& session_of(step) matches Some(session) && {
                &&& run[0] matches RestoreEvent::Start { recovery, database } && session.recovery
                    == recovery && session.database == database
                &&& session.totp_code == last_code(parts)
                &&& reads_file(step) ==> parts.len() > 0 && parts.last() is File
                &&& !reads_file(step) ==> session.file_received == (last_file(parts) is Some)
            }
            &&& last_file(parts) matches Some(bytes) ==> received(run, i) == bytes
        }),
    decreases i,
{
    if i > 0 {
        assert(restore_follows(run, i));
        assert(session_of(restore_next(run[i - 1])) is Some);
        request_so_far(run, i - 1);
        let before = parts_read(run, i - 1);
        let now = parts_read(run, i);
        if now.len() > before.len() {
            assert(now.drop_last() =~= before);
        } else if run[i] is ChunkRead {
            assert(now.len() > 0 ==> now.drop_last() =~= before.drop_last());
        }
    }
}

/// A session without its one-time code.
pub open spec fn without_code(session: Session) -> Session {
    Session { totp_code: None, ..session }
}

/// A step without the one-time code in its session. A code that the step asks
/// to check stays.
pub open spec fn veiled(step: RestoreStep) -> RestoreStep {
    match step {
        RestoreStep::ReadField { session } => RestoreStep::ReadField {
            session: without_code(session),
        },
        RestoreStep::CreateUpload { session } => RestoreStep::CreateUpload {
            session: without_code(session),
        },
        RestoreStep::ReadChunk { session } => RestoreStep::ReadChunk {
            session: without_code(session),
        },
        RestoreStep::WriteChunk { session, chunk } => RestoreStep::WriteChunk {
            session: without_code(session),
            chunk,
        },
        RestoreStep::FlushUpload { session } => RestoreStep::FlushUpload {
            session: without_code(session),
        },
        RestoreStep::ReadCode { session } => RestoreStep::ReadCode {
            session: without_code(session),
        },
        RestoreStep::CheckTotp { session } => RestoreStep::CheckTotp {
            session: without_code(session),
        },
        RestoreStep::VerifyCode { session, code } => RestoreStep::VerifyCode {
            session: without_code(session),
            code,
        },
        RestoreStep::LockDatabase { session } => RestoreStep::LockDatabase {
            session: without_code(session),
        },
        RestoreStep::Checkpoint { session } => RestoreStep::Checkpoint {
            session: without_code(session),
        },
        RestoreStep::CreateRecoveryPoint { session } => RestoreStep::CreateRecoveryPoint {
            session: without_code(session),
        },
        RestoreStep::PrepareUpload { session } => RestoreStep::PrepareUpload {
            session: without_code(session),
        },
        RestoreStep::ClosePool { session, staging } => RestoreStep::ClosePool {
            session: without_code(session),
            staging,
        },
        RestoreStep::Activate { session, staging } => RestoreStep::Activate {
            session: without_code(session),
            staging,
        },
        RestoreStep::FixPermissions { session } => RestoreStep::FixPermissions {
            session: without_code(session),
        },
        RestoreStep::OpenDatabase { session } => RestoreStep::OpenDatabase {
            session: without_code(session),
        },
        RestoreStep::RestoreRecoveryPoint { session, error } => RestoreStep::RestoreRecoveryPoint {
            session: without_code(session),
            error,
        },
        RestoreStep::FixRollbackPermissions { session, error } => RestoreStep::FixRollbackPermissions {
            session: without_code(session),
            error,
        },
        RestoreStep::OpenRollbackDatabase { session, error } => RestoreStep::OpenRollbackDatabase {
            session: without_code(session),
            error,
        },
        _ => step,
    }
}

/// An event without the one-time code in its session.
pub open spec fn veiled_event(event: RestoreEvent) -> RestoreEvent {
    match event {
        RestoreEvent::FieldRead { session, result } => RestoreEvent::FieldRead {
            session: without_code(session),
            result,
        },
        RestoreEvent::UploadCreated { session, result } => RestoreEvent::UploadCreated {
            session: without_code(session),
            result,
        },
        RestoreEvent::ChunkRead { session, result } => RestoreEvent::ChunkRead {
            session: without_code(session),
            result,
        },
        RestoreEvent::ChunkWritten { session, result } => RestoreEvent::ChunkWritten {
            session: without_code(session),
            result,
        },
        RestoreEvent::UploadFlushed { session, result } => RestoreEvent::UploadFlushed {
            session: without_code(session),
            result,
        },
        RestoreEvent::CodeRead { session, result } => RestoreEvent::CodeRead {
            session: without_code(session),
            result,
        },
        RestoreEvent::TotpChecked { session, result } => RestoreEvent::TotpChecked {
            session: without_code(session),
            result,
        },
        RestoreEvent::CodeVerified { session, result } => RestoreEvent::CodeVerified {
            session: without_code(session),
            result,
        },
        RestoreEvent::DatabaseLocked { session } => RestoreEvent::DatabaseLocked {
            session: without_code(session),
        },
        RestoreEvent::Checkpointed { session, result } => RestoreEvent::Checkpointed {
            session: without_code(session),
            result,
        },
        RestoreEvent::RecoveryPointCreated { session, result } => RestoreEvent::RecoveryPointCreated {
            session: without_code(session),
            result,
        },
        RestoreEvent::UploadPrepared { session, result } => RestoreEvent::UploadPrepared {
            session: without_code(session),
            result,
        },
        RestoreEvent::PoolClosed { session, staging } => RestoreEvent::PoolClosed {
            session: without_code(session),
            staging,
        },
        RestoreEvent::Activated { session, result } => RestoreEvent::Activated {
            session: without_code(session),
            result,
        },
        RestoreEvent::PermissionsFixed { session, result } => RestoreEvent::PermissionsFixed {
            session: without_code(session),
            result,
        },
        RestoreEvent::DatabaseOpened { session, result } => RestoreEvent::DatabaseOpened {
            session: without_code(session),
            result,
        },
        RestoreEvent::RecoveryPointRestored { session, error, result } => RestoreEvent::RecoveryPointRestored {
            session: without_code(session),
            error,
            result,
        },
        RestoreEvent::RollbackPermissionsFixed { session, error, result } => RestoreEvent::RollbackPermissionsFixed {
            session: without_code(session),
            error,
            result,
        },
        RestoreEvent::RollbackDatabaseOpened { session, error, result } => RestoreEvent::RollbackDatabaseOpened {
            session: without_code(session),
            error,
            result,
        },
        _ => event,
    }
}

/// The steps from the event at `end` on, as many as `count`.
pub open spec fn steps_since(run: Seq<RestoreEvent>, end: int, count: int) -> Seq<RestoreStep> {
    Seq::new(count as nat, |k: int| veiled(restore_next(run[end + k])))
}

/// Whether, once the request has been read, all steps are answered by this
/// world: by a function of the uploaded file and of the steps so far. The world
/// learns of a one-time code only if it is asked to check it.
pub open spec fn answered_by(
    run: Seq<RestoreEvent>,
    end: int,
    world: spec_fn(Seq<u8>, Seq<RestoreStep>) -> RestoreEvent,
) -> bool {
    forall|i: int|
        end < i < run.len() ==> veiled_event(#[trigger] run[i]) == veiled_event(
            world(uploaded(run, end), steps_since(run, end, i - end)),
        )
}

/// Whether codes are off: whenever it is asked, none is needed.
pub open spec fn needs_no_code(run: Seq<RestoreEvent>) -> bool {
    forall|i: int|
        0 <= i < run.len() ==> ((#[trigger] run[i]) matches RestoreEvent::TotpChecked { result, .. }
            ==> result == Ok::<bool, ()>(false))
}

/// The one-time code in the session of a step.
spec fn held_code(step: RestoreStep) -> Option<String> {
    match session_of(step) {
        Some(session) => session.totp_code,
        None => None,
    }
}

/// Whether the event says that a code is needed.
spec fn asks_for_code(event: RestoreEvent) -> bool {
    event matches RestoreEvent::TotpChecked { result, .. } && result == Ok::<bool, ()>(true)
}

proof fn one_answer(
    first: RestoreStep,
    first_event: RestoreEvent,
    second: RestoreStep,
    second_event: RestoreEvent,
)
    requires
        restore_answers(first, first_event),
        restore_answers(second, second_event),
        veiled(first) == veiled(second),
        veiled_event(first_event) == veiled_event(second_event),
        held_code(first) == held_code(second) || !asks_for_code(first_event),
    ensures
        veiled(restore_next(first_event)) == veiled(restore_next(second_event)),
        held_code(first) == held_code(second) ==> held_code(restore_next(first_event))
            == held_code(restore_next(second_event)),
{
}

proof fn tails_agree(
    first: Seq<RestoreEvent>,
    first_end: int,
    second: Seq<RestoreEvent>,
    second_end: int,
    world: spec_fn(Seq<u8>, Seq<RestoreStep>) -> RestoreEvent,
    count: int,
)
    requires
        is_restore(first),
        is_restore(second),
        answered_by(first, first_end, world),
        answered_by(second, second_end, world),
        uploaded(first, first_end) == uploaded(second, second_end),
        0 <= first_end,
        0 <= second_end,
        0 <= count,
        first_end + count < first.len(),
        second_end + count < second.len(),
        veiled(restore_next(first[first_end])) == veiled(restore_next(second[second_end])),
        held_code(restore_next(first[first_end])) == held_code(restore_next(second[second_end]))
            || needs_no_code(first),
    ensures
        forall|k: int|
            0 <= k <= count ==> veiled(#[trigger] restore_next(first[first_end + k])) == veiled(
                restore_next(second[second_end + k]),
            ),
        forall|k: int|
            0 < k <= count ==> veiled_event(#[trigger] first[first_end + k]) == veiled_event(
                second[second_end + k],
            ),
        held_code(restore_next(first[first_end + count])) == held_code(
            restore_next(second[second_end + count]),
        ) || needs_no_code(first),
    decreases count,
{
    if count > 0 {
        tails_agree(first, first_end, second, second_end, world, count - 1);
        let i = first_end + count;
        let j = second_end + count;
        assert(restore_follows(first, i));
        assert(restore_follows(second, j));
        assert forall|k: int| 0 <= k < count implies veiled(
            #[trigger] restore_next(first[first_end + k]),
        ) == veiled(restore_next(second[second_end + k])) by {
            assert(veiled(restore_next(first[first_end + k])) == veiled(
                restore_next(second[second_end + k]),
            ));
        }
        assert(steps_since(first, first_end, count) =~= steps_since(second, second_end, count));
        assert(veiled_event(first[i]) == veiled_event(second[j]));
        assert(first[first_end + (count - 1)] == first[i - 1]);
        assert(second[second_end + (count - 1)] == second[j - 1]);
        one_answer(
            restore_next(first[i - 1]),
            first[i],
            restore_next(second[j - 1]),
            second[j],
        );
    }
}

proof fn data_agrees<T>(
    first: Seq<RestoreEvent>,
    first_end: int,
    second: Seq<RestoreEvent>,
    second_end: int,
    count: int,
    old_data: T,
    new_data: T,
    torn: T,
)
    requires
        0 <= first_end,
        0 <= second_end,
        0 <= count,
        data_after(first, first_end, old_data, new_data, torn) == data_after(
            second,
            second_end,
            old_data,
            new_data,
            torn,
        ),
        forall|k: int|
            0 < k <= count ==> veiled_event(#[trigger] first[first_end + k]) == veiled_event(
                second[second_end + k],
            ),
    ensures
        data_after(first, first_end + count, old_data, new_data, torn) == data_after(
            second,
            second_end + count,
            old_data,
            new_data,
            torn,
        ),
    decreases count,
{
    if count > 0 {
        data_agrees(
            first,
            first_end,
            second,
            second_end,
            count - 1,
            old_data,
            new_data,
            torn,
        );
        assert(veiled_event(first[first_end + count]) == veiled_event(second[second_end + count]));
    }
}

/// Whether the two requests end alike: with the same answer, and with the same
/// data, which is that of the uploaded file, the old data, or torn.
pub open spec fn end_alike<T>(
    first: Seq<RestoreEvent>,
    first_end: int,
    second: Seq<RestoreEvent>,
    second_end: int,
    old_data: T,
    unpacked: spec_fn(Seq<u8>) -> T,
    torn: T,
) -> bool {
    &&& restore_next(first.last()) == restore_next(second.last())
    &&& data_after(
        first,
        first.len() - 1,
        old_data,
        unpacked(uploaded(first, first_end)),
        torn,
    ) == data_after(
        second,
        second.len() - 1,
        old_data,
        unpacked(uploaded(second, second_end)),
        torn,
    )
}

proof fn same_world_same_end<T>(
    first: Seq<RestoreEvent>,
    first_end: int,
    second: Seq<RestoreEvent>,
    second_end: int,
    world: spec_fn(Seq<u8>, Seq<RestoreStep>) -> RestoreEvent,
    old_data: T,
    unpacked: spec_fn(Seq<u8>) -> T,
    torn: T,
)
    requires
        request_ends(first, first_end),
        request_ends(second, second_end),
        first[0] == second[0],
        last_file(parts_read(first, first_end)) == last_file(parts_read(second, second_end)),
        last_code(parts_read(first, first_end)) == last_code(parts_read(second, second_end))
            || needs_no_code(first),
        answered_by(first, first_end, world),
        answered_by(second, second_end, world),
        restore_next(first.last()) is Reply,
        restore_next(second.last()) is Reply,
    ensures
        end_alike(first, first_end, second, second_end, old_data, unpacked, torn),
        forall|k: int|
            0 <= k < first.len() - first_end ==> veiled(#[trigger] restore_next(first[first_end + k]))
                == veiled(restore_next(second[second_end + k])),
        first.len() - first_end == second.len() - second_end,
{
    request_is_read(first, first_end);
    request_is_read(second, second_end);
    let here = restore_next(first[first_end]);
    let there = restore_next(second[second_end]);
    data_fits_step(first, first_end, old_data, unpacked(uploaded(first, first_end)), torn);
    data_fits_step(second, second_end, old_data, unpacked(uploaded(second, second_end)), torn);
    if here is Reply {
        nothing_follows_reply(first, first_end);
        nothing_follows_reply(second, second_end);
        assert forall|k: int| 0 <= k < first.len() - first_end implies veiled(
            #[trigger] restore_next(first[first_end + k]),
        ) == veiled(restore_next(second[second_end + k])) by {
            assert(k == 0);
        }
    } else {
        let n = first.len() - 1 - first_end;
        let m = second.len() - 1 - second_end;
        let count = if n <= m {
            n
        } else {
            m
        };
        tails_agree(first, first_end, second, second_end, world, count);
        assert(veiled(restore_next(first[first_end + count])) == veiled(
            restore_next(second[second_end + count]),
        ));
        nothing_follows_reply(first, first_end + count);
        nothing_follows_reply(second, second_end + count);
        data_agrees(
            first,
            first_end,
            second,
            second_end,
            count,
            old_data,
            unpacked(uploaded(first, first_end)),
            torn,
        );
    }
}

proof fn nothing_follows_reply(run: Seq<RestoreEvent>, i: int)
    requires
        is_restore(run),
        0 <= i < run.len(),
    ensures
        restore_next(run[i]) is Reply ==> i == run.len() - 1,
{
    if restore_next(run[i]) is Reply && i < run.len() - 1 {
        assert(restore_follows(run, i + 1));
    }
}

/// What is known when the request has been read.
proof fn request_is_read(run: Seq<RestoreEvent>, end: int)
    requires
        request_ends(run, end),
    ensures
        ({
            let parts = parts_read(run, end);
            let step = restore_next(run[end]);
            &&& last_file(parts) is None ==> (step matches RestoreStep::Reply { outcome }
                && outcome is NoUpload)
            &&& last_file(parts) matches Some(bytes) ==> uploaded(run, end) == bytes && (step
                matches RestoreStep::CheckTotp { session } && session.file_received
                && session.totp_code == last_code(parts) && (run[0] matches RestoreEvent::Start {
                recovery,
                database,
            } && session.recovery == recovery && session.database == database))
        }),
{
    assert(end > 0);
    assert(restore_follows(run, end));
    request_so_far(run, end - 1);
    if restore_next(run[end]) is CheckTotp {
        request_so_far(run, end);
        upload_keeps_up(run, end);
    }
}

/// Of the files in a request only the last counts, and of the codes only the
/// last: requests that agree in these, and meet the same world, end alike,
/// whatever else they hold and in whatever order.
pub proof fn only_the_last_of_each_counts<T>(
    first: Seq<RestoreEvent>,
    first_end: int,
    second: Seq<RestoreEvent>,
    second_end: int,
    world: spec_fn(Seq<u8>, Seq<RestoreStep>) -> RestoreEvent,
    old_data: T,
    unpacked: spec_fn(Seq<u8>) -> T,
    torn: T,
)
    requires
        request_ends(first, first_end),
        request_ends(second, second_end),
        first[0] == second[0],
        last_file(parts_read(first, first_end)) == last_file(parts_read(second, second_end)),
        last_code(parts_read(first, first_end)) == last_code(parts_read(second, second_end)),
        answered_by(first, first_end, world),
        answered_by(second, second_end, world),
        restore_next(first.last()) is Reply,
        restore_next(second.last()) is Reply,
    ensures
        end_alike(first, first_end, second, second_end, old_data, unpacked, torn),
{
    same_world_same_end(
        first,
        first_end,
        second,
        second_end,
        world,
        old_data,
        unpacked,
        torn,
    );
}

/// Where no code is needed, requests that differ only in their codes, or in
/// having one, end alike, and no code is checked.
pub proof fn codes_do_not_count_where_none_is_needed<T>(
    first: Seq<RestoreEvent>,
    first_end: int,
    second: Seq<RestoreEvent>,
    second_end: int,
    world: spec_fn(Seq<u8>, Seq<RestoreStep>) -> RestoreEvent,
    old_data: T,
    unpacked: spec_fn(Seq<u8>) -> T,
    torn: T,
)
    requires
        request_ends(first, first_end),
        request_ends(second, second_end),
        first[0] == second[0],
        last_file(parts_read(first, first_end)) == last_file(parts_read(second, second_end)),
        needs_no_code(first),
        needs_no_code(second),
        answered_by(first, first_end, world),
        answered_by(second, second_end, world),
        restore_next(first.last()) is Reply,
        restore_next(second.last()) is Reply,
    ensures
        end_alike(first, first_end, second, second_end, old_data, unpacked, torn),
        forall|i: int| 0 <= i < first.len() ==> !(restore_next(#[trigger] first[i]) is VerifyCode),
        forall|i: int| 0 <= i < second.len() ==> !(restore_next(#[trigger] second[i]) is VerifyCode),
{
    same_world_same_end(
        first,
        first_end,
        second,
        second_end,
        world,
        old_data,
        unpacked,
        torn,
    );
}

/// The parts that count: of the files and of the codes the last, each in its
/// place.
pub open spec fn reduced(parts: Seq<Part>) -> Seq<Part>
    decreases parts.len(),
{
    if parts.len() == 0 {
        Seq::empty()
    } else {
        let rest = parts.drop_first();
        let counts = match parts[0] {
            Part::File { .. } => last_file(rest) is None,
            Part::Code { .. } => last_code(rest) is None,
            Part::Other => false,
        };
        if counts {
            seq![parts[0]] + reduced(rest)
        } else {
            reduced(rest)
        }
    }
}

/// What comes before a request changes only what the request leaves open.
proof fn last_of_sum(part: Part, rest: Seq<Part>)
    ensures
        last_file(seq![part] + rest) == (if last_file(rest) is Some {
            last_file(rest)
        } else {
            match part {
                Part::File { bytes } => Some(bytes),
                _ => None,
            }
        }),
        last_code(seq![part] + rest) == (if last_code(rest) is Some {
            last_code(rest)
        } else {
            match part {
                Part::Code { code } => Some(code),
                _ => None,
            }
        }),
    decreases rest.len(),
{
    let all = seq![part] + rest;
    if rest.len() == 0 {
        assert(all =~= seq![part]);
        assert(all.drop_last() =~= Seq::<Part>::empty());
        reveal_with_fuel(last_file, 2);
        reveal_with_fuel(last_code, 2);
    } else {
        assert(all.drop_last() =~= seq![part] + rest.drop_last());
        assert(all.last() == rest.last());
        last_of_sum(part, rest.drop_last());
    }
}

proof fn reducing_keeps_the_last_of_each(parts: Seq<Part>)
    ensures
        last_file(reduced(parts)) == last_file(parts),
        last_code(reduced(parts)) == last_code(parts),
    decreases parts.len(),
{
    if parts.len() > 0 {
        let rest = parts.drop_first();
        reducing_keeps_the_last_of_each(rest);
        assert(parts =~= seq![parts[0]] + rest);
        last_of_sum(parts[0], rest);
        last_of_sum(parts[0], reduced(rest));
    }
}

/// Unknown parts, and files and codes that a later one replaces, make no
/// difference: a request without them, in the same world, ends alike.
pub proof fn replaced_and_unknown_parts_do_not_count<T>(
    first: Seq<RestoreEvent>,
    first_end: int,
    second: Seq<RestoreEvent>,
    second_end: int,
    world: spec_fn(Seq<u8>, Seq<RestoreStep>) -> RestoreEvent,
    old_data: T,
    unpacked: spec_fn(Seq<u8>) -> T,
    torn: T,
)
    requires
        request_ends(first, first_end),
        request_ends(second, second_end),
        first[0] == second[0],
        parts_read(second, second_end) == reduced(parts_read(first, first_end)),
        answered_by(first, first_end, world),
        answered_by(second, second_end, world),
        restore_next(first.last()) is Reply,
        restore_next(second.last()) is Reply,
    ensures
        end_alike(first, first_end, second, second_end, old_data, unpacked, torn),
{
    reducing_keeps_the_last_of_each(parts_read(first, first_end));
    only_the_last_of_each_counts(
        first,
        first_end,
        second,
        second_end,
        world,
        old_data,
        unpacked,
        torn,
    );
}

} // verus!
