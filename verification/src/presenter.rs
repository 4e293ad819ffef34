//! The frame presenter: which of the two frames is resident in the texture,
//! and when a tick has to upload the other one.
//!
//! A tick looks at the speaking flag once. It uploads a frame only when the
//! frame that the flag asks for is not the resident one, so a run of ticks
//! under an unchanged flag uploads at most once.

use vstd::prelude::*;

verus! {

/// One of the two prepared frames.
#[derive(Clone, Copy, Debug, PartialEq, Eq, Structural)]
pub enum BufferKind {
    /// The darkened frame, shown while nobody speaks.
    Idle,
    /// The bright frame, shown while somebody speaks.
    Speaking,
}

/// The frame resident in the texture.
#[derive(Clone, Copy, Debug, PartialEq, Eq, Structural)]
pub enum CurrentBuffer {
    /// No frame has been uploaded yet. Only holds before the first tick.
    Unset,
    /// The idle frame is resident.
    Idle,
    /// The speaking frame is resident.
    Speaking,
}

/// The frame that a flag value asks for.
pub open spec fn wanted(speaking: bool) -> BufferKind {
    if speaking {
        BufferKind::Speaking
    } else {
        BufferKind::Idle
    }
}

/// The state in which the given frame is resident.
pub open spec fn holding(kind: BufferKind) -> CurrentBuffer {
    match kind {
        BufferKind::Idle => CurrentBuffer::Idle,
        BufferKind::Speaking => CurrentBuffer::Speaking,
    }
}

/// The resident frame after a tick that observed `speaking`.
pub open spec fn buffer_after_tick(current: CurrentBuffer, speaking: bool) -> CurrentBuffer {
    holding(wanted(speaking))
}

/// The frame that a tick observing `speaking` has to upload, if any.
pub open spec fn upload_due(current: CurrentBuffer, speaking: bool) -> Option<BufferKind> {
    if current == holding(wanted(speaking)) {
        None
    } else {
        Some(wanted(speaking))
    }
}

/// One tick of the presenter: the next state and the frame to upload, if the
/// resident frame has to change.
pub fn step(current: CurrentBuffer, speaking: bool) -> (r: (CurrentBuffer, Option<BufferKind>))
    ensures
        r.0 == buffer_after_tick(current, speaking),
        r.1 == upload_due(current, speaking),
{
    if speaking && current != CurrentBuffer::Speaking {
        (CurrentBuffer::Speaking, Some(BufferKind::Speaking))
    } else if !speaking && current != CurrentBuffer::Idle {
        (CurrentBuffer::Idle, Some(BufferKind::Idle))
    } else {
        (current, None)
    }
}

/// The resident frame after one tick for each flag value of `flags`, in
/// order, starting from `start`.
pub open spec fn buffer_after(start: CurrentBuffer, flags: Seq<bool>) -> CurrentBuffer
    decreases flags.len(),
{
    if flags.len() == 0 {
        start
    } else {
        buffer_after_tick(buffer_after(start, flags.drop_last()), flags.last())
    }
}

/// The upload made by tick number `i`, counted from zero, of a run of ticks
/// that observe `flags` in order, starting from `start`.
pub open spec fn upload_at(start: CurrentBuffer, flags: Seq<bool>, i: int) -> Option<BufferKind>
    recommends
        0 <= i < flags.len(),
{
    upload_due(buffer_after(start, flags.take(i)), flags[i])
}

/// The number of uploads made by a run of ticks that observe `flags` in
/// order, starting from `start`.
pub open spec fn upload_count(start: CurrentBuffer, flags: Seq<bool>) -> nat
    decreases flags.len(),
{
    if flags.len() == 0 {
        0
    } else {
        let before = flags.drop_last();
        let last: nat = if upload_at(start, flags, flags.len() - 1) is Some {
            1
        } else {
            0
        };
        upload_count(start, before) + last
    }
}

/// The number of positions at which a flag value differs from the one before
/// it.
pub open spec fn flag_changes(flags: Seq<bool>) -> nat
    decreases flags.len(),
{
    if flags.len() <= 1 {
        0
    } else {
        let last: nat = if flags[flags.len() - 1] != flags[flags.len() - 2] {
            1
        } else {
            0
        };
        flag_changes(flags.drop_last()) + last
    }
}

/// From `Unset`, the first tick always uploads, and it uploads the frame that
/// the flag asks for: idle for `false`, speaking for `true`.
pub proof fn first_tick_uploads(speaking: bool)
    ensures
        upload_due(CurrentBuffer::Unset, speaking) == Some(wanted(speaking)),
        buffer_after_tick(CurrentBuffer::Unset, speaking) == holding(wanted(speaking)),
        !speaking ==> buffer_after_tick(CurrentBuffer::Unset, speaking) == CurrentBuffer::Idle,
        speaking ==> buffer_after_tick(CurrentBuffer::Unset, speaking) == CurrentBuffer::Speaking,
{
}

/// A second tick under the same flag value uploads nothing and leaves the
/// state as it is, whatever the state before the first tick was.
pub proof fn repeated_tick_uploads_nothing(current: CurrentBuffer, speaking: bool)
    ensures
        upload_due(buffer_after_tick(current, speaking), speaking) is None,
        buffer_after_tick(buffer_after_tick(current, speaking), speaking) == buffer_after_tick(
            current,
            speaking,
        ),
{
}

/// After at least one tick the state is never `Unset`: one of the two frames
/// is resident, the one that the last flag value asked for.
pub proof fn resident_after_ticks(start: CurrentBuffer, flags: Seq<bool>)
    requires
        flags.len() > 0,
    ensures
        buffer_after(start, flags) == holding(wanted(flags.last())),
        buffer_after(start, flags) != CurrentBuffer::Unset,
{
}

/// While the flag does not change, only the first tick can upload: every
/// later tick of the run uploads nothing, so the run uploads at most once,
/// and not at all where the wanted frame was resident from the start.
pub proof fn steady_flag_uploads_at_most_once(start: CurrentBuffer, flags: Seq<bool>)
    requires
        forall|i: int, j: int| 0 <= i < flags.len() && 0 <= j < flags.len() ==> flags[i] == flags[j],
    ensures
        forall|i: int| 1 <= i < flags.len() ==> upload_at(start, flags, i) is None,
        upload_count(start, flags) <= 1,
        flags.len() > 0 ==> upload_count(start, flags) == if start == holding(wanted(flags[0])) {
            0nat
        } else {
            1nat
        },
    decreases flags.len(),
{
    assert forall|i: int| 1 <= i < flags.len() implies upload_at(start, flags, i) is None by {
        let seen = flags.take(i);
        assert(seen.last() == flags[i - 1]);
        resident_after_ticks(start, seen);
    }
    if flags.len() > 0 {
        let before = flags.drop_last();
        assert forall|i: int, j: int| 0 <= i < before.len() && 0 <= j < before.len() implies before[i]
            == before[j] by {
            assert(before[i] == flags[i] && before[j] == flags[j]);
        }
        steady_flag_uploads_at_most_once(start, before);
        if flags.len() == 1 {
            assert(flags.take(0) =~= Seq::<bool>::empty());
            assert(upload_count(start, before) == 0);
        } else {
            assert(before[0] == flags[0]);
            assert(upload_at(start, flags, flags.len() - 1) is None);
        }
    }
}

/// A run of ticks uploads once for every change of the flag, and once more at
/// its first tick unless the frame that the first flag value asks for was
/// resident from the start. From `Unset` the first tick always counts.
pub proof fn uploads_follow_flag_changes(start: CurrentBuffer, flags: Seq<bool>)
    requires
        flags.len() > 0,
    ensures
        upload_count(start, flags) == flag_changes(flags) + if start == holding(wanted(flags[0])) {
            0nat
        } else {
            1nat
        },
        start == CurrentBuffer::Unset ==> upload_count(start, flags) == flag_changes(flags) + 1,
    decreases flags.len(),
{
    let before = flags.drop_last();
    if flags.len() == 1 {
        assert(flags.take(0) =~= Seq::<bool>::empty());
        assert(upload_count(start, before) == 0);
    } else {
        uploads_follow_flag_changes(start, before);
        assert(before[0] == flags[0]);
        assert(flags.take(flags.len() - 1) =~= before);
        resident_after_ticks(start, before);
        assert(before.last() == flags[flags.len() - 2]);
    }
}

} // verus!
