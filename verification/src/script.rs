use vstd::prelude::*;

verus! {

/// The engine-observable behaviour of one unit of script work: the
/// ordered operations that its top-level execution performs. The
/// engine's compiler and interpreter live outside this host, so a
/// Script is exactly what the host/engine contract lets the host
/// observe of an entry module or of a scheduled callback.
pub enum Script {
    /// The unit has run to completion.
    Done,
    /// The unit performs one operation and continues with the rest.
    Step(Op, Box<Script>),
}

/// One operation of a script unit.
pub enum Op {
    /// Write one line to the program's output.
    Log(String),
    /// Schedule a timer callback: it becomes eligible once the current
    /// turn and all queued microtasks have finished.
    ScheduleTimer(Box<Script>),
    /// Register a pending piece of I/O whose completion callback the
    /// event loop delivers after the timers of its round.
    SchedulePendingIo(Box<Script>),
    /// Queue a microtask: microtasks run to exhaustion before the next
    /// macrotask turn begins.
    QueueMicrotask(Box<Script>),
    /// Ask the engine for an auxiliary execution context. This
    /// embedding rejects the request through the configured callback
    /// slot.
    SpawnAuxContext,
    /// Surface an uncaught error with the given message.
    Fail(String),
}

/// Structural weight of a script: one for its end plus the weight of
/// every operation, nested scheduled units included. Every script
/// weighs at least one; the event-loop drain terminates because each
/// delivered operation lowers the total weight of the engine state.
pub open spec fn script_size(s: Script) -> nat
    decreases s,
{
    match s {
        Script::Done => 1,
        Script::Step(op, rest) => op_size(op) + script_size(*rest),
    }
}

/// Structural weight of one operation: one, plus the weight of the
/// unit it schedules, if any.
pub open spec fn op_size(op: Op) -> nat
    decreases op,
{
    match op {
        Op::Log(_) => 1,
        Op::ScheduleTimer(t) => 1 + script_size(*t),
        Op::SchedulePendingIo(t) => 1 + script_size(*t),
        Op::QueueMicrotask(t) => 1 + script_size(*t),
        Op::SpawnAuxContext => 1,
        Op::Fail(_) => 1,
    }
}

pub proof fn lemma_op_size_pos(op: Op)
    ensures
        op_size(op) >= 1,
{
    match op {
        Op::Log(_) => {},
        Op::ScheduleTimer(_) => {},
        Op::SchedulePendingIo(_) => {},
        Op::QueueMicrotask(_) => {},
        Op::SpawnAuxContext => {},
        Op::Fail(_) => {},
    }
}

/// Total weight of a queue of scheduled units.
pub open spec fn queue_size(q: Seq<Script>) -> nat
    decreases q.len(),
{
    if q.len() == 0 {
        0
    } else {
        script_size(q[0]) + queue_size(q.drop_first())
    }
}

pub proof fn lemma_queue_size_push(q: Seq<Script>, s: Script)
    ensures
        queue_size(q.push(s)) == queue_size(q) + script_size(s),
    decreases q.len(),
{
    if q.len() == 0 {
        assert(q.push(s)[0] == s);
        assert(q.push(s).drop_first() =~= Seq::<Script>::empty());
        assert(queue_size(q.push(s).drop_first()) == 0);
    } else {
        assert(q.push(s)[0] == q[0]);
        assert(q.push(s).drop_first() =~= q.drop_first().push(s));
        lemma_queue_size_push(q.drop_first(), s);
        assert(queue_size(q.push(s)) == script_size(q[0]) + queue_size(q.drop_first().push(s)));
    }
}

/// Tells a unit that has finished from one that still has work.
pub fn script_is_done(s: &Script) -> (r: bool)
    ensures
        r == (s is Done),
{
    match s {
        Script::Done => true,
        Script::Step(_, _) => false,
    }
}

} // verus!
