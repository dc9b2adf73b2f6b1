//! The service as a whole: connections served one after another by the accept
//! loop, and the queue of messages they leave for the dispatch worker.
use vstd::prelude::*;
use crate::codec::{decode, well_formed, Message, FRAME_LEN, SHUTDOWN};
use crate::handler::{padded, report_of, Report};
use crate::table::CommandTable;

verus! {

/// The messages that the handlers put on the queue when the accept loop serves
/// these reads in order (`None` for a failed read), up to and including the
/// connection that asks for a shutdown.
pub open spec fn enqueued(conns: Seq<Option<Seq<u8>>>) -> Seq<Message>
    decreases conns.len(),
{
    if conns.len() == 0 {
        seq![]
    } else {
        let r = report_of(conns[0]);
        let head = match r.message {
            Some(m) => seq![m],
            None => seq![],
        };
        if r.shutdown {
            head
        } else {
            head + enqueued(conns.drop_first())
        }
    }
}

/// How many of these connections the accept loop serves before it stops.
pub open spec fn served(conns: Seq<Option<Seq<u8>>>) -> nat
    decreases conns.len(),
{
    if conns.len() == 0 {
        0
    } else if report_of(conns[0]).shutdown {
        1
    } else {
        1 + served(conns.drop_first())
    }
}

/// The command lines that the dispatch worker runs, in order, when it consumes
/// this queue: one for each message whose entry exists, until the first
/// shutdown message.
pub open spec fn executed(t: CommandTable, msgs: Seq<Message>) -> Seq<Seq<char>>
    decreases msgs.len(),
{
    if msgs.len() == 0 || msgs[0].command == SHUTDOWN {
        seq![]
    } else {
        match t.entry(msgs[0].command, msgs[0].value) {
            Some(c) => seq![c] + executed(t, msgs.drop_first()),
            None => executed(t, msgs.drop_first()),
        }
    }
}

/// A read asks for a shutdown exactly when it is a whole, well-formed frame
/// whose command code is the shutdown code: the code alone in a malformed or
/// short frame is not enough.
pub proof fn lemma_shutdown_needs_valid_frame(data: Seq<u8>)
    requires
        data.len() <= FRAME_LEN,
    ensures
        report_of(Some(data)).shutdown <==> (data.len() == FRAME_LEN && well_formed(data)
            && data[3] == SHUTDOWN),
{
    if data.len() == FRAME_LEN {
        assert(padded(data) =~= data);
    } else if data.len() > 0 {
        assert(padded(data)[7] == 0);
    }
}

/// Once a connection has asked for a shutdown, the accept loop serves no
/// further connection, and the queue ends with that connection's message.
pub proof fn lemma_shutdown_stops_accepting(conns: Seq<Option<Seq<u8>>>, i: int)
    requires
        0 <= i < conns.len(),
        report_of(conns[i]).shutdown,
        forall|j: int| 0 <= j < i ==> !report_of(#[trigger] conns[j]).shutdown,
    ensures
        served(conns) == i + 1,
        enqueued(conns) == enqueued(conns.take(i + 1)),
        enqueued(conns).len() > 0,
        enqueued(conns).last() == report_of(conns[i]).message.unwrap(),
        enqueued(conns).last().command == SHUTDOWN,
    decreases i,
{
    let rest = conns.drop_first();
    let pre = conns.take(i + 1);
    if i == 0 {
        assert(pre[0] == conns[0]);
    } else {
        assert forall|j: int| 0 <= j < i - 1 implies !report_of(#[trigger] rest[j]).shutdown by {
            assert(rest[j] == conns[j + 1]);
        }
        assert(rest[i - 1] == conns[i]);
        lemma_shutdown_stops_accepting(rest, i - 1);
        assert(pre[0] == conns[0]);
        assert(pre.drop_first() =~= rest.take(i));
    }
}

/// The dispatch worker runs nothing that was queued after a shutdown message:
/// what it runs is what the messages before it select.
pub proof fn lemma_worker_stops_at_shutdown(
    t: CommandTable,
    before: Seq<Message>,
    m: Message,
    after: Seq<Message>,
)
    requires
        m.command == SHUTDOWN,
    ensures
        executed(t, before + seq![m] + after) == executed(t, before),
    decreases before.len(),
{
    let all = before + seq![m] + after;
    if before.len() == 0 {
        assert(all[0] == m);
    } else {
        assert(all[0] == before[0]);
        assert(all.drop_first() =~= before.drop_first() + seq![m] + after);
        lemma_worker_stops_at_shutdown(t, before.drop_first(), m, after);
    }
}

/// Two connections served back to back, each with a well-formed frame for the
/// first list and an index in range, run both command lines, in the order the
/// connections came.
pub proof fn lemma_two_connections_run_in_order(t: CommandTable, f1: Seq<u8>, f2: Seq<u8>)
    requires
        well_formed(f1),
        well_formed(f2),
        f1[3] == 1,
        f2[3] == 1,
        f1[4] < t.commands_1@.len(),
        f2[4] < t.commands_1@.len(),
    ensures
        served(seq![Some(f1), Some(f2)]) == 2,
        executed(t, enqueued(seq![Some(f1), Some(f2)])) == seq![
            t.commands_1@[f1[4] as int]@,
            t.commands_1@[f2[4] as int]@,
        ],
{
    let conns = seq![Some(f1), Some(f2)];
    assert(padded(f1) =~= f1);
    assert(padded(f2) =~= f2);
    let m1 = decode(f1);
    let m2 = decode(f2);
    let last = seq![Some(f2)];
    let none = Seq::<Option<Seq<u8>>>::empty();
    assert(report_of(Some(f1)) == (Report { message: Some(m1), shutdown: false }));
    assert(report_of(Some(f2)) == (Report { message: Some(m2), shutdown: false }));
    assert(conns.drop_first() =~= last);
    assert(last.drop_first() =~= none);
    assert(enqueued(none) =~= seq![]);
    assert(enqueued(last) =~= seq![m2]);
    assert(enqueued(conns) =~= seq![m1, m2]);
    assert(served(none) == 0);
    assert(served(last) == 1);
    let q = seq![m1, m2];
    let q2 = seq![m2];
    assert(q.drop_first() =~= q2);
    assert(q2.drop_first() =~= Seq::<Message>::empty());
    assert(executed(t, Seq::<Message>::empty()) =~= seq![]);
    assert(executed(t, q2) =~= seq![t.commands_1@[f2[4] as int]@]);
    assert(executed(t, q) =~= seq![
        t.commands_1@[f1[4] as int]@,
        t.commands_1@[f2[4] as int]@,
    ]);
}

/// A connection that sends fewer bytes than a frame and closes dispatches
/// nothing and does not stop the service: serving it changes neither what runs
/// nor when listening ends, beyond counting it.
pub proof fn lemma_short_read_dispatches_nothing(
    t: CommandTable,
    data: Seq<u8>,
    rest: Seq<Option<Seq<u8>>>,
)
    requires
        data.len() < FRAME_LEN,
    ensures
        !report_of(Some(data)).shutdown,
        served(seq![Some(data)] + rest) == 1 + served(rest),
        executed(t, enqueued(seq![Some(data)] + rest)) == executed(t, enqueued(rest)),
{
    let conns = seq![Some(data)] + rest;
    assert(conns[0] == Some(data));
    assert(conns.drop_first() =~= rest);
    if data.len() > 0 {
        assert(padded(data)[7] == 0);
        let q = seq![Message::noop()] + enqueued(rest);
        assert(enqueued(conns) == q);
        assert(q.drop_first() =~= enqueued(rest));
    } else {
        assert(enqueued(conns) =~= enqueued(rest));
    }
}

/// A connection whose read fails or times out dispatches nothing, and the
/// accept loop goes on to the next connection.
pub proof fn lemma_failed_read_moves_on(rest: Seq<Option<Seq<u8>>>)
    ensures
        !report_of(None).shutdown,
        report_of(None).message is None,
        served(seq![None] + rest) == 1 + served(rest),
        enqueued(seq![None] + rest) == enqueued(rest),
{
    let conns = seq![None] + rest;
    assert(conns[0] == None::<Seq<u8>>);
    assert(conns.drop_first() =~= rest);
    assert(enqueued(conns) =~= enqueued(rest));
}

} // verus!
