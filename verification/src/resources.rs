//! Accounting for the handles that opening and duplicating a port take
//! from the system: whatever the system replies, and however far the
//! machine is driven, nothing taken is dropped without being closed.

use crate::com::{COMPort, Cloning, Opening};
use crate::config::SerialPortBuilder;
use crate::error::{
    Error, ErrorKind, ERROR_ACCESS_DENIED, ERROR_FILE_NOT_FOUND, ERROR_INVALID_NAME,
    ERROR_PATH_NOT_FOUND,
};
use crate::os::{Call, Reply, INVALID_HANDLE_VALUE, NULL_HANDLE};
use crate::time::Duration;
use vstd::multiset::Multiset;
use vstd::prelude::*;

verus! {

/// The handle that a call gives back to the system, if it gives one back.
pub open spec fn released(call: Option<Call>) -> Multiset<usize> {
    match call {
        Some(Call::CloseHandle { handle }) => Multiset::singleton(handle),
        _ => Multiset::empty(),
    }
}

impl Opening {
    /// The state that a sequence of replies leads to.
    pub open spec fn run(self, replies: Seq<Reply>) -> Opening
        decreases replies.len(),
    {
        if replies.len() == 0 {
            self
        } else {
            self.next(replies[0]).0.run(replies.drop_first())
        }
    }

    /// All handles that the system hands out over a sequence of replies.
    pub open spec fn acquired_over(self, replies: Seq<Reply>) -> Multiset<usize>
        decreases replies.len(),
    {
        if replies.len() == 0 {
            Multiset::empty()
        } else {
            self.acquired(replies[0]).add(
                self.next(replies[0]).0.acquired_over(replies.drop_first()),
            )
        }
    }

    /// All handles that the machine asks to be closed over a sequence of
    /// replies.
    pub open spec fn released_over(self, replies: Seq<Reply>) -> Multiset<usize>
        decreases replies.len(),
    {
        if replies.len() == 0 {
            Multiset::empty()
        } else {
            released(self.next(replies[0]).1).add(
                self.next(replies[0]).0.released_over(replies.drop_first()),
            )
        }
    }
}

impl Cloning {
    /// The state that a sequence of replies leads to.
    pub open spec fn run(self, replies: Seq<Reply>) -> Cloning
        decreases replies.len(),
    {
        if replies.len() == 0 {
            self
        } else {
            self.next(replies[0]).0.run(replies.drop_first())
        }
    }

    /// All handles that the system hands out over a sequence of replies.
    pub open spec fn acquired_over(self, replies: Seq<Reply>) -> Multiset<usize>
        decreases replies.len(),
    {
        if replies.len() == 0 {
            Multiset::empty()
        } else {
            self.acquired(replies[0]).add(
                self.next(replies[0]).0.acquired_over(replies.drop_first()),
            )
        }
    }

    /// All handles that the machine asks to be closed over a sequence of
    /// replies.
    pub open spec fn released_over(self, replies: Seq<Reply>) -> Multiset<usize>
        decreases replies.len(),
    {
        if replies.len() == 0 {
            Multiset::empty()
        } else {
            released(self.next(replies[0]).1).add(
                self.next(replies[0]).0.released_over(replies.drop_first()),
            )
        }
    }
}

/// One step of opening keeps the books: what is held afterwards, together
/// with what the step closes, is what was held before together with what
/// the reply handed out.
pub proof fn lemma_opening_step_balanced(state: Opening, reply: Reply)
    ensures
        state.next(reply).0.held().add(released(state.next(reply).1)) == state.held().add(
            state.acquired(reply),
        ),
{
    assert(state.next(reply).0.held().add(released(state.next(reply).1)) =~= state.held().add(
        state.acquired(reply),
    ));
}

/// Over any sequence of replies opening keeps the books.
pub proof fn lemma_opening_balanced(state: Opening, replies: Seq<Reply>)
    ensures
        state.run(replies).held().add(state.released_over(replies)) == state.held().add(
            state.acquired_over(replies),
        ),
    decreases replies.len(),
{
    if replies.len() == 0 {
        assert(state.run(replies).held().add(state.released_over(replies)) =~= state.held().add(
            state.acquired_over(replies),
        ));
    } else {
        let after = state.next(replies[0]).0;
        let rest = replies.drop_first();
        lemma_opening_step_balanced(state, replies[0]);
        lemma_opening_balanced(after, rest);
        let closed = released(state.next(replies[0]).1);
        let given = state.acquired(replies[0]);
        assert(state.run(replies) == after.run(rest));
        assert(state.released_over(replies) == closed.add(after.released_over(rest)));
        assert(state.acquired_over(replies) == given.add(after.acquired_over(rest)));
        assert forall|h: usize|
            state.run(replies).held().add(state.released_over(replies)).count(h)
                == state.held().add(state.acquired_over(replies)).count(h) by {
            assert(after.held().add(closed).count(h) == state.held().add(given).count(h));
            assert(after.run(rest).held().add(after.released_over(rest)).count(h)
                == after.held().add(after.acquired_over(rest)).count(h));
        }
        assert(state.run(replies).held().add(state.released_over(replies)) =~= state.held().add(
            state.acquired_over(replies),
        ));
    }
}

/// An opening that has failed has leaked nothing: every handle that the
/// system handed out on the way was asked to be closed, no more and no
/// less. An opening that has succeeded has closed nothing but what the
/// port does not hold: the port's two handles are all that is left.
pub proof fn lemma_open_leaks_nothing(builder: SerialPortBuilder, replies: Seq<Reply>)
    ensures
        (Opening::Handle { builder }).run(replies) is Failed ==> (Opening::Handle {
            builder,
        }).acquired_over(replies) == (Opening::Handle { builder }).released_over(replies),
        (Opening::Handle { builder }).run(replies) matches Opening::Opened(port) ==> (
        Opening::Handle { builder }).acquired_over(replies) == (Opening::Handle {
            builder,
        }).released_over(replies).insert(port.handle).insert(port.event),
{
    let start = Opening::Handle { builder };
    lemma_opening_balanced(start, replies);
    let end = start.run(replies);
    assert(start.held().add(start.acquired_over(replies)) =~= start.acquired_over(replies));
    if end is Failed {
        assert(end.held().add(start.released_over(replies)) =~= start.released_over(replies));
    }
    if let Opening::Opened(port) = end {
        assert(end.held().add(start.released_over(replies)) =~= start.released_over(
            replies,
        ).insert(port.handle).insert(port.event));
    }
}

/// A device that is not there is reported as missing or as misnamed,
/// never as an I/O error, and nothing is held or asked for afterwards:
/// where the system makes no handle and gives one of its codes for a
/// missing file, a missing path, a device in other hands or a bad name,
/// opening ends at once.
pub proof fn lemma_open_absent_device(builder: SerialPortBuilder, reply: Reply)
    requires
        reply.value == INVALID_HANDLE_VALUE,
        reply.last_error == ERROR_FILE_NOT_FOUND || reply.last_error == ERROR_PATH_NOT_FOUND
            || reply.last_error == ERROR_ACCESS_DENIED || reply.last_error == ERROR_INVALID_NAME,
    ensures
        (Opening::Handle { builder }).next(reply) == (
            Opening::Failed(Error::of_os(reply.last_error)),
            None::<Call>,
        ),
        Error::of_os(reply.last_error).kind == ErrorKind::NoDevice || Error::of_os(
            reply.last_error,
        ).kind == ErrorKind::InvalidInput,
        reply.last_error != ERROR_INVALID_NAME ==> Error::of_os(reply.last_error).kind
            == ErrorKind::NoDevice,
        (Opening::Handle { builder }).acquired(reply) == Multiset::<usize>::empty(),
        (Opening::Handle { builder }).next(reply).0.held() == Multiset::<usize>::empty(),
{
}

/// One step of duplicating keeps the books.
pub proof fn lemma_cloning_step_balanced(state: Cloning, reply: Reply)
    ensures
        state.next(reply).0.held().add(released(state.next(reply).1)) == state.held().add(
            state.acquired(reply),
        ),
{
    assert(state.next(reply).0.held().add(released(state.next(reply).1)) =~= state.held().add(
        state.acquired(reply),
    ));
}

/// Over any sequence of replies duplicating keeps the books.
pub proof fn lemma_cloning_balanced(state: Cloning, replies: Seq<Reply>)
    ensures
        state.run(replies).held().add(state.released_over(replies)) == state.held().add(
            state.acquired_over(replies),
        ),
    decreases replies.len(),
{
    if replies.len() == 0 {
        assert(state.run(replies).held().add(state.released_over(replies)) =~= state.held().add(
            state.acquired_over(replies),
        ));
    } else {
        let after = state.next(replies[0]).0;
        let rest = replies.drop_first();
        lemma_cloning_step_balanced(state, replies[0]);
        lemma_cloning_balanced(after, rest);
        let closed = released(state.next(replies[0]).1);
        let given = state.acquired(replies[0]);
        assert(state.run(replies) == after.run(rest));
        assert(state.released_over(replies) == closed.add(after.released_over(rest)));
        assert(state.acquired_over(replies) == given.add(after.acquired_over(rest)));
        assert forall|h: usize|
            state.run(replies).held().add(state.released_over(replies)).count(h)
                == state.held().add(state.acquired_over(replies)).count(h) by {
            assert(after.held().add(closed).count(h) == state.held().add(given).count(h));
            assert(after.run(rest).held().add(after.released_over(rest)).count(h)
                == after.held().add(after.acquired_over(rest)).count(h));
        }
        assert(state.run(replies).held().add(state.released_over(replies)) =~= state.held().add(
            state.acquired_over(replies),
        ));
    }
}

/// Duplicating a port never touches the handles of the port it starts
/// from: the only handle it ever asks to be closed is the event that it
/// was given itself. A duplication that has failed has leaked nothing, and
/// one that has succeeded holds the duplicated handle and its own event,
/// with the name and the timeout of the first port.
pub proof fn lemma_clone_leaks_nothing(
    source: usize,
    timeout: Duration,
    port_name: Option<String>,
    replies: Seq<Reply>,
)
    ensures
        (Cloning::Event { source, timeout, port_name }).run(replies) is Failed ==> (
        Cloning::Event { source, timeout, port_name }).acquired_over(replies) == (Cloning::Event {
            source,
            timeout,
            port_name,
        }).released_over(replies),
        (Cloning::Event { source, timeout, port_name }).run(replies) matches Cloning::Cloned(
            port,
        ) ==> (Cloning::Event { source, timeout, port_name }).acquired_over(replies) == (
        Cloning::Event { source, timeout, port_name }).released_over(replies).insert(
            port.handle,
        ).insert(port.event),
{
    let start = Cloning::Event { source, timeout, port_name };
    lemma_cloning_balanced(start, replies);
    let end = start.run(replies);
    assert(start.held().add(start.acquired_over(replies)) =~= start.acquired_over(replies));
    if end is Failed {
        assert(end.held().add(start.released_over(replies)) =~= start.released_over(replies));
    }
    if let Cloning::Cloned(port) = end {
        assert(end.held().add(start.released_over(replies)) =~= start.released_over(
            replies,
        ).insert(port.handle).insert(port.event));
    }
}

/// The two replies that make a duplication succeed give a port with the
/// duplicated handle and the new event, and with the first port's name and
/// cached timeout; nothing is closed on the way. Closing either port asks
/// for that port's own handle and event: where the system handed out
/// values that differ from those of the first port, closing the second
/// names none of the first port's handles, and the other way round.
pub proof fn lemma_clone_owns_its_handles(port: COMPort, event: Reply, handle: Reply)
    requires
        event.value != NULL_HANDLE,
        handle.value != INVALID_HANDLE_VALUE,
    ensures
        port.closing_calls() == (
            Call::CloseHandle { handle: port.handle },
            Call::CloseHandle { handle: port.event },
        ),
        (COMPort {
            handle: handle.value,
            event: event.value,
            timeout: port.timeout,
            port_name: port.port_name,
        }).closing_calls() == (
            Call::CloseHandle { handle: handle.value },
            Call::CloseHandle { handle: event.value },
        ),
        (Cloning::Event {
            source: port.handle,
            timeout: port.timeout,
            port_name: port.port_name,
        }).run(seq![event, handle]) == Cloning::Cloned(
            COMPort {
                handle: handle.value,
                event: event.value,
                timeout: port.timeout,
                port_name: port.port_name,
            },
        ),
        (Cloning::Event {
            source: port.handle,
            timeout: port.timeout,
            port_name: port.port_name,
        }).released_over(seq![event, handle]) == Multiset::<usize>::empty(),
{
    let start = Cloning::Event {
        source: port.handle,
        timeout: port.timeout,
        port_name: port.port_name,
    };
    let replies = seq![event, handle];
    let second = start.next(event).0;
    assert(replies.drop_first() =~= seq![handle]);
    assert(seq![handle].drop_first() =~= Seq::<Reply>::empty());
    let third = second.next(handle).0;
    assert(third.run(Seq::<Reply>::empty()) == third);
    assert(second.run(seq![handle]) == third);
    assert(start.run(replies) == third);
    assert(third.released_over(Seq::<Reply>::empty()) =~= Multiset::<usize>::empty());
    assert(second.released_over(seq![handle]) =~= Multiset::<usize>::empty());
    assert(start.released_over(replies) =~= Multiset::<usize>::empty());
}

} // verus!
