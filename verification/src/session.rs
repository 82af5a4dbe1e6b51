//! The course of one request, from the first look at the file to the
//! kernel's answer.
//!
//! The library decides and its caller acts. A [`Session`] names the one
//! thing that is to be done next; the caller does it, reports what came of
//! it as an [`Event`], and asks again, until the session names the result.

use crate::advice::FadviseType;
use crate::error::AdviseError;
use crate::os::posix_fadvise;
use crate::request::{effective_len, AdviseInfo, AdviseInfoView};
use crate::text::{decimal, decimal_string};
use nix::errno::Errno;
use nix::fcntl::PosixFadviseAdvice;
use vstd::prelude::*;
use vstd::string::StringExecFns;

verus! {

/// What the metadata of a file says of it, as far as a request depends on it.
#[derive(Debug, Copy, Clone, PartialEq, Eq, Structural)]
pub struct FileStatus {
    /// Whether the file is a regular file.
    pub is_file: bool,
    /// The size of the file in bytes.
    pub size: u64,
}

/// One advisory call: the advice and the range that it is about.
#[derive(Debug, Copy, Clone, PartialEq, Eq, Structural)]
pub struct AdviceCall {
    /// The advice that is given.
    pub advice: FadviseType,
    /// Where the range starts.
    pub offset: i64,
    /// How many bytes the range holds.
    pub len: i64,
}

/// What a session asks its caller to do next.
#[derive(Debug, Copy, Clone, PartialEq, Eq)]
pub enum Action {
    /// Find out whether the file exists.
    CheckExistence,
    /// Read the metadata of the file.
    ReadMetadata,
    /// Report the call that is about to be made, then open the file for
    /// reading.
    Open(AdviceCall),
    /// Make the call on the descriptor of the open file.
    Advise(AdviceCall, i32),
    /// Stop: this is the result of the request.
    Finish(Result<(), AdviseError>),
}

/// What came of the action that a session asked for.
#[derive(Debug, Copy, Clone, PartialEq, Eq)]
pub enum Event {
    /// The file exists, or it does not.
    Existence(bool),
    /// It could not be found out whether the file exists.
    ExistenceUnknown,
    /// The metadata of the file.
    Metadata(FileStatus),
    /// The metadata of the file could not be read.
    MetadataUnavailable,
    /// The file is open, with this descriptor.
    Opened(i32),
    /// The file could not be opened.
    OpenFailed,
    /// The kernel took the advice.
    Advised,
    /// The kernel refused the advice.
    AdviceRejected(Errno),
}

impl Action {
    /// How many answers a session with this action pending needs at most
    /// before it names its result.
    pub open spec fn answers_needed(self) -> nat {
        match self {
            Action::CheckExistence => 4,
            Action::ReadMetadata => 3,
            Action::Open(_) => 2,
            Action::Advise(_, _) => 1,
            Action::Finish(_) => 0,
        }
    }
}

impl Action {
    /// The result of the request, once the session has named it.
    pub open spec fn result(self) -> Option<Result<(), AdviseError>> {
        match self {
            Action::Finish(result) => Some(result),
            _ => None,
        }
    }

    /// Whether two actions are the same, but perhaps for the descriptor on
    /// which the call is to be made.
    pub open spec fn same_but_for_descriptor(self, other: Action) -> bool {
        match (self, other) {
            (Action::Advise(call, _), Action::Advise(other_call, _)) => call == other_call,
            _ => self == other,
        }
    }
}

impl Event {
    /// Whether two events say the same, but perhaps for the descriptor under
    /// which the file is open.
    pub open spec fn same_but_for_descriptor(self, other: Event) -> bool {
        match (self, other) {
            (Event::Opened(_), Event::Opened(_)) => true,
            _ => self == other,
        }
    }

    /// Whether the event says what came of the action `pending`.
    pub open spec fn answers(self, pending: Action) -> bool {
        match (pending, self) {
            (Action::CheckExistence, Event::Existence(_)) => true,
            (Action::CheckExistence, Event::ExistenceUnknown) => true,
            (Action::ReadMetadata, Event::Metadata(_)) => true,
            (Action::ReadMetadata, Event::MetadataUnavailable) => true,
            (Action::Open(_), Event::Opened(_)) => true,
            (Action::Open(_), Event::OpenFailed) => true,
            (Action::Advise(_, _), Event::Advised) => true,
            (Action::Advise(_, _), Event::AdviceRejected(_)) => true,
            _ => false,
        }
    }

    /// The event that an outcome of the advisory call is.
    pub open spec fn of_outcome_spec(outcome: Result<(), Errno>) -> Event {
        match outcome {
            Ok(_) => Event::Advised,
            Err(errno) => Event::AdviceRejected(errno),
        }
    }

    /// The event that an outcome of the advisory call is.
    pub fn of_outcome(outcome: Result<(), Errno>) -> (event: Event)
        ensures
            event == Event::of_outcome_spec(outcome),
    {
        match outcome {
            Ok(_) => Event::Advised,
            Err(errno) => Event::AdviceRejected(errno),
        }
    }
}

impl AdviceCall {
    /// The four lines that describe the call on the file `filename`: the
    /// file, the advice, the offset and the length.
    pub open spec fn report_spec(self, filename: Seq<char>) -> Seq<Seq<char>> {
        seq![
            "filename: "@ + filename,
            "advice: "@ + self.advice.name_spec(),
            "offset: "@ + decimal(self.offset as int),
            "len: "@ + decimal(self.len as int),
        ]
    }

    /// The four lines that describe the call on the file `filename`.
    pub fn report(&self, filename: &str) -> (lines: Vec<String>)
        ensures
            lines@.len() == 4,
            forall|i: int| 0 <= i < 4 ==> (#[trigger] lines@[i])@ == self.report_spec(filename@)[i],
    {
        let mut lines: Vec<String> = Vec::new();
        lines.push(String::from_str("filename: ").concat(filename));
        lines.push(String::from_str("advice: ").concat(self.advice.name()));
        lines.push(String::from_str("offset: ").concat(decimal_string(self.offset).as_str()));
        lines.push(String::from_str("len: ").concat(decimal_string(self.len).as_str()));
        lines
    }

    /// Makes the call on the descriptor `fd`, through `nix`, and reports the
    /// kernel's answer. The advice is handed over as [`FadviseType::posix`]
    /// gives it.
    pub fn issue(&self, fd: i32) -> (event: Event)
        ensures
            event is Advised || event is AdviceRejected,
    {
        let advice = PosixFadviseAdvice::from(self.advice);
        Event::of_outcome(posix_fadvise(fd, self.offset, self.len, advice))
    }
}

/// A session, as plain values.
pub struct SessionView {
    /// The advice that is asked for.
    pub advice: FadviseType,
    /// The request.
    pub info: AdviseInfoView,
    /// What is to be done next.
    pub pending: Action,
}

impl SessionView {
    /// A session at its start: the first thing to do is to look whether the
    /// file exists.
    pub open spec fn start(advice: FadviseType, info: AdviseInfoView) -> SessionView {
        SessionView { advice, info, pending: Action::CheckExistence }
    }

    /// The call that the session makes on a file of `size` bytes.
    pub open spec fn call(self, size: u64) -> AdviceCall {
        AdviceCall {
            advice: self.advice,
            offset: self.info.offset,
            len: effective_len(self.info.len, size),
        }
    }

    /// The numbers of the request have passed their check, and a call that
    /// is pending is the call of this request on a file of some size: it has
    /// the advice and the offset of the request, and the length that the
    /// request gives, if it gives one.
    pub open spec fn consistent(self) -> bool {
        &&& self.info.valid()
        &&& match self.pending {
            Action::Open(call) => exists|size: u64| call == #[trigger] self.call(size),
            Action::Advise(call, _) => exists|size: u64| call == #[trigger] self.call(size),
            _ => true,
        }
    }

    /// What is to be done after `event`. An event that does not answer the
    /// pending action changes nothing.
    pub open spec fn next(self, event: Event) -> Action {
        match (self.pending, event) {
            (Action::CheckExistence, Event::Existence(exists)) => if exists {
                Action::ReadMetadata
            } else {
                Action::Finish(Err(AdviseError::DoesNotExist))
            },
            (Action::CheckExistence, Event::ExistenceUnknown) => Action::Finish(
                Err(AdviseError::ExistenceUnknown),
            ),
            (Action::ReadMetadata, Event::Metadata(status)) => if status.is_file {
                Action::Open(self.call(status.size))
            } else {
                Action::Finish(Err(AdviseError::NotAFile))
            },
            (Action::ReadMetadata, Event::MetadataUnavailable) => Action::Finish(
                Err(AdviseError::MetadataUnavailable),
            ),
            (Action::Open(call), Event::Opened(fd)) => Action::Advise(call, fd),
            (Action::Open(_), Event::OpenFailed) => Action::Finish(Err(AdviseError::OpenFailed)),
            (Action::Advise(_, _), Event::Advised) => Action::Finish(Ok(())),
            (Action::Advise(_, _), Event::AdviceRejected(errno)) => Action::Finish(
                Err(AdviseError::Os(errno)),
            ),
            (pending, _) => pending,
        }
    }

    /// The session after `event`.
    pub open spec fn step(self, event: Event) -> SessionView {
        SessionView { pending: self.next(event), ..self }
    }

    /// The session after a sequence of events.
    pub open spec fn run(self, events: Seq<Event>) -> SessionView
        decreases events.len(),
    {
        if events.len() == 0 {
            self
        } else {
            self.step(events[0]).run(events.drop_first())
        }
    }
}

/// A session that has named its result stays as it is, whatever is
/// reported to it afterwards.
pub proof fn lemma_finished_session_stays(session: SessionView, events: Seq<Event>)
    requires
        session.pending is Finish,
    ensures
        session.run(events) == session,
    decreases events.len(),
{
    if events.len() > 0 {
        assert(session.step(events[0]) == session);
        lemma_finished_session_stays(session, events.drop_first());
    }
}

/// A session is consistent at its start and stays so, whatever is reported
/// to it: no call is ever asked for but the call of the request.
pub proof fn lemma_session_stays_consistent(
    advice: FadviseType,
    info: AdviseInfoView,
    events: Seq<Event>,
)
    requires
        info.valid(),
    ensures
        SessionView::start(advice, info).run(events).consistent(),
{
    lemma_run_keeps_consistency(SessionView::start(advice, info), events);
}

/// A consistent session is consistent after any sequence of events.
pub proof fn lemma_run_keeps_consistency(session: SessionView, events: Seq<Event>)
    requires
        session.consistent(),
    ensures
        session.run(events).consistent(),
    decreases events.len(),
{
    if events.len() > 0 {
        lemma_step_keeps_consistency(session, events[0]);
        lemma_run_keeps_consistency(session.step(events[0]), events.drop_first());
    }
}

/// A consistent session is consistent after any event.
pub proof fn lemma_step_keeps_consistency(session: SessionView, event: Event)
    requires
        session.consistent(),
    ensures
        session.step(event).consistent(),
{
    let after = session.step(event);
    match (session.pending, event) {
        (Action::ReadMetadata, Event::Metadata(status)) => {
            if status.is_file {
                assert(after.pending == Action::Open(after.call(status.size)));
            }
        },
        (Action::Open(call), _) => {
            let size = choose|size: u64| call == #[trigger] session.call(size);
            assert(call == after.call(size));
        },
        (Action::Advise(call, _), _) => {
            let size = choose|size: u64| call == #[trigger] session.call(size);
            assert(call == after.call(size));
        },
        _ => {},
    }
}

/// A session goes forward only. An event that answers the pending action
/// lowers the number of answers that are still needed, and any other event
/// leaves the session as it is. That number is four at most, and it is zero
/// just when the session has named its result.
pub proof fn lemma_session_goes_forward(session: SessionView, event: Event)
    ensures
        event.answers(session.pending) ==> session.step(event).pending.answers_needed()
            < session.pending.answers_needed(),
        !event.answers(session.pending) ==> session.step(event) == session,
        session.pending.answers_needed() <= 4,
        session.pending.answers_needed() == 0 <==> session.pending is Finish,
{
}

/// Whether two sequences of events say the same one by one, but perhaps for
/// the descriptors under which the file is open.
pub open spec fn same_answers(first: Seq<Event>, second: Seq<Event>) -> bool {
    &&& first.len() == second.len()
    &&& forall|i: int|
        0 <= i < first.len() ==> (#[trigger] first[i]).same_but_for_descriptor(second[i])
}

/// A request that is made twice ends alike both times where the system
/// answers alike both times: the result depends on the request and on the
/// answers alone, not on an earlier session nor on the descriptor under
/// which the file happens to be open.
pub proof fn lemma_repeated_request_ends_alike(
    advice: FadviseType,
    info: AdviseInfoView,
    first: Seq<Event>,
    second: Seq<Event>,
)
    requires
        same_answers(first, second),
    ensures
        SessionView::start(advice, info).run(first).pending.result() == SessionView::start(
            advice,
            info,
        ).run(second).pending.result(),
{
    lemma_alike_sessions_stay_alike(
        SessionView::start(advice, info),
        SessionView::start(advice, info),
        first,
        second,
    );
}

proof fn lemma_alike_sessions_stay_alike(
    a: SessionView,
    b: SessionView,
    first: Seq<Event>,
    second: Seq<Event>,
)
    requires
        a.advice == b.advice,
        a.info == b.info,
        a.pending.same_but_for_descriptor(b.pending),
        same_answers(first, second),
    ensures
        a.run(first).pending.same_but_for_descriptor(b.run(second).pending),
        a.run(first).pending.result() == b.run(second).pending.result(),
    decreases first.len(),
{
    if first.len() > 0 {
        assert(first[0].same_but_for_descriptor(second[0]));
        assert forall|i: int| 0 <= i < first.drop_first().len() implies (
        #[trigger] first.drop_first()[i]).same_but_for_descriptor(second.drop_first()[i]) by {
            assert(first[i + 1].same_but_for_descriptor(second[i + 1]));
        }
        lemma_alike_sessions_stay_alike(
            a.step(first[0]),
            b.step(second[0]),
            first.drop_first(),
            second.drop_first(),
        );
    }
}

/// Where the file does not exist, the request fails with
/// [`AdviseError::DoesNotExist`] at once, and whatever is reported afterwards
/// the session never asks for the file to be opened or for the call to be
/// made.
pub proof fn lemma_missing_file_is_never_opened(
    advice: FadviseType,
    info: AdviseInfoView,
    events: Seq<Event>,
)
    ensures
        SessionView::start(advice, info).step(Event::Existence(false)).run(events).pending
            == Action::Finish(Err(AdviseError::DoesNotExist)),
{
    lemma_finished_session_stays(
        SessionView::start(advice, info).step(Event::Existence(false)),
        events,
    );
}

/// Where the path leads to something that is no regular file, a directory
/// for one, the request fails with [`AdviseError::NotAFile`], and whatever is
/// reported afterwards the session never asks for the file to be opened or
/// for the call to be made.
pub proof fn lemma_other_than_file_is_refused(
    advice: FadviseType,
    info: AdviseInfoView,
    status: FileStatus,
    events: Seq<Event>,
)
    requires
        !status.is_file,
    ensures
        SessionView::start(advice, info).step(Event::Existence(true)).step(
            Event::Metadata(status),
        ).run(events).pending == Action::Finish(Err(AdviseError::NotAFile)),
{
    lemma_finished_session_stays(
        SessionView::start(advice, info).step(Event::Existence(true)).step(
            Event::Metadata(status),
        ),
        events,
    );
}

/// For every kind of advice and every request, on a regular file that
/// exists and can be opened, the request succeeds when the kernel takes the
/// advice.
pub proof fn lemma_request_succeeds_when_kernel_accepts(
    advice: FadviseType,
    info: AdviseInfoView,
    status: FileStatus,
    fd: i32,
)
    requires
        status.is_file,
    ensures
        SessionView::start(advice, info).run(
            seq![
                Event::Existence(true),
                Event::Metadata(status),
                Event::Opened(fd),
                Event::Advised,
            ],
        ).pending == Action::Finish(Ok(())),
{
    reveal_with_fuel(SessionView::run, 5);
    let events = seq![
        Event::Existence(true),
        Event::Metadata(status),
        Event::Opened(fd),
        Event::Advised,
    ];
    assert(events.drop_first() =~= seq![Event::Metadata(status), Event::Opened(fd), Event::Advised]);
    assert(events.drop_first().drop_first() =~= seq![Event::Opened(fd), Event::Advised]);
    assert(events.drop_first().drop_first().drop_first() =~= seq![Event::Advised]);
    assert(events.drop_first().drop_first().drop_first().drop_first() =~= Seq::<Event>::empty());
}

/// Where a request gives no length, the call is made with the size of the
/// file for its length, and with the offset and the advice of the request.
/// This holds for every size that a signed 64-bit length can hold.
pub proof fn lemma_omitted_length_is_file_size(
    advice: FadviseType,
    info: AdviseInfoView,
    status: FileStatus,
    fd: i32,
)
    requires
        info.len is None,
        status.is_file,
        status.size <= i64::MAX,
    ensures
        ({
            let call = AdviceCall { advice, offset: info.offset, len: status.size as i64 };
            let opening = SessionView::start(advice, info).step(Event::Existence(true)).step(
                Event::Metadata(status),
            );
            &&& opening.pending == Action::Open(call)
            &&& opening.step(Event::Opened(fd)).pending == Action::Advise(call, fd)
        }),
{
}

/// Where a request gives a length, the call is made with that length,
/// whatever the size of the file.
pub proof fn lemma_given_length_is_kept(
    advice: FadviseType,
    info: AdviseInfoView,
    status: FileStatus,
    fd: i32,
)
    requires
        info.len is Some,
        status.is_file,
    ensures
        ({
            let call = AdviceCall { advice, offset: info.offset, len: info.len->0 };
            let opening = SessionView::start(advice, info).step(Event::Existence(true)).step(
                Event::Metadata(status),
            );
            &&& opening.pending == Action::Open(call)
            &&& opening.step(Event::Opened(fd)).pending == Action::Advise(call, fd)
        }),
{
}

/// One request on its way.
#[derive(Debug)]
pub struct Session {
    advice: FadviseType,
    info: AdviseInfo,
    pending: Action,
}

impl View for Session {
    type V = SessionView;

    closed spec fn view(&self) -> SessionView {
        SessionView { advice: self.advice, info: self.info@, pending: self.pending }
    }
}

impl Session {
    /// Every session is consistent.
    #[verifier::type_invariant]
    pub open spec fn is_consistent(self) -> bool {
        self@.consistent()
    }

    /// Starts on a request.
    pub fn start(advice: FadviseType, info: AdviseInfo) -> (session: Session)
        ensures
            session@ == SessionView::start(advice, info@),
    {
        proof {
            use_type_invariant(&info);
        }
        Session { advice, info, pending: Action::CheckExistence }
    }

    /// The advice that is asked for.
    pub fn advice(&self) -> (r: FadviseType)
        ensures
            r == self@.advice,
    {
        self.advice
    }

    /// The request.
    pub fn info(&self) -> (r: &AdviseInfo)
        ensures
            r@ == self@.info,
    {
        &self.info
    }

    /// What is to be done next.
    pub fn pending(&self) -> (r: Action)
        ensures
            r == self@.pending,
            self@.consistent(),
    {
        proof {
            use_type_invariant(self);
        }
        self.pending
    }

    /// Takes in what came of the pending action.
    pub fn step(&mut self, event: Event)
        ensures
            final(self)@ == old(self)@.step(event),
    {
        proof {
            use_type_invariant(&*self);
            lemma_step_keeps_consistency(self@, event);
        }
        let next = match (self.pending, event) {
            (Action::CheckExistence, Event::Existence(exists)) => if exists {
                Action::ReadMetadata
            } else {
                Action::Finish(Err(AdviseError::DoesNotExist))
            },
            (Action::CheckExistence, Event::ExistenceUnknown) => Action::Finish(
                Err(AdviseError::ExistenceUnknown),
            ),
            (Action::ReadMetadata, Event::Metadata(status)) => if status.is_file {
                Action::Open(
                    AdviceCall {
                        advice: self.advice,
                        offset: self.info.offset(),
                        len: self.info.effective_len(status.size),
                    },
                )
            } else {
                Action::Finish(Err(AdviseError::NotAFile))
            },
            (Action::ReadMetadata, Event::MetadataUnavailable) => Action::Finish(
                Err(AdviseError::MetadataUnavailable),
            ),
            (Action::Open(call), Event::Opened(fd)) => Action::Advise(call, fd),
            (Action::Open(_), Event::OpenFailed) => Action::Finish(Err(AdviseError::OpenFailed)),
            (Action::Advise(_, _), Event::Advised) => Action::Finish(Ok(())),
            (Action::Advise(_, _), Event::AdviceRejected(errno)) => Action::Finish(
                Err(AdviseError::Os(errno)),
            ),
            (pending, _) => pending,
        };
        self.pending = next;
    }
}

} // verus!
