use fadvise::advice::FadviseType;
use fadvise::error::AdviseError;
use fadvise::request::AdviseInfo;
use fadvise::session::{Action, AdviceCall, Event, FileStatus, Session};
use nix::errno::Errno;

const ALL_ADVICE: [FadviseType; 6] = [
    FadviseType::Normal,
    FadviseType::Sequential,
    FadviseType::Random,
    FadviseType::NoReuse,
    FadviseType::WillNeed,
    FadviseType::DontNeed,
];

fn session(advice: FadviseType, offset: i64, len: Option<i64>) -> Session {
    Session::start(advice, AdviseInfo::new(String::from("/tmp/data.bin"), offset, len).unwrap())
}

fn regular(size: u64) -> Event {
    Event::Metadata(FileStatus { is_file: true, size })
}

#[test]
fn session_starts_by_checking_existence() {
    let s = session(FadviseType::Normal, 0, None);
    assert_eq!(s.pending(), Action::CheckExistence);
    assert_eq!(s.advice(), FadviseType::Normal);
    assert_eq!(s.info().filename(), "/tmp/data.bin");
    assert_eq!(s.info().offset(), 0);
    assert_eq!(s.info().len(), None);
}

#[test]
fn every_advice_succeeds_with_default_range() {
    for advice in ALL_ADVICE {
        let mut s = session(advice, 0, None);
        s.step(Event::Existence(true));
        assert_eq!(s.pending(), Action::ReadMetadata);
        s.step(regular(10000));
        let call = AdviceCall { advice, offset: 0, len: 10000 };
        assert_eq!(s.pending(), Action::Open(call));
        s.step(Event::Opened(3));
        assert_eq!(s.pending(), Action::Advise(call, 3));
        s.step(Event::Advised);
        assert_eq!(s.pending(), Action::Finish(Ok(())));
    }
}

#[test]
fn missing_file_ends_the_session_at_once() {
    let mut s = session(FadviseType::Normal, 0, None);
    s.step(Event::Existence(false));
    assert_eq!(s.pending(), Action::Finish(Err(AdviseError::DoesNotExist)));
}

#[test]
fn missing_file_is_never_opened() {
    let later = [
        Event::Existence(true),
        regular(10000),
        Event::Opened(3),
        Event::Advised,
        Event::OpenFailed,
        Event::AdviceRejected(Errno::EINVAL),
    ];
    let mut s = session(FadviseType::Normal, 0, None);
    s.step(Event::Existence(false));
    for event in later {
        s.step(event);
        assert_eq!(s.pending(), Action::Finish(Err(AdviseError::DoesNotExist)));
    }
}

#[test]
fn directory_is_not_a_file() {
    let mut s = session(FadviseType::Sequential, 0, None);
    s.step(Event::Existence(true));
    s.step(Event::Metadata(FileStatus { is_file: false, size: 4096 }));
    assert_eq!(s.pending(), Action::Finish(Err(AdviseError::NotAFile)));
    s.step(Event::Opened(3));
    assert_eq!(s.pending(), Action::Finish(Err(AdviseError::NotAFile)));
}

#[test]
fn failed_existence_check_ends_the_session() {
    let mut s = session(FadviseType::Random, 0, None);
    s.step(Event::ExistenceUnknown);
    assert_eq!(s.pending(), Action::Finish(Err(AdviseError::ExistenceUnknown)));
}

#[test]
fn unreadable_metadata_ends_the_session() {
    let mut s = session(FadviseType::Random, 0, None);
    s.step(Event::Existence(true));
    s.step(Event::MetadataUnavailable);
    assert_eq!(s.pending(), Action::Finish(Err(AdviseError::MetadataUnavailable)));
}

#[test]
fn failed_open_ends_the_session() {
    let mut s = session(FadviseType::NoReuse, 0, None);
    s.step(Event::Existence(true));
    s.step(regular(1));
    s.step(Event::OpenFailed);
    assert_eq!(s.pending(), Action::Finish(Err(AdviseError::OpenFailed)));
}

#[test]
fn rejected_advice_carries_the_error_number() {
    let mut s = session(FadviseType::DontNeed, 0, None);
    s.step(Event::Existence(true));
    s.step(regular(1));
    s.step(Event::Opened(5));
    s.step(Event::AdviceRejected(Errno::ESPIPE));
    assert_eq!(s.pending(), Action::Finish(Err(AdviseError::Os(Errno::ESPIPE))));
}

#[test]
fn omitted_length_resolves_to_the_file_size() {
    for size in [0u64, 1, 4095, 10000, i64::MAX as u64] {
        let mut s = session(FadviseType::WillNeed, 0, None);
        s.step(Event::Existence(true));
        s.step(regular(size));
        let call = AdviceCall { advice: FadviseType::WillNeed, offset: 0, len: size as i64 };
        assert_eq!(s.pending(), Action::Open(call));
    }
}

#[test]
fn omitted_length_with_an_offset_is_still_the_whole_size() {
    let mut s = session(FadviseType::WillNeed, 6000, None);
    s.step(Event::Existence(true));
    s.step(regular(10000));
    let call = AdviceCall { advice: FadviseType::WillNeed, offset: 6000, len: 10000 };
    assert_eq!(s.pending(), Action::Open(call));
}

#[test]
fn given_length_is_kept_whatever_the_size() {
    for size in [0u64, 100, 10000, u64::MAX] {
        let mut s = session(FadviseType::Sequential, 8, Some(4096));
        s.step(Event::Existence(true));
        s.step(regular(size));
        let call = AdviceCall { advice: FadviseType::Sequential, offset: 8, len: 4096 };
        assert_eq!(s.pending(), Action::Open(call));
        s.step(Event::Opened(9));
        assert_eq!(s.pending(), Action::Advise(call, 9));
    }
}

#[test]
fn events_that_answer_nothing_change_nothing() {
    let mut s = session(FadviseType::Normal, 0, None);
    for event in [regular(1), Event::MetadataUnavailable, Event::Opened(3), Event::OpenFailed, Event::Advised]
    {
        s.step(event);
        assert_eq!(s.pending(), Action::CheckExistence);
    }
    s.step(Event::Existence(true));
    for event in [Event::Existence(false), Event::ExistenceUnknown, Event::Opened(3), Event::Advised] {
        s.step(event);
        assert_eq!(s.pending(), Action::ReadMetadata);
    }
    s.step(regular(10));
    let call = AdviceCall { advice: FadviseType::Normal, offset: 0, len: 10 };
    for event in [Event::Existence(false), regular(20), Event::Advised] {
        s.step(event);
        assert_eq!(s.pending(), Action::Open(call));
    }
    s.step(Event::Opened(4));
    for event in [Event::Existence(false), regular(20), Event::Opened(5), Event::OpenFailed] {
        s.step(event);
        assert_eq!(s.pending(), Action::Advise(call, 4));
    }
}

#[test]
fn willneed_on_the_first_4096_bytes() {
    let mut s = session(FadviseType::WillNeed, 0, Some(4096));
    s.step(Event::Existence(true));
    s.step(regular(10000));
    let call = match s.pending() {
        Action::Open(call) => call,
        other => panic!("unexpected action {:?}", other),
    };
    assert_eq!(call, AdviceCall { advice: FadviseType::WillNeed, offset: 0, len: 4096 });
    assert_eq!(
        call.report(s.info().filename()),
        vec![
            String::from("filename: /tmp/data.bin"),
            String::from("advice: POSIX_FADV_WILLNEED"),
            String::from("offset: 0"),
            String::from("len: 4096"),
        ]
    );
    s.step(Event::Opened(3));
    assert_eq!(s.pending(), Action::Advise(call, 3));
    s.step(Event::Advised);
    assert_eq!(s.pending(), Action::Finish(Ok(())));
}

#[test]
fn dontneed_on_the_whole_file() {
    let mut s = session(FadviseType::DontNeed, 0, None);
    s.step(Event::Existence(true));
    s.step(regular(10000));
    let call = match s.pending() {
        Action::Open(call) => call,
        other => panic!("unexpected action {:?}", other),
    };
    assert_eq!(
        call.report(s.info().filename()),
        vec![
            String::from("filename: /tmp/data.bin"),
            String::from("advice: POSIX_FADV_DONTNEED"),
            String::from("offset: 0"),
            String::from("len: 10000"),
        ]
    );
    s.step(Event::Opened(3));
    s.step(Event::Advised);
    assert_eq!(s.pending(), Action::Finish(Ok(())));
}

#[test]
fn normal_on_a_path_that_does_not_exist() {
    let info = AdviseInfo::new(String::from("/no/such/path"), 0, None).unwrap();
    let mut s = Session::start(FadviseType::Normal, info);
    s.step(Event::Existence(false));
    match s.pending() {
        Action::Finish(Err(error)) => {
            assert_eq!(error, AdviseError::DoesNotExist);
            let message = error.message(s.info().filename());
            assert_eq!(message, "'/no/such/path' does not exist");
            assert!(message.contains("does not exist"));
        }
        other => panic!("unexpected action {:?}", other),
    }
}

#[test]
fn report_names_file_advice_offset_and_length() {
    let call = AdviceCall { advice: FadviseType::Random, offset: 123, len: 456789 };
    assert_eq!(
        call.report("some file"),
        vec![
            String::from("filename: some file"),
            String::from("advice: POSIX_FADV_RANDOM"),
            String::from("offset: 123"),
            String::from("len: 456789"),
        ]
    );
}

#[test]
fn outcome_of_the_call_becomes_an_event() {
    assert_eq!(Event::of_outcome(Ok(())), Event::Advised);
    assert_eq!(Event::of_outcome(Err(Errno::EBADF)), Event::AdviceRejected(Errno::EBADF));
    assert_eq!(Event::of_outcome(Err(Errno::EINVAL)), Event::AdviceRejected(Errno::EINVAL));
}

#[test]
fn repeated_request_ends_alike_under_another_descriptor() {
    for last in [Event::Advised, Event::AdviceRejected(Errno::EINVAL)] {
        let mut results = Vec::new();
        for fd in [3, 7] {
            let mut s = session(FadviseType::DontNeed, 0, Some(4096));
            for event in [Event::Existence(true), regular(10000), Event::Opened(fd), last] {
                s.step(event);
            }
            results.push(s.pending());
        }
        assert_eq!(results[0], results[1]);
        assert!(matches!(results[0], Action::Finish(_)));
    }
}

#[test]
fn session_needs_four_answers_at_most() {
    let mut s = session(FadviseType::Normal, 0, None);
    let mut answers = 0;
    loop {
        let event = match s.pending() {
            Action::CheckExistence => Event::Existence(true),
            Action::ReadMetadata => regular(10000),
            Action::Open(_) => Event::Opened(3),
            Action::Advise(_, _) => Event::Advised,
            Action::Finish(result) => {
                assert_eq!(result, Ok(()));
                break;
            }
        };
        s.step(event);
        answers += 1;
    }
    assert_eq!(answers, 4);
}
