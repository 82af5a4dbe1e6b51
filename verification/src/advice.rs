//! The six kinds of advice, their names, and their counterparts in `nix`.

use nix::fcntl::PosixFadviseAdvice;
use vstd::prelude::*;
use vstd::std_specs::convert::FromSpecImpl;
use vstd::string::StringExecFns;

verus! {

/// The access pattern that the kernel is told to expect for a range of a file.
#[derive(Debug, Copy, Clone, PartialEq, Eq, Structural, PartialOrd, Ord)]
pub enum FadviseType {
    /// No special pattern: the kernel goes back to its default.
    Normal,
    /// The range is read from lower offsets to higher ones.
    Sequential,
    /// The range is read in no particular order.
    Random,
    /// The range is read once.
    NoReuse,
    /// The range is read soon.
    WillNeed,
    /// The range is not read soon.
    DontNeed,
}

impl FadviseType {
    /// The name of the advice as POSIX spells it.
    pub open spec fn name_spec(self) -> Seq<char> {
        match self {
            FadviseType::Normal => "POSIX_FADV_NORMAL"@,
            FadviseType::Sequential => "POSIX_FADV_SEQUENTIAL"@,
            FadviseType::Random => "POSIX_FADV_RANDOM"@,
            FadviseType::NoReuse => "POSIX_FADV_NOREUSE"@,
            FadviseType::WillNeed => "POSIX_FADV_WILLNEED"@,
            FadviseType::DontNeed => "POSIX_FADV_DONTNEED"@,
        }
    }

    /// The word by which the advice is chosen on a command line.
    pub open spec fn keyword_spec(self) -> Seq<char> {
        match self {
            FadviseType::Normal => "normal"@,
            FadviseType::Sequential => "sequential"@,
            FadviseType::Random => "random"@,
            FadviseType::NoReuse => "noreuse"@,
            FadviseType::WillNeed => "willneed"@,
            FadviseType::DontNeed => "dontneed"@,
        }
    }

    /// The advice that a word chooses: the one whose keyword it is, if any.
    pub open spec fn of_keyword(word: Seq<char>) -> Option<FadviseType> {
        if word == FadviseType::Normal.keyword_spec() {
            Some(FadviseType::Normal)
        } else if word == FadviseType::Sequential.keyword_spec() {
            Some(FadviseType::Sequential)
        } else if word == FadviseType::Random.keyword_spec() {
            Some(FadviseType::Random)
        } else if word == FadviseType::NoReuse.keyword_spec() {
            Some(FadviseType::NoReuse)
        } else if word == FadviseType::WillNeed.keyword_spec() {
            Some(FadviseType::WillNeed)
        } else if word == FadviseType::DontNeed.keyword_spec() {
            Some(FadviseType::DontNeed)
        } else {
            None
        }
    }

    /// The advice as `nix` names it.
    pub open spec fn posix(self) -> PosixFadviseAdvice {
        match self {
            FadviseType::Normal => PosixFadviseAdvice::POSIX_FADV_NORMAL,
            FadviseType::Sequential => PosixFadviseAdvice::POSIX_FADV_SEQUENTIAL,
            FadviseType::Random => PosixFadviseAdvice::POSIX_FADV_RANDOM,
            FadviseType::NoReuse => PosixFadviseAdvice::POSIX_FADV_NOREUSE,
            FadviseType::WillNeed => PosixFadviseAdvice::POSIX_FADV_WILLNEED,
            FadviseType::DontNeed => PosixFadviseAdvice::POSIX_FADV_DONTNEED,
        }
    }

    /// The name of the advice as POSIX spells it.
    pub fn name(self) -> (r: &'static str)
        ensures
            r@ == self.name_spec(),
    {
        match self {
            FadviseType::Normal => "POSIX_FADV_NORMAL",
            FadviseType::Sequential => "POSIX_FADV_SEQUENTIAL",
            FadviseType::Random => "POSIX_FADV_RANDOM",
            FadviseType::NoReuse => "POSIX_FADV_NOREUSE",
            FadviseType::WillNeed => "POSIX_FADV_WILLNEED",
            FadviseType::DontNeed => "POSIX_FADV_DONTNEED",
        }
    }

    /// The word by which the advice is chosen on a command line.
    pub fn keyword(self) -> (r: &'static str)
        ensures
            r@ == self.keyword_spec(),
    {
        match self {
            FadviseType::Normal => "normal",
            FadviseType::Sequential => "sequential",
            FadviseType::Random => "random",
            FadviseType::NoReuse => "noreuse",
            FadviseType::WillNeed => "willneed",
            FadviseType::DontNeed => "dontneed",
        }
    }

    /// The advice that a keyword chooses, if it is one of the six keywords.
    pub fn from_keyword(word: &str) -> (r: Option<FadviseType>)
        ensures
            r == FadviseType::of_keyword(word@),
    {
        let w = String::from_str(word);
        if w == String::from_str("normal") {
            Some(FadviseType::Normal)
        } else if w == String::from_str("sequential") {
            Some(FadviseType::Sequential)
        } else if w == String::from_str("random") {
            Some(FadviseType::Random)
        } else if w == String::from_str("noreuse") {
            Some(FadviseType::NoReuse)
        } else if w == String::from_str("willneed") {
            Some(FadviseType::WillNeed)
        } else if w == String::from_str("dontneed") {
            Some(FadviseType::DontNeed)
        } else {
            None
        }
    }
}

/// The advice as `nix` takes it: the variant of the same name. What `from`
/// returns is stated by `from_spec` below, which is [`FadviseType::posix`].
impl From<FadviseType> for PosixFadviseAdvice {
    fn from(advise: FadviseType) -> (r: PosixFadviseAdvice) {
        match advise {
            FadviseType::Normal => PosixFadviseAdvice::POSIX_FADV_NORMAL,
            FadviseType::Sequential => PosixFadviseAdvice::POSIX_FADV_SEQUENTIAL,
            FadviseType::Random => PosixFadviseAdvice::POSIX_FADV_RANDOM,
            FadviseType::NoReuse => PosixFadviseAdvice::POSIX_FADV_NOREUSE,
            FadviseType::WillNeed => PosixFadviseAdvice::POSIX_FADV_WILLNEED,
            FadviseType::DontNeed => PosixFadviseAdvice::POSIX_FADV_DONTNEED,
        }
    }
}

impl FromSpecImpl<FadviseType> for PosixFadviseAdvice {
    open spec fn obeys_from_spec() -> bool {
        true
    }

    open spec fn from_spec(advise: FadviseType) -> PosixFadviseAdvice {
        advise.posix()
    }
}

/// The six kinds of advice go to six different kinds of advice of `nix`.
pub proof fn lemma_posix_is_one_to_one(a: FadviseType, b: FadviseType)
    ensures
        a.posix() == b.posix() <==> a == b,
{
}

/// No two kinds of advice share a keyword.
pub proof fn lemma_keywords_are_distinct(a: FadviseType, b: FadviseType)
    ensures
        a.keyword_spec() == b.keyword_spec() <==> a == b,
{
    reveal_strlit("normal");
    reveal_strlit("sequential");
    reveal_strlit("random");
    reveal_strlit("noreuse");
    reveal_strlit("willneed");
    reveal_strlit("dontneed");
    assert("normal"@.len() == 6 && "normal"@[0] == 'n');
    assert("sequential"@.len() == 10);
    assert("random"@.len() == 6 && "random"@[0] == 'r');
    assert("noreuse"@.len() == 7);
    assert("willneed"@.len() == 8 && "willneed"@[0] == 'w');
    assert("dontneed"@.len() == 8 && "dontneed"@[0] == 'd');
}

/// No two kinds of advice share a name.
pub proof fn lemma_names_are_distinct(a: FadviseType, b: FadviseType)
    ensures
        a.name_spec() == b.name_spec() <==> a == b,
{
    reveal_strlit("POSIX_FADV_NORMAL");
    reveal_strlit("POSIX_FADV_SEQUENTIAL");
    reveal_strlit("POSIX_FADV_RANDOM");
    reveal_strlit("POSIX_FADV_NOREUSE");
    reveal_strlit("POSIX_FADV_WILLNEED");
    reveal_strlit("POSIX_FADV_DONTNEED");
    assert("POSIX_FADV_NORMAL"@.len() == 17 && "POSIX_FADV_NORMAL"@[11] == 'N');
    assert("POSIX_FADV_SEQUENTIAL"@.len() == 21);
    assert("POSIX_FADV_RANDOM"@.len() == 17 && "POSIX_FADV_RANDOM"@[11] == 'R');
    assert("POSIX_FADV_NOREUSE"@.len() == 18);
    assert("POSIX_FADV_WILLNEED"@.len() == 19 && "POSIX_FADV_WILLNEED"@[11] == 'W');
    assert("POSIX_FADV_DONTNEED"@.len() == 19 && "POSIX_FADV_DONTNEED"@[11] == 'D');
}

/// Each kind of advice is the one that its own keyword chooses, and a word
/// chooses a kind of advice only if it is that kind's keyword.
pub proof fn lemma_keyword_round_trip(advice: FadviseType, word: Seq<char>)
    ensures
        FadviseType::of_keyword(advice.keyword_spec()) == Some(advice),
        FadviseType::of_keyword(word) == Some(advice) <==> word == advice.keyword_spec(),
{
    lemma_keywords_are_distinct(advice, FadviseType::Normal);
    lemma_keywords_are_distinct(advice, FadviseType::Sequential);
    lemma_keywords_are_distinct(advice, FadviseType::Random);
    lemma_keywords_are_distinct(advice, FadviseType::NoReuse);
    lemma_keywords_are_distinct(advice, FadviseType::WillNeed);
    lemma_keywords_are_distinct(advice, FadviseType::DontNeed);
}

} // verus!
