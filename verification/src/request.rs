//! One request: the file, and the range of it that the advice is about.

use crate::error::AdviseError;
use vstd::prelude::*;

verus! {

/// What a request holds, as plain values.
pub struct AdviseInfoView {
    /// The name of the file, as it is shown in messages.
    pub filename: Seq<char>,
    /// Where the range starts, in bytes from the start of the file.
    pub offset: i64,
    /// How many bytes the range holds; `None` stands for the size of the file.
    pub len: Option<i64>,
}

impl AdviseInfoView {
    /// Neither the offset nor a given length is negative.
    pub open spec fn valid(self) -> bool {
        &&& self.offset >= 0
        &&& self.len matches Some(len) ==> len >= 0
    }
}

/// A file size as the signed 64-bit number that the advisory call takes for
/// a length: the size itself where it fits, and else the number with the
/// same 64 bits.
pub open spec fn size_as_len(size: u64) -> i64 {
    if size <= i64::MAX {
        size as i64
    } else {
        (size - 0x1_0000_0000_0000_0000) as i64
    }
}

/// The length of the range that a request is about, for a file of `size`
/// bytes: the length that was given, and the size of the file if none was.
pub open spec fn effective_len(len: Option<i64>, size: u64) -> i64 {
    match len {
        Some(len) => len,
        None => size_as_len(size),
    }
}

/// A request that has passed the check of its numbers.
#[derive(Debug)]
pub struct AdviseInfo {
    filename: String,
    offset: i64,
    len: Option<i64>,
}

impl View for AdviseInfo {
    type V = AdviseInfoView;

    closed spec fn view(&self) -> AdviseInfoView {
        AdviseInfoView { filename: self.filename@, offset: self.offset, len: self.len }
    }
}

impl AdviseInfo {
    /// Every request has passed the check of its numbers.
    #[verifier::type_invariant]
    pub open spec fn numbers_checked(self) -> bool {
        self@.valid()
    }

    /// Checks the numbers of a request. A negative offset is refused, and
    /// then a negative length.
    pub fn new(filename: String, offset: i64, len: Option<i64>) -> (r: Result<
        AdviseInfo,
        AdviseError,
    >)
        ensures
            match r {
                Ok(info) => {
                    &&& info@ == (AdviseInfoView { filename: filename@, offset, len })
                    &&& info@.valid()
                },
                Err(e) => {
                    &&& !(AdviseInfoView { filename: filename@, offset, len }).valid()
                    &&& e == if offset < 0 {
                        AdviseError::NegativeOffset
                    } else {
                        AdviseError::NegativeLength
                    }
                },
            },
    {
        if offset < 0 {
            return Err(AdviseError::NegativeOffset);
        }
        match len {
            Some(l) => {
                if l < 0 {
                    return Err(AdviseError::NegativeLength);
                }
            },
            None => {},
        }
        Ok(AdviseInfo { filename, offset, len })
    }

    /// The name of the file, as it is shown in messages.
    pub fn filename(&self) -> (r: &str)
        ensures
            r@ == self@.filename,
    {
        self.filename.as_str()
    }

    /// Where the range starts.
    pub fn offset(&self) -> (r: i64)
        ensures
            r == self@.offset,
            r >= 0,
    {
        proof {
            use_type_invariant(self);
        }
        self.offset
    }

    /// The length of the range, if one was given.
    pub fn len(&self) -> (r: Option<i64>)
        ensures
            r == self@.len,
            r matches Some(len) ==> len >= 0,
    {
        proof {
            use_type_invariant(self);
        }
        self.len
    }

    /// The length of the range for a file of `size` bytes.
    pub fn effective_len(&self, size: u64) -> (r: i64)
        ensures
            r == effective_len(self@.len, size),
            size <= i64::MAX ==> r >= 0,
    {
        proof {
            use_type_invariant(self);
        }
        match self.len {
            Some(len) => len,
            None => {
                if size <= 0x7fff_ffff_ffff_ffff {
                    size as i64
                } else {
                    let low: u64 = size - 0x8000_0000_0000_0000;
                    low as i64 + i64::MIN
                }
            },
        }
    }
}

} // verus!
