//! What is known of a run that failed: panics, errors, and aborted tasks.
use crate::utils::text::{self, decimal};
use vstd::prelude::*;

verus! {

/// An error caught while a job was processed. Each carries the frames of the
/// asynchronous backtrace, where there is one.
#[derive(Debug)]
pub enum CaughtError {
    /// The processor panicked.
    Panic(CaughtPanicInfo),
    /// The processor returned an error.
    Error(String, Option<Vec<String>>),
    /// The task that ran the processor ended abnormally.
    JoinError(String),
}

/// What is known of a panic.
#[derive(Debug)]
pub struct CaughtPanicInfo {
    /// The panic in words, with the place in the source.
    pub payload: String,
    /// Backtrace at the point where the panic was caught.
    pub backtrace: Option<Vec<String>>,
}

impl Default for CaughtPanicInfo {
    /// A panic of which nothing was recorded.
    fn default() -> (info: Self)
        ensures
            info.payload@ == "Panic occurred but failed to capture backtrace"@,
            info.backtrace is None,
    {
        CaughtPanicInfo {
            payload: String::from_str("Panic occurred but failed to capture backtrace"),
            backtrace: None,
        }
    }
}

/// A place in the source.
#[derive(Debug)]
pub struct PanicLocation {
    /// The file.
    pub file: String,
    /// The line.
    pub line: u32,
    /// The column.
    pub col: u32,
}

impl PanicLocation {
    /// The place in words.
    pub open spec fn words(self) -> Seq<char> {
        self.file@ + " at "@ + text::decimal_digits(self.line as nat) + ":"@
            + text::decimal_digits(self.col as nat)
    }

    /// The place in words.
    pub fn text(&self) -> (text: String)
        ensures
            text@ == self.words(),
    {
        let mut text = self.file.clone();
        text.append(" at ");
        text.append(decimal(self.line as u64).as_str());
        text.append(":");
        text.append(decimal(self.col as u64).as_str());
        text
    }
}

impl Default for PanicLocation {
    /// No place at all.
    fn default() -> (location: Self)
        ensures
            location.file@ == Seq::<char>::empty(),
            location.line == 0,
            location.col == 0,
    {
        PanicLocation { file: String::new(), line: 0, col: 0 }
    }
}

/// How the run of a processor ended.
#[derive(Debug)]
pub enum RunEnd<T> {
    /// It returned a value.
    Value(T),
    /// It returned an error; the frames are those at the point of return.
    Error(String, Option<Vec<String>>),
    /// It panicked; the record is what the panic hook left behind.
    Panic(Option<CaughtPanicInfo>),
}

/// Turns the end of a run into a value or a caught error.
#[derive(Debug, Clone, Copy)]
pub struct BacktraceCatcher;

/// The frames in words, each on a line of its own.
pub open spec fn frame_lines(frames: Seq<String>) -> Seq<char>
    decreases frames.len(),
{
    if frames.len() == 0 {
        Seq::empty()
    } else {
        frame_lines(frames.drop_last()) + "\n "@ + frames.last()@
    }
}

/// The panic in words: what it was raised with, where, and the frames at that
/// point.
pub open spec fn panic_words(
    payload: Option<Seq<char>>,
    place: Seq<char>,
    backtrace: Option<Vec<String>>,
) -> Seq<char> {
    "Panic:"@ + (match payload {
        Some(payload) => payload,
        None => "Box<Any>"@,
    }) + " :\n "@ + place + "\nBacktrace:"@ + (match backtrace {
        Some(frames) => frame_lines(frames@),
        None => Seq::empty(),
    })
}

/// Adds the frames to `words`, each on a line of its own.
fn add_frames(words: &mut String, frames: &Vec<String>)
    ensures
        final(words)@ == old(words)@ + frame_lines(frames@),
{
    let ghost before = words@;
    let mut i: usize = 0;
    assert(words@ =~= before + frame_lines(frames@.take(0)));
    while i < frames.len()
        invariant
            i <= frames.len(),
            words@ == before + frame_lines(frames@.take(i as int)),
        decreases frames.len() - i,
    {
        words.append("\n ");
        words.append(frames[i].as_str());
        i += 1;
        proof {
            assert(frames@.take(i as int).drop_last() =~= frames@.take(i - 1));
            assert(words@ =~= before + frame_lines(frames@.take(i as int)));
        }
    }
    assert(frames@.take(frames@.len() as int) =~= frames@);
}

impl BacktraceCatcher {
    /// What is recorded of a panic: its payload, where that is a text, its
    /// place, where that is known, and the frames, where there are any.
    pub fn capture_panic_info(
        payload: Option<&str>,
        location: Option<PanicLocation>,
        backtrace: Option<Vec<String>>,
    ) -> (info: CaughtPanicInfo)
        ensures
            info.backtrace == backtrace,
            info.payload@ == panic_words(
                match payload {
                    Some(payload) => Some(payload@),
                    None => None,
                },
                match location {
                    Some(location) => location.words(),
                    None => " at 0:0"@,
                },
                backtrace,
            ),
    {
        let location = match location {
            Some(location) => location,
            None => {
                proof {
                    reveal_strlit(" at ");
                    reveal_strlit(":");
                    reveal_strlit(" at 0:0");
                    assert(Seq::<char>::empty() + " at "@ + text::decimal_digits(0) + ":"@
                        + text::decimal_digits(0) =~= " at 0:0"@);
                }
                PanicLocation::default()
            },
        };
        let payload = match payload {
            Some(payload) => payload,
            None => "Box<Any>",
        };
        let mut words = String::from_str("Panic:");
        words.append(payload);
        words.append(" :\n ");
        words.append(location.text().as_str());
        words.append("\nBacktrace:");
        match &backtrace {
            Some(frames) => add_frames(&mut words, frames),
            None => {
                assert(words@ + Seq::<char>::empty() =~= words@);
            },
        }
        CaughtPanicInfo { payload: words, backtrace }
    }

    /// The value of a run, or what was caught of it.
    pub fn settle<T>(end: RunEnd<T>) -> (result: Result<T, CaughtError>)
        ensures
            match end {
                RunEnd::Value(value) => result == Ok::<T, CaughtError>(value),
                RunEnd::Error(error, backtrace) => result == Err::<T, CaughtError>(
                    CaughtError::Error(error, backtrace),
                ),
                RunEnd::Panic(Some(info)) => result == Err::<T, CaughtError>(
                    CaughtError::Panic(info),
                ),
                RunEnd::Panic(None) => result matches Err(CaughtError::Panic(info))
                    && info.payload@ == "Panic occurred but failed to capture backtrace"@
                    && info.backtrace is None,
            },
    {
        match end {
            RunEnd::Value(value) => Ok(value),
            RunEnd::Error(error, backtrace) => Err(CaughtError::Error(error, backtrace)),
            RunEnd::Panic(info) => match info {
                Some(info) => Err(CaughtError::Panic(info)),
                None => Err(CaughtError::Panic(CaughtPanicInfo::default())),
            },
        }
    }
}

/// The frames in words are each on a line of its own, in their order: the words of two
/// lists together are those of the one followed by those of the other.
pub proof fn law_frames_stand_one_after_the_other(
    first: Seq<String>,
    second: Seq<String>,
    frame: String,
)
    ensures
        frame_lines(first + second) == frame_lines(first) + frame_lines(second),
        frame_lines(seq![frame]) == "\n "@ + frame@,
        frame_lines(Seq::<String>::empty()).len() == 0,
    decreases second.len(),
{
    reveal_with_fuel(frame_lines, 2);
    assert(seq![frame].drop_last() =~= Seq::empty());
    assert(frame_lines(seq![frame]) =~= "\n "@ + frame@);
    if second.len() == 0 {
        assert(first + second =~= first);
        assert(frame_lines(first) + frame_lines(second) =~= frame_lines(first));
    } else {
        law_frames_stand_one_after_the_other(first, second.drop_last(), frame);
        assert((first + second).drop_last() =~= first + second.drop_last());
        assert((first + second).last() == second.last());
        assert(frame_lines(first + second) =~= frame_lines(first) + frame_lines(second));
    }
}

/// A panic in words begins with what it was raised with, then says where, then has its
/// frames; a place in words has its file, its line and its column.
pub proof fn law_panic_says_what_and_where(
    payload: Seq<char>,
    place: Seq<char>,
    frames: Vec<String>,
    location: PanicLocation,
)
    ensures
        panic_words(Some(payload), place, None) == "Panic:"@ + payload + " :\n "@ + place
            + "\nBacktrace:"@,
        panic_words(Some(payload), place, Some(frames)) == panic_words(Some(payload), place, None)
            + frame_lines(frames@),
        panic_words(None, place, None) == panic_words(Some("Box<Any>"@), place, None),
        location.words() == location.file@ + " at "@ + text::decimal_digits(location.line as nat)
            + ":"@ + text::decimal_digits(location.col as nat),
{
    assert(panic_words(Some(payload), place, None) =~= "Panic:"@ + payload + " :\n "@ + place
        + "\nBacktrace:"@);
    assert(panic_words(Some(payload), place, Some(frames)) =~= panic_words(
        Some(payload),
        place,
        None,
    ) + frame_lines(frames@));
}

} // verus!
