//! Names the screenshots of a session and leaves out repeats.
//!
//! Every frame that reaches the writer gets the next number, whether it is
//! written or not, so that the numbers of the files of a session grow with the
//! order in which the frames came. The file that closes the session takes the
//! number behind that of the last frame, so that no two files of a session
//! bear the same number.

use crate::needle::{PngView, PNG};
use crate::text::{
    all_digits, decimal_value, digit_char, digit_value, is_digit, padded_digits, push_padded,
};
use vstd::prelude::*;
use vstd::string::StringExecFns;

verus! {

/// The least number of digits of the number in a file name.
pub const INDEX_WIDTH: usize = 5;

/// The name of the file that holds frame number `index`, taken at `time`
/// under `tag`.
pub open spec fn file_name(index: nat, time: Seq<char>, tag: Seq<char>) -> Seq<char> {
    "output-"@ + padded_digits(index, INDEX_WIDTH as nat) + "-"@ + time + "-"@ + tag + ".png"@
}

/// Builds the name of a file.
pub fn name_file(index: u64, time: &str, tag: &str) -> (name: String)
    ensures
        name@ == file_name(index as nat, time@, tag@),
{
    let mut name = String::from_str("output-");
    push_padded(&mut name, index, INDEX_WIDTH);
    name.append("-");
    name.append(time);
    name.append("-");
    name.append(tag);
    name.append(".png");
    name
}

/// Abstract state of a [`ScreenshotWriter`].
pub struct WriterView {
    /// How many frames have come.
    pub count: nat,
    /// The frame that was written last.
    pub last: Option<PngView>,
    /// The numbers of the files named so far, in the order of their naming.
    pub numbers: Seq<nat>,
}

impl WriterView {
    /// The number that the next file bears, be it a frame's or the last one.
    pub open spec fn next_number(self) -> nat {
        self.count + 1
    }

    /// The numbers handed out so far grow from file to file, and none is
    /// above the count of frames.
    pub open spec fn wf(self) -> bool {
        &&& strictly_increasing(self.numbers)
        &&& forall|i: int| 0 <= i < self.numbers.len() ==> 1 <= #[trigger] self.numbers[i] <= self.count
    }
}

/// Each number is above the one before it.
pub open spec fn strictly_increasing(numbers: Seq<nat>) -> bool {
    forall|i: int, j: int| 0 <= i < j < numbers.len() ==> numbers[i] < numbers[j]
}

/// The writer of a session's screenshots.
pub struct ScreenshotWriter {
    count: u64,
    last: Option<PNG>,
    numbers: Ghost<Seq<nat>>,
}

impl View for ScreenshotWriter {
    type V = WriterView;

    closed spec fn view(&self) -> WriterView {
        WriterView {
            count: self.count as nat,
            last: match self.last {
                Some(png) => Some(png@),
                None => None,
            },
            numbers: self.numbers@,
        }
    }
}

impl ScreenshotWriter {
    #[verifier::type_invariant]
    spec fn inv(&self) -> bool {
        self@.wf()
    }

    /// A writer that has seen no frame.
    pub fn new() -> (w: ScreenshotWriter)
        ensures
            w@ == (WriterView { count: 0, last: None, numbers: Seq::<nat>::empty() }),
            w@.wf(),
    {
        ScreenshotWriter { count: 0, last: None, numbers: Ghost(Seq::<nat>::empty()) }
    }

    /// How many frames have come.
    pub fn count(&self) -> (n: u64)
        ensures
            n == self@.count,
            self@.wf(),
    {
        proof {
            use_type_invariant(self);
        }
        self.count
    }

    /// The frame that was written last.
    pub fn last(&self) -> (png: &Option<PNG>)
        ensures
            match *png {
                Some(p) => self@.last == Some(p@),
                None => self@.last is None,
            },
    {
        &self.last
    }

    /// Takes in a frame. Returns the name of the file to write it to, or
    /// nothing if the frame is the same, byte for byte, as the one written
    /// last: then there is nothing to write. Either way the frame has taken
    /// the next number.
    pub fn save(&mut self, screen: PNG, tag: &str, time: &str) -> (name: Option<String>)
        requires
            old(self)@.count < u64::MAX,
        ensures
            old(self)@.wf(),
            final(self)@.wf(),
            final(self)@.count == old(self)@.next_number(),
            old(self)@.last == Some(screen@) ==> {
                &&& name is None
                &&& final(self)@.last == old(self)@.last
                &&& final(self)@.numbers == old(self)@.numbers
            },
            old(self)@.last != Some(screen@) ==> {
                &&& name matches Some(n)
                &&& n@ == file_name(old(self)@.next_number(), time@, tag@)
                &&& final(self)@.last == Some(screen@)
                &&& final(self)@.numbers == old(self)@.numbers.push(old(self)@.next_number())
            },
    {
        proof {
            use_type_invariant(&*self);
        }
        let repeat = match &self.last {
            Some(last) => last.same_as(&screen),
            None => false,
        };
        self.count = self.count + 1;
        if repeat {
            None
        } else {
            let name = name_file(self.count, time, tag);
            self.last = Some(screen);
            self.numbers = Ghost(self.numbers@.push(self.count as nat));
            Some(name)
        }
    }

    /// Ends the session: gives the frame that was written last and the name
    /// of the file that holds it once more, if there was a frame. The file
    /// bears the number behind that of the last frame, which is above every
    /// number of the session; the writer is used up, so that no later file
    /// can take that number.
    pub fn finish(self, time: &str) -> (file: Option<(String, PNG)>)
        requires
            self@.count < u64::MAX,
        ensures
            self@.wf(),
            strictly_increasing(self@.numbers.push(self@.next_number())),
            match self@.last {
                Some(frame) => {
                    &&& file matches Some((name, png))
                    &&& name@ == file_name(self@.next_number(), time@, "last"@)
                    &&& png@ == frame
                },
                None => file is None,
            },
    {
        proof {
            use_type_invariant(&self);
            lemma_numbers_of_a_session_increase(self@);
        }
        let name = name_file(self.count + 1, time, "last");
        match self.last {
            Some(png) => Some((name, png)),
            None => None,
        }
    }
}

/// The files of a session bear strictly increasing numbers, the last file
/// included: the number of the next file is above every number handed out
/// before, so that the numbers still grow from file to file once it is
/// handed out.
pub proof fn lemma_numbers_of_a_session_increase(w: WriterView)
    requires
        w.wf(),
    ensures
        forall|i: int| 0 <= i < w.numbers.len() ==> #[trigger] w.numbers[i] < w.next_number(),
        strictly_increasing(w.numbers.push(w.next_number())),
        (WriterView {
            count: w.next_number(),
            numbers: w.numbers.push(w.next_number()),
            ..w
        }).wf(),
{
}

/// Files of a session that bear different numbers bear different names,
/// whatever their times and tags: the number stands right behind `output-`
/// and ends at the first `-`.
pub proof fn lemma_numbers_tell_names_apart(
    a: nat,
    b: nat,
    time_a: Seq<char>,
    time_b: Seq<char>,
    tag_a: Seq<char>,
    tag_b: Seq<char>,
)
    requires
        a != b,
    ensures
        file_name(a, time_a, tag_a) != file_name(b, time_b, tag_b),
{
    let head = "output-"@;
    let da = padded_digits(a, INDEX_WIDTH as nat);
    let db = padded_digits(b, INDEX_WIDTH as nat);
    let na = file_name(a, time_a, tag_a);
    let nb = file_name(b, time_b, tag_b);
    reveal_strlit("-");
    lemma_padded_value(a, INDEX_WIDTH as nat);
    lemma_padded_value(b, INDEX_WIDTH as nat);
    if na == nb {
        assert(na =~= head + (da + ("-"@ + time_a + "-"@ + tag_a + ".png"@)));
        assert(nb =~= head + (db + ("-"@ + time_b + "-"@ + tag_b + ".png"@)));
        let ra = da + ("-"@ + time_a + "-"@ + tag_a + ".png"@);
        let rb = db + ("-"@ + time_b + "-"@ + tag_b + ".png"@);
        assert(ra =~= na.subrange(head.len() as int, na.len() as int));
        assert(rb =~= nb.subrange(head.len() as int, nb.len() as int));
        assert(ra == rb);
        // Both numbers end where the first character that is no digit stands.
        if da.len() < db.len() {
            assert(ra[da.len() as int] == '-');
            assert(rb[da.len() as int] == db[da.len() as int]);
            assert(is_digit(db[da.len() as int]));
        } else if db.len() < da.len() {
            assert(rb[db.len() as int] == '-');
            assert(ra[db.len() as int] == da[db.len() as int]);
            assert(is_digit(da[db.len() as int]));
        } else {
            assert(da =~= ra.subrange(0, da.len() as int));
            assert(db =~= rb.subrange(0, db.len() as int));
        }
    }
}

/// The padded digits of a number are digits, and they write the number.
pub proof fn lemma_padded_value(n: nat, width: nat)
    ensures
        all_digits(padded_digits(n, width)),
        decimal_value(padded_digits(n, width)) == n,
    decreases n,
{
    let rest = if width > 0 {
        (width - 1) as nat
    } else {
        0
    };
    let p = padded_digits(n, width);
    assert(digit_value(digit_char(n % 10)) == n % 10);
    assert(is_digit(digit_char(n % 10)));
    if n < 10 {
        lemma_zeros_value(rest);
        assert(p.drop_last() =~= Seq::new(rest, |i: int| '0'));
    } else {
        lemma_padded_value(n / 10, rest);
        assert(p.drop_last() =~= padded_digits(n / 10, rest));
    }
}

/// Zeros write zero.
pub proof fn lemma_zeros_value(k: nat)
    ensures
        decimal_value(Seq::new(k, |i: int| '0')) == 0,
    decreases k,
{
    if k > 0 {
        lemma_zeros_value((k - 1) as nat);
        assert(Seq::new(k, |i: int| '0').drop_last() =~= Seq::new((k - 1) as nat, |i: int| '0'));
    }
}

} // verus!
