//! Deterministic names of a job's files.
use vstd::prelude::*;
use vstd::string::StringExecFns;

verus! {

/// The text of one decimal digit.
pub open spec fn digit_text(d: nat) -> Seq<char> {
    if d == 0 {
        "0"@
    } else if d == 1 {
        "1"@
    } else if d == 2 {
        "2"@
    } else if d == 3 {
        "3"@
    } else if d == 4 {
        "4"@
    } else if d == 5 {
        "5"@
    } else if d == 6 {
        "6"@
    } else if d == 7 {
        "7"@
    } else if d == 8 {
        "8"@
    } else {
        "9"@
    }
}

/// The decimal notation of `n`, without leading zeros.
pub open spec fn decimal(n: nat) -> Seq<char>
    decreases n,
{
    if n < 10 {
        digit_text(n)
    } else {
        decimal(n / 10) + digit_text(n % 10)
    }
}

/// A count of tenths as a number with one decimal.
pub open spec fn with_one_decimal(tenths: nat) -> Seq<char> {
    decimal(tenths / 10) + "."@ + decimal(tenths % 10)
}

/// The count of tenths nearest to `millis` thousandths; a half rounds up.
pub open spec fn nearest_tenths(millis: nat) -> nat {
    (millis + 50) / 100
}

/// A time of `millis` milliseconds in seconds with one decimal, rounded to
/// the nearest tenth.
pub open spec fn seconds_text(millis: nat) -> Seq<char> {
    with_one_decimal(nearest_tenths(millis))
}

/// Name of the temporary audio file of the resource `id`.
pub open spec fn audio_name(id: Seq<char>) -> Seq<char> {
    "audio_"@ + id + ".mp3"@
}

/// Name of the temporary video file of the resource `id`.
pub open spec fn video_name(id: Seq<char>) -> Seq<char> {
    "video_"@ + id + ".mp4"@
}

/// Name of the final artifact: the batch position, the resource's
/// identifier and its title.
pub open spec fn final_name(position: nat, id: Seq<char>, title: Seq<char>) -> Seq<char> {
    decimal(position) + "_"@ + id + "_"@ + title + ".mp4"@
}

/// Where a file named `name` lies under the directory `dir`.
pub open spec fn path_in(dir: Seq<char>, name: Seq<char>) -> Seq<char> {
    dir + "/"@ + name
}

/// The names of one job's files, as contracts see them.
pub struct FileNamesView {
    pub audio: Seq<char>,
    pub video: Seq<char>,
    pub name: Seq<char>,
}

/// The names that a job at `position` gets for the resource `id` with `title`.
pub open spec fn file_names_of(position: nat, id: Seq<char>, title: Seq<char>) -> FileNamesView {
    FileNamesView {
        audio: audio_name(id),
        video: video_name(id),
        name: final_name(position, id, title),
    }
}

/// The names of one job's files: two temporary ones and the final artifact.
#[derive(Debug)]
pub struct FileNames {
    pub audio: String,
    pub video: String,
    pub name: String,
}

impl View for FileNames {
    type V = FileNamesView;

    open spec fn view(&self) -> FileNamesView {
        FileNamesView { audio: self.audio@, video: self.video@, name: self.name@ }
    }
}

fn append_digit(sink: &mut String, d: u128)
    requires
        d < 10,
    ensures
        final(sink)@ == old(sink)@ + digit_text(d as nat),
{
    if d == 0 {
        sink.append("0");
    } else if d == 1 {
        sink.append("1");
    } else if d == 2 {
        sink.append("2");
    } else if d == 3 {
        sink.append("3");
    } else if d == 4 {
        sink.append("4");
    } else if d == 5 {
        sink.append("5");
    } else if d == 6 {
        sink.append("6");
    } else if d == 7 {
        sink.append("7");
    } else if d == 8 {
        sink.append("8");
    } else {
        sink.append("9");
    }
}

/// Appends the decimal notation of `n` to `sink`.
pub fn append_decimal(sink: &mut String, n: u128)
    ensures
        final(sink)@ == old(sink)@ + decimal(n as nat),
    decreases n,
{
    if n < 10 {
        append_digit(sink, n);
    } else {
        append_decimal(sink, n / 10);
        append_digit(sink, n % 10);
        assert(sink@ =~= old(sink)@ + decimal(n as nat));
    }
}

/// Appends a count of tenths as a number with one decimal to `sink`.
pub fn append_one_decimal(sink: &mut String, tenths: u128)
    ensures
        final(sink)@ == old(sink)@ + with_one_decimal(tenths as nat),
{
    append_decimal(sink, tenths / 10);
    sink.append(".");
    append_decimal(sink, tenths % 10);
    assert(sink@ =~= old(sink)@ + with_one_decimal(tenths as nat));
}

/// Appends a time of `millis` milliseconds to `sink`, in seconds with one
/// decimal, rounded to the nearest tenth.
pub fn append_seconds(sink: &mut String, millis: u128)
    ensures
        final(sink)@ == old(sink)@ + seconds_text(millis as nat),
{
    let whole: u128 = millis / 100;
    let tenths: u128 = if millis % 100 >= 50 {
        whole + 1
    } else {
        whole
    };
    assert(tenths == nearest_tenths(millis as nat));
    append_one_decimal(sink, tenths);
}

impl FileNames {
    /// The names for the job at `position` on the resource `id` with `title`.
    pub fn new(position: usize, id: &str, title: &str) -> (names: Self)
        ensures
            names@ == file_names_of(position as nat, id@, title@),
    {
        let mut audio = String::new();
        audio.append("audio_");
        audio.append(id);
        audio.append(".mp3");
        assert(audio@ =~= audio_name(id@));
        let mut video = String::new();
        video.append("video_");
        video.append(id);
        video.append(".mp4");
        assert(video@ =~= video_name(id@));
        let mut name = String::new();
        append_decimal(&mut name, position as u128);
        name.append("_");
        name.append(id);
        name.append("_");
        name.append(title);
        name.append(".mp4");
        assert(name@ =~= final_name(position as nat, id@, title@));
        FileNames { audio, video, name }
    }

    /// Where the two temporary files lie under `dir`: the audio one, then
    /// the video one. These are the files to delete when the job is over.
    pub fn temporary_paths(&self, dir: &str) -> (paths: (String, String))
        ensures
            paths.0@ == path_in(dir@, self@.audio),
            paths.1@ == path_in(dir@, self@.video),
    {
        let mut audio = String::new();
        audio.append(dir);
        audio.append("/");
        audio.append(self.audio.as_str());
        assert(audio@ =~= path_in(dir@, self@.audio));
        let mut video = String::new();
        video.append(dir);
        video.append("/");
        video.append(self.video.as_str());
        assert(video@ =~= path_in(dir@, self@.video));
        (audio, video)
    }
}

/// Whether `c` is one of the ten decimal digits.
pub open spec fn is_digit(c: char) -> bool {
    0x30 <= c as u32 <= 0x39
}

/// The text of a digit is that one digit.
pub proof fn lemma_digit_text(d: nat)
    requires
        d < 10,
    ensures
        digit_text(d).len() == 1,
        digit_text(d)[0] as u32 == 0x30 + d,
{
    reveal_strlit("0");
    reveal_strlit("1");
    reveal_strlit("2");
    reveal_strlit("3");
    reveal_strlit("4");
    reveal_strlit("5");
    reveal_strlit("6");
    reveal_strlit("7");
    reveal_strlit("8");
    reveal_strlit("9");
}

/// A decimal notation is never empty and holds digits only.
pub proof fn lemma_decimal_is_digits(n: nat)
    ensures
        decimal(n).len() >= 1,
        forall|i: int| 0 <= i < decimal(n).len() ==> is_digit(#[trigger] decimal(n)[i]),
    decreases n,
{
    lemma_digit_text(n % 10);
    if n >= 10 {
        lemma_decimal_is_digits(n / 10);
    }
}

/// Two numbers with the same decimal notation are the same number.
pub proof fn lemma_decimal_is_injective(a: nat, b: nat)
    requires
        decimal(a) == decimal(b),
    ensures
        a == b,
    decreases a,
{
    lemma_digit_text(a % 10);
    lemma_digit_text(b % 10);
    lemma_decimal_is_digits(a / 10);
    lemma_decimal_is_digits(b / 10);
    if a >= 10 && b >= 10 {
        let high_a = decimal(a / 10);
        let high_b = decimal(b / 10);
        let low_a = digit_text(a % 10);
        let low_b = digit_text(b % 10);
        assert((high_a + low_a).len() == (high_b + low_b).len());
        assert((high_a + low_a)[high_a.len() as int] == low_a[0]);
        assert((high_b + low_b)[high_b.len() as int] == low_b[0]);
        assert(a % 10 == b % 10);
        assert(high_a =~= (high_a + low_a).take(high_a.len() as int));
        assert(high_b =~= (high_b + low_b).take(high_b.len() as int));
        lemma_decimal_is_injective(a / 10, b / 10);
    }
}

/// Jobs at different positions never get the same final name, whatever
/// they fetch: the position keeps the final artifacts of a batch apart.
pub proof fn lemma_final_names_differ(
    first: nat,
    first_id: Seq<char>,
    first_title: Seq<char>,
    second: nat,
    second_id: Seq<char>,
    second_title: Seq<char>,
)
    requires
        first != second,
    ensures
        final_name(first, first_id, first_title) != final_name(second, second_id, second_title),
{
    let one = final_name(first, first_id, first_title);
    let two = final_name(second, second_id, second_title);
    let digits_one = decimal(first);
    let digits_two = decimal(second);
    reveal_strlit("_");
    lemma_decimal_is_digits(first);
    lemma_decimal_is_digits(second);
    assert(one[digits_one.len() as int] == '_');
    assert(two[digits_two.len() as int] == '_');
    assert(forall|i: int| 0 <= i < digits_one.len() ==> one[i] == digits_one[i]);
    assert(forall|i: int| 0 <= i < digits_two.len() ==> two[i] == digits_two[i]);
    if one == two {
        if digits_one.len() < digits_two.len() {
            assert(is_digit(digits_two[digits_one.len() as int]));
        } else if digits_two.len() < digits_one.len() {
            assert(is_digit(digits_one[digits_two.len() as int]));
        } else {
            assert(digits_one =~= digits_two);
            lemma_decimal_is_injective(first, second);
        }
    }
}

} // verus!
