//! The options of the command line, and the name of the file that a render is written to.

use vstd::prelude::*;
use vstd::string::*;

verus! {

/// The options of a render, each with its value.
#[derive(Debug)]
pub struct Args {
    /// Report each tick.
    pub debug: bool,
    /// The limit on the number of frames.
    pub max_frames: u32,
    /// The file that holds the scene.
    pub filename: String,
    /// The file to write the video to, or `<blank>` for a name made from the time.
    pub output_filename: String,
    /// The width of the video, in pixels.
    pub frame_width: u32,
    /// The height of the video, in pixels.
    pub frame_height: u32,
}

/// What a command line gave: the switch, and of each option its value where it was given.
#[derive(Debug)]
pub struct Given {
    pub debug: bool,
    pub max_frames: Option<u32>,
    pub filename: Option<String>,
    pub output_filename: Option<String>,
    pub frame_width: Option<u32>,
    pub frame_height: Option<u32>,
}

/// The limit on the number of frames where none is given.
pub const DEFAULT_MAX_FRAMES: u32 = 600;

/// The width of the video where none is given.
pub const DEFAULT_FRAME_WIDTH: u32 = 1920;

/// The height of the video where none is given.
pub const DEFAULT_FRAME_HEIGHT: u32 = 1080;

/// A number that was given, or else its default.
pub open spec fn number_or(given: Option<u32>, default: u32) -> u32 {
    match given {
        Some(n) => n,
        None => default,
    }
}

/// A text that was given, or else its default.
pub open spec fn text_or(given: Option<String>, default: Seq<char>) -> Seq<char> {
    match given {
        Some(text) => text@,
        None => default,
    }
}

/// Gives every option its value: the one on the command line, or its default.
pub fn parse_args(given: Given) -> (args: Args)
    ensures
        args.debug == given.debug,
        args.max_frames == number_or(given.max_frames, DEFAULT_MAX_FRAMES),
        args.filename@ == text_or(given.filename, "inputs/box.json"@),
        args.output_filename@ == text_or(given.output_filename, "<blank>"@),
        args.frame_width == number_or(given.frame_width, DEFAULT_FRAME_WIDTH),
        args.frame_height == number_or(given.frame_height, DEFAULT_FRAME_HEIGHT),
{
    let max_frames: u32 = match given.max_frames {
        Some(n) => n,
        None => DEFAULT_MAX_FRAMES,
    };
    let filename: String = match given.filename {
        Some(text) => text,
        None => String::from_str("inputs/box.json"),
    };
    let output_filename: String = match given.output_filename {
        Some(text) => text,
        None => String::from_str("<blank>"),
    };
    let frame_width: u32 = match given.frame_width {
        Some(n) => n,
        None => DEFAULT_FRAME_WIDTH,
    };
    let frame_height: u32 = match given.frame_height {
        Some(n) => n,
        None => DEFAULT_FRAME_HEIGHT,
    };
    Args { debug: given.debug, max_frames, filename, output_filename, frame_width, frame_height }
}

/// A character that a time stamp's label leaves out.
pub open spec fn is_dropped(c: char) -> bool {
    c == ':' || c == ' ' || c == '-'
}

/// A text without the characters that a label leaves out.
pub open spec fn kept(text: Seq<char>) -> Seq<char>
    decreases text.len(),
{
    if text.len() == 0 {
        text
    } else if is_dropped(text.last()) {
        kept(text.drop_last())
    } else {
        kept(text.drop_last()).push(text.last())
    }
}

/// `n` is where the label of a time stamp ends: at the first full stop, or at the end of
/// a stamp without one.
pub open spec fn is_cut(stamp: Seq<char>, n: int) -> bool {
    &&& 0 <= n <= stamp.len()
    &&& forall|j: int| 0 <= j < n ==> stamp[j] != '.'
    &&& (n == stamp.len() || stamp[n] == '.')
}

/// There is one place at most where a label ends.
pub proof fn lemma_cut_unique(stamp: Seq<char>, n: int, m: int)
    requires
        is_cut(stamp, n),
        is_cut(stamp, m),
    ensures
        n == m,
{
}

/// The label of a time stamp: what stands before its first full stop, without colons,
/// spaces and hyphens.
pub fn timestamp_label(stamp: &str) -> (label: String)
    ensures
        exists|n: int| is_cut(stamp@, n) && label@ == kept(stamp@.subrange(0, n)),
{
    let len: usize = stamp.unicode_len();
    let mut label: String = String::new();
    let mut i: usize = 0;
    while i < len
        invariant
            i <= len,
            len == stamp@.len(),
            forall|j: int| 0 <= j < i ==> stamp@[j] != '.',
            label@ == kept(stamp@.subrange(0, i as int)),
        decreases len - i,
    {
        let c: char = stamp.get_char(i);
        if c == '.' {
            assert(is_cut(stamp@, i as int));
            return label;
        }
        proof {
            let next = stamp@.subrange(0, i as int + 1);
            assert(next.drop_last() =~= stamp@.subrange(0, i as int));
            assert(next.last() == c);
        }
        if !(c == ':' || c == ' ' || c == '-') {
            label.append(stamp.substring_char(i, i + 1));
            assert(stamp@.subrange(i as int, i as int + 1) =~= seq![c]);
            assert(label@ =~= kept(stamp@.subrange(0, i as int)).push(c));
        }
        i = i + 1;
    }
    assert(is_cut(stamp@, i as int));
    label
}

/// The name of the output file: the one that was chosen, or, where `<blank>` stands for
/// it, `outputs/output_`, the label of the time stamp and `.mp4`.
pub fn output_file_name(chosen: &str, stamp: &str) -> (name: String)
    ensures
        chosen@ != "<blank>"@ ==> name@ == chosen@,
        chosen@ == "<blank>"@ ==> exists|n: int|
            is_cut(stamp@, n) && name@ == "outputs/output_"@ + kept(stamp@.subrange(0, n))
                + ".mp4"@,
{
    if is_blank(chosen) {
        let label: String = timestamp_label(stamp);
        let mut name: String = String::from_str("outputs/output_");
        name.append(label.as_str());
        name.append(".mp4");
        name
    } else {
        String::from_str(chosen)
    }
}

/// Whether a text is the word that stands for no chosen name.
pub fn is_blank(text: &str) -> (blank: bool)
    ensures
        blank == (text@ == "<blank>"@),
{
    let word: &str = "<blank>";
    proof {
        reveal_strlit("<blank>");
    }
    let len: usize = text.unicode_len();
    if len != 7 {
        return false;
    }
    let mut i: usize = 0;
    while i < 7
        invariant
            i <= 7,
            text@.len() == 7,
            word@ == "<blank>"@,
            word@.len() == 7,
            forall|j: int| 0 <= j < i ==> text@[j] == word@[j],
        decreases 7 - i,
    {
        if text.get_char(i) != word.get_char(i) {
            return false;
        }
        i = i + 1;
    }
    assert(text@ =~= word@);
    true
}

} // verus!
