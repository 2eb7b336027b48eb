//! The command line: the media to play and how many times to play it.
use crate::text::{parse_usize, same_text, usize_value};
use vstd::prelude::*;

verus! {

/// What the command line asks for.
#[derive(Debug)]
pub struct Args {
    uri: String,
    loop_nums: usize,
}

/// The command line as plain values.
pub struct ArgsView {
    pub uri: Seq<char>,
    pub loop_nums: usize,
}

impl View for Args {
    type V = ArgsView;

    closed spec fn view(&self) -> ArgsView {
        ArgsView { uri: self.uri@, loop_nums: self.loop_nums }
    }
}

/// Why a command line is refused.
#[derive(Debug, PartialEq, Eq, Structural, Clone, Copy)]
pub enum ArgsError {
    /// `--uri` is the last word, with no value after it.
    MissingUri,
    /// `--loop-nums` is the last word, with no value after it.
    MissingLoopNums,
    /// The value after `--loop-nums` is not an unsigned decimal number that fits a `usize`.
    BadLoopNums,
}

pub open spec fn uri_flag() -> Seq<char> {
    seq!['-', '-', 'u', 'r', 'i']
}

pub open spec fn loop_nums_flag() -> Seq<char> {
    seq!['-', '-', 'l', 'o', 'o', 'p', '-', 'n', 'u', 'm', 's']
}

/// The defaults: no media, and a loop count of zero (play forever).
pub open spec fn default_args() -> ArgsView {
    ArgsView { uri: Seq::empty(), loop_nums: 0 }
}

/// Reads `words` from index `i` on, over what was read before (`acc`). Each
/// `--uri` and `--loop-nums` takes the word after it as its value (a later
/// one overrides an earlier one); every other word is skipped. The first
/// flag that lacks a value, or a loop count that is not a number, refuses
/// the line.
pub open spec fn parse_words(words: Seq<Seq<char>>, i: nat, acc: ArgsView) -> Result<
    ArgsView,
    ArgsError,
>
    decreases words.len() - i,
{
    if i >= words.len() {
        Ok(acc)
    } else if words[i as int] == uri_flag() {
        if i + 1 >= words.len() {
            Err(ArgsError::MissingUri)
        } else {
            parse_words(words, i + 2, ArgsView { uri: words[i + 1int], ..acc })
        }
    } else if words[i as int] == loop_nums_flag() {
        if i + 1 >= words.len() {
            Err(ArgsError::MissingLoopNums)
        } else {
            match usize_value(words[i + 1int]) {
                Some(n) => parse_words(words, i + 2, ArgsView { loop_nums: n, ..acc }),
                None => Err(ArgsError::BadLoopNums),
            }
        }
    } else {
        parse_words(words, i + 1, acc)
    }
}

/// The command line `words` (the program's name first) read from the start
/// over the defaults.
pub open spec fn parse_command_line(words: Seq<Seq<char>>) -> Result<ArgsView, ArgsError> {
    parse_words(words, 0, default_args())
}


proof fn lemma_refusal_causes(words: Seq<Seq<char>>, i: nat, acc: ArgsView)
    ensures
        parse_words(words, i, acc) == Err::<ArgsView, ArgsError>(ArgsError::BadLoopNums) ==> exists|
            j: int,
        |
            0 <= j && j + 1 < words.len() && words[j] == loop_nums_flag() && #[trigger] usize_value(
                words[j + 1],
            ) is None,
        parse_words(words, i, acc) == Err::<ArgsView, ArgsError>(ArgsError::MissingUri) ==> words.len()
            > 0 && words.last() == uri_flag(),
        parse_words(words, i, acc) == Err::<ArgsView, ArgsError>(ArgsError::MissingLoopNums)
            ==> words.len() > 0 && words.last() == loop_nums_flag(),
    decreases words.len() - i,
{
    if i >= words.len() {
    } else if words[i as int] == uri_flag() {
        if i + 1 < words.len() {
            lemma_refusal_causes(words, i + 2, ArgsView { uri: words[i + 1int], ..acc });
        }
    } else if words[i as int] == loop_nums_flag() {
        if i + 1 < words.len() {
            match usize_value(words[i + 1int]) {
                Some(n) => lemma_refusal_causes(words, i + 2, ArgsView { loop_nums: n, ..acc }),
                None => {
                    assert(usize_value(words[i + 1int]) is None);
                },
            }
        }
    } else {
        lemma_refusal_causes(words, i + 1, acc);
    }
}

/// A command line is refused only for a cause in it: a loop count is
/// refused only where the word after `--loop-nums` is not a number that
/// fits (so every count that parses, zero included, is taken), and a
/// missing value only where the line ends with the flag that lacks it.
pub proof fn law_refusal_causes(words: Seq<Seq<char>>)
    ensures
        parse_command_line(words) == Err::<ArgsView, ArgsError>(ArgsError::BadLoopNums) ==> exists|
            j: int,
        |
            0 <= j && j + 1 < words.len() && words[j] == loop_nums_flag() && #[trigger] usize_value(
                words[j + 1],
            ) is None,
        parse_command_line(words) == Err::<ArgsView, ArgsError>(ArgsError::MissingUri)
            ==> words.len() > 0 && words.last() == uri_flag(),
        parse_command_line(words) == Err::<ArgsView, ArgsError>(ArgsError::MissingLoopNums)
            ==> words.len() > 0 && words.last() == loop_nums_flag(),
{
    lemma_refusal_causes(words, 0, default_args());
}

proof fn lemma_accepted_prefix(words: Seq<Seq<char>>, tail: Seq<Seq<char>>, i: nat, acc: ArgsView)
    requires
        parse_words(words, i, acc) is Ok,
        i <= words.len(),
    ensures
        parse_words(words + tail, i, acc) == parse_words(
            words + tail,
            words.len(),
            parse_words(words, i, acc)->Ok_0,
        ),
    decreases words.len() - i,
{
    let all = words + tail;
    if i < words.len() {
        assert(all[i as int] == words[i as int]);
        if words[i as int] == uri_flag() {
            assert(all[i + 1int] == words[i + 1int]);
            lemma_accepted_prefix(words, tail, i + 2, ArgsView { uri: words[i + 1int], ..acc });
        } else if words[i as int] == loop_nums_flag() {
            assert(all[i + 1int] == words[i + 1int]);
            let n = usize_value(words[i + 1int])->0;
            lemma_accepted_prefix(words, tail, i + 2, ArgsView { loop_nums: n, ..acc });
        } else {
            lemma_accepted_prefix(words, tail, i + 1, acc);
        }
    }
}

/// Adding `--loop-nums` and a number to the end of an accepted command line
/// plays the media that number of times (zero: forever), and keeps its
/// media.
pub proof fn law_loop_count_taken(words: Seq<Seq<char>>, t: Seq<char>, n: usize)
    requires
        parse_command_line(words) is Ok,
        usize_value(t) == Some(n),
    ensures
        parse_command_line(words + seq![loop_nums_flag(), t]) == Ok::<ArgsView, ArgsError>(
            ArgsView { uri: parse_command_line(words)->Ok_0.uri, loop_nums: n },
        ),
{
    let tail = seq![loop_nums_flag(), t];
    let all = words + tail;
    let r = parse_command_line(words)->Ok_0;
    lemma_accepted_prefix(words, tail, 0, default_args());
    assert(all[words.len() as int] == loop_nums_flag());
    assert(all[words.len() + 1int] == t);
    assert(loop_nums_flag() != uri_flag());
    assert(parse_words(all, words.len() + 2, ArgsView { loop_nums: n, ..r }) == Ok::<
        ArgsView,
        ArgsError,
    >(ArgsView { loop_nums: n, ..r }));
}

impl Args {
    /// Reads the command line `words`, the program's name first. A line
    /// that is refused, a flag without its value or a loop count that is
    /// not a number, gives the error that says why and no arguments: the
    /// program cannot go on without them and ends there.
    pub fn new(words: &Vec<String>) -> (res: Result<Args, ArgsError>)
        ensures
            res matches Ok(a) ==> parse_command_line(words@.map_values(|w: String| w@)) == Ok::<
                ArgsView,
                ArgsError,
            >(a@),
            res matches Err(e) ==> parse_command_line(words@.map_values(|w: String| w@)) == Err::<
                ArgsView,
                ArgsError,
            >(e),
    {
        let ghost all = words@.map_values(|w: String| w@);
        let n = words.len();
        let mut acc = Args::default();
        let mut i: usize = 0;
        proof {
            reveal_strlit("--uri");
            reveal_strlit("--loop-nums");
            assert("--uri"@ =~= uri_flag());
            assert("--loop-nums"@ =~= loop_nums_flag());
        }
        while i < n
            invariant
                n == words@.len(),
                all == words@.map_values(|w: String| w@),
                i <= n,
                "--uri"@ == uri_flag(),
                "--loop-nums"@ == loop_nums_flag(),
                parse_words(all, 0, default_args()) == parse_words(all, i as nat, acc@),
            decreases n - i,
        {
            let word = words[i].as_str();
            assert(word@ == all[i as int]);
            if same_text(word, "--uri") {
                if i + 1 >= n {
                    return Err(ArgsError::MissingUri);
                }
                let value = words[i + 1].clone();
                assert(value@ == all[i + 1]);
                acc = Args { uri: value, loop_nums: acc.loop_nums };
                i = i + 2;
            } else if same_text(word, "--loop-nums") {
                if i + 1 >= n {
                    return Err(ArgsError::MissingLoopNums);
                }
                assert(words[i + 1 as int]@ == all[i + 1]);
                match parse_usize(words[i + 1].as_str()) {
                    Some(v) => {
                        acc = Args { uri: acc.uri, loop_nums: v };
                        i = i + 2;
                    },
                    None => {
                        return Err(ArgsError::BadLoopNums);
                    },
                }
            } else {
                i = i + 1;
            }
        }
        Ok(acc)
    }

    /// The media to play, as given.
    pub fn uri(&self) -> (u: &str)
        ensures
            u@ == self@.uri,
    {
        self.uri.as_str()
    }

    /// How many times to play the media: zero loops forever.
    pub fn loop_nums(&self) -> (n: usize)
        ensures
            n == self@.loop_nums,
    {
        self.loop_nums
    }
}

impl Default for Args {
    fn default() -> (a: Self)
        ensures
            a@ == default_args(),
    {
        Args { uri: String::new(), loop_nums: 0 }
    }
}

} // verus!
