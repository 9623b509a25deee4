//! The event line parser: from one line of a gesture log to a gesture
//! record.
//!
//! A gesture line has the shape
//! `<device> <ACTION> <time> <fingers> <dx>/<dy> (<dx>/<dy> unaccelerated)`.
//! It is cut into tokens at runs of whitespace, at `/` and at `(`; the
//! fields are then read by position.  Parsing consults nothing but the line.

use vstd::prelude::*;
use regex::Regex;
use crate::decimal::{count_of, parse_count, parse_thousandths, thousandths_of};
use crate::gesture::{GestureAction, GestureRecord};
use crate::text::{chars_of, contains, occurs_in};

verus! {

/// What marks a line as a gesture line.
pub const MARKER: &'static str = "GESTURE_";

/// The pattern of what separates tokens: a run of whitespace, a slash or
/// an opening parenthesis.
pub const DELIMITERS: &'static str = r"[\s]+|/|\(";

/// The action token of the start of a swipe.
pub const SWIPE_BEGIN: &'static str = "GESTURE_SWIPE_BEGIN";

/// The action token of a swipe update.
pub const SWIPE_UPDATE: &'static str = "GESTURE_SWIPE_UPDATE";

/// The action token of the end of a swipe.
pub const SWIPE_END: &'static str = "GESTURE_SWIPE_END";

/// The action token of the start of a hold.
pub const HOLD_BEGIN: &'static str = "GESTURE_HOLD_BEGIN";

/// The action token of the end of a hold.
pub const HOLD_END: &'static str = "GESTURE_HOLD_END";

/// The token that follows the finger count of a gesture that was
/// cancelled.
pub const CANCELLED: &'static str = "cancelled";

/// The number of tokens of a swipe update as it is usually written.
pub const UPDATE_TOKENS: usize = 9;

/// Why a gesture line could not be read.
#[derive(Clone, Copy, Debug, PartialEq, Eq, Structural)]
pub enum ParseError {
    /// The line has fewer tokens than the fields that are to be read.
    TooFewTokens,
    /// The token in the place of the finger count is no count.
    BadFingerCount,
    /// A token in the place of a displacement is no decimal number.
    BadDisplacement,
}

/// Why the parser could not be set up.
#[derive(Clone, Copy, Debug, PartialEq, Eq, Structural)]
pub enum SetupError {
    /// The pattern of the delimiters was not accepted.
    Pattern,
}

/// `regex::Regex`, a compiled expression.  Nothing inside it is seen here.
#[verifier::external_type_specification]
#[verifier::external_body]
pub struct ExRegex(Regex);

/// `regex::Error`, the reason why a pattern did not compile.  Nothing
/// inside it is seen here.
#[verifier::external_type_specification]
#[verifier::external_body]
pub struct ExRegexError(regex::Error);

/// Whether `Regex::new` accepts a pattern, with the options and limits
/// that it sets by default.
pub uninterp spec fn accepted(pattern: Seq<char>) -> bool;

/// Whether an expression was built as `Regex::new` builds one: from its
/// pattern alone, with no option changed.  An expression that a builder
/// made with other options keeps the same pattern text and matches
/// otherwise.
pub uninterp spec fn plainly_built(expression: Regex) -> bool;

/// The pattern text of an expression: what `Regex::as_str` gives for it.
pub uninterp spec fn pattern_of(expression: Regex) -> Seq<char>;

/// The pieces that `Regex::split` cuts a text into, for an expression that
/// `Regex::new` compiled from `pattern`: the parts of the text between the
/// matches of the pattern, in order, empty ones included.
pub uninterp spec fn split_pieces(pattern: Seq<char>, text: Seq<char>) -> Seq<Seq<char>>;

/// The texts of a sequence of strings.
pub open spec fn texts(strings: Seq<String>) -> Seq<Seq<char>> {
    strings.map_values(|s: String| s@)
}

/// The pieces that are not empty, in order.
pub open spec fn nonempty(pieces: Seq<Seq<char>>) -> Seq<Seq<char>> {
    pieces.filter(|piece: Seq<char>| piece.len() > 0)
}

/// Whether a line is a gesture line: it holds the marker somewhere.
pub open spec fn has_marker(line: Seq<char>) -> bool {
    occurs_in(line, MARKER@)
}

/// Whether the tokens are those of a swipe update.
pub open spec fn names_update(tokens: Seq<Seq<char>>) -> bool {
    tokens.len() > 1 && tokens[1] == SWIPE_UPDATE@
}

/// The tokens in their regular shape.  A swipe update is sometimes written
/// with one more token after the action; where a swipe update has another
/// number of tokens than the usual nine, the token at index 2 is dropped.
/// Any other line is left as it is.
pub open spec fn normalized(tokens: Seq<Seq<char>>) -> Seq<Seq<char>> {
    if names_update(tokens) && tokens.len() != UPDATE_TOKENS && tokens.len() > 2 {
        tokens.remove(2)
    } else {
        tokens
    }
}

/// Whether the tokens say that the gesture was cancelled.
pub open spec fn says_cancelled(tokens: Seq<Seq<char>>) -> bool {
    tokens.len() > 4 && tokens[4] == CANCELLED@
}

/// The action that tokens in regular shape report.  The displacement of a
/// swipe update is read from the tokens at index 4 and 5.
pub open spec fn action_of(tokens: Seq<Seq<char>>) -> Result<GestureAction, ParseError>
    recommends
        tokens.len() >= 4,
{
    let name = tokens[1];
    if name == SWIPE_BEGIN@ {
        Ok(GestureAction::SwipeBegin)
    } else if name == SWIPE_UPDATE@ {
        if tokens.len() < 6 {
            Err(ParseError::TooFewTokens)
        } else {
            match (thousandths_of(tokens[4]), thousandths_of(tokens[5])) {
                (Some(dx), Some(dy)) => Ok(GestureAction::SwipeUpdate { dx, dy }),
                _ => Err(ParseError::BadDisplacement),
            }
        }
    } else if name == SWIPE_END@ {
        Ok(GestureAction::SwipeEnd { cancelled: says_cancelled(tokens) })
    } else if name == HOLD_BEGIN@ {
        Ok(GestureAction::HoldBegin)
    } else if name == HOLD_END@ {
        Ok(GestureAction::HoldEnd { cancelled: says_cancelled(tokens) })
    } else {
        Ok(GestureAction::Other)
    }
}

/// The record that tokens in regular shape stand for: the action is named
/// by the token at index 1, the finger count is the token at index 3.
pub open spec fn fields_of(tokens: Seq<Seq<char>>) -> Result<GestureRecord, ParseError> {
    if tokens.len() < 4 {
        Err(ParseError::TooFewTokens)
    } else {
        match count_of(tokens[3]) {
            None => Err(ParseError::BadFingerCount),
            Some(finger_count) => match action_of(tokens) {
                Ok(action) => Ok(GestureRecord { action, finger_count }),
                Err(e) => Err(e),
            },
        }
    }
}

/// The record that the tokens of a gesture line stand for.
pub open spec fn record_of(tokens: Seq<Seq<char>>) -> Result<GestureRecord, ParseError> {
    fields_of(normalized(tokens))
}

/// What a line means, given the pieces that it is cut into at the
/// delimiters: nothing if it is no gesture line, else the record of its
/// non-empty pieces.
pub open spec fn line_meaning(line: Seq<char>, pieces: Seq<Seq<char>>) -> Result<
    Option<GestureRecord>,
    ParseError,
> {
    if !has_marker(line) {
        Ok(None)
    } else {
        match record_of(nonempty(pieces)) {
            Ok(record) => Ok(Some(record)),
            Err(e) => Err(e),
        }
    }
}

/// Compiles a pattern with `Regex::new`.  Claimed: whether the pattern
/// compiles depends on the pattern alone, and an expression that was
/// compiled is built plainly, for the pattern that was given.  Nothing is
/// claimed of which patterns compile.
#[verifier::external_body]
fn compile(pattern: &str) -> (compiled: Result<Regex, regex::Error>)
    ensures
        compiled is Ok <==> accepted(pattern@),
        compiled matches Ok(expression) ==> plainly_built(expression) && pattern_of(expression)
            == pattern@,
{
    Regex::new(pattern)
}

/// Cuts a text into pieces with `Regex::split`, each piece copied into a
/// string of its own.  Asked: the expression is built plainly.  Claimed:
/// the pieces then depend on nothing but the pattern and the text, and
/// come out in the order in which `split` yields them.
#[verifier::external_body]
fn split(expression: &Regex, text: &str) -> (pieces: Vec<String>)
    requires
        plainly_built(*expression),
    ensures
        texts(pieces@) == split_pieces(pattern_of(*expression), text@),
{
    expression.split(text).map(|piece| piece.to_string()).collect()
}

/// Whether a token is a given word.
pub fn is_word(token: &[char], word: &str) -> (r: bool)
    ensures
        r == (token@ == word@),
{
    let mut i: usize = 0;
    for c in it: word.chars()
        invariant
            i == it.index(),
            it.seq() == word@,
            i <= token@.len(),
            token@.take(i as int) == word@.take(i as int),
    {
        if i >= token.len() || token[i] != c {
            proof {
                if i < token@.len() {
                    assert(token@[i as int] != word@[i as int]);
                }
            }
            return false;
        }
        proof {
            assert(token@.take(i + 1) =~= token@.take(i as int).push(token@[i as int]));
            assert(word@.take(i + 1) =~= word@.take(i as int).push(word@[i as int]));
        }
        i = i + 1;
    }
    proof {
        assert(word@.take(i as int) =~= word@);
        if i == token@.len() {
            assert(token@.take(i as int) =~= token@);
        }
    }
    i == token.len()
}

/// Whether a line holds the gesture marker.
pub fn is_gesture_line(line: &str) -> (r: bool)
    ensures
        r == has_marker(line@),
{
    let line = chars_of(line);
    let marker = chars_of(MARKER);
    contains(line.as_slice(), marker.as_slice())
}

/// Leaves out the empty pieces.
pub fn drop_empty(pieces: Vec<String>) -> (tokens: Vec<String>)
    ensures
        texts(tokens@) == nonempty(texts(pieces@)),
{
    let mut tokens: Vec<String> = Vec::new();
    let ghost keep = |piece: Seq<char>| piece.len() > 0;
    let mut i: usize = 0;
    proof {
        reveal(Seq::filter);
        assert(texts(pieces@).take(0) =~= Seq::<Seq<char>>::empty());
        assert(texts(tokens@) =~= Seq::<Seq<char>>::empty());
    }
    while i < pieces.len()
        invariant
            0 <= i <= pieces@.len(),
            keep == |piece: Seq<char>| piece.len() > 0,
            texts(tokens@) == texts(pieces@).take(i as int).filter(keep),
        decreases pieces@.len() - i,
    {
        let ghost before = tokens@;
        let piece = &pieces[i];
        proof {
            reveal(Seq::filter);
            let seen = texts(pieces@).take(i + 1);
            assert(seen.drop_last() =~= texts(pieces@).take(i as int));
            assert(seen.last() == pieces@[i as int]@);
        }
        if !piece.as_str().is_empty() {
            tokens.push(piece.clone());
            proof {
                assert(texts(tokens@) =~= texts(before).push(pieces@[i as int]@));
            }
        }
        i = i + 1;
    }
    proof {
        assert(texts(pieces@).take(i as int) =~= texts(pieces@));
    }
    tokens
}

/// Puts the tokens of a gesture line into their regular shape.
pub fn normalize_tokens(tokens: &mut Vec<String>)
    ensures
        texts(final(tokens)@) == normalized(texts(old(tokens)@)),
{
    if tokens.len() > 2 && tokens.len() != UPDATE_TOKENS && is_word(
        chars_of(tokens[1].as_str()).as_slice(),
        SWIPE_UPDATE,
    ) {
        tokens.remove(2);
        proof {
            assert(texts(tokens@) =~= texts(old(tokens)@).remove(2));
        }
    }
}

/// Whether the tokens say that the gesture was cancelled.
fn cancelled_in(tokens: &Vec<String>) -> (r: bool)
    ensures
        r == says_cancelled(texts(tokens@)),
{
    tokens.len() > 4 && is_word(chars_of(tokens[4].as_str()).as_slice(), CANCELLED)
}

/// Reads the action from tokens in regular shape.
fn read_action(tokens: &Vec<String>) -> (r: Result<GestureAction, ParseError>)
    requires
        tokens@.len() >= 4,
    ensures
        r == action_of(texts(tokens@)),
{
    let name = chars_of(tokens[1].as_str());
    let name = name.as_slice();
    if is_word(name, SWIPE_BEGIN) {
        Ok(GestureAction::SwipeBegin)
    } else if is_word(name, SWIPE_UPDATE) {
        if tokens.len() < 6 {
            return Err(ParseError::TooFewTokens);
        }
        let x = chars_of(tokens[4].as_str());
        let y = chars_of(tokens[5].as_str());
        match (parse_thousandths(x.as_slice()), parse_thousandths(y.as_slice())) {
            (Some(dx), Some(dy)) => Ok(GestureAction::SwipeUpdate { dx, dy }),
            _ => Err(ParseError::BadDisplacement),
        }
    } else if is_word(name, SWIPE_END) {
        Ok(GestureAction::SwipeEnd { cancelled: cancelled_in(tokens) })
    } else if is_word(name, HOLD_BEGIN) {
        Ok(GestureAction::HoldBegin)
    } else if is_word(name, HOLD_END) {
        Ok(GestureAction::HoldEnd { cancelled: cancelled_in(tokens) })
    } else {
        Ok(GestureAction::Other)
    }
}

/// Reads a record from tokens in regular shape.
pub fn read_fields(tokens: &Vec<String>) -> (r: Result<GestureRecord, ParseError>)
    ensures
        r == fields_of(texts(tokens@)),
{
    if tokens.len() < 4 {
        return Err(ParseError::TooFewTokens);
    }
    let fingers = chars_of(tokens[3].as_str());
    match parse_count(fingers.as_slice()) {
        None => Err(ParseError::BadFingerCount),
        Some(finger_count) => match read_action(tokens) {
            Ok(action) => Ok(GestureRecord { action, finger_count }),
            Err(e) => Err(e),
        },
    }
}

/// Reads a record from the tokens of a gesture line.
pub fn parse_tokens(tokens: Vec<String>) -> (r: Result<GestureRecord, ParseError>)
    ensures
        r == record_of(texts(tokens@)),
{
    let mut tokens = tokens;
    normalize_tokens(&mut tokens);
    read_fields(&tokens)
}

/// Reads a record from the pieces that a gesture line was cut into at the
/// delimiters.
pub fn parse_pieces(pieces: Vec<String>) -> (r: Result<GestureRecord, ParseError>)
    ensures
        r == record_of(nonempty(texts(pieces@))),
{
    parse_tokens(drop_empty(pieces))
}

/// The parser of gesture lines.  It holds the compiled pattern of the
/// delimiters.
pub struct LineParser {
    splitter: Regex,
}

impl LineParser {
    #[verifier::type_invariant]
    spec fn splits_at_delimiters(self) -> bool {
        plainly_built(self.splitter) && pattern_of(self.splitter) == DELIMITERS@
    }

    /// The pattern at whose matches the parser cuts a line into pieces.
    pub closed spec fn pattern(&self) -> Seq<char> {
        pattern_of(self.splitter)
    }

    /// Makes a parser of what compiling the pattern of the delimiters
    /// gave: a parser that cuts at the delimiters if the pattern compiled,
    /// and the report that it did not if it did not.  An expression that is
    /// handed in has to be one that `Regex::new` built from that pattern.
    pub fn from_compiled(compiled: Result<Regex, regex::Error>) -> (r: Result<
        LineParser,
        SetupError,
    >)
        requires
            compiled matches Ok(expression) ==> plainly_built(expression) && pattern_of(
                expression,
            ) == DELIMITERS@,
        ensures
            match compiled {
                Ok(expression) => r matches Ok(parser) && parser.pattern() == DELIMITERS@,
                Err(_) => r matches Err(e) && e == SetupError::Pattern,
            },
    {
        match compiled {
            Ok(splitter) => Ok(LineParser { splitter }),
            Err(_) => Err(SetupError::Pattern),
        }
    }

    /// Sets up a parser: compiles the pattern of the delimiters and makes
    /// a parser of the outcome.  This succeeds exactly if the pattern is
    /// accepted, and the parser then cuts at the delimiters; the one
    /// failure is that the pattern was not accepted.
    pub fn new() -> (r: Result<LineParser, SetupError>)
        ensures
            r is Ok <==> accepted(DELIMITERS@),
            r matches Ok(parser) ==> parser.pattern() == DELIMITERS@,
            r matches Err(e) ==> e == SetupError::Pattern,
    {
        LineParser::from_compiled(compile(DELIMITERS))
    }

    /// Says what a line means: `Ok(None)` if it is no gesture line,
    /// `Ok(Some(..))` with its record if it is one, and an error if it is
    /// one that cannot be read.
    pub fn parse_line(&self, line: &str) -> (r: Result<Option<GestureRecord>, ParseError>)
        ensures
            r == line_meaning(line@, split_pieces(DELIMITERS@, line@)),
    {
        proof {
            use_type_invariant(self);
        }
        if !is_gesture_line(line) {
            return Ok(None);
        }
        match parse_pieces(split(&self.splitter, line)) {
            Ok(record) => Ok(Some(record)),
            Err(e) => Err(e),
        }
    }
}

} // verus!
