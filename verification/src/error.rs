//! The error type: a position and a cause.
//!
//! An error can be rebuilt from its displayed text. The text of an error
//! with a known position starts with `line:col:`, and [`Error::custom`]
//! reads such a prefix back into the position.

use crate::parse::Position;
use crate::token::{decimal_digits, decimal_text, digit_char};
use vstd::prelude::*;
use vstd::string::StrSliceExecFns;
use vstd::string::StringExecFns;

verus! {

/// Why an operation failed.
#[derive(Debug, Clone, PartialEq, Eq)]
pub enum Code {
    /// A failure described in words.
    Message(String),
    /// A reader or writer failed; the text is that failure's own message.
    Io(String),
    /// A byte literal was not valid base64; the text is the decoder's message.
    Base64(String),
}

/// An error: where it happened, if known, and why.
#[derive(Debug, Clone, PartialEq, Eq)]
pub struct Error {
    pub pos: Position,
    pub code: Code,
}

/// A [`Code`] with its text as a sequence of characters.
pub enum CodeView {
    Message(Seq<char>),
    Io(Seq<char>),
    Base64(Seq<char>),
}

/// An [`Error`] with its text as a sequence of characters.
pub struct ErrorView {
    pub pos: Position,
    pub code: CodeView,
}

impl CodeView {
    /// The message that the cause carries.
    pub open spec fn text(self) -> Seq<char> {
        match self {
            CodeView::Message(m) => m,
            CodeView::Io(m) => m,
            CodeView::Base64(m) => m,
        }
    }
}

impl View for Code {
    type V = CodeView;

    open spec fn view(&self) -> CodeView {
        match self {
            Code::Message(m) => CodeView::Message(m@),
            Code::Io(m) => CodeView::Io(m@),
            Code::Base64(m) => CodeView::Base64(m@),
        }
    }
}

impl View for Error {
    type V = ErrorView;

    open spec fn view(&self) -> ErrorView {
        ErrorView { pos: self.pos, code: self.code@ }
    }
}

/// An error of the `Message` kind at an unknown position.
pub open spec fn plain_message(text: Seq<char>) -> ErrorView {
    ErrorView { pos: Position::unknown(), code: CodeView::Message(text) }
}

/// Whether `c` is one of the ten decimal digits.
pub open spec fn is_digit(c: char) -> bool {
    '0' <= c <= '9'
}

/// The number that a sequence of decimal digits spells.
pub open spec fn digits_value(s: Seq<char>) -> nat
    decreases s.len(),
{
    if s.len() == 0 {
        0
    } else {
        digits_value(s.drop_last()) * 10 + (s.last() as nat - 48) as nat
    }
}

/// Whether `s` is a non-empty run of digits that spells a number within `usize`.
pub open spec fn is_number(s: Seq<char>) -> bool {
    &&& s.len() > 0
    &&& forall|i: int| 0 <= i < s.len() ==> is_digit(#[trigger] s[i])
    &&& digits_value(s) <= usize::MAX
}

/// The index of the first `:` in `s` at or after `from`, or the length of
/// `s` where there is none.
pub open spec fn colon_at(s: Seq<char>, from: nat) -> nat
    decreases s.len() - from,
{
    if from >= s.len() {
        s.len()
    } else if s[from as int] == ':' {
        from
    } else {
        colon_at(s, from + 1)
    }
}

/// The position that `s` starts with and the rest of `s`, where `s` has the
/// shape `digits:digits:rest`, both numbers within `usize`. The two colons
/// are the first two of `s`.
pub open spec fn position_prefix(s: Seq<char>) -> Option<(Position, Seq<char>)> {
    let c1 = colon_at(s, 0);
    let c2 = colon_at(s, c1 + 1);
    let line = s.subrange(0, c1 as int);
    let col = s.subrange((c1 + 1) as int, c2 as int);
    if c1 < s.len() && c2 < s.len() && is_number(line) && is_number(col) {
        Some(
            (
                Position { line: digits_value(line) as usize, col: digits_value(col) as usize },
                s.subrange((c2 + 1) as int, s.len() as int),
            ),
        )
    } else {
        None
    }
}

/// What [`Error::custom`] makes of the text `s`.
pub open spec fn custom_of(s: Seq<char>) -> ErrorView {
    match position_prefix(s) {
        Some((pos, rest)) => ErrorView { pos, code: CodeView::Message(rest) },
        None => plain_message(s),
    }
}

/// The displayed text of an error: the message, after `line:col: ` where the
/// position is known.
pub open spec fn display_text(e: ErrorView) -> Seq<char> {
    if e.pos != Position::unknown() {
        decimal_digits(e.pos.line as nat) + ":"@ + decimal_digits(e.pos.col as nat) + ": "@
            + e.code.text()
    } else {
        e.code.text()
    }
}

/// A run of digits spells at least as much as any of its prefixes.
proof fn lemma_digits_value_prefix(s: Seq<char>, k: int)
    requires
        0 <= k <= s.len(),
    ensures
        digits_value(s.subrange(0, k)) <= digits_value(s),
    decreases s.len() - k,
{
    if k == s.len() {
        assert(s.subrange(0, k) =~= s);
    } else {
        assert(s.drop_last().subrange(0, k) =~= s.subrange(0, k));
        lemma_digits_value_prefix(s.drop_last(), k);
    }
}

/// The index of the first `:` of `s` at or after `from`, or `n`, the length of `s`.
fn find_colon(s: &str, n: usize, from: usize) -> (r: usize)
    requires
        n == s@.len(),
        from <= n,
    ensures
        r == colon_at(s@, from as nat),
        from <= r <= n,
        r < n ==> s@[r as int] == ':',
{
    let mut i: usize = from;
    while i < n
        invariant
            from <= i <= n,
            n == s@.len(),
            colon_at(s@, from as nat) == colon_at(s@, i as nat),
        decreases n - i,
    {
        if s.get_char(i) == ':' {
            return i;
        }
        i = i + 1;
    }
    i
}

/// The number that the characters of `s` from `from` up to `to` spell, if
/// they are a non-empty run of digits within `usize`.
fn parse_number(s: &str, from: usize, to: usize) -> (r: Option<usize>)
    requires
        from <= to <= s@.len(),
    ensures
        r is Some <==> is_number(s@.subrange(from as int, to as int)),
        r matches Some(v) ==> v == digits_value(s@.subrange(from as int, to as int)),
{
    let ghost run = s@.subrange(from as int, to as int);
    if from == to {
        return None;
    }
    let mut acc: usize = 0;
    let mut i: usize = from;
    while i < to
        invariant
            from <= i <= to <= s@.len(),
            run == s@.subrange(from as int, to as int),
            forall|k: int| 0 <= k < i - from ==> is_digit(#[trigger] run[k]),
            acc == digits_value(run.subrange(0, i - from)),
        decreases to - i,
    {
        let c = s.get_char(i);
        assert(c == run[i - from]);
        if !('0' <= c && c <= '9') {
            return None;
        }
        let d: usize = (c as u32 - 48) as usize;
        assert(run.subrange(0, i - from + 1).drop_last() =~= run.subrange(0, i - from));
        if acc > (usize::MAX - d) / 10 {
            proof {
                lemma_digits_value_prefix(run, i - from + 1);
            }
            return None;
        }
        acc = acc * 10 + d;
        i = i + 1;
    }
    assert(run.subrange(0, to - from) =~= run);
    Some(acc)
}

impl Code {
    /// The message that the cause carries.
    pub fn text(&self) -> (r: &str)
        ensures
            r@ == self@.text(),
    {
        match self {
            Code::Message(m) => m.as_str(),
            Code::Io(m) => m.as_str(),
            Code::Base64(m) => m.as_str(),
        }
    }
}

impl Error {
    /// A failure described in words, at an unknown position.
    pub fn message(text: String) -> (r: Error)
        ensures
            r@ == plain_message(text@),
    {
        Error { pos: Position { line: 0, col: 0 }, code: Code::Message(text) }
    }

    /// A failure described in words, at `pos`.
    pub fn at(pos: Position, text: String) -> (r: Error)
        ensures
            r@ == (ErrorView { pos, code: CodeView::Message(text@) }),
    {
        Error { pos, code: Code::Message(text) }
    }

    /// A failure of a reader or writer, whose own message is `text`.
    pub fn io(text: String) -> (r: Error)
        ensures
            r@ == (ErrorView { pos: Position::unknown(), code: CodeView::Io(text@) }),
    {
        Error { pos: Position { line: 0, col: 0 }, code: Code::Io(text) }
    }

    /// A failure to decode base64, whose own message is `text`.
    pub fn base64(text: String) -> (r: Error)
        ensures
            r@ == (ErrorView { pos: Position::unknown(), code: CodeView::Base64(text@) }),
    {
        Error { pos: Position { line: 0, col: 0 }, code: Code::Base64(text) }
    }

    /// Where the error happened; `(0, 0)` if that is not known.
    pub fn position(&self) -> (r: Position)
        ensures
            r == self.pos,
    {
        self.pos
    }

    /// Why the operation failed.
    pub fn code(&self) -> (r: &Code)
        ensures
            *r == self.code,
    {
        &self.code
    }

    /// Builds an error from displayed text. Where the text starts with
    /// `digits:digits:`, those two numbers become the position and what
    /// follows the second colon becomes the message; otherwise the position
    /// is unknown and the whole text is the message.
    pub fn custom(msg: String) -> (r: Error)
        ensures
            r@ == custom_of(msg@),
    {
        let s = msg.as_str();
        let n = s.unicode_len();
        let colon1 = find_colon(s, n, 0);
        if colon1 < n {
            let colon2 = find_colon(s, n, colon1 + 1);
            if colon2 < n {
                if let Some(line) = parse_number(s, 0, colon1) {
                    if let Some(col) = parse_number(s, colon1 + 1, colon2) {
                        let rest = s.substring_char(colon2 + 1, n);
                        let text = String::from_str(rest);
                        return Error { pos: Position { line, col }, code: Code::Message(text) };
                    }
                }
            }
        }
        Error { pos: Position { line: 0, col: 0 }, code: Code::Message(msg) }
    }

    /// The displayed text: the message, after `line:col: ` where the
    /// position is known.
    pub fn to_string(&self) -> (r: String)
        ensures
            r@ == display_text(self@),
    {
        let mut out = String::new();
        if self.pos.line != 0 || self.pos.col != 0 {
            let line = decimal_text(self.pos.line as u128);
            let col = decimal_text(self.pos.col as u128);
            out.append(line.as_str());
            out.append(":");
            out.append(col.as_str());
            out.append(": ");
        }
        out.append(self.code.text());
        out
    }
}

/// The decimal digits of a number are a non-empty run of digits that spells it.
pub proof fn lemma_decimal_digits_spell(n: nat)
    ensures
        decimal_digits(n).len() > 0,
        forall|i: int| 0 <= i < decimal_digits(n).len() ==> is_digit(#[trigger] decimal_digits(n)[i]),
        digits_value(decimal_digits(n)) == n,
    decreases n,
{
    let s = decimal_digits(n);
    if n < 10 {
        assert(s.drop_last() =~= Seq::<char>::empty());
        assert(digits_value(s.drop_last()) == 0);
        assert(s.last() == digit_char(n));
        assert(s.last() as nat == 48 + n);
    } else {
        lemma_decimal_digits_spell(n / 10);
        assert(s.drop_last() =~= decimal_digits(n / 10));
        assert(s.last() == digit_char(n % 10));
        assert(s.last() as nat == 48 + n % 10);
    }
}

/// Where digits lead up to a colon, that colon is the first one.
proof fn lemma_colon_after_digits(s: Seq<char>, from: nat, k: nat)
    requires
        from <= k < s.len(),
        s[k as int] == ':',
        forall|i: int| from <= i < k ==> is_digit(#[trigger] s[i]),
    ensures
        colon_at(s, from) == k,
    decreases k - from,
{
    if from < k {
        assert(is_digit(s[from as int]));
        lemma_colon_after_digits(s, from + 1, k);
    }
}

/// An error with a known position is read back from its displayed text:
/// [`Error::custom`] on the text that [`Error::to_string`] gives recovers the
/// position exactly, and the message behind the blank that follows the prefix.
pub proof fn lemma_custom_reads_display(pos: Position, msg: Seq<char>)
    requires
        pos != Position::unknown(),
    ensures
        custom_of(display_text(ErrorView { pos, code: CodeView::Message(msg) })) == (ErrorView {
            pos,
            code: CodeView::Message(" "@ + msg),
        }),
{
    let line = decimal_digits(pos.line as nat);
    let col = decimal_digits(pos.col as nat);
    let s = display_text(ErrorView { pos, code: CodeView::Message(msg) });
    reveal_strlit(":");
    reveal_strlit(": ");
    reveal_strlit(" ");
    lemma_decimal_digits_spell(pos.line as nat);
    lemma_decimal_digits_spell(pos.col as nat);
    let c1 = line.len();
    let c2 = (line.len() + 1 + col.len()) as nat;
    assert(s =~= line + seq![':'] + col + seq![':', ' '] + msg);
    assert forall|i: int| 0 <= i < c1 implies is_digit(#[trigger] s[i]) by {
        assert(s[i] == line[i]);
    }
    lemma_colon_after_digits(s, 0, c1);
    assert forall|i: int| c1 + 1 <= i < c2 implies is_digit(#[trigger] s[i]) by {
        assert(s[i] == col[i - c1 - 1]);
    }
    lemma_colon_after_digits(s, c1 + 1, c2);
    assert(s.subrange(0, c1 as int) =~= line);
    assert(s.subrange((c1 + 1) as int, c2 as int) =~= col);
    assert(s.subrange((c2 + 1) as int, s.len() as int) =~= " "@ + msg);
}

} // verus!
