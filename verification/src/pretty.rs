//! The pretty-printer: indentation, separators and brackets.
//!
//! A [`Formatter`] appends tokens to a `String`. It keeps the nesting depth
//! and whether an element has already been written at the current level; the
//! [`Config`] says how deep to break lines and what one indentation step is.

use crate::token::{base64_standard, char_escape_debug, decimal_digits, str_escape_debug};
use crate::token::{base64_text, decimal_text, escape_char, escape_str};
use crate::value::number::{Integer, Sign};
use vstd::prelude::*;
use vstd::string::StringExecFns;

verus! {

/// `unit` written `n` times over.
pub open spec fn repeat(unit: Seq<char>, n: nat) -> Seq<char>
    decreases n,
{
    if n == 0 {
        Seq::empty()
    } else {
        repeat(unit, (n - 1) as nat) + unit
    }
}

/// The text of an optional name: the name, or nothing.
pub open spec fn name_text(v: Option<&str>) -> Seq<char> {
    match v {
        Some(s) => s@,
        None => Seq::empty(),
    }
}

/// The separator before an element: a comma unless it is the first.
#[verifier::opaque]
pub open spec fn comma_text(not_first: bool) -> Seq<char> {
    if not_first {
        ","@
    } else {
        Seq::empty()
    }
}

/// The sign character of a signed number.
pub open spec fn sign_text(sign: Sign) -> Seq<char> {
    match sign {
        Sign::Positive => "+"@,
        Sign::Negative => "-"@,
    }
}

/// The text of a boolean.
pub open spec fn bool_text(v: bool) -> Seq<char> {
    if v {
        "true"@
    } else {
        "false"@
    }
}

/// The text of a unit: the bare name, or `()` where there is none.
pub open spec fn unit_text(v: Option<&str>) -> Seq<char> {
    match v {
        Some(s) => s@,
        None => "()"@,
    }
}

/// One step of indentation: a number of spaces or a number of tabs, at most 255.
#[derive(Debug, Copy, Clone, PartialEq, Eq, Structural)]
pub enum Indent {
    Spaces(u8),
    Tabs(u8),
}

impl Indent {
    /// The characters of one step.
    pub open spec fn unit(self) -> Seq<char> {
        match self {
            Indent::Spaces(count) => repeat(" "@, count as nat),
            Indent::Tabs(count) => repeat("\t"@, count as nat),
        }
    }

    /// The characters of one step, as a string.
    pub fn to_string(&self) -> (r: String)
        ensures
            r@ == self.unit(),
    {
        let (glyph, count): (&str, u8) = match *self {
            Indent::Spaces(count) => (" ", count),
            Indent::Tabs(count) => ("\t", count),
        };
        let mut out = String::new();
        let mut i: u8 = 0;
        while i < count
            invariant
                i <= count,
                out@ == repeat(glyph@, i as nat),
            decreases count - i,
        {
            out.append(glyph);
            i = i + 1;
        }
        out
    }
}

impl Default for Indent {
    fn default() -> (r: Indent)
        ensures
            r == Indent::Spaces(4),
    {
        Indent::Spaces(4)
    }
}

/// How to lay the output out.
#[derive(Debug, Copy, Clone, PartialEq, Eq, Structural)]
pub struct Config {
    /// Break lines and indent down to this level of nesting; deeper levels
    /// stay on one line. Zero switches indentation off.
    pub depth_limit: usize,
    /// The indentation step.
    pub indent: Indent,
}

impl Default for Config {
    fn default() -> (r: Config)
        ensures
            r == (Config { depth_limit: usize::MAX, indent: Indent::Spaces(4) }),
    {
        Config { depth_limit: usize::MAX, indent: Indent::Spaces(4) }
    }
}

impl Config {
    /// The optional space, which follows the colon of a named field and of
    /// a map key: one space, or nothing where `depth_limit` is zero.
    #[verifier::opaque]
    pub open spec fn space(self) -> Seq<char> {
        if self.depth_limit > 0 {
            " "@
        } else {
            Seq::empty()
        }
    }

    /// What precedes an element at nesting `depth`: down to `depth_limit`, a
    /// line break and `depth` indentation steps; below it, one space. With a
    /// `depth_limit` of zero it is one space at every depth, so that no line
    /// is ever broken.
    #[verifier::opaque]
    pub open spec fn indent_text(self, depth: nat) -> Seq<char> {
        if self.depth_limit == 0 || depth > self.depth_limit {
            " "@
        } else {
            "\n"@ + repeat(self.indent.unit(), depth)
        }
    }

    /// What precedes a closing bracket that returns to nesting `depth`.
    /// Nothing if the container held no element. Otherwise the indentation
    /// of `depth`, after a trailing comma where the elements, one level
    /// deeper, each had a line of their own.
    #[verifier::opaque]
    pub open spec fn close_text(self, depth: nat, any: bool) -> Seq<char> {
        if !any {
            Seq::empty()
        } else if depth < self.depth_limit {
            ","@ + self.indent_text(depth)
        } else {
            self.indent_text(depth)
        }
    }

    /// Appends the optional space.
    pub fn write_space(&self, w: &mut String)
        ensures
            final(w)@ == old(w)@ + self.space(),
    {
        reveal(Config::space);
        if self.depth_limit > 0 {
            w.append(" ");
        }
    }

    /// Appends the indentation of nesting `depth`.
    pub fn write_indent(&self, w: &mut String, depth: usize)
        ensures
            final(w)@ == old(w)@ + self.indent_text(depth as nat),
    {
        reveal(Config::indent_text);
        if self.depth_limit == 0 || depth > self.depth_limit {
            w.append(" ");
        } else {
            w.append("\n");
            let step = self.indent.to_string();
            let mut i: usize = 0;
            while i < depth
                invariant
                    i <= depth,
                    step@ == self.indent.unit(),
                    w@ == old(w)@ + "\n"@ + repeat(self.indent.unit(), i as nat),
                decreases depth - i,
            {
                w.append(step.as_str());
                i = i + 1;
            }
        }
    }

    /// Appends what precedes a closing bracket that returns to nesting `depth`.
    pub fn write_close(&self, w: &mut String, depth: usize, any: bool)
        ensures
            final(w)@ == old(w)@ + self.close_text(depth as nat, any),
    {
        reveal(Config::close_text);
        if any {
            if depth < self.depth_limit {
                w.append(",");
            }
            self.write_indent(w, depth);
        }
    }
}

/// The printer's state: the layout, the nesting depth, and whether an element
/// has been written since the innermost open bracket.
#[derive(Debug, Copy, Clone, PartialEq, Eq, Structural)]
pub struct Formatter {
    pub config: Config,
    pub depth: usize,
    pub not_first: bool,
}

impl Default for Formatter {
    fn default() -> (r: Formatter)
        ensures
            r == (Formatter {
                config: Config { depth_limit: usize::MAX, indent: Indent::Spaces(4) },
                depth: 0,
                not_first: false,
            }),
    {
        Formatter { config: Config::default(), depth: 0, not_first: false }
    }
}

impl Formatter {
    /// A printer at nesting depth zero with the given layout.
    pub fn new(config: Config) -> (r: Formatter)
        ensures
            r == (Formatter { config, depth: 0, not_first: false }),
    {
        Formatter { config, depth: 0, not_first: false }
    }

    /// The state after an opening bracket: one level deeper, nothing written yet.
    pub open spec fn opened(self) -> Formatter {
        Formatter { config: self.config, depth: (self.depth + 1) as usize, not_first: false }
    }

    /// The state after an element or a closing bracket at nesting `depth`.
    pub open spec fn written(self, depth: nat) -> Formatter {
        Formatter { config: self.config, depth: depth as usize, not_first: true }
    }

    /// What precedes a struct field: the separator, the indentation and,
    /// for a named field, the name, a colon and the optional space.
    pub open spec fn field_lead(self, v: Option<&str>) -> Seq<char> {
        comma_text(self.not_first) + self.config.indent_text(self.depth as nat) + match v {
            Some(s) => s@ + ":"@ + self.config.space(),
            None => Seq::empty(),
        }
    }

    /// What precedes an array member or a map key: the separator and the indentation.
    pub open spec fn member_lead(self) -> Seq<char> {
        comma_text(self.not_first) + self.config.indent_text(self.depth as nat)
    }

    /// What precedes a closing bracket: see [`Config::close_text`].
    pub open spec fn close_lead(self) -> Seq<char> {
        self.config.close_text((self.depth - 1) as nat, self.not_first)
    }

    /// Appends `"` , the escaped text and `"`.
    pub fn write_string(&mut self, w: &mut String, v: &str)
        ensures
            *final(self) == *old(self),
            final(w)@ == old(w)@ + "\""@ + str_escape_debug(v@) + "\""@,
    {
        let body = escape_str(v);
        w.append("\"");
        w.append(body.as_str());
        w.append("\"");
    }

    /// Appends `b"`, the base64 of the bytes and `"`.
    pub fn write_bytes(&mut self, w: &mut String, v: &[u8])
        ensures
            *final(self) == *old(self),
            final(w)@ == old(w)@ + "b\""@ + base64_standard(v@) + "\""@,
    {
        let body = base64_text(v);
        w.append("b\"");
        w.append(body.as_str());
        w.append("\"");
    }

    /// Appends `true` or `false`.
    pub fn write_bool(&mut self, w: &mut String, v: bool)
        ensures
            *final(self) == *old(self),
            final(w)@ == old(w)@ + bool_text(v),
    {
        if v {
            w.append("true");
        } else {
            w.append("false");
        }
    }

    /// Appends the sign, always, and the decimal digits of the magnitude.
    pub fn write_signed(&mut self, w: &mut String, v: (Sign, Integer))
        ensures
            *final(self) == *old(self),
            final(w)@ == old(w)@ + sign_text(v.0) + decimal_digits(v.1@),
    {
        match v.0 {
            Sign::Positive => w.append("+"),
            Sign::Negative => w.append("-"),
        }
        self.write_unsigned(w, v.1);
    }

    /// Appends the decimal digits of the number.
    pub fn write_unsigned(&mut self, w: &mut String, v: Integer)
        ensures
            *final(self) == *old(self),
            final(w)@ == old(w)@ + decimal_digits(v@),
    {
        let digits = decimal_text(v.raw);
        w.append(digits.as_str());
    }

    /// Appends the decimal text of a float, which the caller has computed.
    pub fn write_float(&mut self, w: &mut String, text: &str)
        ensures
            *final(self) == *old(self),
            final(w)@ == old(w)@ + text@,
    {
        w.append(text);
    }

    /// Appends `'`, the escaped character and `'`.
    pub fn write_char(&mut self, w: &mut String, v: char)
        ensures
            *final(self) == *old(self),
            final(w)@ == old(w)@ + "'"@ + char_escape_debug(v) + "'"@,
    {
        let body = escape_char(v);
        w.append("'");
        w.append(body.as_str());
        w.append("'");
    }

    /// Appends the bare name of a unit, or `()` where it has none.
    pub fn write_unit(&mut self, w: &mut String, v: Option<&str>)
        ensures
            *final(self) == *old(self),
            final(w)@ == old(w)@ + unit_text(v),
    {
        match v {
            Some(name) => w.append(name),
            None => w.append("()"),
        }
    }

    /// Opens a struct: appends the name, if any, and `(`.
    pub fn begin_struct(&mut self, w: &mut String, v: Option<&str>)
        requires
            old(self).depth < usize::MAX,
        ensures
            *final(self) == old(self).opened(),
            final(w)@ == old(w)@ + name_text(v) + "("@,
    {
        self.not_first = false;
        self.depth = self.depth + 1;
        match v {
            Some(name) => w.append(name),
            None => {},
        }
        w.append("(");
    }

    /// Starts a struct field: appends [`Formatter::field_lead`].
    pub fn begin_struct_field(&mut self, w: &mut String, v: Option<&str>)
        ensures
            *final(self) == *old(self),
            final(w)@ == old(w)@ + old(self).field_lead(v),
    {
        reveal(comma_text);
        if self.not_first {
            w.append(",");
        }
        self.config.write_indent(w, self.depth);
        match v {
            Some(name) => {
                w.append(name);
                w.append(":");
                self.config.write_space(w);
            },
            None => {},
        }
    }

    /// Ends a struct field: from now on an element has been written.
    pub fn end_struct_field(&mut self, w: &mut String)
        ensures
            *final(self) == old(self).written(old(self).depth as nat),
            final(w)@ == old(w)@,
    {
        self.not_first = true;
    }

    /// Closes a struct: appends [`Formatter::close_lead`] and `)`.
    pub fn end_struct(&mut self, w: &mut String)
        requires
            old(self).depth > 0,
        ensures
            *final(self) == old(self).written((old(self).depth - 1) as nat),
            final(w)@ == old(w)@ + old(self).close_lead() + ")"@,
    {
        self.depth = self.depth - 1;
        self.config.write_close(w, self.depth, self.not_first);
        self.not_first = true;
        w.append(")");
    }

    /// Opens a map: appends `{`.
    pub fn begin_map(&mut self, w: &mut String)
        requires
            old(self).depth < usize::MAX,
        ensures
            *final(self) == old(self).opened(),
            final(w)@ == old(w)@ + "{"@,
    {
        self.not_first = false;
        self.depth = self.depth + 1;
        w.append("{");
    }

    /// Starts a map key: appends [`Formatter::member_lead`].
    pub fn begin_map_key(&mut self, w: &mut String)
        ensures
            *final(self) == *old(self),
            final(w)@ == old(w)@ + old(self).member_lead(),
    {
        reveal(comma_text);
        if self.not_first {
            w.append(",");
        }
        self.config.write_indent(w, self.depth);
    }

    /// Ends a map key: from now on an element has been written.
    pub fn end_map_key(&mut self, w: &mut String)
        ensures
            *final(self) == old(self).written(old(self).depth as nat),
            final(w)@ == old(w)@,
    {
        self.not_first = true;
    }

    /// Starts a map value: appends `:` and the optional space.
    pub fn begin_map_value(&mut self, w: &mut String)
        ensures
            *final(self) == *old(self),
            final(w)@ == old(w)@ + ":"@ + old(self).config.space(),
    {
        w.append(":");
        self.config.write_space(w);
    }

    /// Ends a map value: from now on an element has been written.
    pub fn end_map_value(&mut self, w: &mut String)
        ensures
            *final(self) == old(self).written(old(self).depth as nat),
            final(w)@ == old(w)@,
    {
        self.not_first = true;
    }

    /// Closes a map: appends [`Formatter::close_lead`] and `}`.
    pub fn end_map(&mut self, w: &mut String)
        requires
            old(self).depth > 0,
        ensures
            *final(self) == old(self).written((old(self).depth - 1) as nat),
            final(w)@ == old(w)@ + old(self).close_lead() + "}"@,
    {
        self.depth = self.depth - 1;
        self.config.write_close(w, self.depth, self.not_first);
        self.not_first = true;
        w.append("}");
    }

    /// Opens an array: appends `[`.
    pub fn begin_array(&mut self, w: &mut String)
        requires
            old(self).depth < usize::MAX,
        ensures
            *final(self) == old(self).opened(),
            final(w)@ == old(w)@ + "["@,
    {
        self.not_first = false;
        self.depth = self.depth + 1;
        w.append("[");
    }

    /// Starts an array member: appends [`Formatter::member_lead`].
    pub fn begin_array_member(&mut self, w: &mut String)
        ensures
            *final(self) == *old(self),
            final(w)@ == old(w)@ + old(self).member_lead(),
    {
        reveal(comma_text);
        if self.not_first {
            w.append(",");
        }
        self.config.write_indent(w, self.depth);
    }

    /// Ends an array member: from now on an element has been written.
    pub fn end_array_member(&mut self, w: &mut String)
        ensures
            *final(self) == old(self).written(old(self).depth as nat),
            final(w)@ == old(w)@,
    {
        self.not_first = true;
    }

    /// Closes an array: appends [`Formatter::close_lead`] and `]`.
    pub fn end_array(&mut self, w: &mut String)
        requires
            old(self).depth > 0,
        ensures
            *final(self) == old(self).written((old(self).depth - 1) as nat),
            final(w)@ == old(w)@ + old(self).close_lead() + "]"@,
    {
        self.depth = self.depth - 1;
        self.config.write_close(w, self.depth, self.not_first);
        self.not_first = true;
        w.append("]");
    }
}

} // verus!
