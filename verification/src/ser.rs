//! The text serializer: the calls of the data model, written out through a
//! [`Formatter`].
//!
//! Numbers of every width go through one signed and one unsigned path of 128
//! bits. The decimal text of a float is not computed here: the serializer is
//! given a function from the bits of a float to its text and calls it.

use crate::pretty::{bool_text, Config, Formatter};
use crate::token::{base64_standard, char_escape_debug, decimal_digits, str_escape_debug};
use crate::error::Error;
use crate::value::float::Float;
use crate::value::number::{Integer, Sign};
use crate::value::ser::{fits, renderable, text_of, text_until_failure, written};
use crate::value::{FieldsView, StructView, Value, ValueView};
use vstd::prelude::*;
use vstd::string::StrSliceExecFns;
use vstd::string::StringExecFns;

verus! {

/// The text that the float printer `f` gives for the float with these bits.
pub open spec fn printed<F: Fn(u64) -> String>(f: F, bits: u64) -> Seq<char> {
    (choose|r: String| call_ensures(f, (bits,), r))@
}

/// Whether `f` can stand for a float printer: it accepts every bit pattern
/// and gives one text for each.
pub open spec fn steady<F: Fn(u64) -> String>(f: F) -> bool {
    &&& forall|bits: u64| call_requires(f, (bits,))
    &&& forall|bits: u64, r1: String, r2: String|
        call_ensures(f, (bits,), r1) && call_ensures(f, (bits,), r2) ==> r1@ == r2@
}

/// The text of a signed integer: its sign, always, and its decimal digits.
pub open spec fn integer_text(v: int) -> Seq<char> {
    if v >= 0 {
        "+"@ + decimal_digits(v as nat)
    } else {
        "-"@ + decimal_digits((-v) as nat)
    }
}

/// A serializer that appends to the text in `writer`.
pub struct Serializer<F> {
    pub writer: String,
    pub formatter: Formatter,
    /// The decimal text of the float with the given bits.
    pub float_text: F,
}

impl<F: Fn(u64) -> String> Serializer<F> {
    /// Whether `self` is `before` with `text` appended and the printer's
    /// state untouched.
    pub open spec fn wrote(self, before: Self, text: Seq<char>) -> bool {
        &&& self.float_text == before.float_text
        &&& self.formatter == before.formatter
        &&& self.writer@ =~= before.writer@ + text
    }

    /// Whether `self` is `before` with `text` appended and one more bracket open.
    pub open spec fn opened(self, before: Self, text: Seq<char>) -> bool {
        &&& self.float_text == before.float_text
        &&& self.formatter == before.formatter.opened()
        &&& self.writer@ =~= before.writer@ + text
    }

    /// A serializer with empty output, at nesting depth zero.
    pub fn new(config: Config, float_text: F) -> (r: Self)
        ensures
            r.writer@ == Seq::<char>::empty(),
            r.formatter == (Formatter { config, depth: 0, not_first: false }),
            r.float_text == float_text,
    {
        Serializer { writer: String::new(), formatter: Formatter::new(config), float_text }
    }

    /// The text written so far.
    pub fn into_inner(self) -> (r: String)
        ensures
            r@ == self.writer@,
    {
        self.writer
    }

    /// Writes `true` or `false`.
    pub fn serialize_bool(&mut self, v: bool)
        ensures
            final(self).wrote(*old(self), bool_text(v)),
    {
        self.formatter.write_bool(&mut self.writer, v);
    }

    /// Writes a signed integer: see [`Serializer::serialize_i128`].
    pub fn serialize_i8(&mut self, v: i8)
        ensures
            final(self).wrote(*old(self), integer_text(v as int)),
    {
        self.serialize_i128(v as i128);
    }

    /// Writes a signed integer: see [`Serializer::serialize_i128`].
    pub fn serialize_i16(&mut self, v: i16)
        ensures
            final(self).wrote(*old(self), integer_text(v as int)),
    {
        self.serialize_i128(v as i128);
    }

    /// Writes a signed integer: see [`Serializer::serialize_i128`].
    pub fn serialize_i32(&mut self, v: i32)
        ensures
            final(self).wrote(*old(self), integer_text(v as int)),
    {
        self.serialize_i128(v as i128);
    }

    /// Writes a signed integer: see [`Serializer::serialize_i128`].
    pub fn serialize_i64(&mut self, v: i64)
        ensures
            final(self).wrote(*old(self), integer_text(v as int)),
    {
        self.serialize_i128(v as i128);
    }

    /// Writes a signed integer as its sign, `+` included, and the decimal
    /// digits of its magnitude. The most negative value is written in full.
    pub fn serialize_i128(&mut self, v: i128)
        ensures
            final(self).wrote(*old(self), integer_text(v as int)),
    {
        let (sign, magnitude) = split_i128(v);
        self.formatter.write_signed(&mut self.writer, (sign, magnitude));
    }

    /// Writes an unsigned integer: see [`Serializer::serialize_u128`].
    pub fn serialize_u8(&mut self, v: u8)
        ensures
            final(self).wrote(*old(self), decimal_digits(v as nat)),
    {
        self.serialize_u128(v as u128);
    }

    /// Writes an unsigned integer: see [`Serializer::serialize_u128`].
    pub fn serialize_u16(&mut self, v: u16)
        ensures
            final(self).wrote(*old(self), decimal_digits(v as nat)),
    {
        self.serialize_u128(v as u128);
    }

    /// Writes an unsigned integer: see [`Serializer::serialize_u128`].
    pub fn serialize_u32(&mut self, v: u32)
        ensures
            final(self).wrote(*old(self), decimal_digits(v as nat)),
    {
        self.serialize_u128(v as u128);
    }

    /// Writes an unsigned integer: see [`Serializer::serialize_u128`].
    pub fn serialize_u64(&mut self, v: u64)
        ensures
            final(self).wrote(*old(self), decimal_digits(v as nat)),
    {
        self.serialize_u128(v as u128);
    }

    /// Writes an unsigned integer as its decimal digits, without a sign.
    pub fn serialize_u128(&mut self, v: u128)
        ensures
            final(self).wrote(*old(self), decimal_digits(v as nat)),
    {
        self.formatter.write_unsigned(&mut self.writer, Integer { raw: v });
    }

    /// Writes a float as the text that the float printer gives for its bits.
    pub fn serialize_f64(&mut self, v: Float)
        requires
            steady(old(self).float_text),
        ensures
            final(self).wrote(*old(self), printed(old(self).float_text, v.bits)),
    {
        let text = (self.float_text)(v.bits);
        self.formatter.write_float(&mut self.writer, text.as_str());
    }

    /// Writes a character between single quotes, escaped.
    pub fn serialize_char(&mut self, v: char)
        ensures
            final(self).wrote(*old(self), "'"@ + char_escape_debug(v) + "'"@),
    {
        self.formatter.write_char(&mut self.writer, v);
    }

    /// Writes a text between double quotes, escaped.
    pub fn serialize_str(&mut self, v: &str)
        ensures
            final(self).wrote(*old(self), "\""@ + str_escape_debug(v@) + "\""@),
    {
        self.formatter.write_string(&mut self.writer, v);
    }

    /// Writes bytes as `b"` and their base64 between double quotes.
    pub fn serialize_bytes(&mut self, v: &[u8])
        ensures
            final(self).wrote(*old(self), "b\""@ + base64_standard(v@) + "\""@),
    {
        self.formatter.write_bytes(&mut self.writer, v);
    }

    /// Writes an absent optional value as the unit variant `None`.
    pub fn serialize_none(&mut self)
        ensures
            final(self).wrote(*old(self), "None"@),
    {
        self.serialize_unit_variant("Option", 0, "None");
    }

    /// Writes the unit value `()`.
    pub fn serialize_unit(&mut self)
        ensures
            final(self).wrote(*old(self), "()"@),
    {
        self.formatter.write_unit(&mut self.writer, None);
    }

    /// Writes a unit struct as its bare name.
    pub fn serialize_unit_struct(&mut self, name: &'static str)
        ensures
            final(self).wrote(*old(self), name@),
    {
        self.formatter.write_unit(&mut self.writer, Some(name));
    }

    /// Writes a unit variant as the bare name of the variant; the name of
    /// the enum and the index play no part.
    pub fn serialize_unit_variant(
        &mut self,
        name: &'static str,
        variant_index: u32,
        variant: &'static str,
    )
        ensures
            final(self).wrote(*old(self), variant@),
    {
        self.serialize_unit_struct(variant);
    }

    /// Opens a sequence: writes `[`. The length plays no part.
    pub fn serialize_seq(&mut self, len: Option<usize>)
        requires
            old(self).formatter.depth < usize::MAX,
        ensures
            final(self).opened(*old(self), "["@),
    {
        self.formatter.begin_array(&mut self.writer);
    }

    /// Opens a tuple: writes `(`. The length plays no part.
    pub fn serialize_tuple(&mut self, len: usize)
        requires
            old(self).formatter.depth < usize::MAX,
        ensures
            final(self).opened(*old(self), "("@),
    {
        self.formatter.begin_struct(&mut self.writer, None);
    }

    /// Opens a tuple struct: writes the name and `(`. The length plays no part.
    pub fn serialize_tuple_struct(&mut self, name: &'static str, len: usize)
        requires
            old(self).formatter.depth < usize::MAX,
        ensures
            final(self).opened(*old(self), name@ + "("@),
    {
        self.formatter.begin_struct(&mut self.writer, Some(name));
    }

    /// Opens a tuple variant: writes the name of the variant and `(`. The
    /// name of the enum, the index and the length play no part.
    pub fn serialize_tuple_variant(
        &mut self,
        name: &'static str,
        variant_index: u32,
        variant: &'static str,
        len: usize,
    )
        requires
            old(self).formatter.depth < usize::MAX,
        ensures
            final(self).opened(*old(self), variant@ + "("@),
    {
        self.serialize_tuple_struct(variant, len);
    }

    /// Opens a map: writes `{`. The length plays no part.
    pub fn serialize_map(&mut self, len: Option<usize>)
        requires
            old(self).formatter.depth < usize::MAX,
        ensures
            final(self).opened(*old(self), "{"@),
    {
        self.formatter.begin_map(&mut self.writer);
    }

    /// Opens a struct: writes the name and `(`. The length plays no part.
    pub fn serialize_struct(&mut self, name: &'static str, len: usize)
        requires
            old(self).formatter.depth < usize::MAX,
        ensures
            final(self).opened(*old(self), name@ + "("@),
    {
        self.formatter.begin_struct(&mut self.writer, Some(name));
    }

    /// Opens a struct variant: writes the name of the variant and `(`. The
    /// name of the enum, the index and the length play no part.
    pub fn serialize_struct_variant(
        &mut self,
        name: &'static str,
        variant_index: u32,
        variant: &'static str,
        len: usize,
    )
        requires
            old(self).formatter.depth < usize::MAX,
        ensures
            final(self).opened(*old(self), variant@ + "("@),
    {
        self.serialize_struct(variant, len);
    }
}

/// The view of a record named `name` with `inner` as its one unnamed field.
pub open spec fn wrapped(name: Seq<char>, inner: ValueView) -> ValueView {
    ValueView::Struct(
        StructView { name: Some(name), fields: Some(FieldsView::Unnamed(seq![inner])) },
    )
}

impl<F: Fn(u64) -> String> Serializer<F> {
    /// Writes a present optional value as the variant `Some` around it.
    pub fn serialize_some(&mut self, value: &Value) -> (r: Result<(), Error>)
        requires
            steady(old(self).float_text),
            fits(wrapped("Some"@, value@), old(self).formatter.depth as nat),
        ensures
            written(
                *old(self),
                *final(self),
                r,
                renderable(value@),
                text_of(
                    wrapped("Some"@, value@),
                    old(self).formatter.config,
                    old(self).formatter.depth as nat,
                    old(self).float_text,
                ),
                text_until_failure(
                    wrapped("Some"@, value@),
                    old(self).formatter.config,
                    old(self).formatter.depth as nat,
                    old(self).float_text,
                ),
                true,
            ),
    {
        self.serialize_newtype_variant("Option", 1, "Some", value)
    }

    /// Writes a newtype struct as the value inside it: the wrapper and its
    /// name leave no trace.
    pub fn serialize_newtype_struct(&mut self, name: &'static str, value: &Value) -> (r: Result<
        (),
        Error,
    >)
        requires
            steady(old(self).float_text),
            fits(value@, old(self).formatter.depth as nat),
        ensures
            written(
                *old(self),
                *final(self),
                r,
                renderable(value@),
                text_of(
                    value@,
                    old(self).formatter.config,
                    old(self).formatter.depth as nat,
                    old(self).float_text,
                ),
                text_until_failure(
                    value@,
                    old(self).formatter.config,
                    old(self).formatter.depth as nat,
                    old(self).float_text,
                ),
                crate::value::ser::bracketed(value@),
            ),
    {
        value.serialize(self)
    }

    /// Writes a newtype variant as a tuple struct that has the name of the
    /// variant and the value as its one field.
    pub fn serialize_newtype_variant(
        &mut self,
        name: &'static str,
        variant_index: u32,
        variant: &'static str,
        value: &Value,
    ) -> (r: Result<(), Error>)
        requires
            steady(old(self).float_text),
            fits(wrapped(variant@, value@), old(self).formatter.depth as nat),
        ensures
            written(
                *old(self),
                *final(self),
                r,
                renderable(value@),
                text_of(
                    wrapped(variant@, value@),
                    old(self).formatter.config,
                    old(self).formatter.depth as nat,
                    old(self).float_text,
                ),
                text_until_failure(
                    wrapped(variant@, value@),
                    old(self).formatter.config,
                    old(self).formatter.depth as nat,
                    old(self).float_text,
                ),
                true,
            ),
    {
        let ghost inner = seq![value@];
        let ghost before = *self;
        proof {
            reveal(crate::pretty::comma_text);
            lemma_wrapped(
                variant@,
                value@,
                before.formatter.config,
                before.formatter.depth as nat,
                before.float_text,
            );
        }
        self.serialize_tuple_struct(variant, 1);
        self.formatter.begin_struct_field(&mut self.writer, None);
        match value.serialize(self) {
            Ok(()) => {},
            Err(e) => {
                return Err(e);
            },
        }
        self.formatter.end_struct_field(&mut self.writer);
        self.formatter.end_struct(&mut self.writer);
        Ok(())
    }
}

/// What a record with one unnamed field comes to: it fits and can be
/// written exactly when the field does, and its text is the name, `(`, the
/// field after its indentation, the closing indentation and `)`. Where the
/// field cannot be written, what has been written is the name, `(`, the
/// indentation, and the field as far as it goes.
pub proof fn lemma_wrapped<F: Fn(u64) -> String>(
    name: Seq<char>,
    inner: ValueView,
    cfg: Config,
    depth: nat,
    f: F,
)
    ensures
        fits(wrapped(name, inner), depth) <==> depth < usize::MAX && fits(inner, depth + 1),
        renderable(wrapped(name, inner)) <==> renderable(inner),
        text_of(wrapped(name, inner), cfg, depth, f) =~= name + "("@ + cfg.indent_text(depth + 1)
            + text_of(inner, cfg, depth + 1, f) + cfg.close_text(depth, true) + ")"@,
        text_until_failure(wrapped(name, inner), cfg, depth, f) =~= name + "("@ + cfg.indent_text(
            depth + 1,
        ) + text_until_failure(inner, cfg, depth + 1, f),
{
    reveal(crate::pretty::comma_text);
    let items = seq![inner];
    let fields = FieldsView::Unnamed(items);
    let w = wrapped(name, inner);
    assert(w->Struct_0.fields->Some_0 == fields);
    assert(fields->Unnamed_0 == items);
    assert(items[0] == inner);
    assert(fits(w, depth) <==> depth < usize::MAX && crate::value::ser::fields_fit(fields, depth + 1));
    assert(renderable(w) <==> crate::value::ser::renderable_fields(fields));
    assert(items.drop_last() =~= Seq::<ValueView>::empty());
    assert(crate::value::ser::items_text(items.drop_last(), cfg, depth + 1, f) =~= Seq::<char>::empty());
    assert(crate::value::ser::items_text(items, cfg, depth + 1, f) =~= cfg.indent_text(depth + 1)
        + text_of(inner, cfg, depth + 1, f));
    assert(text_of(w, cfg, depth, f) == crate::value::ser::record_text(Some(name), fields, cfg, depth, f));
    assert(crate::value::ser::all_renderable(items.drop_last()));
    assert(crate::value::ser::items_until_failure(items, cfg, depth + 1, f) =~= cfg.indent_text(
        depth + 1,
    ) + text_until_failure(inner, cfg, depth + 1, f));
    assert(text_until_failure(w, cfg, depth, f) == crate::value::ser::record_until_failure(
        Some(name),
        fields,
        cfg,
        depth,
        f,
    ));
}

/// The sign and the magnitude of a signed integer. Zero is positive. The
/// magnitude of the most negative value, which no `i128` holds, is exact.
pub fn split_i128(v: i128) -> (r: (Sign, Integer))
    ensures
        r.0 == (if v >= 0 {
            Sign::Positive
        } else {
            Sign::Negative
        }),
        r.1@ == (if v >= 0 {
            v as int
        } else {
            -(v as int)
        }),
{
    if v >= 0 {
        (Sign::Positive, Integer { raw: v as u128 })
    } else if v == i128::MIN {
        (Sign::Negative, Integer { raw: 0x8000_0000_0000_0000_0000_0000_0000_0000 })
    } else {
        (Sign::Negative, Integer { raw: (-v) as u128 })
    }
}

/// Appends the text of `value`, laid out by `config`, to `writer`.
///
/// It fails exactly when `value` holds a signed integer beyond the 128-bit
/// range. What had been written by then, the text up to that integer, stays
/// in `writer`.
pub fn to_writer<F: Fn(u64) -> String>(
    writer: &mut String,
    value: &Value,
    config: Config,
    float_text: F,
) -> (r: Result<(), Error>)
    requires
        steady(float_text),
        fits(value@, 0),
    ensures
        r is Ok <==> renderable(value@),
        r is Ok ==> final(writer)@ == old(writer)@ + text_of(value@, config, 0, float_text),
        r matches Err(e) ==> e@ == crate::value::ser::out_of_range() && final(writer)@ == old(
            writer,
        )@ + text_until_failure(value@, config, 0, float_text),
{
    let mut serializer = Serializer::new(config, float_text);
    let r = value.serialize(&mut serializer);
    writer.append(serializer.writer.as_str());
    r
}

/// The text of `value`, laid out by `config`, as UTF-8 bytes.
///
/// It fails exactly when `value` holds a signed integer beyond the 128-bit range.
pub fn to_vec<F: Fn(u64) -> String>(value: &Value, config: Config, float_text: F) -> (r: Result<
    Vec<u8>,
    Error,
>)
    requires
        steady(float_text),
        fits(value@, 0),
    ensures
        r is Ok <==> renderable(value@),
        r matches Ok(bytes) ==> bytes@ == vstd::utf8::encode_utf8(
            text_of(value@, config, 0, float_text),
        ),
        r matches Err(e) ==> e@ == crate::value::ser::out_of_range(),
{
    match to_string(value, config, float_text) {
        Ok(text) => Ok(text.as_str().as_bytes_vec()),
        Err(e) => Err(e),
    }
}

/// The text of `value`, laid out by `config`. The same value, layout and
/// float printer always give the same text.
///
/// It fails exactly when `value` holds a signed integer beyond the 128-bit range.
pub fn to_string<F: Fn(u64) -> String>(value: &Value, config: Config, float_text: F) -> (r: Result<
    String,
    Error,
>)
    requires
        steady(float_text),
        fits(value@, 0),
    ensures
        r is Ok <==> renderable(value@),
        r matches Ok(text) ==> text@ == text_of(value@, config, 0, float_text),
        r matches Err(e) ==> e@ == crate::value::ser::out_of_range(),
{
    let mut serializer = Serializer::new(config, float_text);
    match value.serialize(&mut serializer) {
        Ok(()) => Ok(serializer.into_inner()),
        Err(e) => Err(e),
    }
}

/// Writing is deterministic: any two results of [`to_string`] for values
/// with the same view, under the same layout and float printer, agree. Both
/// succeed with the same text or both fail with the same error.
pub proof fn lemma_to_string_deterministic<F: Fn(u64) -> String>(
    a: &Value,
    b: &Value,
    config: Config,
    float_text: F,
    first: Result<String, Error>,
    second: Result<String, Error>,
)
    requires
        a@ == b@,
        call_ensures(to_string::<F>, (a, config, float_text), first),
        call_ensures(to_string::<F>, (b, config, float_text), second),
    ensures
        match (first, second) {
            (Ok(x), Ok(y)) => x@ == y@,
            (Err(x), Err(y)) => x@ == y@,
            _ => false,
        },
{
}

/// Sign and magnitude survive transcoding and writing. For every `i128`,
/// the most negative one included, the transcoder builds a value, and the
/// text of that value is the sign of the number, `+` included, and the
/// decimal digits of its magnitude.
pub proof fn lemma_signed_round_trip<F: Fn(u64) -> String>(
    v: i128,
    config: Config,
    float_text: F,
    built: Result<Value, Error>,
    value: Value,
    shown: Result<String, Error>,
)
    requires
        call_ensures(
            crate::value::transcode_ser::Serializer::serialize_i128,
            (crate::value::transcode_ser::Serializer, v),
            built,
        ),
        built is Ok ==> built == Ok::<Value, Error>(value),
        call_ensures(to_string::<F>, (&value, config, float_text), shown),
    ensures
        built is Ok,
        shown matches Ok(text) && text@ == integer_text(v as int),
{
    crate::value::ser::lemma_signed_survives(v as int, config, 0, float_text);
}

} // verus!
