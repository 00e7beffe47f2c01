//! Values as a source for the text serializer: what the text of a value is,
//! and the functions that write it.

use crate::error::{plain_message, Error};
use crate::pretty::{comma_text, Config, Formatter};
use crate::ser::{integer_text, printed, steady, Serializer};
use crate::token::{base64_standard, char_escape_debug, decimal_digits, str_escape_debug};
use crate::value::map::{FieldMap, ValueMap};
use crate::value::{signed_number, value_views, Fields, FieldsView, Struct, StructView, Value, ValueView};
use vstd::prelude::*;
use vstd::string::StringExecFns;

verus! {

/// Whether every signed integer in `v` lies between `i128::MIN` and
/// `i128::MAX`: exactly then `v` can be written.
pub open spec fn renderable(v: ValueView) -> bool
    decreases v,
{
    match v {
        ValueView::Signed(sign, magnitude) => i128::MIN <= signed_number(sign, magnitude)
            <= i128::MAX,
        ValueView::Array(items) => forall|i: int|
            0 <= i < items.len() ==> renderable(#[trigger] items[i]),
        ValueView::Dict(entries) => forall|i: int|
            0 <= i < entries.len() ==> renderable((#[trigger] entries[i]).0) && renderable(
                entries[i].1,
            ),
        ValueView::Struct(s) => match s.fields {
            Some(fields) => renderable_fields(fields),
            None => true,
        },
        _ => true,
    }
}

/// Whether every value among the fields is [`renderable`].
pub open spec fn renderable_fields(fields: FieldsView) -> bool
    decreases fields,
{
    match fields {
        FieldsView::Named(named) => forall|i: int|
            0 <= i < named.len() ==> renderable((#[trigger] named[i]).1),
        FieldsView::Unnamed(items) => forall|i: int|
            0 <= i < items.len() ==> renderable(#[trigger] items[i]),
    }
}

/// Whether `v`, written at nesting `depth`, keeps the nesting depth within
/// `usize`: every bracket that it opens starts below `usize::MAX`.
pub open spec fn fits(v: ValueView, depth: nat) -> bool
    decreases v,
{
    match v {
        ValueView::Array(items) => depth < usize::MAX && forall|i: int|
            0 <= i < items.len() ==> fits(#[trigger] items[i], depth + 1),
        ValueView::Dict(entries) => depth < usize::MAX && forall|i: int|
            0 <= i < entries.len() ==> fits((#[trigger] entries[i]).0, depth + 1) && fits(
                entries[i].1,
                depth + 1,
            ),
        ValueView::Struct(s) => match s.fields {
            Some(fields) => depth < usize::MAX && fields_fit(fields, depth + 1),
            None => true,
        },
        _ => true,
    }
}

/// Whether every value among the fields [`fits`] at nesting `depth`.
pub open spec fn fields_fit(fields: FieldsView, depth: nat) -> bool
    decreases fields,
{
    match fields {
        FieldsView::Named(named) => forall|i: int|
            0 <= i < named.len() ==> fits((#[trigger] named[i]).1, depth),
        FieldsView::Unnamed(items) => forall|i: int|
            0 <= i < items.len() ==> fits(#[trigger] items[i], depth),
    }
}

/// Whether `v` is written with brackets.
pub open spec fn bracketed(v: ValueView) -> bool {
    match v {
        ValueView::Array(_) => true,
        ValueView::Dict(_) => true,
        ValueView::Struct(s) => s.fields is Some,
        _ => false,
    }
}

/// The name of a record where it has one, else nothing.
pub open spec fn head_text(name: Option<Seq<char>>) -> Seq<char> {
    match name {
        Some(n) => n,
        None => Seq::empty(),
    }
}

/// The text of `v` written at nesting `depth` under the layout `cfg`, with
/// `f` as the float printer.
pub open spec fn text_of<F: Fn(u64) -> String>(v: ValueView, cfg: Config, depth: nat, f: F) -> Seq<
    char,
>
    decreases v,
{
    match v {
        ValueView::Struct(s) => struct_text(s, cfg, depth, f),
        ValueView::Dict(entries) => "{"@ + entries_text(entries, cfg, depth + 1, f)
            + cfg.close_text(depth, entries.len() > 0) + "}"@,
        ValueView::Array(items) => "["@ + items_text(items, cfg, depth + 1, f) + cfg.close_text(
            depth,
            items.len() > 0,
        ) + "]"@,
        ValueView::String(s) => "\""@ + str_escape_debug(s) + "\""@,
        ValueView::Bytes(b) => "b\""@ + base64_standard(b) + "\""@,
        ValueView::Bool(b) => crate::pretty::bool_text(b),
        ValueView::Signed(sign, magnitude) => integer_text(signed_number(sign, magnitude)),
        ValueView::Unsigned(magnitude) => decimal_digits(magnitude),
        ValueView::Float(x) => printed(f, x.bits),
        ValueView::Char(c) => "'"@ + char_escape_debug(c) + "'"@,
    }
}

/// The text of a record: its bare name or `()` where it has no fields, else
/// its name, if any, and its fields between round brackets.
pub open spec fn struct_text<F: Fn(u64) -> String>(
    s: StructView,
    cfg: Config,
    depth: nat,
    f: F,
) -> Seq<char>
    decreases s,
{
    match s.fields {
        None => match s.name {
            Some(n) => n,
            None => "()"@,
        },
        Some(fields) => record_text(s.name, fields, cfg, depth, f),
    }
}

/// The text of a record with fields: its name, if any, and the fields
/// between round brackets.
pub open spec fn record_text<F: Fn(u64) -> String>(
    name: Option<Seq<char>>,
    fields: FieldsView,
    cfg: Config,
    depth: nat,
    f: F,
) -> Seq<char>
    decreases fields,
{
    match fields {
        FieldsView::Unnamed(items) => head_text(name) + "("@ + items_text(items, cfg, depth + 1, f)
            + cfg.close_text(depth, items.len() > 0) + ")"@,
        FieldsView::Named(named) => head_text(name) + "("@ + fields_text(named, cfg, depth + 1, f)
            + cfg.close_text(depth, named.len() > 0) + ")"@,
    }
}

/// The text of the elements of a sequence or of unnamed fields, written at
/// nesting `depth`: each after the indentation, and after a comma unless it
/// is the first.
pub open spec fn items_text<F: Fn(u64) -> String>(
    items: Seq<ValueView>,
    cfg: Config,
    depth: nat,
    f: F,
) -> Seq<char>
    decreases items,
{
    if items.len() == 0 {
        Seq::empty()
    } else {
        items_text(items.drop_last(), cfg, depth, f) + comma_text(items.len() > 1)
            + cfg.indent_text(depth) + text_of(items.last(), cfg, depth, f)
    }
}

/// The text of the entries of a map, written at nesting `depth`: each as
/// key, colon, optional space and value.
pub open spec fn entries_text<F: Fn(u64) -> String>(
    entries: Seq<(ValueView, ValueView)>,
    cfg: Config,
    depth: nat,
    f: F,
) -> Seq<char>
    decreases entries,
{
    if entries.len() == 0 {
        Seq::empty()
    } else {
        entries_text(entries.drop_last(), cfg, depth, f) + comma_text(entries.len() > 1)
            + cfg.indent_text(depth) + text_of(entries.last().0, cfg, depth, f) + ":"@
            + cfg.space() + text_of(entries.last().1, cfg, depth, f)
    }
}

/// The text of named fields, written at nesting `depth`: each as name,
/// colon, optional space and value.
pub open spec fn fields_text<F: Fn(u64) -> String>(
    fields: Seq<(Seq<char>, ValueView)>,
    cfg: Config,
    depth: nat,
    f: F,
) -> Seq<char>
    decreases fields,
{
    if fields.len() == 0 {
        Seq::empty()
    } else {
        fields_text(fields.drop_last(), cfg, depth, f) + comma_text(fields.len() > 1)
            + cfg.indent_text(depth) + fields.last().0 + ":"@ + cfg.space() + text_of(
            fields.last().1,
            cfg,
            depth,
            f,
        )
    }
}

/// Whether every value of the sequence can be written.
pub open spec fn all_renderable(items: Seq<ValueView>) -> bool {
    forall|i: int| 0 <= i < items.len() ==> renderable(#[trigger] items[i])
}

/// Whether every key and every value of the entries can be written.
pub open spec fn entries_renderable(entries: Seq<(ValueView, ValueView)>) -> bool {
    forall|i: int|
        0 <= i < entries.len() ==> renderable((#[trigger] entries[i]).0) && renderable(
            entries[i].1,
        )
}

/// Whether every value of the named fields can be written.
pub open spec fn named_renderable(named: Seq<(Seq<char>, ValueView)>) -> bool {
    forall|i: int| 0 <= i < named.len() ==> renderable((#[trigger] named[i]).1)
}

/// What has been written of `v` when writing it fails: the text of `v` up
/// to the first signed integer beyond the 128-bit range. That is every
/// bracket opened on the way to that integer and all that precedes it inside
/// them, and nothing of the integer itself. It is meant for a `v` that
/// cannot be written.
pub open spec fn text_until_failure<F: Fn(u64) -> String>(
    v: ValueView,
    cfg: Config,
    depth: nat,
    f: F,
) -> Seq<char>
    decreases v,
{
    match v {
        ValueView::Struct(s) => match s.fields {
            Some(fields) => record_until_failure(s.name, fields, cfg, depth, f),
            None => Seq::empty(),
        },
        ValueView::Dict(entries) => "{"@ + entries_until_failure(entries, cfg, depth + 1, f),
        ValueView::Array(items) => "["@ + items_until_failure(items, cfg, depth + 1, f),
        _ => Seq::empty(),
    }
}

/// [`text_until_failure`] for a record with fields.
pub open spec fn record_until_failure<F: Fn(u64) -> String>(
    name: Option<Seq<char>>,
    fields: FieldsView,
    cfg: Config,
    depth: nat,
    f: F,
) -> Seq<char>
    decreases fields,
{
    match fields {
        FieldsView::Unnamed(items) => head_text(name) + "("@ + items_until_failure(
            items,
            cfg,
            depth + 1,
            f,
        ),
        FieldsView::Named(named) => head_text(name) + "("@ + fields_until_failure(
            named,
            cfg,
            depth + 1,
            f,
        ),
    }
}

/// [`text_until_failure`] for the elements of a sequence: the elements
/// before the first that cannot be written, in full, and that one as far as
/// it goes.
pub open spec fn items_until_failure<F: Fn(u64) -> String>(
    items: Seq<ValueView>,
    cfg: Config,
    depth: nat,
    f: F,
) -> Seq<char>
    decreases items,
{
    if items.len() == 0 {
        Seq::empty()
    } else if all_renderable(items.drop_last()) {
        items_text(items.drop_last(), cfg, depth, f) + comma_text(items.len() > 1)
            + cfg.indent_text(depth) + text_until_failure(items.last(), cfg, depth, f)
    } else {
        items_until_failure(items.drop_last(), cfg, depth, f)
    }
}

/// What has been written of one map entry when writing it fails: the key
/// as far as it goes, or the key, the colon, the optional space and the
/// value as far as it goes.
pub open spec fn entry_until_failure<F: Fn(u64) -> String>(
    entry: (ValueView, ValueView),
    cfg: Config,
    depth: nat,
    f: F,
) -> Seq<char> {
    if !renderable(entry.0) {
        text_until_failure(entry.0, cfg, depth, f)
    } else {
        text_of(entry.0, cfg, depth, f) + ":"@ + cfg.space() + text_until_failure(
            entry.1,
            cfg,
            depth,
            f,
        )
    }
}

/// [`text_until_failure`] for the entries of a map.
pub open spec fn entries_until_failure<F: Fn(u64) -> String>(
    entries: Seq<(ValueView, ValueView)>,
    cfg: Config,
    depth: nat,
    f: F,
) -> Seq<char>
    decreases entries,
{
    if entries.len() == 0 {
        Seq::empty()
    } else if entries_renderable(entries.drop_last()) {
        entries_text(entries.drop_last(), cfg, depth, f) + comma_text(entries.len() > 1)
            + cfg.indent_text(depth) + if !renderable(entries.last().0) {
            text_until_failure(entries.last().0, cfg, depth, f)
        } else {
            text_of(entries.last().0, cfg, depth, f) + ":"@ + cfg.space() + text_until_failure(
                entries.last().1,
                cfg,
                depth,
                f,
            )
        }
    } else {
        entries_until_failure(entries.drop_last(), cfg, depth, f)
    }
}

/// [`text_until_failure`] for named fields.
pub open spec fn fields_until_failure<F: Fn(u64) -> String>(
    named: Seq<(Seq<char>, ValueView)>,
    cfg: Config,
    depth: nat,
    f: F,
) -> Seq<char>
    decreases named,
{
    if named.len() == 0 {
        Seq::empty()
    } else if named_renderable(named.drop_last()) {
        fields_text(named.drop_last(), cfg, depth, f) + comma_text(named.len() > 1)
            + cfg.indent_text(depth) + named.last().0 + ":"@ + cfg.space() + text_until_failure(
            named.last().1,
            cfg,
            depth,
            f,
        )
    } else {
        fields_until_failure(named.drop_last(), cfg, depth, f)
    }
}

/// The error for a signed integer beyond the 128-bit range.
pub open spec fn out_of_range() -> crate::error::ErrorView {
    plain_message("signed integer outside i128 range"@)
}

/// What writing leaves behind. It succeeds exactly when `ok`. On success,
/// `after` is `before` with `text` appended, at the same depth, and with an
/// element written if `bracket` says so. On failure the error is
/// [`out_of_range`] and `after` is `before` with `partial` appended. The
/// float printer and the layout stay as they were.
pub open spec fn written<F: Fn(u64) -> String>(
    before: Serializer<F>,
    after: Serializer<F>,
    r: Result<(), Error>,
    ok: bool,
    text: Seq<char>,
    partial: Seq<char>,
    bracket: bool,
) -> bool {
    &&& after.float_text == before.float_text
    &&& after.formatter.config == before.formatter.config
    &&& r is Ok <==> ok
    &&& r is Ok ==> {
        &&& after.writer@ =~= before.writer@ + text
        &&& after.formatter == (if bracket {
            before.formatter.written(before.formatter.depth as nat)
        } else {
            before.formatter
        })
    }
    &&& r matches Err(e) ==> e@ == out_of_range() && after.writer@ =~= before.writer@ + partial
}

/// Where the element at `k` is the first that cannot be written, what has
/// been written is the elements before it and that one as far as it goes.
proof fn lemma_items_fail_at<F: Fn(u64) -> String>(
    items: Seq<ValueView>,
    k: int,
    cfg: Config,
    depth: nat,
    f: F,
)
    requires
        0 <= k < items.len(),
        forall|j: int| 0 <= j < k ==> renderable(#[trigger] items[j]),
        !renderable(items[k]),
    ensures
        items_until_failure(items, cfg, depth, f) == items_text(
            items.subrange(0, k),
            cfg,
            depth,
            f,
        ) + comma_text(k > 0) + cfg.indent_text(depth) + text_until_failure(
            items[k],
            cfg,
            depth,
            f,
        ),
    decreases items.len(),
{
    let front = items.drop_last();
    if k == items.len() - 1 {
        assert(front =~= items.subrange(0, k));
        assert forall|j: int| 0 <= j < front.len() implies renderable(#[trigger] front[j]) by {
            assert(front[j] == items[j]);
        }
    } else {
        assert(front[k] == items[k]);
        assert(!all_renderable(front));
        assert(front.subrange(0, k) =~= items.subrange(0, k));
        assert forall|j: int| 0 <= j < k implies renderable(#[trigger] front[j]) by {
            assert(front[j] == items[j]);
        }
        lemma_items_fail_at(front, k, cfg, depth, f);
    }
}

/// Where the entry at `k` is the first that cannot be written, what has
/// been written is the entries before it and that one as far as it goes.
proof fn lemma_entries_fail_at<F: Fn(u64) -> String>(
    entries: Seq<(ValueView, ValueView)>,
    k: int,
    cfg: Config,
    depth: nat,
    f: F,
)
    requires
        0 <= k < entries.len(),
        forall|j: int|
            0 <= j < k ==> renderable((#[trigger] entries[j]).0) && renderable(entries[j].1),
        !(renderable(entries[k].0) && renderable(entries[k].1)),
    ensures
        entries_until_failure(entries, cfg, depth, f) == entries_text(
            entries.subrange(0, k),
            cfg,
            depth,
            f,
        ) + comma_text(k > 0) + cfg.indent_text(depth) + entry_until_failure(
            entries[k],
            cfg,
            depth,
            f,
        ),
    decreases entries.len(),
{
    let front = entries.drop_last();
    if k == entries.len() - 1 {
        assert(front =~= entries.subrange(0, k));
        assert forall|j: int| 0 <= j < front.len() implies renderable((#[trigger] front[j]).0)
            && renderable(front[j].1) by {
            assert(front[j] == entries[j]);
        }
    } else {
        assert(front[k] == entries[k]);
        assert(!entries_renderable(front));
        assert(front.subrange(0, k) =~= entries.subrange(0, k));
        assert forall|j: int| 0 <= j < k implies renderable((#[trigger] front[j]).0)
            && renderable(front[j].1) by {
            assert(front[j] == entries[j]);
        }
        lemma_entries_fail_at(front, k, cfg, depth, f);
    }
}

/// Where the field at `k` is the first that cannot be written, what has
/// been written is the fields before it and that one as far as it goes.
proof fn lemma_fields_fail_at<F: Fn(u64) -> String>(
    named: Seq<(Seq<char>, ValueView)>,
    k: int,
    cfg: Config,
    depth: nat,
    f: F,
)
    requires
        0 <= k < named.len(),
        forall|j: int| 0 <= j < k ==> renderable((#[trigger] named[j]).1),
        !renderable(named[k].1),
    ensures
        fields_until_failure(named, cfg, depth, f) == fields_text(
            named.subrange(0, k),
            cfg,
            depth,
            f,
        ) + comma_text(k > 0) + cfg.indent_text(depth) + named[k].0 + ":"@ + cfg.space()
            + text_until_failure(named[k].1, cfg, depth, f),
    decreases named.len(),
{
    let front = named.drop_last();
    if k == named.len() - 1 {
        assert(front =~= named.subrange(0, k));
        assert forall|j: int| 0 <= j < front.len() implies renderable((#[trigger] front[j]).1) by {
            assert(front[j] == named[j]);
        }
    } else {
        assert(front[k] == named[k]);
        assert(!named_renderable(front));
        assert(front.subrange(0, k) =~= named.subrange(0, k));
        assert forall|j: int| 0 <= j < k implies renderable((#[trigger] front[j]).1) by {
            assert(front[j] == named[j]);
        }
        lemma_fields_fail_at(front, k, cfg, depth, f);
    }
}

/// The error for a signed integer beyond the 128-bit range.
pub(crate) fn out_of_range_error() -> (e: Error)
    ensures
        e@ == out_of_range(),
{
    Error::message(String::from_str("signed integer outside i128 range"))
}

/// Writes the element at position `i` of a sequence, or of the unnamed
/// fields of a record where `as_fields` is set: the separator, the
/// indentation and the value.
fn serialize_item_at<F: Fn(u64) -> String>(
    items: &Vec<Value>,
    i: usize,
    serializer: &mut Serializer<F>,
    as_fields: bool,
) -> (r: Result<(), Error>)
    requires
        steady(old(serializer).float_text),
        i < items.len(),
        fits(value_views(items@)[i as int], old(serializer).formatter.depth as nat),
    ensures
        written(
            *old(serializer),
            *final(serializer),
            r,
            renderable(value_views(items@)[i as int]),
            old(serializer).formatter.member_lead() + text_of(
                value_views(items@)[i as int],
                old(serializer).formatter.config,
                old(serializer).formatter.depth as nat,
                old(serializer).float_text,
            ),
            old(serializer).formatter.member_lead() + text_until_failure(
                value_views(items@)[i as int],
                old(serializer).formatter.config,
                old(serializer).formatter.depth as nat,
                old(serializer).float_text,
            ),
            true,
        ),
    decreases value_views(items@), 0nat,
{
    if as_fields {
        serializer.formatter.begin_struct_field(&mut serializer.writer, None);
    } else {
        serializer.formatter.begin_array_member(&mut serializer.writer);
    }
    proof {
        assert(value_views(items@)[i as int] == items[i as int]@);
        vstd::seq::axiom_seq_index_decreases(value_views(items@), i as int);
    }
    match items[i].serialize(serializer) {
        Ok(()) => {},
        Err(e) => {
            return Err(e);
        },
    }
    if as_fields {
        serializer.formatter.end_struct_field(&mut serializer.writer);
    } else {
        serializer.formatter.end_array_member(&mut serializer.writer);
    }
    Ok(())
}

/// Writes the elements of a sequence, or the unnamed fields of a record
/// where `as_fields` is set, one after the other.
#[verifier::rlimit(40)]
fn serialize_items<F: Fn(u64) -> String>(
    items: &Vec<Value>,
    serializer: &mut Serializer<F>,
    as_fields: bool,
) -> (r: Result<(), Error>)
    requires
        steady(old(serializer).float_text),
        !old(serializer).formatter.not_first,
        forall|i: int|
            0 <= i < items.len() ==> fits(
                #[trigger] value_views(items@)[i],
                old(serializer).formatter.depth as nat,
            ),
    ensures
        final(serializer).float_text == old(serializer).float_text,
        final(serializer).formatter.config == old(serializer).formatter.config,
        r is Ok <==> all_renderable(value_views(items@)),
        r is Ok ==> {
            &&& final(serializer).writer@ =~= old(serializer).writer@ + items_text(
                value_views(items@),
                old(serializer).formatter.config,
                old(serializer).formatter.depth as nat,
                old(serializer).float_text,
            )
            &&& final(serializer).formatter.depth == old(serializer).formatter.depth
            &&& final(serializer).formatter.not_first == (items.len() > 0)
        },
        r matches Err(e) ==> e@ == out_of_range() && final(serializer).writer@ =~= old(
            serializer,
        ).writer@ + items_until_failure(
            value_views(items@),
            old(serializer).formatter.config,
            old(serializer).formatter.depth as nat,
            old(serializer).float_text,
        ),
    decreases value_views(items@), 1nat,
{
    let ghost views = value_views(items@);
    let ghost start = *serializer;
    let ghost cfg = serializer.formatter.config;
    let ghost depth = serializer.formatter.depth as nat;
    let mut i: usize = 0;
    while i < items.len()
        invariant
            i <= items.len(),
            views == value_views(items@),
            start.float_text == old(serializer).float_text,
            start.writer@ == old(serializer).writer@,
            start.formatter.config == cfg,
            start.formatter.depth == depth,
            cfg == old(serializer).formatter.config,
            depth == old(serializer).formatter.depth,
            serializer.float_text == start.float_text,
            steady(start.float_text),
            serializer.formatter == (Formatter {
                config: cfg,
                depth: depth as usize,
                not_first: i > 0,
            }),
            forall|j: int| 0 <= j < items.len() ==> fits(#[trigger] views[j], depth),
            forall|j: int| 0 <= j < i ==> renderable(#[trigger] views[j]),
            serializer.writer@ =~= start.writer@ + items_text(
                views.subrange(0, i as int),
                cfg,
                depth,
                start.float_text,
            ),
        decreases items.len() - i,
    {
        assert(views.subrange(0, i + 1).drop_last() =~= views.subrange(0, i as int));
        match serialize_item_at(items, i, serializer, as_fields) {
            Ok(()) => {},
            Err(e) => {
                proof {
                    lemma_items_fail_at(views, i as int, cfg, depth, start.float_text);
                }
                return Err(e);
            },
        }
        i = i + 1;
    }
    assert(views.subrange(0, items.len() as int) =~= views);
    Ok(())
}

impl Value {
    /// Writes the value. It fails, with [`out_of_range`], exactly when the
    /// value holds a signed integer beyond the 128-bit range. What has been
    /// written by then is [`text_until_failure`]: the text up to that
    /// integer, and nothing at all where the value is that integer itself.
    pub fn serialize<F: Fn(u64) -> String>(&self, serializer: &mut Serializer<F>) -> (r: Result<
        (),
        Error,
    >)
        requires
            steady(old(serializer).float_text),
            fits(self@, old(serializer).formatter.depth as nat),
        ensures
            written(
                *old(serializer),
                *final(serializer),
                r,
                renderable(self@),
                text_of(
                    self@,
                    old(serializer).formatter.config,
                    old(serializer).formatter.depth as nat,
                    old(serializer).float_text,
                ),
                text_until_failure(
                    self@,
                    old(serializer).formatter.config,
                    old(serializer).formatter.depth as nat,
                    old(serializer).float_text,
                ),
                bracketed(self@),
            ),
        decreases self@,
    {
        match self {
            Value::Struct(value) => {
                assert(self@->Struct_0 == value@);
                assert(decreases_to!(self@ => self@->Struct_0));
                value.serialize(serializer)
            },
            Value::Dict(value) => {
                assert(self@->Dict_0 == value@);
                assert(decreases_to!(self@ => self@->Dict_0));
                value.serialize(serializer)
            },
            Value::Array(value) => {
                assert(self@->Array_0 == value_views(value@));
                assert(decreases_to!(self@ => self@->Array_0));
                serializer.serialize_seq(Some(value.len()));
                match serialize_items(value, serializer, false) {
                    Ok(()) => {},
                    Err(e) => {
                        return Err(e);
                    },
                }
                serializer.formatter.end_array(&mut serializer.writer);
                Ok(())
            },
            Value::String(value) => {
                serializer.serialize_str(value.as_str());
                Ok(())
            },
            Value::Bytes(value) => {
                serializer.serialize_bytes(value.as_slice());
                Ok(())
            },
            Value::Bool(value) => {
                serializer.serialize_bool(*value);
                Ok(())
            },
            Value::Signed(..) => {
                if let Some(value) = self.as_i64() {
                    serializer.serialize_i64(value);
                    Ok(())
                } else if let Some(value) = self.as_i128() {
                    serializer.serialize_i128(value);
                    Ok(())
                } else {
                    Err(out_of_range_error())
                }
            },
            Value::Unsigned(..) => {
                if let Some(value) = self.as_u64() {
                    serializer.serialize_u64(value);
                    Ok(())
                } else if let Some(value) = self.as_u128() {
                    serializer.serialize_u128(value);
                    Ok(())
                } else {
                    Err(out_of_range_error())
                }
            },
            Value::Float(value) => {
                serializer.serialize_f64(*value);
                Ok(())
            },
            Value::Char(value) => {
                serializer.serialize_char(*value);
                Ok(())
            },
        }
    }
}

impl Struct {
    /// Writes the record: see [`struct_text`]. It fails as
    /// [`Value::serialize`] does.
    pub fn serialize<F: Fn(u64) -> String>(&self, serializer: &mut Serializer<F>) -> (r: Result<
        (),
        Error,
    >)
        requires
            steady(old(serializer).float_text),
            fits(ValueView::Struct(self@), old(serializer).formatter.depth as nat),
        ensures
            written(
                *old(serializer),
                *final(serializer),
                r,
                renderable(ValueView::Struct(self@)),
                struct_text(
                    self@,
                    old(serializer).formatter.config,
                    old(serializer).formatter.depth as nat,
                    old(serializer).float_text,
                ),
                text_until_failure(
                    ValueView::Struct(self@),
                    old(serializer).formatter.config,
                    old(serializer).formatter.depth as nat,
                    old(serializer).float_text,
                ),
                self@.fields is Some,
            ),
        decreases self@,
    {
        assert(ValueView::Struct(self@)->Struct_0 == self@);
        match &self.fields {
            None => {
                match self.name {
                    Some(name) => serializer.serialize_unit_struct(name),
                    None => serializer.serialize_unit(),
                }
                Ok(())
            },
            Some(fields) => {
                assert(self@.fields->Some_0 == fields@);
                assert(decreases_to!(self@ => self@.fields->Some_0));
                fields.serialize(self.name, serializer)
            },
        }
    }
}

impl Fields {
    /// Writes a record that has these fields and the given name, if any:
    /// see [`record_text`]. A record with named fields and no name is
    /// written as if its name were empty. It fails as [`Value::serialize`]
    /// does.
    #[verifier::rlimit(40)]
    pub fn serialize<F: Fn(u64) -> String>(
        &self,
        name: Option<&'static str>,
        serializer: &mut Serializer<F>,
    ) -> (r: Result<(), Error>)
        requires
            steady(old(serializer).float_text),
            old(serializer).formatter.depth < usize::MAX,
            fields_fit(self@, (old(serializer).formatter.depth + 1) as nat),
        ensures
            written(
                *old(serializer),
                *final(serializer),
                r,
                renderable_fields(self@),
                record_text(
                    crate::value::name_view(name),
                    self@,
                    old(serializer).formatter.config,
                    old(serializer).formatter.depth as nat,
                    old(serializer).float_text,
                ),
                record_until_failure(
                    crate::value::name_view(name),
                    self@,
                    old(serializer).formatter.config,
                    old(serializer).formatter.depth as nat,
                    old(serializer).float_text,
                ),
                true,
            ),
        decreases self@, 2nat,
    {
        match self {
            Fields::Named(map) => {
                assert(self@->Named_0 == map@);
                assert(decreases_to!(self@ => self@->Named_0));
                open_record(name, true, map.len(), serializer);
                match serialize_fields(map, serializer) {
                    Ok(()) => {},
                    Err(e) => {
                        return Err(e);
                    },
                }
                serializer.formatter.end_struct(&mut serializer.writer);
                Ok(())
            },
            Fields::Unnamed(items) => {
                assert(self@->Unnamed_0 == value_views(items@));
                assert(decreases_to!(self@ => self@->Unnamed_0));
                open_record(name, false, items.len(), serializer);
                match serialize_items(items, serializer, true) {
                    Ok(()) => {},
                    Err(e) => {
                        return Err(e);
                    },
                }
                serializer.formatter.end_struct(&mut serializer.writer);
                Ok(())
            },
        }
    }
}

/// Opens a record: as a struct where its fields are named, under the empty
/// name if it has none, else as a tuple struct or a tuple.
fn open_record<F: Fn(u64) -> String>(
    name: Option<&'static str>,
    named: bool,
    len: usize,
    serializer: &mut Serializer<F>,
)
    requires
        old(serializer).formatter.depth < usize::MAX,
    ensures
        final(serializer).opened(
            *old(serializer),
            head_text(crate::value::name_view(name)) + "("@,
        ),
{
    match name {
        Some(name) => {
            if named {
                serializer.serialize_struct(name, len)
            } else {
                serializer.serialize_tuple_struct(name, len)
            }
        },
        None => {
            if named {
                proof {
                    reveal_strlit("");
                    assert(""@ =~= Seq::<char>::empty());
                }
                serializer.serialize_struct("", len)
            } else {
                serializer.serialize_tuple(len)
            }
        },
    }
}

/// Writes the named field at position `i`: the separator, the indentation,
/// the name, a colon, the optional space and the value.
fn serialize_field_at<F: Fn(u64) -> String>(
    map: &FieldMap,
    i: usize,
    serializer: &mut Serializer<F>,
) -> (r: Result<(), Error>)
    requires
        steady(old(serializer).float_text),
        i < map@.len(),
        fits(map@[i as int].1, old(serializer).formatter.depth as nat),
    ensures
        written(
            *old(serializer),
            *final(serializer),
            r,
            renderable(map@[i as int].1),
            old(serializer).formatter.member_lead() + map@[i as int].0 + ":"@ + old(
                serializer,
            ).formatter.config.space() + text_of(
                map@[i as int].1,
                old(serializer).formatter.config,
                old(serializer).formatter.depth as nat,
                old(serializer).float_text,
            ),
            old(serializer).formatter.member_lead() + map@[i as int].0 + ":"@ + old(
                serializer,
            ).formatter.config.space() + text_until_failure(
                map@[i as int].1,
                old(serializer).formatter.config,
                old(serializer).formatter.depth as nat,
                old(serializer).float_text,
            ),
            true,
        ),
    decreases map@, 0nat,
{
    let (name, value) = map.entry(i);
    serializer.formatter.begin_struct_field(&mut serializer.writer, Some(name));
    proof {
        vstd::seq::axiom_seq_index_decreases(map@, i as int);
        assert(decreases_to!(map@[i as int] => map@[i as int].1));
    }
    match value.serialize(serializer) {
        Ok(()) => {},
        Err(e) => {
            return Err(e);
        },
    }
    serializer.formatter.end_struct_field(&mut serializer.writer);
    Ok(())
}

/// Writes the named fields of a record, one after the other.
#[verifier::rlimit(40)]
fn serialize_fields<F: Fn(u64) -> String>(map: &FieldMap, serializer: &mut Serializer<F>) -> (r:
    Result<(), Error>)
    requires
        steady(old(serializer).float_text),
        !old(serializer).formatter.not_first,
        forall|i: int|
            0 <= i < map@.len() ==> fits(
                (#[trigger] map@[i]).1,
                old(serializer).formatter.depth as nat,
            ),
    ensures
        final(serializer).float_text == old(serializer).float_text,
        final(serializer).formatter.config == old(serializer).formatter.config,
        r is Ok <==> named_renderable(map@),
        r is Ok ==> {
            &&& final(serializer).writer@ =~= old(serializer).writer@ + fields_text(
                map@,
                old(serializer).formatter.config,
                old(serializer).formatter.depth as nat,
                old(serializer).float_text,
            )
            &&& final(serializer).formatter.depth == old(serializer).formatter.depth
            &&& final(serializer).formatter.not_first == (map@.len() > 0)
        },
        r matches Err(e) ==> e@ == out_of_range() && final(serializer).writer@ =~= old(
            serializer,
        ).writer@ + fields_until_failure(
            map@,
            old(serializer).formatter.config,
            old(serializer).formatter.depth as nat,
            old(serializer).float_text,
        ),
    decreases map@, 1nat,
{
    let ghost views = map@;
    let ghost start = *serializer;
    let ghost cfg = serializer.formatter.config;
    let ghost depth = serializer.formatter.depth as nat;
    let n = map.len();
    let mut i: usize = 0;
    while i < n
        invariant
            i <= n,
            n == views.len(),
            views == map@,
            start.float_text == old(serializer).float_text,
            start.writer@ == old(serializer).writer@,
            start.formatter.config == cfg,
            start.formatter.depth == depth,
            cfg == old(serializer).formatter.config,
            depth == old(serializer).formatter.depth,
            serializer.float_text == start.float_text,
            steady(start.float_text),
            serializer.formatter == (Formatter {
                config: cfg,
                depth: depth as usize,
                not_first: i > 0,
            }),
            forall|j: int| 0 <= j < n ==> fits((#[trigger] views[j]).1, depth),
            forall|j: int| 0 <= j < i ==> renderable((#[trigger] views[j]).1),
            serializer.writer@ =~= start.writer@ + fields_text(
                views.subrange(0, i as int),
                cfg,
                depth,
                start.float_text,
            ),
        decreases n - i,
    {
        assert(views.subrange(0, i + 1).drop_last() =~= views.subrange(0, i as int));
        match serialize_field_at(map, i, serializer) {
            Ok(()) => {},
            Err(e) => {
                proof {
                    lemma_fields_fail_at(views, i as int, cfg, depth, start.float_text);
                }
                return Err(e);
            },
        }
        i = i + 1;
    }
    assert(views.subrange(0, n as int) =~= views);
    Ok(())
}

/// Writes the entry at position `i`: the separator, the indentation, the
/// key, a colon, the optional space and the value.
#[verifier::rlimit(40)]
fn serialize_entry_at<F: Fn(u64) -> String>(
    map: &ValueMap,
    i: usize,
    serializer: &mut Serializer<F>,
) -> (r: Result<(), Error>)
    requires
        steady(old(serializer).float_text),
        i < map@.len(),
        fits(map@[i as int].0, old(serializer).formatter.depth as nat),
        fits(map@[i as int].1, old(serializer).formatter.depth as nat),
    ensures
        written(
            *old(serializer),
            *final(serializer),
            r,
            renderable(map@[i as int].0) && renderable(map@[i as int].1),
            old(serializer).formatter.member_lead() + text_of(
                map@[i as int].0,
                old(serializer).formatter.config,
                old(serializer).formatter.depth as nat,
                old(serializer).float_text,
            ) + ":"@ + old(serializer).formatter.config.space() + text_of(
                map@[i as int].1,
                old(serializer).formatter.config,
                old(serializer).formatter.depth as nat,
                old(serializer).float_text,
            ),
            old(serializer).formatter.member_lead() + entry_until_failure(
                map@[i as int],
                old(serializer).formatter.config,
                old(serializer).formatter.depth as nat,
                old(serializer).float_text,
            ),
            true,
        ),
    decreases map@, 0nat,
{
    let (key, value) = map.entry(i);
    proof {
        vstd::seq::axiom_seq_index_decreases(map@, i as int);
        assert(decreases_to!(map@[i as int] => map@[i as int].0));
        assert(decreases_to!(map@[i as int] => map@[i as int].1));
    }
    serializer.formatter.begin_map_key(&mut serializer.writer);
    match key.serialize(serializer) {
        Ok(()) => {},
        Err(e) => {
            return Err(e);
        },
    }
    serializer.formatter.end_map_key(&mut serializer.writer);
    serializer.formatter.begin_map_value(&mut serializer.writer);
    match value.serialize(serializer) {
        Ok(()) => {},
        Err(e) => {
            return Err(e);
        },
    }
    serializer.formatter.end_map_value(&mut serializer.writer);
    Ok(())
}

/// Writes the entries of a map, one after the other.
#[verifier::rlimit(40)]
fn serialize_entries<F: Fn(u64) -> String>(map: &ValueMap, serializer: &mut Serializer<F>) -> (r:
    Result<(), Error>)
    requires
        steady(old(serializer).float_text),
        !old(serializer).formatter.not_first,
        forall|i: int|
            0 <= i < map@.len() ==> fits(
                (#[trigger] map@[i]).0,
                old(serializer).formatter.depth as nat,
            ) && fits(map@[i].1, old(serializer).formatter.depth as nat),
    ensures
        final(serializer).float_text == old(serializer).float_text,
        final(serializer).formatter.config == old(serializer).formatter.config,
        r is Ok <==> entries_renderable(map@),
        r is Ok ==> {
            &&& final(serializer).writer@ =~= old(serializer).writer@ + entries_text(
                map@,
                old(serializer).formatter.config,
                old(serializer).formatter.depth as nat,
                old(serializer).float_text,
            )
            &&& final(serializer).formatter.depth == old(serializer).formatter.depth
            &&& final(serializer).formatter.not_first == (map@.len() > 0)
        },
        r matches Err(e) ==> e@ == out_of_range() && final(serializer).writer@ =~= old(
            serializer,
        ).writer@ + entries_until_failure(
            map@,
            old(serializer).formatter.config,
            old(serializer).formatter.depth as nat,
            old(serializer).float_text,
        ),
    decreases map@, 1nat,
{
    let ghost views = map@;
    let ghost start = *serializer;
    let ghost cfg = serializer.formatter.config;
    let ghost depth = serializer.formatter.depth as nat;
    let n = map.len();
    let mut i: usize = 0;
    while i < n
        invariant
            i <= n,
            n == views.len(),
            views == map@,
            start.float_text == old(serializer).float_text,
            start.writer@ == old(serializer).writer@,
            start.formatter.config == cfg,
            start.formatter.depth == depth,
            cfg == old(serializer).formatter.config,
            depth == old(serializer).formatter.depth,
            serializer.float_text == start.float_text,
            steady(start.float_text),
            serializer.formatter == (Formatter {
                config: cfg,
                depth: depth as usize,
                not_first: i > 0,
            }),
            forall|j: int|
                0 <= j < n ==> fits((#[trigger] views[j]).0, depth) && fits(views[j].1, depth),
            forall|j: int|
                0 <= j < i ==> renderable((#[trigger] views[j]).0) && renderable(views[j].1),
            serializer.writer@ =~= start.writer@ + entries_text(
                views.subrange(0, i as int),
                cfg,
                depth,
                start.float_text,
            ),
        decreases n - i,
    {
        assert(views.subrange(0, i + 1).drop_last() =~= views.subrange(0, i as int));
        match serialize_entry_at(map, i, serializer) {
            Ok(()) => {},
            Err(e) => {
                proof {
                    lemma_entries_fail_at(views, i as int, cfg, depth, start.float_text);
                }
                return Err(e);
            },
        }
        i = i + 1;
    }
    assert(views.subrange(0, n as int) =~= views);
    Ok(())
}

impl ValueMap {
    /// Writes the map: its entries, in order, between curly brackets. It
    /// fails as [`Value::serialize`] does.
    pub fn serialize<F: Fn(u64) -> String>(&self, serializer: &mut Serializer<F>) -> (r: Result<
        (),
        Error,
    >)
        requires
            steady(old(serializer).float_text),
            fits(ValueView::Dict(self@), old(serializer).formatter.depth as nat),
        ensures
            written(
                *old(serializer),
                *final(serializer),
                r,
                renderable(ValueView::Dict(self@)),
                text_of(
                    ValueView::Dict(self@),
                    old(serializer).formatter.config,
                    old(serializer).formatter.depth as nat,
                    old(serializer).float_text,
                ),
                text_until_failure(
                    ValueView::Dict(self@),
                    old(serializer).formatter.config,
                    old(serializer).formatter.depth as nat,
                    old(serializer).float_text,
                ),
                true,
            ),
        decreases self@, 2nat,
    {
        assert(ValueView::Dict(self@)->Dict_0 == self@);
        serializer.serialize_map(Some(self.len()));
        match serialize_entries(self, serializer) {
            Ok(()) => {},
            Err(e) => {
                return Err(e);
            },
        }
        serializer.formatter.end_map(&mut serializer.writer);
        Ok(())
    }
}

/// Transcoding a signed integer and then writing it gives back its own sign
/// and digits. This holds for every `i128`, the most negative one included:
/// `v` here is the number, and [`signed_view`] is what the transcoder makes
/// of it.
///
/// [`signed_view`]: crate::value::transcode_ser::signed_view
pub proof fn lemma_signed_survives<F: Fn(u64) -> String>(v: int, cfg: Config, depth: nat, f: F)
    requires
        i128::MIN <= v <= i128::MAX,
    ensures
        renderable(crate::value::transcode_ser::signed_view(v)),
        fits(crate::value::transcode_ser::signed_view(v), depth),
        text_of(crate::value::transcode_ser::signed_view(v), cfg, depth, f) == integer_text(v),
        v >= 0 ==> integer_text(v) == "+"@ + decimal_digits(v as nat),
        v < 0 ==> integer_text(v) == "-"@ + decimal_digits((-v) as nat),
{
}

} // verus!
