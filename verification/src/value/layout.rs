//! What the depth limit does to the text of a value.

use crate::error::{is_digit, lemma_decimal_digits_spell};
use crate::pretty::{comma_text, Config, Formatter};
use crate::ser::printed;
use crate::token::{base64_standard, char_escape_debug, decimal_digits, str_escape_debug};
use crate::value::ser::{entries_text, fields_text, head_text, items_text, struct_text, text_of};
use crate::value::{FieldsView, StructView, ValueView};
use vstd::prelude::*;

verus! {

/// Whether `s` holds no line break.
pub open spec fn one_line(s: Seq<char>) -> bool {
    forall|i: int| 0 <= i < s.len() ==> s[i] != '\n'
}

/// Whether no name and no primitive token of `v` holds a line break: the
/// name of every record and field, the escaped form of every text and
/// character, the base64 of every byte string, and what the float printer
/// `f` gives for every float.
pub open spec fn quiet<F: Fn(u64) -> String>(v: ValueView, f: F) -> bool
    decreases v,
{
    match v {
        ValueView::Struct(s) => one_line(head_text(s.name)) && match s.fields {
            Some(fields) => quiet_fields(fields, f),
            None => true,
        },
        ValueView::Dict(entries) => forall|i: int|
            0 <= i < entries.len() ==> quiet((#[trigger] entries[i]).0, f) && quiet(
                entries[i].1,
                f,
            ),
        ValueView::Array(items) => forall|i: int|
            0 <= i < items.len() ==> quiet(#[trigger] items[i], f),
        ValueView::String(s) => one_line(str_escape_debug(s)),
        ValueView::Bytes(b) => one_line(base64_standard(b)),
        ValueView::Float(x) => one_line(printed(f, x.bits)),
        ValueView::Char(c) => one_line(char_escape_debug(c)),
        _ => true,
    }
}

/// Whether the fields are [`quiet`], names included.
pub open spec fn quiet_fields<F: Fn(u64) -> String>(fields: FieldsView, f: F) -> bool
    decreases fields,
{
    match fields {
        FieldsView::Named(named) => forall|i: int|
            0 <= i < named.len() ==> one_line((#[trigger] named[i]).0) && quiet(named[i].1, f),
        FieldsView::Unnamed(items) => forall|i: int|
            0 <= i < items.len() ==> quiet(#[trigger] items[i], f),
    }
}

/// What leads an element in. Below the depth limit, and at every depth
/// where the limit is zero, it is exactly one space; down to a positive
/// limit it starts with a line break. Before a closing bracket stands the
/// same, after a trailing comma where the elements had lines of their own.
pub proof fn lemma_indent_by_depth(cfg: Config, depth: nat)
    ensures
        cfg.depth_limit == 0 || depth > cfg.depth_limit ==> cfg.indent_text(depth) == seq![' '],
        0 < cfg.depth_limit && depth <= cfg.depth_limit ==> cfg.indent_text(depth).len() > 0
            && cfg.indent_text(depth)[0] == '\n',
        depth >= cfg.depth_limit ==> cfg.close_text(depth, true) == cfg.indent_text(depth),
        depth < cfg.depth_limit ==> cfg.close_text(depth, true) == seq![','] + cfg.indent_text(
            depth,
        ),
        cfg.close_text(depth, false) == Seq::<char>::empty(),
{
    reveal(Config::indent_text);
    reveal(Config::close_text);
    reveal_strlit(" ");
    reveal_strlit("\n");
    reveal_strlit(",");
    assert(" "@ =~= seq![' ']);
    assert(","@ =~= seq![',']);
}

/// With a depth limit of zero, what stands between two sibling elements is
/// a comma and exactly one space, at every depth.
pub proof fn lemma_separator_is_one_space(f: Formatter, name: Option<&str>)
    requires
        f.config.depth_limit == 0,
        f.not_first,
    ensures
        f.member_lead() == seq![',', ' '],
        f.field_lead(None) == seq![',', ' '],
        name matches Some(n) ==> f.field_lead(name) == seq![',', ' '] + n@ + seq![':'],
{
    reveal(comma_text);
    reveal(Config::indent_text);
    reveal(Config::space);
    reveal_strlit(" ");
    reveal_strlit(",");
    reveal_strlit(":");
    assert(f.member_lead() =~= seq![',', ' ']);
    assert(f.field_lead(None) =~= seq![',', ' ']);
    match name {
        Some(n) => {
            assert(f.field_lead(name) =~= seq![',', ' '] + n@ + seq![':']);
        },
        None => {},
    }
}

/// The decimal digits of a number hold no line break.
proof fn lemma_digits_one_line(n: nat)
    ensures
        one_line(decimal_digits(n)),
{
    lemma_decimal_digits_spell(n);
    assert forall|i: int| 0 <= i < decimal_digits(n).len() implies decimal_digits(n)[i]
        != '\n' by {
        assert(is_digit(decimal_digits(n)[i]));
    }
}

/// With a depth limit of zero, everything stays on one line: the text of a
/// value, at whatever nesting depth, holds no line break, provided the
/// value is [`quiet`].
pub proof fn lemma_flat<F: Fn(u64) -> String>(v: ValueView, cfg: Config, depth: nat, f: F)
    requires
        cfg.depth_limit == 0,
        quiet(v, f),
    ensures
        one_line(text_of(v, cfg, depth, f)),
    decreases v,
{
    reveal_strlit("{");
    reveal_strlit("}");
    reveal_strlit("[");
    reveal_strlit("]");
    reveal_strlit("\"");
    reveal_strlit("b\"");
    reveal_strlit("'");
    reveal_strlit("+");
    reveal_strlit("-");
    reveal_strlit("true");
    reveal_strlit("false");
    lemma_indent_by_depth(cfg, depth);
    match v {
        ValueView::Struct(s) => {
            lemma_flat_struct(s, cfg, depth, f);
        },
        ValueView::Dict(entries) => {
            assert(v->Dict_0 == entries);
            lemma_flat_entries(entries, cfg, depth + 1, f);
        },
        ValueView::Array(items) => {
            assert(v->Array_0 == items);
            lemma_flat_items(items, cfg, depth + 1, f);
        },
        ValueView::Signed(sign, magnitude) => {
            lemma_digits_one_line(magnitude);
        },
        ValueView::Unsigned(magnitude) => {
            lemma_digits_one_line(magnitude);
        },
        _ => {},
    }
}

/// [`lemma_flat`] for a record.
proof fn lemma_flat_struct<F: Fn(u64) -> String>(s: StructView, cfg: Config, depth: nat, f: F)
    requires
        cfg.depth_limit == 0,
        quiet(ValueView::Struct(s), f),
    ensures
        one_line(struct_text(s, cfg, depth, f)),
    decreases s,
{
    reveal_strlit("(");
    reveal_strlit(")");
    reveal_strlit("()");
    lemma_indent_by_depth(cfg, depth);
    assert(ValueView::Struct(s)->Struct_0 == s);
    match s.fields {
        None => {},
        Some(FieldsView::Unnamed(items)) => {
            assert(s.fields->Some_0->Unnamed_0 == items);
            assert(quiet_fields(s.fields->Some_0, f));
            lemma_flat_items(items, cfg, depth + 1, f);
        },
        Some(FieldsView::Named(named)) => {
            assert(s.fields->Some_0->Named_0 == named);
            assert(quiet_fields(s.fields->Some_0, f));
            lemma_flat_fields(named, cfg, depth + 1, f);
        },
    }
}

/// [`lemma_flat`] for the elements of a sequence or unnamed fields.
proof fn lemma_flat_items<F: Fn(u64) -> String>(
    items: Seq<ValueView>,
    cfg: Config,
    depth: nat,
    f: F,
)
    requires
        cfg.depth_limit == 0,
        forall|i: int| 0 <= i < items.len() ==> quiet(#[trigger] items[i], f),
    ensures
        one_line(items_text(items, cfg, depth, f)),
    decreases items,
{
    reveal(comma_text);
    reveal_strlit(",");
    lemma_indent_by_depth(cfg, depth);
    if items.len() > 0 {
        assert(quiet(items[items.len() - 1], f));
        assert forall|i: int| 0 <= i < items.drop_last().len() implies quiet(
            #[trigger] items.drop_last()[i],
            f,
        ) by {
            assert(items.drop_last()[i] == items[i]);
        }
        lemma_flat_items(items.drop_last(), cfg, depth, f);
        lemma_flat(items.last(), cfg, depth, f);
    }
}

/// [`lemma_flat`] for the entries of a map.
proof fn lemma_flat_entries<F: Fn(u64) -> String>(
    entries: Seq<(ValueView, ValueView)>,
    cfg: Config,
    depth: nat,
    f: F,
)
    requires
        cfg.depth_limit == 0,
        forall|i: int|
            0 <= i < entries.len() ==> quiet((#[trigger] entries[i]).0, f) && quiet(
                entries[i].1,
                f,
            ),
    ensures
        one_line(entries_text(entries, cfg, depth, f)),
    decreases entries,
{
    reveal(comma_text);
    reveal(Config::space);
    reveal_strlit(",");
    reveal_strlit(":");
    lemma_indent_by_depth(cfg, depth);
    if entries.len() > 0 {
        assert(quiet(entries[entries.len() - 1].0, f));
        assert forall|i: int| 0 <= i < entries.drop_last().len() implies quiet(
            (#[trigger] entries.drop_last()[i]).0,
            f,
        ) && quiet(entries.drop_last()[i].1, f) by {
            assert(entries.drop_last()[i] == entries[i]);
        }
        lemma_flat_entries(entries.drop_last(), cfg, depth, f);
        lemma_flat(entries.last().0, cfg, depth, f);
        lemma_flat(entries.last().1, cfg, depth, f);
    }
}

/// [`lemma_flat`] for named fields.
proof fn lemma_flat_fields<F: Fn(u64) -> String>(
    named: Seq<(Seq<char>, ValueView)>,
    cfg: Config,
    depth: nat,
    f: F,
)
    requires
        cfg.depth_limit == 0,
        forall|i: int|
            0 <= i < named.len() ==> one_line((#[trigger] named[i]).0) && quiet(named[i].1, f),
    ensures
        one_line(fields_text(named, cfg, depth, f)),
    decreases named,
{
    reveal(comma_text);
    reveal(Config::space);
    reveal_strlit(",");
    reveal_strlit(":");
    lemma_indent_by_depth(cfg, depth);
    if named.len() > 0 {
        assert(quiet(named[named.len() - 1].1, f));
        assert forall|i: int| 0 <= i < named.drop_last().len() implies one_line(
            (#[trigger] named.drop_last()[i]).0,
        ) && quiet(named.drop_last()[i].1, f) by {
            assert(named.drop_last()[i] == named[i]);
        }
        lemma_flat_fields(named.drop_last(), cfg, depth, f);
        lemma_flat(named.last().1, cfg, depth, f);
    }
}

} // verus!
