//! The parser that a plan stands for: how the text of a struct or enum
//! declared with the `sexpr` attribute is read. A `Reader` pairs the plan of
//! a declaration with the rules of its fields' types; `spec_read` is the
//! grammar it accepts and `read` runs it.
use vstd::prelude::*;
use crate::outcome::{Outcome, SpecOutcome};
use crate::parsable::{spec_named, spec_optional_named, spec_padded, spec_optional, spec_string, spec_then_ws, spec_open, spec_close, spec_keyword_item, parse_open, parse_close, parse_keyword_item, Parsable};
use crate::sexpr_config::{StructPlan, FieldForm, ItemForm, SpecItemForm, SpecFieldForm, FieldDecl, StructStyle, SexprError, VariantDecl, spec_variant_name, spec_field_form, spec_item_form, plan_matches};
use crate::text::{chars_of, ws_end, skip_ws, spec_lparen, spec_rparen, spec_keyword, lparen, rparen, keyword, lemma_ws_end_bounds};

verus! {

/// The rule by which the value of a field is read: that of its type.
#[derive(Debug)]
pub enum Reader {
    /// A `String`.
    Text,
    /// A `Vec<T>`: values of `T`, as many as match, with white space around.
    Many(Box<Reader>),
    /// A struct or variant with the attribute: its plan, and the rules of its
    /// fields' types in order (for an `Option<T>` field, the rule of `T`).
    Struct(StructPlan, Vec<Reader>),
    /// An enum with the attribute: the readers of its variants, in order.
    Enum(Vec<Reader>),
}

/// A value read by a `Reader`.
#[derive(Debug)]
pub enum Value {
    Text(String),
    List(Vec<Value>),
    /// The value of an `Option<T>` field.
    Opt(Option<Box<Value>>),
    /// The fields of a struct or variant, in order.
    Record(Vec<Value>),
    /// The variant with this index, and its fields.
    Variant(usize, Box<Value>),
}

/// The mathematical counterpart of [`Value`].
pub enum SpecValue {
    Text(Seq<char>),
    List(Seq<SpecValue>),
    Opt(Option<Box<SpecValue>>),
    Record(Seq<SpecValue>),
    Variant(nat, Box<SpecValue>),
}

pub open spec fn value_view(v: Value) -> SpecValue
    decreases v,
{
    match v {
        Value::Text(t) => SpecValue::Text(t@),
        Value::List(items) => SpecValue::List(
            Seq::new(
                items@.len(),
                |i: int|
                    if 0 <= i < items@.len() {
                        value_view(items@[i])
                    } else {
                        SpecValue::Text(seq![])
                    },
            ),
        ),
        Value::Opt(o) => match o {
            Some(b) => SpecValue::Opt(Some(Box::new(value_view(*b)))),
            None => SpecValue::Opt(None),
        },
        Value::Record(items) => SpecValue::Record(
            Seq::new(
                items@.len(),
                |i: int|
                    if 0 <= i < items@.len() {
                        value_view(items@[i])
                    } else {
                        SpecValue::Text(seq![])
                    },
            ),
        ),
        Value::Variant(k, b) => SpecValue::Variant(k as nat, Box::new(value_view(*b))),
    }
}

/// The views of a sequence of values.
pub open spec fn values_view(vs: Seq<Value>) -> Seq<SpecValue> {
    Seq::new(vs.len(), |i: int| value_view(vs[i]))
}

impl DeepView for Value {
    type V = SpecValue;

    open spec fn deep_view(&self) -> SpecValue {
        value_view(*self)
    }
}

proof fn lemma_list_view(items: Vec<Value>)
    ensures
        value_view(Value::List(items)) == SpecValue::List(values_view(items@)),
        value_view(Value::Record(items)) == SpecValue::Record(values_view(items@)),
{
    let l = value_view(Value::List(items));
    let a = l->List_0;
    assert(a.len() == items@.len());
    assert forall|i: int| 0 <= i < a.len() implies a[i] == value_view(items@[i]) by {}
    assert(a =~= values_view(items@));
    let r = value_view(Value::Record(items));
    let b = r->Record_0;
    assert(b.len() == items@.len());
    assert forall|i: int| 0 <= i < b.len() implies b[i] == value_view(items@[i]) by {}
    assert(b =~= values_view(items@));
}

/// The views of the field forms of a plan.
pub open spec fn plan_field_forms(plan: StructPlan) -> Seq<SpecFieldForm> {
    Seq::new(plan.fields@.len(), |k: int| plan.fields@[k].view())
}

/// The rule of a reader, started at `p`.
pub open spec fn spec_read(r: Reader, s: Seq<char>, p: int) -> SpecOutcome<SpecValue>
    decreases r, 3int, 0int,
{
    match r {
        Reader::Text => match spec_string(s, p) {
            SpecOutcome::Parsed(t, q) => SpecOutcome::Parsed(SpecValue::Text(t), q),
            SpecOutcome::Failed => SpecOutcome::Failed,
            SpecOutcome::Aborted => SpecOutcome::Aborted,
        },
        Reader::Many(inner) => match spec_read_many(*inner, s, ws_end(s, p)) {
            SpecOutcome::Parsed(vs, q) => SpecOutcome::Parsed(SpecValue::List(vs), ws_end(s, q)),
            SpecOutcome::Failed => SpecOutcome::Failed,
            SpecOutcome::Aborted => SpecOutcome::Aborted,
        },
        Reader::Struct(plan, readers) => spec_read_struct(
            plan.form.view(),
            plan_field_forms(plan),
            readers,
            s,
            p,
        ),
        Reader::Enum(variants) => spec_read_choice(variants, 0, s, p),
    }
}

/// A struct or variant written in `form`, whose fields are written in
/// `forms` and read by `readers`:
/// - `Keyword(n)`: the bare keyword `n`, with white space around it;
/// - `List(n)`: white space, `(`, the keyword `n`, the fields, `)`, white space;
/// - `Sequence`: the fields one after the other, with white space around.
/// A reader per field is needed; with another number of readers nothing is read.
pub open spec fn spec_read_struct(
    form: SpecItemForm,
    forms: Seq<SpecFieldForm>,
    readers: Vec<Reader>,
    s: Seq<char>,
    p: int,
) -> SpecOutcome<SpecValue>
    decreases readers, 2int, 0int,
{
    if readers@.len() != forms.len() {
        SpecOutcome::Failed
    } else {
        match form {
            SpecItemForm::Keyword(n) => match spec_keyword_item(s, p, n) {
                Some(q) => SpecOutcome::Parsed(SpecValue::Record(seq![]), q),
                None => SpecOutcome::Failed,
            },
            SpecItemForm::List(n) => match spec_open(s, p, n) {
                None => SpecOutcome::Failed,
                Some(q1) => match spec_read_fields(forms, readers, 0, s, q1) {
                    SpecOutcome::Parsed(vs, q2) => match spec_close(s, q2) {
                        Some(q3) => SpecOutcome::Parsed(SpecValue::Record(vs), q3),
                        None => SpecOutcome::Failed,
                    },
                    SpecOutcome::Failed => SpecOutcome::Failed,
                    SpecOutcome::Aborted => SpecOutcome::Aborted,
                },
            },
            SpecItemForm::Sequence => match spec_read_fields(forms, readers, 0, s, ws_end(s, p)) {
                SpecOutcome::Parsed(vs, q) => SpecOutcome::Parsed(SpecValue::Record(vs), ws_end(s, q)),
                SpecOutcome::Failed => SpecOutcome::Failed,
                SpecOutcome::Aborted => SpecOutcome::Aborted,
            },
        }
    }
}

/// Values of one reader, as many as match. An element that matches without
/// consuming input would repeat forever; the rule aborts there.
pub open spec fn spec_read_many(r: Reader, s: Seq<char>, p: int) -> SpecOutcome<Seq<SpecValue>>
    decreases r, 4int, s.len() - p,
{
    match spec_read(r, s, p) {
        SpecOutcome::Parsed(v, q) => if q <= p {
            SpecOutcome::Aborted
        } else if q <= s.len() {
            match spec_read_many(r, s, q) {
                SpecOutcome::Parsed(vs, e) => SpecOutcome::Parsed(seq![v] + vs, e),
                SpecOutcome::Failed => SpecOutcome::Failed,
                SpecOutcome::Aborted => SpecOutcome::Aborted,
            }
        } else {
            SpecOutcome::Parsed(seq![v], q)
        },
        SpecOutcome::Failed => SpecOutcome::Parsed(seq![], p),
        SpecOutcome::Aborted => SpecOutcome::Aborted,
    }
}

/// One field, by its form: `(name value)` with white space around it, or the
/// value with white space around it; a field that may be left out gives
/// `None` where it does not match, without consuming input.
pub open spec fn spec_read_field(f: SpecFieldForm, r: Reader, s: Seq<char>, p: int) -> SpecOutcome<SpecValue>
    decreases r, 5int, 0int,
{
    let inner = match f.name {
        Some(n) => match spec_lparen(s, ws_end(s, p)) {
            None => SpecOutcome::Failed,
            Some(q1) => match spec_keyword(s, q1, n) {
                None => SpecOutcome::Failed,
                Some(q2) => match spec_read(r, s, q2) {
                    SpecOutcome::Parsed(v, q3) => match spec_rparen(s, q3) {
                        Some(q4) => SpecOutcome::Parsed(v, ws_end(s, q4)),
                        None => SpecOutcome::Failed,
                    },
                    SpecOutcome::Failed => SpecOutcome::Failed,
                    SpecOutcome::Aborted => SpecOutcome::Aborted,
                },
            },
        },
        None => spec_then_ws(spec_read(r, s, ws_end(s, p)), s),
    };
    if f.optional {
        match inner {
            SpecOutcome::Parsed(v, q) => SpecOutcome::Parsed(SpecValue::Opt(Some(Box::new(v))), q),
            SpecOutcome::Failed => SpecOutcome::Parsed(SpecValue::Opt(None), p),
            SpecOutcome::Aborted => SpecOutcome::Aborted,
        }
    } else {
        inner
    }
}

/// The fields from the `k`-th on, one after the other.
pub open spec fn spec_read_fields(
    forms: Seq<SpecFieldForm>,
    readers: Vec<Reader>,
    k: int,
    s: Seq<char>,
    p: int,
) -> SpecOutcome<Seq<SpecValue>>
    decreases readers, 1int, readers@.len() - k,
{
    if 0 <= k < readers@.len() && k < forms.len() {
        match spec_read_field(forms[k], readers@[k], s, p) {
            SpecOutcome::Parsed(v, q) => match spec_read_fields(forms, readers, k + 1, s, q) {
                SpecOutcome::Parsed(vs, e) => SpecOutcome::Parsed(seq![v] + vs, e),
                SpecOutcome::Failed => SpecOutcome::Failed,
                SpecOutcome::Aborted => SpecOutcome::Aborted,
            },
            SpecOutcome::Failed => SpecOutcome::Failed,
            SpecOutcome::Aborted => SpecOutcome::Aborted,
        }
    } else {
        SpecOutcome::Parsed(seq![], p)
    }
}

/// The variants from the `k`-th on, tried in order: the first that matches
/// gives the value; none matching is a failure.
pub open spec fn spec_read_choice(variants: Vec<Reader>, k: int, s: Seq<char>, p: int) -> SpecOutcome<SpecValue>
    decreases variants, 1int, variants@.len() - k,
{
    if 0 <= k < variants@.len() {
        match spec_read(variants@[k], s, p) {
            SpecOutcome::Parsed(v, q) => SpecOutcome::Parsed(SpecValue::Variant(k as nat, Box::new(v)), q),
            SpecOutcome::Failed => spec_read_choice(variants, k + 1, s, p),
            SpecOutcome::Aborted => SpecOutcome::Aborted,
        }
    } else {
        SpecOutcome::Failed
    }
}

/// The view of an outcome that holds a list of values.
pub open spec fn values_outcome(o: Outcome<Vec<Value>>) -> SpecOutcome<Seq<SpecValue>> {
    match o {
        Outcome::Parsed(vs, q) => SpecOutcome::Parsed(values_view(vs@), q as int),
        Outcome::Failed => SpecOutcome::Failed,
        Outcome::Aborted => SpecOutcome::Aborted,
    }
}

/// `v` in front of `vs`.
fn prepend(v: Value, vs: Vec<Value>) -> (r: Vec<Value>)
    ensures
        values_view(r@) == seq![value_view(v)] + values_view(vs@),
{
    let ghost gv = value_view(v);
    let mut r = vs;
    let ghost old_r = r@;
    r.insert(0, v);
    assert(values_view(r@) =~= seq![gv] + values_view(old_r));
    r
}

/// Reads text by the rule of a reader, from position `p`.
pub fn read(r: &Reader, s: &Vec<char>, p: usize) -> (out: Outcome<Value>)
    requires
        p <= s.len(),
    ensures
        out@ == spec_read(*r, s@, p as int),
        out.within(p as int, s.len() as int),
    decreases r, 3int, 0int,
{
    match r {
        Reader::Text => match String::parse_at(s, p) {
            Outcome::Parsed(t, q) => Outcome::Parsed(Value::Text(t), q),
            Outcome::Failed => Outcome::Failed,
            Outcome::Aborted => Outcome::Aborted,
        },
        Reader::Many(inner) => {
            let q = skip_ws(s, p);
            match read_many(inner, s, q) {
                Outcome::Parsed(vs, q1) => {
                    proof {
                        lemma_list_view(vs);
                    }
                    Outcome::Parsed(Value::List(vs), skip_ws(s, q1))
                },
                Outcome::Failed => Outcome::Failed,
                Outcome::Aborted => Outcome::Aborted,
            }
        },
        Reader::Struct(plan, readers) => read_struct(plan, readers, s, p),
        Reader::Enum(variants) => read_choice(variants, 0, s, p),
    }
}

/// Reads a struct or variant by its plan (`spec_read_struct`).
pub fn read_struct(plan: &StructPlan, readers: &Vec<Reader>, s: &Vec<char>, p: usize) -> (out: Outcome<Value>)
    requires
        p <= s.len(),
    ensures
        out@ == spec_read_struct(plan.form.view(), plan_field_forms(*plan), *readers, s@, p as int),
        out.within(p as int, s.len() as int),
    decreases readers, 2int, 0int,
{
    if readers.len() != plan.fields.len() {
        return Outcome::Failed;
    }
    match &plan.form {
        ItemForm::Keyword(n) => match parse_keyword_item(s, p, n.as_str()) {
            Some(q) => {
                let vs: Vec<Value> = Vec::new();
                proof {
                    lemma_list_view(vs);
                    assert(values_view(vs@) =~= Seq::<SpecValue>::empty());
                }
                Outcome::Parsed(Value::Record(vs), q)
            },
            None => Outcome::Failed,
        },
        ItemForm::List(n) => match parse_open(s, p, n.as_str()) {
            None => Outcome::Failed,
            Some(q1) => match read_fields(plan, readers, 0, s, q1) {
                Outcome::Parsed(vs, q2) => match parse_close(s, q2) {
                    Some(q3) => {
                        proof {
                            lemma_list_view(vs);
                        }
                        Outcome::Parsed(Value::Record(vs), q3)
                    },
                    None => Outcome::Failed,
                },
                Outcome::Failed => Outcome::Failed,
                Outcome::Aborted => Outcome::Aborted,
            },
        },
        ItemForm::Sequence => {
            let q = skip_ws(s, p);
            match read_fields(plan, readers, 0, s, q) {
                Outcome::Parsed(vs, q1) => {
                    proof {
                        lemma_list_view(vs);
                    }
                    Outcome::Parsed(Value::Record(vs), skip_ws(s, q1))
                },
                Outcome::Failed => Outcome::Failed,
                Outcome::Aborted => Outcome::Aborted,
            }
        },
    }
}

/// Values of one reader, as many as match (`spec_read_many`).
pub fn read_many(r: &Reader, s: &Vec<char>, p: usize) -> (out: Outcome<Vec<Value>>)
    requires
        p <= s.len(),
    ensures
        values_outcome(out) == spec_read_many(*r, s@, p as int),
        out.within(p as int, s.len() as int),
    decreases r, 4int, s.len() - p,
{
    match read(r, s, p) {
        Outcome::Parsed(v, q) => {
            if q <= p {
                Outcome::Aborted
            } else {
                match read_many(r, s, q) {
                    Outcome::Parsed(vs, e) => Outcome::Parsed(prepend(v, vs), e),
                    Outcome::Failed => Outcome::Failed,
                    Outcome::Aborted => Outcome::Aborted,
                }
            }
        },
        Outcome::Failed => {
            let vs: Vec<Value> = Vec::new();
            assert(values_view(vs@) =~= Seq::<SpecValue>::empty());
            Outcome::Parsed(vs, p)
        },
        Outcome::Aborted => Outcome::Aborted,
    }
}

/// One field, by its form (`spec_read_field`).
pub fn read_field(f: &FieldForm, r: &Reader, s: &Vec<char>, p: usize) -> (out: Outcome<Value>)
    requires
        p <= s.len(),
    ensures
        out@ == spec_read_field(f.view(), *r, s@, p as int),
        out.within(p as int, s.len() as int),
    decreases r, 5int, 0int,
{
    let inner = match &f.name {
        Some(n) => {
            let q = skip_ws(s, p);
            match lparen(s, q) {
                None => Outcome::Failed,
                Some(q1) => match keyword(s, q1, n.as_str()) {
                    None => Outcome::Failed,
                    Some(q2) => match read(r, s, q2) {
                        Outcome::Parsed(v, q3) => match rparen(s, q3) {
                            Some(q4) => Outcome::Parsed(v, skip_ws(s, q4)),
                            None => Outcome::Failed,
                        },
                        Outcome::Failed => Outcome::Failed,
                        Outcome::Aborted => Outcome::Aborted,
                    },
                },
            }
        },
        None => {
            let q = skip_ws(s, p);
            match read(r, s, q) {
                Outcome::Parsed(v, q1) => Outcome::Parsed(v, skip_ws(s, q1)),
                Outcome::Failed => Outcome::Failed,
                Outcome::Aborted => Outcome::Aborted,
            }
        },
    };
    if f.optional {
        match inner {
            Outcome::Parsed(v, q) => Outcome::Parsed(Value::Opt(Some(Box::new(v))), q),
            Outcome::Failed => Outcome::Parsed(Value::Opt(None), p),
            Outcome::Aborted => Outcome::Aborted,
        }
    } else {
        inner
    }
}

/// The fields of a plan from the `k`-th on (`spec_read_fields`).
pub fn read_fields(plan: &StructPlan, readers: &Vec<Reader>, k: usize, s: &Vec<char>, p: usize) -> (out: Outcome<
    Vec<Value>,
>)
    requires
        p <= s.len(),
    ensures
        values_outcome(out) == spec_read_fields(plan_field_forms(*plan), *readers, k as int, s@, p as int),
        out.within(p as int, s.len() as int),
    decreases readers, 1int, readers@.len() - k,
{
    if k < readers.len() && k < plan.fields.len() {
        match read_field(&plan.fields[k], &readers[k], s, p) {
            Outcome::Parsed(v, q) => match read_fields(plan, readers, k + 1, s, q) {
                Outcome::Parsed(vs, e) => Outcome::Parsed(prepend(v, vs), e),
                Outcome::Failed => Outcome::Failed,
                Outcome::Aborted => Outcome::Aborted,
            },
            Outcome::Failed => Outcome::Failed,
            Outcome::Aborted => Outcome::Aborted,
        }
    } else {
        let vs: Vec<Value> = Vec::new();
        assert(values_view(vs@) =~= Seq::<SpecValue>::empty());
        Outcome::Parsed(vs, p)
    }
}

/// The variants from the `k`-th on (`spec_read_choice`).
pub fn read_choice(variants: &Vec<Reader>, k: usize, s: &Vec<char>, p: usize) -> (out: Outcome<Value>)
    requires
        p <= s.len(),
    ensures
        out@ == spec_read_choice(*variants, k as int, s@, p as int),
        out.within(p as int, s.len() as int),
    decreases variants, 1int, variants@.len() - k,
{
    if k < variants.len() {
        match read(&variants[k], s, p) {
            Outcome::Parsed(v, q) => Outcome::Parsed(Value::Variant(k, Box::new(v)), q),
            Outcome::Failed => read_choice(variants, k + 1, s, p),
            Outcome::Aborted => Outcome::Aborted,
        }
    } else {
        Outcome::Failed
    }
}

/// Reads a whole input by the rule of a reader, from its start. What follows
/// the value is not looked at.
pub fn read_str(r: &Reader, input: &str) -> (out: Outcome<Value>)
    ensures
        out@ == spec_read(*r, input@, 0),
{
    let s = chars_of(input);
    read(r, &s, 0)
}


/// The forms in which the fields of a declaration are written (a field whose
/// attributes are refused has none; such a declaration has no plan).
pub open spec fn declared_field_forms(fields: Seq<FieldDecl>) -> Seq<SpecFieldForm> {
    Seq::new(
        fields.len(),
        |k: int|
            match spec_field_form(fields[k]) {
                Ok(f) => f,
                Err(_) => SpecFieldForm { name: None, optional: false },
            },
    )
}

/// What a struct or variant declared with these fields reads, written under
/// `name` (none: anonymous), with `readers` for its fields' types: the form
/// that `spec_item_form` gives, around the fields in the forms that
/// `spec_field_form` gives, in declaration order.
pub open spec fn spec_declared_read(
    name: Option<Seq<char>>,
    style: StructStyle,
    fields: Seq<FieldDecl>,
    readers: Vec<Reader>,
    s: Seq<char>,
    p: int,
) -> SpecOutcome<SpecValue> {
    spec_read_struct(spec_item_form(name, style, fields.len() as int), declared_field_forms(fields), readers, s, p)
}

/// A plan made for a declaration reads what the declaration says: the
/// parser of a struct or variant is fixed by its name, style and fields.
pub proof fn lemma_plan_reads_as_declared(
    plan: StructPlan,
    name: Option<Seq<char>>,
    style: StructStyle,
    fields: Seq<FieldDecl>,
    readers: Vec<Reader>,
    s: Seq<char>,
    p: int,
)
    requires
        plan_matches(Ok(plan), name, style, fields),
    ensures
        spec_read(Reader::Struct(plan, readers), s, p) == spec_declared_read(name, style, fields, readers, s, p),
{
    assert(plan_field_forms(plan) =~= declared_field_forms(fields)) by {
        assert forall|k: int| 0 <= k < fields.len() implies plan_field_forms(plan)[k] == declared_field_forms(
            fields,
        )[k] by {
            assert(spec_field_form(fields[k]) == Ok::<SpecFieldForm, SexprError>(plan.fields@[k].view()));
        }
    }
}

/// The variants of an enum are tried in declaration order: where the first
/// `j` fail and the `j`-th matches, the enum reads as the `j`-th variant.
pub proof fn lemma_first_matching_variant_wins(variants: Vec<Reader>, j: int, s: Seq<char>, p: int)
    requires
        0 <= j < variants@.len(),
        forall|i: int| 0 <= i < j ==> spec_read(#[trigger] variants@[i], s, p) is Failed,
        spec_read(variants@[j], s, p) is Parsed,
    ensures
        spec_read(Reader::Enum(variants), s, p) == (match spec_read(variants@[j], s, p) {
            SpecOutcome::Parsed(v, q) => SpecOutcome::Parsed(SpecValue::Variant(j as nat, Box::new(v)), q),
            _ => SpecOutcome::Failed,
        }),
{
    lemma_choice_skips(variants, 0, j, s, p);
}

proof fn lemma_choice_skips(variants: Vec<Reader>, k: int, j: int, s: Seq<char>, p: int)
    requires
        0 <= k <= j <= variants@.len(),
        forall|i: int| 0 <= i < j ==> spec_read(#[trigger] variants@[i], s, p) is Failed,
    ensures
        spec_read_choice(variants, k, s, p) == spec_read_choice(variants, j, s, p),
    decreases j - k,
{
    if k < j {
        assert(spec_read(variants@[k], s, p) is Failed);
        lemma_choice_skips(variants, k + 1, j, s, p);
    }
}

/// An enum none of whose variants matches does not match; in particular an
/// enum without variants matches nothing.
pub proof fn lemma_no_matching_variant_fails(variants: Vec<Reader>, s: Seq<char>, p: int)
    requires
        forall|i: int| 0 <= i < variants@.len() ==> spec_read(#[trigger] variants@[i], s, p) is Failed,
    ensures
        spec_read(Reader::Enum(variants), s, p) is Failed,
{
    lemma_choice_skips(variants, 0, variants@.len() as int, s, p);
}


/// A string outcome as a value.
pub open spec fn text_outcome(o: SpecOutcome<Seq<char>>) -> SpecOutcome<SpecValue> {
    match o {
        SpecOutcome::Parsed(t, q) => SpecOutcome::Parsed(SpecValue::Text(t), q),
        SpecOutcome::Failed => SpecOutcome::Failed,
        SpecOutcome::Aborted => SpecOutcome::Aborted,
    }
}

/// An optional string outcome as a value.
pub open spec fn opt_text_outcome(o: SpecOutcome<Option<Seq<char>>>) -> SpecOutcome<SpecValue> {
    match o {
        SpecOutcome::Parsed(Some(t), q) => SpecOutcome::Parsed(SpecValue::Opt(Some(Box::new(SpecValue::Text(t)))), q),
        SpecOutcome::Parsed(None, q) => SpecOutcome::Parsed(SpecValue::Opt(None), q),
        SpecOutcome::Failed => SpecOutcome::Failed,
        SpecOutcome::Aborted => SpecOutcome::Aborted,
    }
}

/// The four field forms, for a `String` field, are the rules with which the
/// fields of the file's own types are read: a named field is `spec_named`,
/// a named field that may be left out `spec_optional_named`, a bare field
/// `spec_padded` and a bare field that may be left out `spec_optional`.
pub proof fn lemma_field_forms_are_the_field_rules(n: Seq<char>, s: Seq<char>, p: int)
    ensures
        spec_read_field(SpecFieldForm { name: Some(n), optional: false }, Reader::Text, s, p) == text_outcome(
            spec_named::<String>(s, p, n),
        ),
        spec_read_field(SpecFieldForm { name: Some(n), optional: true }, Reader::Text, s, p)
            == opt_text_outcome(spec_optional_named::<String>(s, p, n)),
        spec_read_field(SpecFieldForm { name: None, optional: false }, Reader::Text, s, p) == text_outcome(
            spec_padded::<String>(s, p),
        ),
        spec_read_field(SpecFieldForm { name: None, optional: true }, Reader::Text, s, p) == opt_text_outcome(
            spec_optional::<String>(s, p),
        ),
{
}


/// The options written on an enum itself never change its parser: two
/// lists of variant plans that both meet what `derive_enum` (and so `sexpr`,
/// under any accepted options of its own) gives for the same variants, each
/// paired with the same rules for the variants' fields, read every text alike.
pub proof fn lemma_enum_options_do_not_matter(
    variants: Seq<VariantDecl>,
    plans1: Seq<StructPlan>,
    plans2: Seq<StructPlan>,
    readers: Seq<Vec<Reader>>,
    enum1: Vec<Reader>,
    enum2: Vec<Reader>,
    s: Seq<char>,
    p: int,
)
    requires
        plans1.len() == variants.len(),
        plans2.len() == variants.len(),
        readers.len() == variants.len(),
        forall|k: int|
            0 <= k < variants.len() ==> plan_matches(
                Ok(#[trigger] plans1[k]),
                spec_variant_name(variants[k]),
                variants[k].style,
                variants[k].fields@,
            ),
        forall|k: int|
            0 <= k < variants.len() ==> plan_matches(
                Ok(#[trigger] plans2[k]),
                spec_variant_name(variants[k]),
                variants[k].style,
                variants[k].fields@,
            ),
        enum1@.len() == variants.len(),
        enum2@.len() == variants.len(),
        forall|k: int| 0 <= k < variants.len() ==> #[trigger] enum1@[k] == Reader::Struct(plans1[k], readers[k]),
        forall|k: int| 0 <= k < variants.len() ==> #[trigger] enum2@[k] == Reader::Struct(plans2[k], readers[k]),
    ensures
        spec_read(Reader::Enum(enum1), s, p) == spec_read(Reader::Enum(enum2), s, p),
{
    assert forall|k: int| 0 <= k < variants.len() implies spec_read(#[trigger] enum1@[k], s, p) == spec_read(
        enum2@[k],
        s,
        p,
    ) by {
        lemma_plan_reads_as_declared(
            plans1[k],
            spec_variant_name(variants[k]),
            variants[k].style,
            variants[k].fields@,
            readers[k],
            s,
            p,
        );
        lemma_plan_reads_as_declared(
            plans2[k],
            spec_variant_name(variants[k]),
            variants[k].style,
            variants[k].fields@,
            readers[k],
            s,
            p,
        );
    }
    lemma_choices_alike(enum1, enum2, 0, s, p);
}

proof fn lemma_choices_alike(enum1: Vec<Reader>, enum2: Vec<Reader>, k: int, s: Seq<char>, p: int)
    requires
        enum1@.len() == enum2@.len(),
        0 <= k <= enum1@.len(),
        forall|j: int| 0 <= j < enum1@.len() ==> spec_read(#[trigger] enum1@[j], s, p) == spec_read(enum2@[j], s, p),
    ensures
        spec_read_choice(enum1, k, s, p) == spec_read_choice(enum2, k, s, p),
    decreases enum1@.len() - k,
{
    if k < enum1@.len() {
        assert(spec_read(enum1@[k], s, p) == spec_read(enum2@[k], s, p));
        lemma_choices_alike(enum1, enum2, k + 1, s, p);
    }
}

} // verus!
