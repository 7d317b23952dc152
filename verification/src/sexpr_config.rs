//! The decisions the `sexpr` attribute takes from a type declaration: which
//! `#[sexpr(..)]` options a type, variant or field carries, under which name it
//! is written, and which form its text takes. A declaration is described here
//! by plain values (paths, literals, attribute items).
use vstd::prelude::*;
use convert_case::{Case, Casing};
use crate::derived::{Reader, spec_read, spec_declared_read, lemma_plan_reads_as_declared};

verus! {

/// Whether two strings hold the same characters.
pub fn text_eq(a: &str, b: &str) -> (r: bool)
    ensures
        r == (a@ == b@),
{
    let n = a.unicode_len();
    if n != b.unicode_len() {
        return false;
    }
    let mut i: usize = 0;
    while i < n
        invariant
            n == a@.len(),
            n == b@.len(),
            i <= n,
            forall|j: int| 0 <= j < i ==> a@[j] == b@[j],
        decreases n - i,
    {
        if a.get_char(i) != b.get_char(i) {
            return false;
        }
        i = i + 1;
    }
    assert(a@ =~= b@);
    true
}

/// A path such as `name` or `pyo3::pyclass`, by its segments.
#[derive(Debug, Clone, PartialEq)]
pub struct Path {
    pub segments: Vec<String>,
}

/// The path is the single identifier `ident`.
pub open spec fn is_ident(p: Path, ident: Seq<char>) -> bool {
    p.segments@.len() == 1 && p.segments@[0]@ == ident
}

impl Path {
    pub fn is_ident(&self, ident: &str) -> (r: bool)
        ensures
            r == is_ident(*self, ident@),
    {
        self.segments.len() == 1 && text_eq(self.segments[0].as_str(), ident)
    }
}

/// The value on the right of `name = ...`.
#[derive(Debug, Clone, PartialEq)]
pub enum Lit {
    /// A string literal, by its contents.
    Str(String),
    /// Any other expression, by its source text.
    Other(String),
}

/// An attribute item: `path`, `path(...)` or `path = value`.
#[derive(Debug)]
pub enum Meta {
    Path(Path),
    /// `path(...)`; `inner` is the single item that the parenthesized tokens
    /// form, or `None` where they do not form exactly one item.
    List { path: Path, inner: Option<Box<Meta>> },
    NameValue { path: Path, value: Lit },
}

pub open spec fn meta_path(m: Meta) -> Path {
    match m {
        Meta::Path(p) => p,
        Meta::List { path, .. } => path,
        Meta::NameValue { path, .. } => path,
    }
}

impl Meta {
    pub fn path(&self) -> (r: &Path)
        ensures
            *r == meta_path(*self),
    {
        match self {
            Meta::Path(p) => p,
            Meta::List { path, .. } => path,
            Meta::NameValue { path, .. } => path,
        }
    }
}

/// Why an `#[sexpr(..)]` attribute was refused.
#[derive(Debug, Clone, Copy, PartialEq, Eq)]
pub enum SexprError {
    /// `x = ...` where `x` is not `name`.
    ExpectedName,
    /// `name = ...` with something other than a string literal.
    ExpectedStringLiteral,
    /// An item that is neither `anonymous` nor `name = "..."`.
    ExpectedAnonymousOrName,
    /// `#[sexpr(...)]` whose parentheses do not hold exactly one item.
    MalformedArguments,
    /// `#[sexpr]` or `#[sexpr = ...]` where a list was expected.
    ExpectedList,
    /// Both `anonymous` and `name` were given.
    AnonymousWithName,
}

/// The message reported for each error.
pub open spec fn error_message(e: SexprError) -> Seq<char> {
    match e {
        SexprError::ExpectedName => "Expected 'name' attribute"@,
        SexprError::ExpectedStringLiteral => "Expected string literal for name attribute"@,
        SexprError::ExpectedAnonymousOrName => "Expected either 'anonymous' or 'name = \"value\"'"@,
        SexprError::MalformedArguments => "Expected a single item inside #[sexpr(...)]"@,
        SexprError::ExpectedList => "Expected #[sexpr(anonymous)] or #[sexpr(name = \"value\")]"@,
        SexprError::AnonymousWithName => "anonymous and name attributes cannot be used together"@,
    }
}

impl SexprError {
    /// The message reported for the error.
    pub fn message(&self) -> (r: &'static str)
        ensures
            r@ == error_message(*self),
    {
        match self {
            SexprError::ExpectedName => "Expected 'name' attribute",
            SexprError::ExpectedStringLiteral => "Expected string literal for name attribute",
            SexprError::ExpectedAnonymousOrName => "Expected either 'anonymous' or 'name = \"value\"'",
            SexprError::MalformedArguments => "Expected a single item inside #[sexpr(...)]",
            SexprError::ExpectedList => "Expected #[sexpr(anonymous)] or #[sexpr(name = \"value\")]",
            SexprError::AnonymousWithName => "anonymous and name attributes cannot be used together",
        }
    }
}

/// The options one item contributes: a name and the anonymous flag.
pub type SpecOptions = Result<(Option<Seq<char>>, Option<bool>), SexprError>;

/// The view of the options an executable function gives back.
pub open spec fn options_view(r: Result<(Option<String>, Option<bool>), SexprError>) -> SpecOptions {
    match r {
        Ok((n, a)) => Ok(
            (
                match n {
                    Some(s) => Some(s@),
                    None => None,
                },
                a,
            ),
        ),
        Err(e) => Err(e),
    }
}

/// `name = value`: only `name` is accepted, and only with a string literal.
pub open spec fn spec_name_value(path: Path, value: Lit) -> Result<Seq<char>, SexprError> {
    if !is_ident(path, "name"@) {
        Err(SexprError::ExpectedName)
    } else {
        match value {
            Lit::Str(s) => Ok(s@),
            Lit::Other(_) => Err(SexprError::ExpectedStringLiteral),
        }
    }
}

pub fn parse_meta_name_value(path: &Path, value: &Lit) -> (r: Result<String, SexprError>)
    ensures
        match (r, spec_name_value(*path, *value)) {
            (Ok(a), Ok(b)) => a@ == b,
            (Err(a), Err(b)) => a == b,
            _ => false,
        },
{
    if !path.is_ident("name") {
        return Err(SexprError::ExpectedName);
    }
    match value {
        Lit::Str(s) => Ok(s.clone()),
        Lit::Other(_) => Err(SexprError::ExpectedStringLiteral),
    }
}

/// One item inside `#[sexpr(...)]`: `anonymous` or `name = "..."`.
pub open spec fn spec_meta(m: Meta) -> SpecOptions {
    match m {
        Meta::Path(p) => if is_ident(p, "anonymous"@) {
            Ok((None, Some(true)))
        } else {
            Err(SexprError::ExpectedAnonymousOrName)
        },
        Meta::NameValue { path, value } => match spec_name_value(path, value) {
            Ok(n) => Ok((Some(n), None)),
            Err(e) => Err(e),
        },
        Meta::List { .. } => Err(SexprError::ExpectedAnonymousOrName),
    }
}

pub fn parse_meta(meta: &Meta) -> (r: Result<(Option<String>, Option<bool>), SexprError>)
    ensures
        options_view(r) == spec_meta(*meta),
{
    match meta {
        Meta::Path(p) => {
            if p.is_ident("anonymous") {
                Ok((None, Some(true)))
            } else {
                Err(SexprError::ExpectedAnonymousOrName)
            }
        },
        Meta::NameValue { path, value } => match parse_meta_name_value(path, value) {
            Ok(n) => Ok((Some(n), None)),
            Err(e) => Err(e),
        },
        Meta::List { .. } => Err(SexprError::ExpectedAnonymousOrName),
    }
}

/// An attribute of a declaration: attributes other than `sexpr` contribute
/// nothing; `sexpr` must be written as a list holding one item.
pub open spec fn spec_attribute(a: Meta) -> SpecOptions {
    if !is_ident(meta_path(a), "sexpr"@) {
        Ok((None, None))
    } else {
        match a {
            Meta::List { inner, .. } => match inner {
                Some(m) => spec_meta(*m),
                None => Err(SexprError::MalformedArguments),
            },
            _ => Err(SexprError::ExpectedList),
        }
    }
}

pub fn parse_attribute(attr: &Meta) -> (r: Result<(Option<String>, Option<bool>), SexprError>)
    ensures
        options_view(r) == spec_attribute(*attr),
{
    if !attr.path().is_ident("sexpr") {
        return Ok((None, None));
    }
    match attr {
        Meta::List { inner, .. } => match inner {
            Some(m) => parse_meta(m),
            None => Err(SexprError::MalformedArguments),
        },
        _ => Err(SexprError::ExpectedList),
    }
}

/// The options of a type, variant or field.
#[derive(Debug, Clone, PartialEq)]
pub struct SexprAttrs {
    pub name: Option<String>,
    pub anonymous: Option<bool>,
}

impl SexprAttrs {
    /// Neither a name nor the anonymous flag.
    pub fn new() -> (r: SexprAttrs)
        ensures
            r.name is None,
            r.anonymous is None,
    {
        SexprAttrs { name: None, anonymous: None }
    }

    pub open spec fn options(self) -> (Option<Seq<char>>, Option<bool>) {
        (
            match self.name {
                Some(s) => Some(s@),
                None => None,
            },
            self.anonymous,
        )
    }

    /// A name and the anonymous flag may not be given together.
    pub fn validate(name: Option<String>, anonymous: Option<bool>) -> (r: Result<
        SexprAttrs,
        SexprError,
    >)
        ensures
            match r {
                Ok(a) => a.name == name && a.anonymous == anonymous,
                Err(e) => e == SexprError::AnonymousWithName,
            },
            r is Err <==> (name is Some && anonymous is Some),
    {
        if name.is_some() && anonymous.is_some() {
            Err(SexprError::AnonymousWithName)
        } else {
            Ok(SexprAttrs { name, anonymous })
        }
    }

    /// Gathers the options of all attributes, in order: the first name and the
    /// first flag given win; the first refused attribute is the error.
    pub fn from_attributes(attrs: &Vec<Meta>) -> (r: Result<SexprAttrs, SexprError>)
        ensures
            match (r, spec_from_attributes(attrs@)) {
                (Ok(a), Ok(o)) => a.options() == o,
                (Err(e), Err(f)) => e == f,
                _ => false,
            },
    {
        let mut name: Option<String> = None;
        let mut anonymous: Option<bool> = None;
        let mut i: usize = 0;
        while i < attrs.len()
            invariant
                i <= attrs.len(),
                spec_fold_attributes(attrs@, i as int) == Ok::<_, SexprError>(
                    (
                        match name {
                            Some(s) => Some(s@),
                            None => None,
                        },
                        anonymous,
                    ),
                ),
            decreases attrs.len() - i,
        {
            let (new_name, new_anonymous) = match parse_attribute(&attrs[i]) {
                Ok(o) => o,
                Err(e) => {
                    proof {
                        lemma_fold_error_stays(attrs@, i as int + 1, attrs@.len() as int);
                    }
                    return Err(e);
                },
            };
            name = match name {
                Some(n) => Some(n),
                None => new_name,
            };
            anonymous = match anonymous {
                Some(a) => Some(a),
                None => new_anonymous,
            };
            i = i + 1;
        }
        match SexprAttrs::validate(name, anonymous) {
            Ok(a) => Ok(a),
            Err(e) => Err(e),
        }
    }
}

pub open spec fn or_else<A>(a: Option<A>, b: Option<A>) -> Option<A> {
    match a {
        Some(x) => Some(x),
        None => b,
    }
}

/// The options of the first `n` attributes, or the first error among them.
pub open spec fn spec_fold_attributes(attrs: Seq<Meta>, n: int) -> SpecOptions
    decreases n,
{
    if n <= 0 {
        Ok((None, None))
    } else {
        match spec_fold_attributes(attrs, n - 1) {
            Err(e) => Err(e),
            Ok((name, anonymous)) => match spec_attribute(attrs[n - 1]) {
                Err(e) => Err(e),
                Ok((new_name, new_anonymous)) => Ok(
                    (or_else(name, new_name), or_else(anonymous, new_anonymous)),
                ),
            },
        }
    }
}

/// The options of a list of attributes, checked for a name given together
/// with the anonymous flag.
pub open spec fn spec_from_attributes(attrs: Seq<Meta>) -> SpecOptions {
    match spec_fold_attributes(attrs, attrs.len() as int) {
        Err(e) => Err(e),
        Ok((name, anonymous)) => if name is Some && anonymous is Some {
            Err(SexprError::AnonymousWithName)
        } else {
            Ok((name, anonymous))
        },
    }
}

proof fn lemma_fold_error_stays(attrs: Seq<Meta>, i: int, n: int)
    requires
        1 <= i <= n,
        spec_fold_attributes(attrs, i) is Err,
    ensures
        spec_fold_attributes(attrs, n) == spec_fold_attributes(attrs, i),
    decreases n - i,
{
    if i < n {
        lemma_fold_error_stays(attrs, i, n - 1);
    }
}

/// The snake-case form that `convert_case` gives an identifier.
pub uninterp spec fn snake_case_of(ident: Seq<char>) -> Seq<char>;

/// Converts an identifier to snake case with `convert_case`
/// (`Casing::to_case(Case::Snake)`), as type and variant names are turned into
/// the keywords they are written with. Trusted: the claim is only that the
/// result is a function of the identifier's characters.
#[verifier::external_body]
pub fn snake_case(ident: &str) -> (r: String)
    ensures
        r@ == snake_case_of(ident@),
{
    ident.to_case(Case::Snake)
}

/// The shape of the fields of a struct or variant.
#[derive(Debug, Clone, Copy, PartialEq, Eq)]
pub enum StructStyle {
    Named,
    Tuple,
    Unit,
}

/// A generic argument of a path segment.
#[derive(Debug)]
pub enum GenericArgument {
    Type(TypeModel),
    /// A lifetime, a constant or a binding.
    Other,
}

/// The arguments of a path segment.
#[derive(Debug)]
pub enum PathArguments {
    /// No arguments.
    Bare,
    /// `<...>`
    AngleBracketed(Vec<GenericArgument>),
    /// `(...)`, as in `Fn(A) -> B`.
    Parenthesized,
}

/// A segment of a type path: `Option<T>` is the ident `Option` with `<T>`.
#[derive(Debug)]
pub struct PathSegment {
    pub ident: String,
    pub arguments: PathArguments,
}

/// The type of a field: a path, or anything else (tuple, reference, ...).
#[derive(Debug)]
pub enum TypeModel {
    Path(Vec<PathSegment>),
    Other,
}

/// The type inside `Option<...>`, where the last segment of the path is
/// `Option` with a type as its first angle-bracketed argument.
pub open spec fn spec_option_inner(ty: TypeModel) -> Option<TypeModel> {
    match ty {
        TypeModel::Path(segs) => if segs@.len() > 0 && segs@.last().ident@ == "Option"@ {
            match segs@.last().arguments {
                PathArguments::AngleBracketed(args) => if args@.len() > 0 {
                    match args@[0] {
                        GenericArgument::Type(inner) => Some(inner),
                        GenericArgument::Other => None,
                    }
                } else {
                    None
                },
                _ => None,
            }
        } else {
            None
        },
        TypeModel::Other => None,
    }
}

pub fn extract_option_inner_type(ty: &TypeModel) -> (r: Option<&TypeModel>)
    ensures
        match (r, spec_option_inner(*ty)) {
            (Some(a), Some(b)) => *a == b,
            (None, None) => true,
            _ => false,
        },
{
    match ty {
        TypeModel::Path(segs) => {
            if segs.len() == 0 {
                return None;
            }
            let last = &segs[segs.len() - 1];
            if !text_eq(last.ident.as_str(), "Option") {
                return None;
            }
            match &last.arguments {
                PathArguments::AngleBracketed(args) => {
                    if args.len() == 0 {
                        return None;
                    }
                    match &args[0] {
                        GenericArgument::Type(inner) => Some(inner),
                        GenericArgument::Other => None,
                    }
                },
                _ => None,
            }
        },
        TypeModel::Other => None,
    }
}

pub open spec fn opt_view(o: Option<String>) -> Option<Seq<char>> {
    match o {
        Some(s) => Some(s@),
        None => None,
    }
}

/// The name a struct or variant is written with: none when it is anonymous,
/// else its `name` option, else its default name.
pub open spec fn spec_struct_name(
    anonymous: Option<bool>,
    name: Option<Seq<char>>,
    default_name: Option<Seq<char>>,
) -> Option<Seq<char>> {
    if anonymous == Some(true) {
        None
    } else if name is Some {
        name
    } else {
        default_name
    }
}

pub fn struct_parse_name(attrs: &SexprAttrs, default_name: Option<String>) -> (r: Option<String>)
    ensures
        opt_view(r) == spec_struct_name(attrs.anonymous, opt_view(attrs.name), opt_view(default_name)),
{
    match (attrs.anonymous, &attrs.name, default_name) {
        (Some(true), _, _) => None,
        (_, Some(name), _) => Some(name.clone()),
        (_, None, Some(name)) => Some(name),
        (_, None, None) => None,
    }
}

/// The name a field is written with: only a `name` option names a field; a
/// field without one, or marked anonymous, is written as its bare value.
pub open spec fn spec_field_name(anonymous: Option<bool>, name: Option<Seq<char>>) -> Option<Seq<char>> {
    if anonymous == Some(true) {
        None
    } else {
        name
    }
}

pub fn field_parse_name(attrs: &SexprAttrs) -> (r: Option<String>)
    ensures
        opt_view(r) == spec_field_name(attrs.anonymous, opt_view(attrs.name)),
{
    match (attrs.anonymous, &attrs.name) {
        (Some(true), _) => None,
        (_, Some(name)) => Some(name.clone()),
        (_, None) => None,
    }
}

/// The form in which a struct or variant is written.
#[derive(Debug, Clone, PartialEq)]
pub enum ItemForm {
    /// The bare keyword: a named item without fields.
    Keyword(String),
    /// `(keyword field ...)`.
    List(String),
    /// The fields one after the other, without parentheses or keyword.
    Sequence,
}

pub enum SpecItemForm {
    Keyword(Seq<char>),
    List(Seq<char>),
    Sequence,
}

impl ItemForm {
    pub open spec fn view(self) -> SpecItemForm {
        match self {
            ItemForm::Keyword(n) => SpecItemForm::Keyword(n@),
            ItemForm::List(n) => SpecItemForm::List(n@),
            ItemForm::Sequence => SpecItemForm::Sequence,
        }
    }
}

/// A named item is written as its bare keyword when it is a unit item or has
/// an empty tuple of fields, and as a list otherwise (a braced item without
/// fields is written `(name)`).
pub open spec fn spec_item_form(name: Option<Seq<char>>, style: StructStyle, field_count: int) -> SpecItemForm {
    match name {
        Some(n) => if style == StructStyle::Unit || (style == StructStyle::Tuple && field_count == 0) {
            SpecItemForm::Keyword(n)
        } else {
            SpecItemForm::List(n)
        },
        None => SpecItemForm::Sequence,
    }
}

pub fn item_form(name: Option<String>, style: StructStyle, field_count: usize) -> (r: ItemForm)
    ensures
        r.view() == spec_item_form(opt_view(name), style, field_count as int),
{
    match name {
        Some(n) => match style {
            StructStyle::Unit => ItemForm::Keyword(n),
            StructStyle::Tuple => if field_count == 0 {
                ItemForm::Keyword(n)
            } else {
                ItemForm::List(n)
            },
            StructStyle::Named => ItemForm::List(n),
        },
        None => ItemForm::Sequence,
    }
}

/// How a field is written: `(name value)` or the bare value, and whether it
/// may be left out (a field of type `Option<..>`).
#[derive(Debug, Clone, PartialEq)]
pub struct FieldForm {
    pub name: Option<String>,
    pub optional: bool,
}

pub struct SpecFieldForm {
    pub name: Option<Seq<char>>,
    pub optional: bool,
}

impl FieldForm {
    pub open spec fn view(self) -> SpecFieldForm {
        SpecFieldForm { name: opt_view(self.name), optional: self.optional }
    }
}

/// A field of a struct or variant, as declared.
#[derive(Debug)]
pub struct FieldDecl {
    pub ident: Option<String>,
    pub attrs: Vec<Meta>,
    pub ty: TypeModel,
}

/// The form of a field, from its attributes and type.
pub open spec fn spec_field_form(f: FieldDecl) -> Result<SpecFieldForm, SexprError> {
    match spec_from_attributes(f.attrs@) {
        Err(e) => Err(e),
        Ok((name, anonymous)) => Ok(
            SpecFieldForm {
                name: spec_field_name(anonymous, name),
                optional: spec_option_inner(f.ty) is Some,
            },
        ),
    }
}

pub fn field_form(f: &FieldDecl) -> (r: Result<FieldForm, SexprError>)
    ensures
        match (r, spec_field_form(*f)) {
            (Ok(a), Ok(b)) => a.view() == b,
            (Err(a), Err(b)) => a == b,
            _ => false,
        },
{
    let attrs = match SexprAttrs::from_attributes(&f.attrs) {
        Ok(a) => a,
        Err(e) => return Err(e),
    };
    let name = field_parse_name(&attrs);
    let optional = extract_option_inner_type(&f.ty).is_some();
    Ok(FieldForm { name, optional })
}

/// The plan of a struct or variant: its form and those of its fields.
#[derive(Debug, Clone, PartialEq)]
pub struct StructPlan {
    pub form: ItemForm,
    pub style: StructStyle,
    pub fields: Vec<FieldForm>,
}

/// The first error among the forms of the fields, if any.
pub open spec fn first_field_error(fields: Seq<FieldDecl>, n: int) -> Option<SexprError>
    decreases n,
{
    if n <= 0 {
        None
    } else {
        match first_field_error(fields, n - 1) {
            Some(e) => Some(e),
            None => match spec_field_form(fields[n - 1]) {
                Err(e) => Some(e),
                Ok(_) => None,
            },
        }
    }
}

/// The plan of a struct or variant with the given options: refused where a
/// field's attributes are refused; else its fields' forms, in order.
pub open spec fn plan_matches(
    r: Result<StructPlan, SexprError>,
    name: Option<Seq<char>>,
    style: StructStyle,
    fields: Seq<FieldDecl>,
) -> bool {
    match r {
        Ok(plan) => {
            &&& first_field_error(fields, fields.len() as int) is None
            &&& plan.form.view() == spec_item_form(name, style, fields.len() as int)
            &&& plan.style == style
            &&& plan.fields@.len() == fields.len()
            &&& forall|i: int|
                0 <= i < fields.len() ==> spec_field_form(#[trigger] fields[i]) == Ok::<
                    SpecFieldForm,
                    SexprError,
                >(plan.fields@[i].view())
        },
        Err(e) => first_field_error(fields, fields.len() as int) == Some(e),
    }
}

/// The parser that `plan` stands for reads what a struct or variant with
/// this name, style and fields is declared to read, whatever the rules of its
/// fields' types (see `spec_declared_read`).
pub open spec fn plan_reads_as(plan: StructPlan, name: Option<Seq<char>>, style: StructStyle, fields: Seq<FieldDecl>) -> bool {
    forall|readers: Vec<Reader>, s: Seq<char>, p: int|
        #[trigger] spec_read(Reader::Struct(plan, readers), s, p) == spec_declared_read(name, style, fields, readers, s, p)
}

proof fn lemma_plan_reads_as(plan: StructPlan, name: Option<Seq<char>>, style: StructStyle, fields: Seq<FieldDecl>)
    requires
        plan_matches(Ok(plan), name, style, fields),
    ensures
        plan_reads_as(plan, name, style, fields),
{
    assert forall|readers: Vec<Reader>, s: Seq<char>, p: int|
        #[trigger] spec_read(Reader::Struct(plan, readers), s, p) == spec_declared_read(name, style, fields, readers, s, p) by {
        lemma_plan_reads_as_declared(plan, name, style, fields, readers, s, p);
    }
}

/// The plan of a struct or variant whose name (if any) has been decided.
pub fn struct_plan(name: Option<String>, style: StructStyle, fields: &Vec<FieldDecl>) -> (r: Result<
    StructPlan,
    SexprError,
>)
    ensures
        plan_matches(r, opt_view(name), style, fields@),
{
    let ghost name_view = opt_view(name);
    let mut forms: Vec<FieldForm> = Vec::new();
    let mut i: usize = 0;
    while i < fields.len()
        invariant
            i <= fields.len(),
            forms@.len() == i,
            first_field_error(fields@, i as int) is None,
            forall|j: int|
                0 <= j < i ==> spec_field_form(#[trigger] fields@[j]) == Ok::<
                    SpecFieldForm,
                    SexprError,
                >(forms@[j].view()),
        decreases fields.len() - i,
    {
        match field_form(&fields[i]) {
            Ok(form) => {
                forms.push(form);
            },
            Err(e) => {
                proof {
                    lemma_first_error_stays(fields@, i as int + 1, fields@.len() as int);
                }
                return Err(e);
            },
        }
        i = i + 1;
    }
    let form = item_form(name, style, fields.len());
    Ok(StructPlan { form, style, fields: forms })
}

proof fn lemma_first_error_stays(fields: Seq<FieldDecl>, i: int, n: int)
    requires
        1 <= i <= n,
        first_field_error(fields, i) is Some,
    ensures
        first_field_error(fields, n) == first_field_error(fields, i),
    decreases n - i,
{
    if i < n {
        lemma_first_error_stays(fields, i, n - 1);
    }
}

/// The plan of a struct: it is written with its `name` option, or with the
/// snake-case form of its identifier, unless it is anonymous.
pub fn derive_struct(ident: &str, type_attrs: &SexprAttrs, style: StructStyle, fields: &Vec<FieldDecl>) -> (r: Result<
    StructPlan,
    SexprError,
>)
    ensures
        plan_matches(
            r,
            spec_struct_name(type_attrs.anonymous, opt_view(type_attrs.name), Some(snake_case_of(ident@))),
            style,
            fields@,
        ),
        r matches Ok(plan) ==> plan_reads_as(
            plan,
            spec_struct_name(type_attrs.anonymous, opt_view(type_attrs.name), Some(snake_case_of(ident@))),
            style,
            fields@,
        ),
{
    let default_name = snake_case(ident);
    let name = struct_parse_name(type_attrs, Some(default_name));
    let r = struct_plan(name, style, fields);
    proof {
        if r is Ok {
            lemma_plan_reads_as(
                r->Ok_0,
                spec_struct_name(type_attrs.anonymous, opt_view(type_attrs.name), Some(snake_case_of(ident@))),
                style,
                fields@,
            );
        }
    }
    r
}

/// A variant of an enum, as declared.
#[derive(Debug)]
pub struct VariantDecl {
    pub ident: String,
    pub attrs: Vec<Meta>,
    pub style: StructStyle,
    pub fields: Vec<FieldDecl>,
}

/// The name a variant is written with, when its attributes are accepted.
pub open spec fn spec_variant_name(v: VariantDecl) -> Option<Seq<char>> {
    match spec_from_attributes(v.attrs@) {
        Ok((name, anonymous)) => spec_struct_name(anonymous, name, Some(snake_case_of(v.ident@))),
        Err(_) => None,
    }
}

/// The first error of a variant: in its own attributes, then in its fields.
pub open spec fn spec_variant_error(v: VariantDecl) -> Option<SexprError> {
    match spec_from_attributes(v.attrs@) {
        Err(e) => Some(e),
        Ok(_) => first_field_error(v.fields@, v.fields@.len() as int),
    }
}

pub open spec fn first_variant_error(vs: Seq<VariantDecl>, n: int) -> Option<SexprError>
    decreases n,
{
    if n <= 0 {
        None
    } else {
        match first_variant_error(vs, n - 1) {
            Some(e) => Some(e),
            None => spec_variant_error(vs[n - 1]),
        }
    }
}

proof fn lemma_first_variant_error_stays(vs: Seq<VariantDecl>, i: int, n: int)
    requires
        1 <= i <= n,
        first_variant_error(vs, i) is Some,
    ensures
        first_variant_error(vs, n) == first_variant_error(vs, i),
    decreases n - i,
{
    if i < n {
        lemma_first_variant_error_stays(vs, i, n - 1);
    }
}

/// The plans of an enum's variants, tried in order when the enum is read.
/// The enum's own options are not consulted.
pub fn derive_enum(variants: &Vec<VariantDecl>) -> (r: Result<Vec<StructPlan>, SexprError>)
    ensures
        match r {
            Ok(plans) => {
                &&& first_variant_error(variants@, variants@.len() as int) is None
                &&& plans@.len() == variants@.len()
                &&& forall|i: int|
                    0 <= i < variants@.len() ==> plan_matches(
                        Ok(#[trigger] plans@[i]),
                        spec_variant_name(variants@[i]),
                        variants@[i].style,
                        variants@[i].fields@,
                    )
                &&& forall|i: int|
                    0 <= i < variants@.len() ==> plan_reads_as(
                        #[trigger] plans@[i],
                        spec_variant_name(variants@[i]),
                        variants@[i].style,
                        variants@[i].fields@,
                    )
            },
            Err(e) => first_variant_error(variants@, variants@.len() as int) == Some(e),
        },
{
    let mut plans: Vec<StructPlan> = Vec::new();
    let mut i: usize = 0;
    while i < variants.len()
        invariant
            i <= variants.len(),
            plans@.len() == i,
            first_variant_error(variants@, i as int) is None,
            forall|j: int|
                0 <= j < i ==> plan_matches(
                    Ok(#[trigger] plans@[j]),
                    spec_variant_name(variants@[j]),
                    variants@[j].style,
                    variants@[j].fields@,
                ),
        decreases variants.len() - i,
    {
        let v = &variants[i];
        let attrs = match SexprAttrs::from_attributes(&v.attrs) {
            Ok(a) => a,
            Err(e) => {
                proof {
                    lemma_first_variant_error_stays(variants@, i as int + 1, variants@.len() as int);
                }
                return Err(e);
            },
        };
        let default_name = snake_case(v.ident.as_str());
        let name = struct_parse_name(&attrs, Some(default_name));
        match struct_plan(name, v.style, &v.fields) {
            Ok(plan) => {
                plans.push(plan);
            },
            Err(e) => {
                proof {
                    lemma_first_variant_error_stays(variants@, i as int + 1, variants@.len() as int);
                }
                return Err(e);
            },
        }
        i = i + 1;
    }
    proof {
        assert forall|i: int| 0 <= i < variants@.len() implies plan_reads_as(
            #[trigger] plans@[i],
            spec_variant_name(variants@[i]),
            variants@[i].style,
            variants@[i].fields@,
        ) by {
            lemma_plan_reads_as(plans@[i], spec_variant_name(variants@[i]), variants@[i].style, variants@[i].fields@);
        }
    }
    Ok(plans)
}

/// Some attribute of the list is the bare path `pyclass`.
pub open spec fn spec_has_pyclass(attrs: Seq<Meta>) -> bool {
    exists|i: int| 0 <= i < attrs.len() && is_ident(meta_path(#[trigger] attrs[i]), "pyclass"@)
}

/// Whether the declaration is a Python class, in which case it is given a
/// constructor that reads it from text.
pub fn has_pyclass(attrs: &Vec<Meta>) -> (r: bool)
    ensures
        r == spec_has_pyclass(attrs@),
{
    let mut i: usize = 0;
    while i < attrs.len()
        invariant
            i <= attrs.len(),
            forall|j: int| 0 <= j < i ==> !is_ident(meta_path(#[trigger] attrs@[j]), "pyclass"@),
        decreases attrs.len() - i,
    {
        if attrs[i].path().is_ident("pyclass") {
            return true;
        }
        i = i + 1;
    }
    false
}

/// A declaration that the attribute stands on.
#[derive(Debug)]
pub enum ItemDecl {
    Struct { ident: String, style: StructStyle, fields: Vec<FieldDecl> },
    Enum { ident: String, variants: Vec<VariantDecl> },
    /// Any other item.
    Other,
}

/// What the attribute makes of a declaration.
#[derive(Debug, Clone, PartialEq)]
pub enum ItemPlan {
    Struct(StructPlan),
    /// The plans of the variants, tried in order; an enum without variants
    /// never matches (see `lemma_no_matching_variant_fails`).
    Enum(Vec<StructPlan>),
}

/// What the attribute expands to: the declaration, with the `sexpr`
/// attributes of its fields and variants removed, and the plan of its parser.
#[derive(Debug)]
pub struct Expansion {
    pub item: ItemDecl,
    pub plan: ItemPlan,
}

/// The options given in the attribute itself: `#[sexpr]` gives none.
pub open spec fn spec_type_options(attr: Option<Meta>) -> SpecOptions {
    match attr {
        None => Ok((None, None)),
        Some(m) => match spec_meta(m) {
            Err(e) => Err(e),
            Ok((name, anonymous)) => if name is Some && anonymous is Some {
                Err(SexprError::AnonymousWithName)
            } else {
                Ok((name, anonymous))
            },
        },
    }
}

/// A declaration the attribute can be applied to: a struct whose fields'
/// attributes are all accepted, or an enum whose variants' and fields'
/// attributes are all accepted. On any other declaration the macro stops
/// compilation with a panic.
pub open spec fn spec_derivable(item: ItemDecl) -> bool {
    match item {
        ItemDecl::Struct { fields, .. } => first_field_error(fields@, fields@.len() as int) is None,
        ItemDecl::Enum { variants, .. } => first_variant_error(variants@, variants@.len() as int) is None,
        ItemDecl::Other => false,
    }
}

/// Whether the attribute can be applied to the declaration.
pub fn is_derivable(item: &ItemDecl) -> (r: bool)
    ensures
        r == spec_derivable(*item),
{
    match item {
        ItemDecl::Struct { style, fields, .. } => struct_plan(None, *style, fields).is_ok(),
        ItemDecl::Enum { variants, .. } => derive_enum(variants).is_ok(),
        ItemDecl::Other => false,
    }
}

/// Applies the attribute, with the item inside its parentheses (if any), to a
/// declaration: gives the declaration without the `sexpr` attributes of its
/// fields and variants, and the plan of its parser. Only the attribute's own
/// item can be refused.
pub fn sexpr(attr: Option<Meta>, item: ItemDecl) -> (r: Result<Expansion, SexprError>)
    requires
        spec_derivable(item),
    ensures
        match spec_type_options(attr) {
            Err(e) => r == Err::<Expansion, SexprError>(e),
            Ok((name, anonymous)) => match r {
                Ok(x) => {
                    &&& item_stripped(x.item, item)
                    &&& match item {
                        ItemDecl::Struct { ident, style, fields } => match x.plan {
                            ItemPlan::Struct(plan) => {
                                &&& plan_matches(
                                    Ok(plan),
                                    spec_struct_name(anonymous, name, Some(snake_case_of(ident@))),
                                    style,
                                    fields@,
                                )
                                &&& plan_reads_as(
                                    plan,
                                    spec_struct_name(anonymous, name, Some(snake_case_of(ident@))),
                                    style,
                                    fields@,
                                )
                            },
                            ItemPlan::Enum(_) => false,
                        },
                        ItemDecl::Enum { variants, .. } => match x.plan {
                            ItemPlan::Enum(plans) => {
                                &&& plans@.len() == variants@.len()
                                &&& forall|i: int|
                                    0 <= i < variants@.len() ==> plan_matches(
                                        Ok(#[trigger] plans@[i]),
                                        spec_variant_name(variants@[i]),
                                        variants@[i].style,
                                        variants@[i].fields@,
                                    )
                                &&& forall|i: int|
                                    0 <= i < variants@.len() ==> plan_reads_as(
                                        #[trigger] plans@[i],
                                        spec_variant_name(variants@[i]),
                                        variants@[i].style,
                                        variants@[i].fields@,
                                    )
                            },
                            ItemPlan::Struct(_) => false,
                        },
                        ItemDecl::Other => false,
                    }
                },
                Err(_) => false,
            },
        },
{
    let type_attrs = match attr {
        None => SexprAttrs::new(),
        Some(m) => {
            let (name, anonymous) = match parse_meta(&m) {
                Ok(o) => o,
                Err(e) => return Err(e),
            };
            match SexprAttrs::validate(name, anonymous) {
                Ok(a) => a,
                Err(e) => return Err(e),
            }
        },
    };
    let plan = match &item {
        ItemDecl::Struct { ident, style, fields } => match derive_struct(
            ident.as_str(),
            &type_attrs,
            *style,
            fields,
        ) {
            Ok(plan) => ItemPlan::Struct(plan),
            Err(e) => {
                proof {
                    assert(false);
                }
                return Err(e);
            },
        },
        ItemDecl::Enum { variants, .. } => match derive_enum(variants) {
            Ok(plans) => ItemPlan::Enum(plans),
            Err(e) => {
                proof {
                    assert(false);
                }
                return Err(e);
            },
        },
        ItemDecl::Other => {
            proof {
                assert(false);
            }
            return Err(SexprError::ExpectedAnonymousOrName);
        },
    };
    let stripped = strip_sexpr_field_attrs(item);
    Ok(Expansion { item: stripped, plan })
}

/// A field with its `sexpr` attributes removed and nothing else changed.
pub open spec fn field_stripped(out: FieldDecl, inp: FieldDecl) -> bool {
    &&& out.ident == inp.ident
    &&& out.ty == inp.ty
    &&& out.attrs@ == without_sexpr(inp.attrs@)
}

pub open spec fn fields_stripped(out: Seq<FieldDecl>, inp: Seq<FieldDecl>) -> bool {
    &&& out.len() == inp.len()
    &&& forall|i: int| 0 <= i < out.len() ==> field_stripped(#[trigger] out[i], inp[i])
}

/// A variant with the `sexpr` attributes of itself and its fields removed.
pub open spec fn variant_stripped(out: VariantDecl, inp: VariantDecl) -> bool {
    &&& out.ident == inp.ident
    &&& out.style == inp.style
    &&& out.attrs@ == without_sexpr(inp.attrs@)
    &&& fields_stripped(out.fields@, inp.fields@)
}

/// A declaration whose fields and variants (not the declaration itself) have
/// lost their `sexpr` attributes, and that is otherwise unchanged.
pub open spec fn item_stripped(out: ItemDecl, inp: ItemDecl) -> bool {
    match (out, inp) {
        (
            ItemDecl::Struct { ident: a, style: sa, fields: fa },
            ItemDecl::Struct { ident: b, style: sb, fields: fb },
        ) => a == b && sa == sb && fields_stripped(fa@, fb@),
        (ItemDecl::Enum { ident: a, variants: va }, ItemDecl::Enum { ident: b, variants: vb }) => {
            &&& a == b
            &&& va@.len() == vb@.len()
            &&& forall|i: int| 0 <= i < va@.len() ==> variant_stripped(#[trigger] va@[i], vb@[i])
        },
        (ItemDecl::Other, ItemDecl::Other) => true,
        _ => false,
    }
}

fn strip_fields(fields: Vec<FieldDecl>) -> (r: Vec<FieldDecl>)
    ensures
        fields_stripped(r@, fields@),
{
    let ghost all = fields@;
    let mut rest = fields;
    let mut out: Vec<FieldDecl> = Vec::new();
    let n = rest.len();
    let mut i: usize = 0;
    while i < n
        invariant
            n == all.len(),
            i <= n,
            rest@ == all.subrange(i as int, n as int),
            out@.len() == i,
            forall|j: int| 0 <= j < i ==> field_stripped(#[trigger] out@[j], all[j]),
        decreases n - i,
    {
        let f = rest.remove(0);
        assert(f == all[i as int]);
        let FieldDecl { ident, attrs, ty } = f;
        out.push(FieldDecl { ident, attrs: strip_sexpr_attrs(attrs), ty });
        i = i + 1;
        proof {
            assert(rest@ =~= all.subrange(i as int, n as int));
        }
    }
    out
}

fn strip_variants(variants: Vec<VariantDecl>) -> (r: Vec<VariantDecl>)
    ensures
        r@.len() == variants@.len(),
        forall|i: int| 0 <= i < r@.len() ==> variant_stripped(#[trigger] r@[i], variants@[i]),
{
    let ghost all = variants@;
    let mut rest = variants;
    let mut out: Vec<VariantDecl> = Vec::new();
    let n = rest.len();
    let mut i: usize = 0;
    while i < n
        invariant
            n == all.len(),
            i <= n,
            rest@ == all.subrange(i as int, n as int),
            out@.len() == i,
            forall|j: int| 0 <= j < i ==> variant_stripped(#[trigger] out@[j], all[j]),
        decreases n - i,
    {
        let v = rest.remove(0);
        assert(v == all[i as int]);
        let VariantDecl { ident, attrs, style, fields } = v;
        out.push(
            VariantDecl { ident, attrs: strip_sexpr_attrs(attrs), style, fields: strip_fields(fields) },
        );
        i = i + 1;
        proof {
            assert(rest@ =~= all.subrange(i as int, n as int));
        }
    }
    out
}

/// Removes the `sexpr` attributes of the fields of a struct, and of the
/// variants of an enum and their fields.
pub fn strip_sexpr_field_attrs(item: ItemDecl) -> (r: ItemDecl)
    ensures
        item_stripped(r, item),
{
    match item {
        ItemDecl::Struct { ident, style, fields } => ItemDecl::Struct { ident, style, fields: strip_fields(fields) },
        ItemDecl::Enum { ident, variants } => ItemDecl::Enum { ident, variants: strip_variants(variants) },
        ItemDecl::Other => ItemDecl::Other,
    }
}

/// The attributes other than `sexpr`, in order.
pub open spec fn without_sexpr(attrs: Seq<Meta>) -> Seq<Meta>
    decreases attrs.len(),
{
    if attrs.len() == 0 {
        attrs
    } else {
        let rest = without_sexpr(attrs.drop_last());
        if is_ident(meta_path(attrs.last()), "sexpr"@) {
            rest
        } else {
            rest.push(attrs.last())
        }
    }
}

/// Removes the `sexpr` attributes, which the compiler would not accept on
/// fields and variants once the attribute has been applied.
pub fn strip_sexpr_attrs(attrs: Vec<Meta>) -> (r: Vec<Meta>)
    ensures
        r@ == without_sexpr(attrs@),
{
    let mut out: Vec<Meta> = Vec::new();
    let mut rest = attrs;
    let ghost all = rest@;
    let mut i: usize = 0;
    let n = rest.len();
    assert(all.subrange(0, 0) =~= Seq::<Meta>::empty());
    while i < n
        invariant
            n == all.len(),
            i <= n,
            rest@ == all.subrange(i as int, n as int),
            out@ == without_sexpr(all.subrange(0, i as int)),
        decreases n - i,
    {
        let m = rest.remove(0);
        let ghost gm = m;
        let ghost prev = out@;
        if !m.path().is_ident("sexpr") {
            out.push(m);
        }
        i = i + 1;
        proof {
            let pre = all.subrange(0, i as int);
            assert(pre.drop_last() =~= all.subrange(0, i - 1));
            assert(rest@ =~= all.subrange(i as int, n as int));
        }
    }
    assert(all.subrange(0, n as int) =~= all);
    out
}

/// Where every attribute up to `n` is accepted, so is their combination;
/// its name is set once one of them gives a name, and so is its flag.
proof fn lemma_fold_accepted(attrs: Seq<Meta>, n: int)
    requires
        0 <= n <= attrs.len(),
        forall|k: int| 0 <= k < attrs.len() ==> #[trigger] spec_attribute(attrs[k]) is Ok,
    ensures
        spec_fold_attributes(attrs, n) is Ok,
        forall|k: int|
            0 <= k < n && (#[trigger] spec_attribute(attrs[k])).unwrap().0 is Some
                ==> spec_fold_attributes(attrs, n).unwrap().0 is Some,
        forall|k: int|
            0 <= k < n && (#[trigger] spec_attribute(attrs[k])).unwrap().1 is Some
                ==> spec_fold_attributes(attrs, n).unwrap().1 is Some,
    decreases n,
{
    if n > 0 {
        lemma_fold_accepted(attrs, n - 1);
        assert(spec_attribute(attrs[n - 1]) is Ok);
    }
}

/// A list of accepted attributes that gives both a name and the anonymous
/// flag, in whatever attributes, is refused.
pub proof fn lemma_name_with_anonymous_refused(attrs: Seq<Meta>, i: int, j: int)
    requires
        0 <= i < attrs.len(),
        0 <= j < attrs.len(),
        forall|k: int| 0 <= k < attrs.len() ==> #[trigger] spec_attribute(attrs[k]) is Ok,
        spec_attribute(attrs[i]).unwrap().0 is Some,
        spec_attribute(attrs[j]).unwrap().1 is Some,
    ensures
        spec_from_attributes(attrs) == Err::<(Option<Seq<char>>, Option<bool>), SexprError>(
            SexprError::AnonymousWithName,
        ),
{
    lemma_fold_accepted(attrs, attrs.len() as int);
}

/// Of accepted attributes, the first that gives a name decides the name.
pub proof fn lemma_first_name_wins(attrs: Seq<Meta>, i: int)
    requires
        0 <= i < attrs.len(),
        forall|k: int| 0 <= k < attrs.len() ==> #[trigger] spec_attribute(attrs[k]) is Ok,
        forall|k: int| 0 <= k < i ==> (#[trigger] spec_attribute(attrs[k])).unwrap().0 is None,
        spec_attribute(attrs[i]).unwrap().0 is Some,
    ensures
        spec_fold_attributes(attrs, attrs.len() as int).unwrap().0 == spec_attribute(attrs[i]).unwrap().0,
{
    lemma_first_name_kept(attrs, i, attrs.len() as int);
}

proof fn lemma_first_name_kept(attrs: Seq<Meta>, i: int, n: int)
    requires
        0 <= i < n <= attrs.len(),
        forall|k: int| 0 <= k < attrs.len() ==> #[trigger] spec_attribute(attrs[k]) is Ok,
        forall|k: int| 0 <= k < i ==> (#[trigger] spec_attribute(attrs[k])).unwrap().0 is None,
        spec_attribute(attrs[i]).unwrap().0 is Some,
    ensures
        spec_fold_attributes(attrs, n) is Ok,
        spec_fold_attributes(attrs, n).unwrap().0 == spec_attribute(attrs[i]).unwrap().0,
    decreases n,
{
    if n == i + 1 {
        lemma_no_name_before(attrs, i);
    } else {
        lemma_first_name_kept(attrs, i, n - 1);
        assert(spec_attribute(attrs[n - 1]) is Ok);
    }
}

proof fn lemma_no_name_before(attrs: Seq<Meta>, n: int)
    requires
        0 <= n <= attrs.len(),
        forall|k: int| 0 <= k < attrs.len() ==> #[trigger] spec_attribute(attrs[k]) is Ok,
        forall|k: int| 0 <= k < n ==> (#[trigger] spec_attribute(attrs[k])).unwrap().0 is None,
    ensures
        spec_fold_attributes(attrs, n) is Ok,
        spec_fold_attributes(attrs, n).unwrap().0 is None,
    decreases n,
{
    if n > 0 {
        lemma_no_name_before(attrs, n - 1);
        assert(spec_attribute(attrs[n - 1]) is Ok);
        assert(spec_attribute(attrs[n - 1]).unwrap().0 is None);
    }
}

} // verus!
