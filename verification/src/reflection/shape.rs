//! Target shapes and the two-phase attribute generator.
//!
//! A *shape* describes a target: a record of named, ordered scalar fields,
//! or a choice with one wrapped inner shape per case.  Phase one
//! ([`validate_record`], [`validate_choice`]) inspects a raw declaration and
//! rejects malformed ones — an unnamed field, an unsupported field type, a
//! case wrapping anything but exactly one inner shape — before any
//! extraction code exists.  Phase two ([`Shape::from_user_attribute`]) reads
//! a typed value out of a user attribute: it validates the attribute's name
//! and argument count, then pulls one scalar per field by position, each
//! through the accessor its type calls for.

use crate::reflection::error::AttributeError;
use crate::reflection::user_attribute::ScalarKind;
use crate::reflection::user_attribute::ScalarValue;
use crate::reflection::user_attribute::UserAttribute;
use vstd::prelude::*;

verus! {

/// The declared type of one field of a raw record declaration, as phase one
/// sees it.
#[derive(Clone, Copy, Debug, PartialEq, Eq, Structural)]
pub enum RawFieldType {
    /// A text field.
    Text,
    /// A 32-bit floating-point field.
    Float,
    /// A 32-bit integer field.
    Int,
    /// Any other type: rejected by validation.
    Unsupported,
}

/// One field of a raw record declaration: its name, if it has one, and its
/// declared type.
pub struct RawField {
    /// The field's name; a record with unnamed fields is rejected.
    pub name: Option<String>,
    /// The field's declared type.
    pub ty: RawFieldType,
}

/// One case of a raw choice declaration: its tag and the inner shapes it
/// wraps.  A valid case wraps exactly one.
pub struct RawCase {
    /// The case's tag, drawn from its declared name.
    pub tag: String,
    /// The wrapped inner shapes; any number other than one is rejected.
    pub inners: Vec<Shape>,
}

/// Why a raw declaration was rejected by phase one.  These are terminal
/// construction-time errors: no extraction code exists for a rejected
/// shape.
#[derive(Clone, Debug, PartialEq)]
pub enum ShapeError {
    /// The field at `index` has no name.
    UnnamedField { index: usize },
    /// The field at `index` has a type no accessor can extract.
    UnsupportedFieldType { index: usize },
    /// The case at `index` wraps `inner_count` shapes instead of exactly
    /// one.
    MalformedCase { index: usize, inner_count: usize },
}

/// A validated record shape: the name an attribute must carry and the
/// scalar type of each field, in declaration order.  Field `i` is filled
/// from argument slot `i`.
#[derive(Debug, PartialEq)]
pub struct RecordShape {
    /// The expected attribute name: the declared override, or the record's
    /// own name where none was given.
    pub name: String,
    /// The scalar type of each field, in order.
    pub fields: Vec<ScalarKind>,
}

/// A validated case of a choice shape: its tag and the one inner shape it
/// wraps.
#[derive(Debug, PartialEq)]
pub struct Case {
    /// The tag an attribute name is matched against.
    pub tag: String,
    /// The shape extraction delegates to on a tag match.
    pub inner: Shape,
}

/// A validated choice shape: the cases, in declaration order.
#[derive(Debug, PartialEq)]
pub struct ChoiceShape {
    /// The cases; the first whose tag equals the attribute's name wins.
    pub cases: Vec<Case>,
}

/// A validated target shape.
#[derive(Debug, PartialEq)]
pub enum Shape {
    /// A record of named scalar fields.
    Record(RecordShape),
    /// A tagged choice of inner shapes.
    Choice(ChoiceShape),
}

/// A value extracted from a user attribute: the scalars of a record, or a
/// case index together with the value its inner shape extracted.
#[derive(Debug, PartialEq)]
pub enum AttributeValue {
    /// The field values of a record, in field order.
    Record(Vec<ScalarValue>),
    /// The selected case of a choice and the inner value.
    Case(usize, Box<AttributeValue>),
}

/// The mathematical shape of an extracted value.
pub enum AttributeValueView {
    /// The field values of a record.
    Record(Seq<ScalarValue>),
    /// The selected case and the inner value.
    Case(int, Box<AttributeValueView>),
}

impl AttributeValue {
    /// The mathematical view of this value.
    pub open spec fn as_view(self) -> AttributeValueView
        decreases self,
    {
        match self {
            AttributeValue::Record(vals) => AttributeValueView::Record(vals@),
            AttributeValue::Case(i, inner) => AttributeValueView::Case(
                i as int,
                Box::new((*inner).as_view()),
            ),
        }
    }
}

impl View for AttributeValue {
    type V = AttributeValueView;

    open spec fn view(&self) -> AttributeValueView {
        (*self).as_view()
    }
}

/// The scalar kind a raw field type maps to, or nothing for a type no
/// accessor can extract.
pub open spec fn spec_scalar_kind_of(ty: RawFieldType) -> Option<ScalarKind> {
    match ty {
        RawFieldType::Text => Some(ScalarKind::Text),
        RawFieldType::Float => Some(ScalarKind::Float),
        RawFieldType::Int => Some(ScalarKind::Int),
        RawFieldType::Unsupported => None,
    }
}

/// The name an attribute must carry: the explicit override where one was
/// given, else the shape's own declared name.
pub open spec fn spec_expected_name(declared: String, name_override: Option<String>) -> String {
    match name_override {
        Some(n) => n,
        None => declared,
    }
}

/// Validation of the fields of a raw record from position `i` on: the first
/// unnamed or unsupported field is the error, else the list of scalar
/// kinds.
pub open spec fn spec_validate_fields(fields: Seq<RawField>, i: int) -> Result<
    Seq<ScalarKind>,
    ShapeError,
>
    decreases fields.len() - i,
{
    if i >= fields.len() {
        Ok(Seq::empty())
    } else if fields[i].name is None {
        Err(ShapeError::UnnamedField { index: i as usize })
    } else {
        match spec_scalar_kind_of(fields[i].ty) {
            None => Err(ShapeError::UnsupportedFieldType { index: i as usize }),
            Some(k) => match spec_validate_fields(fields, i + 1) {
                Ok(rest) => Ok(seq![k] + rest),
                Err(e) => Err(e),
            },
        }
    }
}

/// Validation of the cases of a raw choice from position `i` on: the first
/// case not wrapping exactly one inner shape is the error, else the
/// validated cases.
pub open spec fn spec_validate_cases(cases: Seq<RawCase>, i: int) -> Result<Seq<Case>, ShapeError>
    decreases cases.len() - i,
{
    if i >= cases.len() {
        Ok(Seq::empty())
    } else if cases[i].inners@.len() != 1 {
        Err(ShapeError::MalformedCase { index: i as usize, inner_count: cases[i].inners@.len() as usize })
    } else {
        match spec_validate_cases(cases, i + 1) {
            Ok(rest) => Ok(seq![Case { tag: cases[i].tag, inner: cases[i].inners@[0] }] + rest),
            Err(e) => Err(e),
        }
    }
}

proof fn lemma_validate_fields_all_ok(fields: Seq<RawField>, i: int, ks: Seq<ScalarKind>)
    requires
        0 <= i <= fields.len(),
        ks.len() == fields.len() - i,
        forall|j: int|
            i <= j < fields.len() ==> (#[trigger] fields[j]).name is Some && spec_scalar_kind_of(
                fields[j].ty,
            ) == Some(ks[j - i]),
    ensures
        spec_validate_fields(fields, i) == Ok::<Seq<ScalarKind>, ShapeError>(ks),
    decreases fields.len() - i,
{
    if i == fields.len() {
        assert(ks =~= Seq::<ScalarKind>::empty());
    } else {
        lemma_validate_fields_all_ok(fields, i + 1, ks.skip(1));
        assert(seq![ks[0]] + ks.skip(1) =~= ks);
    }
}

proof fn lemma_validate_fields_err(fields: Seq<RawField>, k: int, i: int)
    requires
        0 <= k <= i < fields.len(),
        forall|j: int|
            k <= j < i ==> (#[trigger] fields[j]).name is Some && spec_scalar_kind_of(fields[j].ty)
                is Some,
        fields[i].name is None || spec_scalar_kind_of(fields[i].ty) is None,
    ensures
        fields[i].name is None ==> spec_validate_fields(fields, k) == Err::<
            Seq<ScalarKind>,
            ShapeError,
        >(ShapeError::UnnamedField { index: i as usize }),
        fields[i].name is Some ==> spec_validate_fields(fields, k) == Err::<
            Seq<ScalarKind>,
            ShapeError,
        >(ShapeError::UnsupportedFieldType { index: i as usize }),
    decreases i - k,
{
    if k < i {
        lemma_validate_fields_err(fields, k + 1, i);
    }
}

/// Phase one for a record: checks every field for a name and a supported
/// scalar type — the first offender is the error — and resolves the
/// expected attribute name from the override or the declared name.
pub fn validate_record(declared_name: String, name_override: Option<String>, fields: &Vec<RawField>) -> (r:
    Result<RecordShape, ShapeError>)
    ensures
        r is Ok <==> spec_validate_fields(fields@, 0) is Ok,
        r matches Ok(shape) ==> spec_validate_fields(fields@, 0) matches Ok(ks) && shape.fields@
            == ks && shape.name == spec_expected_name(declared_name, name_override),
        r matches Err(e) ==> spec_validate_fields(fields@, 0) matches Err(se) && e == se,
{
    let mut kinds: Vec<ScalarKind> = Vec::new();
    let mut i: usize = 0;
    while i < fields.len()
        invariant
            i <= fields@.len(),
            kinds@.len() == i,
            forall|j: int|
                0 <= j < i ==> (#[trigger] fields@[j]).name is Some && spec_scalar_kind_of(
                    fields@[j].ty,
                ) == Some(kinds@[j]),
        decreases fields@.len() - i,
    {
        let f = &fields[i];
        if f.name.is_none() {
            proof {
                lemma_validate_fields_err(fields@, 0, i as int);
            }
            return Err(ShapeError::UnnamedField { index: i });
        }
        match f.ty {
            RawFieldType::Text => kinds.push(ScalarKind::Text),
            RawFieldType::Float => kinds.push(ScalarKind::Float),
            RawFieldType::Int => kinds.push(ScalarKind::Int),
            RawFieldType::Unsupported => {
                proof {
                    lemma_validate_fields_err(fields@, 0, i as int);
                }
                return Err(ShapeError::UnsupportedFieldType { index: i });
            },
        }
        i = i + 1;
    }
    proof {
        lemma_validate_fields_all_ok(fields@, 0, kinds@);
    }
    let name = match name_override {
        Some(n) => n,
        None => declared_name,
    };
    Ok(RecordShape { name, fields: kinds })
}

proof fn lemma_validate_cases_all_ok(cases: Seq<RawCase>, i: int, out: Seq<Case>)
    requires
        0 <= i <= cases.len(),
        out.len() == cases.len() - i,
        forall|j: int|
            i <= j < cases.len() ==> (#[trigger] cases[j]).inners@.len() == 1 && out[j - i]
                == (Case { tag: cases[j].tag, inner: cases[j].inners@[0] }),
    ensures
        spec_validate_cases(cases, i) == Ok::<Seq<Case>, ShapeError>(out),
    decreases cases.len() - i,
{
    if i == cases.len() {
        assert(out =~= Seq::<Case>::empty());
    } else {
        lemma_validate_cases_all_ok(cases, i + 1, out.skip(1));
        assert(seq![out[0]] + out.skip(1) =~= out);
    }
}

proof fn lemma_validate_cases_err(cases: Seq<RawCase>, k: int, i: int)
    requires
        0 <= k <= i < cases.len(),
        forall|j: int| k <= j < i ==> (#[trigger] cases[j]).inners@.len() == 1,
        cases[i].inners@.len() != 1,
    ensures
        spec_validate_cases(cases, k) == Err::<Seq<Case>, ShapeError>(
            ShapeError::MalformedCase {
                index: i as usize,
                inner_count: cases[i].inners@.len() as usize,
            },
        ),
    decreases i - k,
{
    if k < i {
        lemma_validate_cases_err(cases, k + 1, i);
    }
}

/// Phase one for a choice: checks that every case wraps exactly one inner
/// shape — the first offender is the error — and binds each tag to its
/// inner shape.
#[verifier::loop_isolation(false)]
pub fn validate_choice(cases: Vec<RawCase>) -> (r: Result<ChoiceShape, ShapeError>)
    ensures
        r is Ok <==> spec_validate_cases(cases@, 0) is Ok,
        r matches Ok(shape) ==> spec_validate_cases(cases@, 0) matches Ok(out) && shape.cases@
            == out,
        r matches Err(e) ==> spec_validate_cases(cases@, 0) matches Err(se) && e == se,
{
    let ghost orig = cases@;
    let n = cases.len();
    let mut rest = cases;
    let mut out: Vec<Case> = Vec::new();
    let mut i: usize = 0;
    while rest.len() > 0
        invariant
            n == orig.len(),
            out@.len() == i,
            i + rest@.len() == orig.len(),
            rest@ == orig.skip(i as int),
            forall|j: int|
                0 <= j < i ==> (#[trigger] orig[j]).inners@.len() == 1 && out@[j] == (Case {
                    tag: orig[j].tag,
                    inner: orig[j].inners@[0],
                }),
        decreases rest@.len(),
    {
        let ghost prev = rest@;
        let mut rc = rest.remove(0);
        proof {
            assert(rc == prev[0]);
            assert(prev[0] == orig[i as int]);
            assert(prev.drop_first() =~= orig.skip(i as int + 1));
        }
        if rc.inners.len() != 1 {
            proof {
                lemma_validate_cases_err(orig, 0, i as int);
            }
            return Err(ShapeError::MalformedCase { index: i, inner_count: rc.inners.len() });
        }
        let inner = match rc.inners.pop() {
            Some(s) => s,
            None => vstd::pervasive::unreached(),
        };
        out.push(Case { tag: rc.tag, inner });
        i = i + 1;
    }
    proof {
        assert(orig.skip(i as int) =~= Seq::<RawCase>::empty());
        lemma_validate_cases_all_ok(orig, 0, out@);
    }
    Ok(ChoiceShape { cases: out })
}

/// The per-field extraction rule: the value that position `index` yields
/// for a field of type `kind` — the argument in that slot, provided the
/// slot exists and carries a `kind` value.
pub open spec fn spec_field_value(attr: UserAttribute, index: int, kind: ScalarKind) -> Option<
    ScalarValue,
> {
    match kind {
        ScalarKind::Text => match attr.spec_arg_text(index) {
            Some(s) => Some(ScalarValue::Text(s)),
            None => None,
        },
        ScalarKind::Float => match attr.spec_arg_float_bits(index) {
            Some(b) => Some(ScalarValue::Float(b)),
            None => None,
        },
        ScalarKind::Int => match attr.spec_arg_int(index) {
            Some(v) => Some(ScalarValue::Int(v)),
            None => None,
        },
    }
}

/// The per-field rule as a result: a missing or mistyped value at the
/// position is a [`AttributeError::ValueMismatch`] naming the field index.
pub open spec fn spec_field_result(attr: UserAttribute, index: int, kind: ScalarKind) -> Result<
    ScalarValue,
    AttributeError,
> {
    match spec_field_value(attr, index, kind) {
        Some(v) => Ok(v),
        None => Err(AttributeError::ValueMismatch { index: index as usize, kind }),
    }
}

/// Extraction of the fields from position `i` on, in declaration order: the
/// first position whose value is missing or mistyped is the error.
pub open spec fn spec_record_fields(fields: Seq<ScalarKind>, attr: UserAttribute, i: int) -> Result<
    Seq<ScalarValue>,
    AttributeError,
>
    decreases fields.len() - i,
{
    if i >= fields.len() {
        Ok(Seq::empty())
    } else {
        match spec_field_value(attr, i, fields[i]) {
            None => Err(AttributeError::ValueMismatch { index: i as usize, kind: fields[i] }),
            Some(v) => match spec_record_fields(fields, attr, i + 1) {
                Ok(rest) => Ok(seq![v] + rest),
                Err(e) => Err(e),
            },
        }
    }
}

/// Record extraction: the attribute must carry the expected name and at
/// least as many arguments as the record has fields — extra trailing
/// arguments are tolerated — and each field is filled from its argument
/// slot by position.
pub open spec fn spec_record_extract(shape: RecordShape, attr: UserAttribute) -> Result<
    Seq<ScalarValue>,
    AttributeError,
> {
    match attr.name {
        None => Err(AttributeError::MissingName),
        Some(n) => if n@ != shape.name@ {
            Err(AttributeError::NameMismatch { expected: shape.name, actual: n })
        } else if attr.args@.len() < shape.fields@.len() {
            Err(
                AttributeError::NotEnoughArguments {
                    expected: shape.fields@.len() as usize,
                    actual: attr.args@.len() as usize,
                },
            )
        } else {
            spec_record_fields(shape.fields@, attr, 0)
        },
    }
}

/// Extraction against any shape: a record extracts its fields; a choice
/// dispatches on the attribute's name to the first case whose tag equals
/// it and wraps what the inner shape extracts.
pub open spec fn spec_shape_extract(shape: Shape, attr: UserAttribute) -> Result<
    AttributeValueView,
    AttributeError,
>
    decreases shape, 1int,
{
    match shape {
        Shape::Record(r) => match spec_record_extract(r, attr) {
            Ok(vals) => Ok(AttributeValueView::Record(vals)),
            Err(e) => Err(e),
        },
        Shape::Choice(c) => match attr.name {
            None => Err(AttributeError::MissingName),
            Some(n) => spec_choice_cases(c.cases@, n, attr, 0),
        },
    }
}

/// Dispatch among the cases from position `i` on: the first tag equal to
/// the attribute's name wins; no match is an unknown-name error.
pub open spec fn spec_choice_cases(
    cases: Seq<Case>,
    name: String,
    attr: UserAttribute,
    i: int,
) -> Result<AttributeValueView, AttributeError>
    decreases cases, cases.len() - i,
    when 0 <= i
    via spec_choice_cases_decreases
{
    if i >= cases.len() {
        Err(AttributeError::UnknownAttributeName { actual: name })
    } else if cases[i].tag@ == name@ {
        match spec_shape_extract(cases[i].inner, attr) {
            Ok(v) => Ok(AttributeValueView::Case(i, Box::new(v))),
            Err(e) => Err(e),
        }
    } else {
        spec_choice_cases(cases, name, attr, i + 1)
    }
}

#[via_fn]
proof fn spec_choice_cases_decreases(cases: Seq<Case>, name: String, attr: UserAttribute, i: int) {
    if 0 <= i < cases.len() {
        assert(decreases_to!(cases => cases[i]));
        assert(decreases_to!(cases[i] => cases[i].inner));
    }
}

/// How an executable record extraction relates to its model: same outcome,
/// the values matching up to the sequence view, the error exactly.
pub open spec fn record_result_matches(
    r: Result<Vec<ScalarValue>, AttributeError>,
    s: Result<Seq<ScalarValue>, AttributeError>,
) -> bool {
    match (r, s) {
        (Ok(v), Ok(sv)) => v@ == sv,
        (Err(e), Err(se)) => e == se,
        _ => false,
    }
}

/// How an executable shape extraction relates to its model: same outcome,
/// the value matching up to its view, the error exactly.
pub open spec fn shape_result_matches(
    r: Result<AttributeValue, AttributeError>,
    s: Result<AttributeValueView, AttributeError>,
) -> bool {
    match (r, s) {
        (Ok(v), Ok(sv)) => v@ == sv,
        (Err(e), Err(se)) => e == se,
        _ => false,
    }
}

/// Extracts the value for one field: the argument at `index` must carry a
/// `kind` value, and is handed back as-is; anything else is a
/// [`AttributeError::ValueMismatch`] naming the position.  This is the
/// whole per-field rule, usable on its own.
pub fn extract_field(attr: &UserAttribute, index: u32, kind: ScalarKind) -> (r: Result<
    ScalarValue,
    AttributeError,
>)
    ensures
        r == spec_field_result(*attr, index as int, kind),
{
    match kind {
        ScalarKind::Text => match attr.argument_value_string(index) {
            Some(s) => Ok(ScalarValue::Text(s)),
            None => Err(AttributeError::ValueMismatch { index: index as usize, kind }),
        },
        ScalarKind::Float => match attr.argument_value_float_bits(index) {
            Some(b) => Ok(ScalarValue::Float(b)),
            None => Err(AttributeError::ValueMismatch { index: index as usize, kind }),
        },
        ScalarKind::Int => match attr.argument_value_int(index) {
            Some(v) => Ok(ScalarValue::Int(v)),
            None => Err(AttributeError::ValueMismatch { index: index as usize, kind }),
        },
    }
}

proof fn lemma_record_fields_all_ok(
    fields: Seq<ScalarKind>,
    attr: UserAttribute,
    vals: Seq<ScalarValue>,
    i: int,
)
    requires
        0 <= i <= fields.len(),
        vals.len() == fields.len() - i,
        forall|j: int|
            i <= j < fields.len() ==> #[trigger] spec_field_value(attr, j, fields[j]) == Some(
                vals[j - i],
            ),
    ensures
        spec_record_fields(fields, attr, i) == Ok::<Seq<ScalarValue>, AttributeError>(vals),
    decreases fields.len() - i,
{
    if i == fields.len() {
        assert(vals =~= Seq::<ScalarValue>::empty());
    } else {
        lemma_record_fields_all_ok(fields, attr, vals.skip(1), i + 1);
        assert(seq![vals[0]] + vals.skip(1) =~= vals);
    }
}

proof fn lemma_record_fields_err(fields: Seq<ScalarKind>, attr: UserAttribute, k: int, i: int)
    requires
        0 <= k <= i < fields.len(),
        forall|j: int| k <= j < i ==> #[trigger] spec_field_value(attr, j, fields[j]) is Some,
        spec_field_value(attr, i, fields[i]) is None,
    ensures
        spec_record_fields(fields, attr, k) == Err::<Seq<ScalarValue>, AttributeError>(
            AttributeError::ValueMismatch { index: i as usize, kind: fields[i] },
        ),
    decreases i - k,
{
    if k < i {
        lemma_record_fields_err(fields, attr, k + 1, i);
    }
}

impl RecordShape {
    /// Reads the record's fields out of a user attribute: validates the
    /// attribute's name against the expected one and its argument count
    /// against the field count, then extracts one scalar per field by
    /// position.  The result agrees exactly with [`spec_record_extract`]:
    /// success on exactly the attributes the model accepts, and the same
    /// structured error on the rest.
    #[verifier::loop_isolation(false)]
    pub fn from_user_attribute(&self, attr: &UserAttribute) -> (r: Result<
        Vec<ScalarValue>,
        AttributeError,
    >)
        requires
            attr.wf(),
        ensures
            record_result_matches(r, spec_record_extract(*self, *attr)),
    {
        let name = match &attr.name {
            Some(n) => n,
            None => {
                return Err(AttributeError::MissingName);
            },
        };
        if !(*name == self.name) {
            return Err(
                AttributeError::NameMismatch { expected: self.name.clone(), actual: name.clone() },
            );
        }
        let count = attr.argument_count();
        if (count as usize) < self.fields.len() {
            return Err(
                AttributeError::NotEnoughArguments {
                    expected: self.fields.len(),
                    actual: count as usize,
                },
            );
        }
        let mut vals: Vec<ScalarValue> = Vec::new();
        let mut i: usize = 0;
        while i < self.fields.len()
            invariant
                i <= self.fields@.len(),
                vals@.len() == i,
                forall|j: int|
                    0 <= j < i ==> #[trigger] spec_field_value(*attr, j, self.fields@[j]) == Some(
                        vals@[j],
                    ),
            decreases self.fields@.len() - i,
        {
            let kind = self.fields[i];
            match extract_field(attr, i as u32, kind) {
                Ok(v) => vals.push(v),
                Err(e) => {
                    proof {
                        lemma_record_fields_err(self.fields@, *attr, 0, i as int);
                    }
                    return Err(e);
                },
            }
            i = i + 1;
        }
        proof {
            lemma_record_fields_all_ok(self.fields@, *attr, vals@, 0);
        }
        Ok(vals)
    }
}

proof fn lemma_choice_prefix(cases: Seq<Case>, name: String, attr: UserAttribute, k: int)
    requires
        0 <= k <= cases.len(),
        forall|j: int| 0 <= j < k ==> (#[trigger] cases[j]).tag@ != name@,
    ensures
        spec_choice_cases(cases, name, attr, 0) == spec_choice_cases(cases, name, attr, k),
    decreases k,
{
    if k > 0 {
        lemma_choice_prefix(cases, name, attr, k - 1);
    }
}

impl Shape {
    /// Reads a typed value out of a user attribute against this shape.  A
    /// record validates name and argument count and extracts its fields; a
    /// choice reads the attribute's name and hands the attribute to the
    /// inner shape of the first case whose tag equals it, wrapping the
    /// result in that case.  The result agrees exactly with
    /// [`spec_shape_extract`].
    #[verifier::loop_isolation(false)]
    pub fn from_user_attribute(&self, attr: &UserAttribute) -> (r: Result<
        AttributeValue,
        AttributeError,
    >)
        requires
            attr.wf(),
        ensures
            shape_result_matches(r, spec_shape_extract(*self, *attr)),
        decreases *self,
    {
        match self {
            Shape::Record(rs) => match rs.from_user_attribute(attr) {
                Ok(vals) => Ok(AttributeValue::Record(vals)),
                Err(e) => Err(e),
            },
            Shape::Choice(cs) => {
                let name = match &attr.name {
                    Some(n) => n,
                    None => {
                        return Err(AttributeError::MissingName);
                    },
                };
                let mut k: usize = 0;
                while k < cs.cases.len()
                    invariant
                        k <= cs.cases@.len(),
                        forall|j: int| 0 <= j < k ==> (#[trigger] cs.cases@[j]).tag@ != name@,
                    decreases cs.cases@.len() - k,
                {
                    if cs.cases[k].tag == *name {
                        proof {
                            lemma_choice_prefix(cs.cases@, attr.name->0, *attr, k as int);
                            assert(decreases_to!(*self => cs.cases@[k as int].inner));
                        }
                        let inner_r = cs.cases[k].inner.from_user_attribute(attr);
                        return match inner_r {
                            Ok(v) => Ok(AttributeValue::Case(k, Box::new(v))),
                            Err(e) => Err(e),
                        };
                    }
                    k = k + 1;
                }
                proof {
                    lemma_choice_prefix(cs.cases@, attr.name->0, *attr, k as int);
                }
                Err(AttributeError::UnknownAttributeName { actual: name.clone() })
            },
        }
    }
}

} // verus!
