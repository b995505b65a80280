use shader_slang::reflection::AttributeError;
use shader_slang::reflection::AttributeValue;
use shader_slang::reflection::Case;
use shader_slang::reflection::ChoiceShape;
use shader_slang::reflection::RecordShape;
use shader_slang::reflection::ScalarKind;
use shader_slang::reflection::ScalarValue;
use shader_slang::reflection::Shape;
use shader_slang::reflection::SlangAttribute;
use shader_slang::reflection::UserAttribute;
use shader_slang::reflection::shape::RawCase;
use shader_slang::reflection::shape::RawField;
use shader_slang::reflection::shape::RawFieldType;
use shader_slang::reflection::shape::ShapeError;
use shader_slang::reflection::shape::extract_field;
use shader_slang::reflection::shape::validate_choice;
use shader_slang::reflection::Variable;
use shader_slang::reflection::shape::validate_record;

fn named(name: &str, ty: RawFieldType) -> RawField {
    RawField { name: Some(name.to_string()), ty }
}

fn range_shape() -> RecordShape {
    let fields = vec![named("min", RawFieldType::Float), named("max", RawFieldType::Float)];
    validate_record("RangeAttribute".to_string(), Some("Range".to_string()), &fields).unwrap()
}

fn label_shape() -> RecordShape {
    let fields = vec![named("text", RawFieldType::Text)];
    validate_record("LabelAttribute".to_string(), Some("Label".to_string()), &fields).unwrap()
}

fn range_attr() -> UserAttribute {
    UserAttribute::new(
        Some("Range".to_string()),
        vec![
            ScalarValue::Float(0.0f32.to_bits()),
            ScalarValue::Float(10.0f32.to_bits()),
        ],
    )
}

fn label_attr() -> UserAttribute {
    UserAttribute::new(
        Some("Label".to_string()),
        vec![ScalarValue::Text("test_label".to_string())],
    )
}

#[test]
fn validate_record_resolves_names_and_kinds() {
    let shape = range_shape();
    assert_eq!(shape.name, "Range");
    assert_eq!(shape.fields, vec![ScalarKind::Float, ScalarKind::Float]);

    let fields = vec![named("a", RawFieldType::Int), named("b", RawFieldType::Text)];
    let shape2 = validate_record("Plain".to_string(), None, &fields).unwrap();
    assert_eq!(shape2.name, "Plain");
    assert_eq!(shape2.fields, vec![ScalarKind::Int, ScalarKind::Text]);
}

#[test]
fn validate_record_rejects_bad_fields() {
    let unnamed = vec![named("a", RawFieldType::Int), RawField { name: None, ty: RawFieldType::Int }];
    assert_eq!(
        validate_record("S".to_string(), None, &unnamed),
        Err(ShapeError::UnnamedField { index: 1 })
    );

    let unsupported = vec![named("a", RawFieldType::Unsupported)];
    assert_eq!(
        validate_record("S".to_string(), None, &unsupported),
        Err(ShapeError::UnsupportedFieldType { index: 0 })
    );
}

#[test]
fn validate_choice_rejects_malformed_cases() {
    let ok = validate_choice(vec![
        RawCase { tag: "Range".to_string(), inners: vec![Shape::Record(range_shape())] },
        RawCase { tag: "Label".to_string(), inners: vec![Shape::Record(label_shape())] },
    ])
    .unwrap();
    assert_eq!(ok.cases.len(), 2);
    assert_eq!(ok.cases[0].tag, "Range");
    assert_eq!(ok.cases[1].tag, "Label");

    let bad = validate_choice(vec![RawCase { tag: "Empty".to_string(), inners: Vec::new() }]);
    assert_eq!(bad, Err(ShapeError::MalformedCase { index: 0, inner_count: 0 }));
}

#[test]
fn extract_field_is_positional_and_typed() {
    let attr = range_attr();
    assert_eq!(
        extract_field(&attr, 0, ScalarKind::Float),
        Ok(ScalarValue::Float(0.0f32.to_bits()))
    );
    assert_eq!(
        extract_field(&attr, 1, ScalarKind::Float),
        Ok(ScalarValue::Float(10.0f32.to_bits()))
    );
    // A mistyped read names the position and the wanted kind.
    assert_eq!(
        extract_field(&attr, 0, ScalarKind::Int),
        Err(AttributeError::ValueMismatch { index: 0, kind: ScalarKind::Int })
    );
    // So does a read past the arguments.
    assert_eq!(
        extract_field(&attr, 2, ScalarKind::Float),
        Err(AttributeError::ValueMismatch { index: 2, kind: ScalarKind::Float })
    );
}

#[test]
fn record_name_validation() {
    let shape = range_shape();

    // The right name with enough arguments extracts.
    assert!(shape.from_user_attribute(&range_attr()).is_ok());

    // A differently named attribute is a name mismatch.
    let wrong = UserAttribute::new(Some("Label".to_string()), Vec::new());
    assert_eq!(
        shape.from_user_attribute(&wrong),
        Err(AttributeError::NameMismatch {
            expected: "Range".to_string(),
            actual: "Label".to_string()
        })
    );

    // The right name with too few arguments is an argument shortfall.
    let short = UserAttribute::new(
        Some("Range".to_string()),
        vec![ScalarValue::Float(0.0f32.to_bits())],
    );
    assert_eq!(
        shape.from_user_attribute(&short),
        Err(AttributeError::NotEnoughArguments { expected: 2, actual: 1 })
    );

    // A nameless attribute fails before any other check.
    let nameless = UserAttribute::new(None, Vec::new());
    assert_eq!(shape.from_user_attribute(&nameless), Err(AttributeError::MissingName));
}

#[test]
fn record_tolerates_extra_arguments() {
    let shape = label_shape();
    let attr = UserAttribute::new(
        Some("Label".to_string()),
        vec![
            ScalarValue::Text("kept".to_string()),
            ScalarValue::Int(7),
            ScalarValue::Float(1.5f32.to_bits()),
        ],
    );
    // Trailing arguments beyond the declared fields are ignored.
    assert_eq!(
        shape.from_user_attribute(&attr),
        Ok(vec![ScalarValue::Text("kept".to_string())])
    );
}

#[test]
fn scalar_extraction_values() {
    // A record {min: float, max: float} from arguments (0.0, 10.0).
    let vals = range_shape().from_user_attribute(&range_attr()).unwrap();
    assert_eq!(vals.len(), 2);
    match (&vals[0], &vals[1]) {
        (ScalarValue::Float(a), ScalarValue::Float(b)) => {
            assert_eq!(f32::from_bits(*a), 0.0);
            assert_eq!(f32::from_bits(*b), 10.0);
        },
        other => panic!("expected two floats, got {:?}", other),
    }

    // A record {text: string} from the argument ("test_label").
    let vals = label_shape().from_user_attribute(&label_attr()).unwrap();
    assert_eq!(vals, vec![ScalarValue::Text("test_label".to_string())]);

    // An integer field, for completeness.
    let fields = vec![named("n", RawFieldType::Int)];
    let int_shape = validate_record("Count".to_string(), None, &fields).unwrap();
    let attr = UserAttribute::new(Some("Count".to_string()), vec![ScalarValue::Int(-3)]);
    assert_eq!(int_shape.from_user_attribute(&attr), Ok(vec![ScalarValue::Int(-3)]));
}

fn shader_choice() -> Shape {
    Shape::Choice(ChoiceShape {
        cases: vec![
            Case { tag: "Range".to_string(), inner: Shape::Record(range_shape()) },
            Case { tag: "Label".to_string(), inner: Shape::Record(label_shape()) },
        ],
    })
}

#[test]
fn choice_dispatch() {
    let choice = shader_choice();

    // An attribute named "Range" selects the Range case and extracts its
    // inner record.
    match choice.from_user_attribute(&range_attr()).unwrap() {
        AttributeValue::Case(0, inner) => match *inner {
            AttributeValue::Record(vals) => assert_eq!(vals.len(), 2),
            other => panic!("expected a record inside the case, got {:?}", other),
        },
        other => panic!("expected the Range case, got {:?}", other),
    }

    // "Label" selects the second case.
    match choice.from_user_attribute(&label_attr()).unwrap() {
        AttributeValue::Case(1, inner) => match *inner {
            AttributeValue::Record(vals) => {
                assert_eq!(vals, vec![ScalarValue::Text("test_label".to_string())])
            },
            other => panic!("expected a record inside the case, got {:?}", other),
        },
        other => panic!("expected the Label case, got {:?}", other),
    }

    // An unknown name matches no case.
    let unknown = UserAttribute::new(Some("Unknown".to_string()), Vec::new());
    assert_eq!(
        choice.from_user_attribute(&unknown),
        Err(AttributeError::UnknownAttributeName { actual: "Unknown".to_string() })
    );
}

// The typed targets of the original extraction test, implemented over the
// validated shapes the way generated code would be.

#[derive(Debug, PartialEq)]
struct RangeAttribute {
    min: f32,
    max: f32,
}

impl SlangAttribute for RangeAttribute {
    fn from_user_attribute(attr: &UserAttribute) -> Result<Self, AttributeError> {
        let vals = range_shape().from_user_attribute(attr)?;
        match (&vals[0], &vals[1]) {
            (ScalarValue::Float(a), ScalarValue::Float(b)) => {
                Ok(RangeAttribute { min: f32::from_bits(*a), max: f32::from_bits(*b) })
            },
            _ => unreachable!(),
        }
    }
}

#[derive(Debug, PartialEq)]
struct LabelAttribute {
    text: String,
}

impl SlangAttribute for LabelAttribute {
    fn from_user_attribute(attr: &UserAttribute) -> Result<Self, AttributeError> {
        let mut vals = label_shape().from_user_attribute(attr)?;
        match vals.pop() {
            Some(ScalarValue::Text(text)) => Ok(LabelAttribute { text }),
            _ => unreachable!(),
        }
    }
}

#[derive(Debug, PartialEq)]
enum ShaderAttribute {
    Range(RangeAttribute),
    Label(LabelAttribute),
}

impl SlangAttribute for ShaderAttribute {
    fn from_user_attribute(attr: &UserAttribute) -> Result<Self, AttributeError> {
        match shader_choice().from_user_attribute(attr)? {
            AttributeValue::Case(0, _) => {
                Ok(ShaderAttribute::Range(RangeAttribute::from_user_attribute(attr)?))
            },
            AttributeValue::Case(1, _) => {
                Ok(ShaderAttribute::Label(LabelAttribute::from_user_attribute(attr)?))
            },
            _ => unreachable!(),
        }
    }
}

#[test]
fn derive_slang_attribute() {
    // The two attributes the original shader declared: [Range(0.0, 10.0)]
    // on one variable, [Label("test_label")] on another.
    let intensity_var = Variable::new(
        Some("intensity".to_string()),
        Vec::new(),
        vec![range_attr()],
        false,
        None,
    );
    let labeled_var = Variable::new(
        Some("labeled".to_string()),
        Vec::new(),
        vec![label_attr()],
        false,
        None,
    );

    // Range attribute with the explicit name override.
    let range_attr = intensity_var.user_attribute_by_index(0).unwrap();
    assert_eq!(range_attr.name(), Some("Range"));
    let range = RangeAttribute::from_user_attribute(range_attr).unwrap();
    assert_eq!(range, RangeAttribute { min: 0.0, max: 10.0 });

    // Label attribute with text support.
    let label_attr = labeled_var.user_attribute_by_index(0).unwrap();
    assert_eq!(label_attr.name(), Some("Label"));
    let label = LabelAttribute::from_user_attribute(label_attr).unwrap();
    assert_eq!(label, LabelAttribute { text: "test_label".to_string() });

    // Enum discrimination by attribute name.
    let range_enum = ShaderAttribute::from_user_attribute(range_attr).unwrap();
    assert!(matches!(range_enum, ShaderAttribute::Range(_)));

    let label_enum = ShaderAttribute::from_user_attribute(label_attr).unwrap();
    if let ShaderAttribute::Label(inner) = label_enum {
        assert_eq!(inner.text, "test_label");
    } else {
        panic!("Expected Label variant");
    }

    // The helper extraction on the variable itself.
    let range_extracted: RangeAttribute = intensity_var.extract_attribute(0).unwrap();
    assert_eq!(range_extracted, RangeAttribute { min: 0.0, max: 10.0 });

    let label_extracted: LabelAttribute = labeled_var.extract_attribute(0).unwrap();
    assert_eq!(label_extracted, LabelAttribute { text: "test_label".to_string() });

    let range_enum_extracted: ShaderAttribute = intensity_var.extract_attribute(0).unwrap();
    assert!(matches!(range_enum_extracted, ShaderAttribute::Range(_)));
}
