use sculpture::err::Error;
use sculpture::err::SculptureError;
use sculpture::field_type::FieldType;
use sculpture::modifier::Modifier;
use sculpture::recording::{sculpt_recorded, CallRecord, RecordingSculptor};
use sculpture::shape::{Field, Shape};

fn two_field_shape() -> Shape {
    Shape {
        modifier: Modifier::Public,
        name: String::from("Point"),
        fields: vec![
            Field {
                modifier: Modifier::Private,
                name: String::from("x"),
                ty: FieldType::Numeric,
            },
            Field {
                modifier: Modifier::Private,
                name: String::from("y"),
                ty: FieldType::Numeric,
            },
        ],
    }
}

fn expected_two_field_calls() -> Vec<CallRecord> {
    vec![
        CallRecord::Start(Modifier::Public, String::from("Point")),
        CallRecord::Field(Modifier::Private, String::from("x"), FieldType::Numeric),
        CallRecord::Field(Modifier::Private, String::from("y"), FieldType::Numeric),
        CallRecord::End,
    ]
}

#[test]
fn sequencing_two_fields() {
    let shape = two_field_shape();
    let mut rec = RecordingSculptor::new();
    let r = shape.sculpt(&mut rec);
    assert_eq!(r, Ok(()));
    assert_eq!(rec.calls, expected_two_field_calls());
}

#[test]
fn sequencing_preserves_declaration_order() {
    let names = ["alpha", "beta", "gamma", "delta"];
    let mut fields: Vec<Field> = Vec::new();
    for name in names.iter() {
        fields.push(Field {
            modifier: Modifier::Public,
            name: String::from(*name),
            ty: FieldType::Boolean,
        });
    }
    let shape = Shape { modifier: Modifier::Unspecified, name: String::from("Greek"), fields };
    let mut rec = RecordingSculptor::new();
    assert_eq!(shape.sculpt(&mut rec), Ok(()));
    assert_eq!(rec.calls.len(), names.len() + 2);
    for (i, name) in names.iter().enumerate() {
        assert_eq!(
            rec.calls[1 + i],
            CallRecord::Field(Modifier::Public, String::from(*name), FieldType::Boolean)
        );
    }
}

#[test]
fn zero_field_shape_is_not_an_error() {
    let shape = Shape {
        modifier: Modifier::Private,
        name: String::from("Unit"),
        fields: Vec::new(),
    };
    let mut rec = RecordingSculptor::new();
    let r = shape.sculpt(&mut rec);
    assert_eq!(r, Ok(()));
    assert_eq!(
        rec.calls,
        vec![
            CallRecord::Start(Modifier::Private, String::from("Unit")),
            CallRecord::End,
        ]
    );
}

#[test]
fn fail_fast_stops_at_each_configured_call() {
    let expected = expected_two_field_calls();
    for k in 1usize..=4usize {
        let shape = two_field_shape();
        let mut rec = RecordingSculptor::failing_at(k);
        let r = shape.sculpt(&mut rec);
        assert_eq!(r, Err(SculptureError::Refused));
        assert_eq!(rec.calls.len(), k);
        assert_eq!(&rec.calls[..], &expected[..k]);
    }
}

#[test]
fn failure_planned_past_the_sequence_never_fires() {
    let shape = two_field_shape();
    let mut rec = RecordingSculptor::failing_at(5);
    let r = shape.sculpt(&mut rec);
    assert_eq!(r, Ok(()));
    assert_eq!(rec.calls, expected_two_field_calls());
}

#[test]
fn recorded_harness_agrees_with_direct_traversal() {
    for k in 1usize..=4usize {
        let shape = two_field_shape();
        let mut rec_a = RecordingSculptor::failing_at(k);
        let mut rec_b = RecordingSculptor::failing_at(k);
        let ra = sculpt_recorded(&shape, &mut rec_a);
        let rb = shape.sculpt(&mut rec_b);
        assert_eq!(ra, rb);
        assert_eq!(rec_a.calls, rec_b.calls);
    }
}

#[test]
fn traversal_error_is_the_emitter_error() {
    let shape = two_field_shape();
    let mut rec = RecordingSculptor::failing_at(2);
    let r = sculpt_recorded(&shape, &mut rec);
    assert_eq!(r, Err(SculptureError::Refused));
}

#[test]
fn sculpture_error_message_is_readable() {
    let m = SculptureError::Refused.message();
    assert!(!m.is_empty());
    assert!(m.contains("refused"));
}
