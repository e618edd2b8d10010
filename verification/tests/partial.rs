use typesensei::partial::{require_field, Partial, TryFromPartialError};
use typesensei::FieldState;

// A document with one required field, and its presence-tracked partial.
#[derive(Debug, PartialEq)]
struct Point {
    x: u64,
}

#[derive(Default)]
struct PointPartial {
    x: FieldState<u64>,
}

impl Partial for Point {
    type Partial = PointPartial;

    fn into_partial(self) -> PointPartial {
        PointPartial { x: FieldState::new(self.x) }
    }

    fn from_partial(partial: PointPartial) -> Result<Point, TryFromPartialError> {
        Ok(Point { x: require_field(partial.x, "Point", "x")? })
    }
}

#[test]
fn missing_required_field_reports_its_name() {
    let err = Point::from_partial(PointPartial::default()).unwrap_err();
    assert_eq!(err.field, "x");
    assert_eq!(err.target_type, "Point");
    assert_eq!(err.message(), "field x is missing in partial object for Point");
}

#[test]
fn set_required_field_round_trips() {
    let original = Point { x: 42 };
    let round_tripped = Point::from_partial(original.into_partial()).unwrap();
    assert_eq!(round_tripped, Point { x: 42 });

    let mut partial = PointPartial::default();
    partial.x.set(7);
    assert_eq!(Point::from_partial(partial).unwrap(), Point { x: 7 });
}

#[test]
fn primitive_partials_are_identities() {
    assert_eq!(5u32.into_partial(), 5);
    assert_eq!(u32::from_partial(5).unwrap(), 5);
    assert_eq!(String::from("s").into_partial(), "s");
    assert_eq!(String::from_partial(String::from("s")).unwrap(), "s");
    assert_eq!(vec![1u8, 2].into_partial(), vec![1, 2]);
    assert_eq!(<Vec<u8>>::from_partial(vec![1, 2]).unwrap(), vec![1, 2]);
    assert_eq!(Box::new(3i64).into_partial(), Box::new(3));
}

#[test]
fn optional_partials_convert_through_the_inner_type() {
    let some: Option<Point> = Some(Point { x: 1 });
    let partial = some.into_partial();
    assert!(partial.is_some());
    let back = <Option<Point>>::from_partial(partial).unwrap();
    assert_eq!(back, Some(Point { x: 1 }));

    let missing = <Option<Point>>::from_partial(Some(PointPartial::default()));
    assert_eq!(missing.unwrap_err().field, "x");

    let none = <Option<Point>>::from_partial(None).unwrap();
    assert_eq!(none, None);
}
