use force_graph::SerializationError;
use force_graph::ToJson;

struct Fails(&'static str);

impl ToJson for Fails {
    fn to_json(&self) -> Result<serde_json::Value, SerializationError> {
        Err(SerializationError::new(String::from(self.0)))
    }
}

#[test]
fn error_keeps_its_message() {
    let error = SerializationError::new(String::from("no JSON form"));
    assert_eq!(error.message, "no JSON form");
    assert_eq!(error.message(), "no JSON form");
    assert_eq!(error.clone().message, "no JSON form");
}

#[test]
fn text_becomes_a_json_string() {
    assert_eq!(String::from("abc").to_json().unwrap(), serde_json::to_value("abc").unwrap());
    assert_eq!("abc".to_json().unwrap(), serde_json::Value::String(String::from("abc")));
    assert_eq!(String::new().to_json().unwrap(), serde_json::to_value("").unwrap());
    assert!("abc".to_json().unwrap().is_string());
}

#[test]
fn signed_integers_become_json_numbers() {
    assert_eq!((-5i8).to_json().unwrap(), serde_json::to_value(-5i8).unwrap());
    assert_eq!(i16::MIN.to_json().unwrap(), serde_json::to_value(i16::MIN).unwrap());
    assert_eq!(7i32.to_json().unwrap(), serde_json::to_value(7i32).unwrap());
    assert_eq!(i64::MIN.to_json().unwrap(), serde_json::to_value(i64::MIN).unwrap());
    assert_eq!(isize::MAX.to_json().unwrap(), serde_json::to_value(isize::MAX).unwrap());
    assert_eq!(7i32.to_json().unwrap().as_i64(), Some(7));
    assert_eq!((-5i8).to_json().unwrap().as_i64(), Some(-5));
}

#[test]
fn unsigned_integers_become_json_numbers() {
    assert_eq!(5u8.to_json().unwrap(), serde_json::to_value(5u8).unwrap());
    assert_eq!(u16::MAX.to_json().unwrap(), serde_json::to_value(u16::MAX).unwrap());
    assert_eq!(7u32.to_json().unwrap(), serde_json::to_value(7u32).unwrap());
    assert_eq!(u64::MAX.to_json().unwrap(), serde_json::to_value(u64::MAX).unwrap());
    assert_eq!(usize::MAX.to_json().unwrap(), serde_json::to_value(usize::MAX).unwrap());
    assert_eq!(u64::MAX.to_json().unwrap().as_u64(), Some(u64::MAX));
}

#[test]
fn pair_becomes_a_json_array_of_two() {
    let json = (1i32, String::from("b")).to_json().unwrap();
    assert_eq!(json, serde_json::to_value((1i32, "b")).unwrap());
    let items = json.as_array().unwrap();
    assert_eq!(items.len(), 2);
    assert_eq!(items[0], 1);
    assert_eq!(items[1], "b");
}

#[test]
fn pair_fails_with_its_first_part_that_fails() {
    assert_eq!((Fails("first"), Fails("second")).to_json().unwrap_err().message, "first");
    assert_eq!((1u8, Fails("second")).to_json().unwrap_err().message, "second");
    assert_eq!((Fails("first"), 1u8).to_json().unwrap_err().message, "first");
}

#[test]
fn json_value_is_its_own_json_form() {
    let mut object = serde_json::Map::new();
    object.insert(String::from("since"), serde_json::Value::from(2020));
    let value = serde_json::Value::Object(object);
    assert_eq!(value.to_json().unwrap(), value);
    assert_eq!(serde_json::Value::Null.to_json().unwrap(), serde_json::Value::Null);
}

#[test]
fn unit_becomes_json_null() {
    assert_eq!(().to_json().unwrap(), serde_json::to_value(()).unwrap());
    assert!(().to_json().unwrap().is_null());
}
