use privilege_switch::bytes::{bytes_equal, copy_bytes, copy_strings, to_decimal};
use privilege_switch::environment::Environment;

fn pair(name: &str, value: &str) -> (Vec<u8>, Vec<u8>) {
    (name.as_bytes().to_vec(), value.as_bytes().to_vec())
}

#[test]
fn variables_are_set_and_replaced() {
    let mut environment = Environment::new();
    assert_eq!(environment.get(b"A"), None);
    environment.insert(b"A".to_vec(), b"1".to_vec());
    environment.insert(b"B".to_vec(), b"2".to_vec());
    environment.insert(b"A".to_vec(), b"3".to_vec());
    assert_eq!(environment.get(b"A"), Some(&b"3".to_vec()));
    assert_eq!(environment.get(b"B"), Some(&b"2".to_vec()));
    assert_eq!(environment.get(b"C"), None);
    assert_eq!(
        *environment.entries(),
        vec![pair("A", "3"), pair("B", "2")]
    );
}

#[test]
fn last_value_of_a_name_stays() {
    let environment =
        Environment::collect(&vec![pair("A", "1"), pair("B", "2"), pair("A", "3")]);
    assert_eq!(environment.get(b"A"), Some(&b"3".to_vec()));
    assert_eq!(environment.entries().len(), 2);
}

#[test]
fn numbers_in_decimal() {
    for number in [0, 1, 9, 10, 42, 99, 100, 1000, 65534, u32::MAX] {
        assert_eq!(to_decimal(number), number.to_string());
    }
}

#[test]
fn bytes_and_strings() {
    assert!(bytes_equal(b"", b""));
    assert!(bytes_equal(b"ab", b"ab"));
    assert!(!bytes_equal(b"ab", b"ac"));
    assert!(!bytes_equal(b"ab", b"abc"));
    assert_eq!(copy_bytes(&b"xyz".to_vec()), b"xyz".to_vec());
    let strings = vec!["a".to_string(), "".to_string(), "\u{e9}".to_string()];
    assert_eq!(copy_strings(&strings), strings);
}
