use wapc::interfaces::authentication::{authenticate, list_users, update_permissions};
use wapc::interfaces::collection::{add_item, rm_item};
use wapc::interfaces::{get_input, InputError, InputMap};

// MessagePack encodings written out by hand.
fn mp_str(s: &str) -> Vec<u8> {
    let mut v = vec![0xa0 | s.len() as u8];
    v.extend_from_slice(s.as_bytes());
    v
}

#[test]
fn port_lists() {
    assert_eq!(authenticate::inputs_list(), vec![("session", "string"), ("username", "string"), ("password", "string")]);
    assert_eq!(authenticate::outputs_list(), vec![("session", "string"), ("user_id", "string")]);
    assert_eq!(list_users::outputs_list(), vec![("users", "{string:string")]);
    assert!(rm_item::outputs_list().is_empty());
}

#[test]
fn lookup_takes_first_entry() {
    let m: InputMap = vec![("a".to_owned(), vec![1]), ("a".to_owned(), vec![2])];
    assert_eq!(get_input(&m, "a"), Some(&vec![1]));
    assert_eq!(get_input(&m, "b"), None);
}

#[test]
fn deserialize_authenticate_inputs() {
    let m: InputMap = vec![
        ("password".to_owned(), mp_str("pw")),
        ("session".to_owned(), mp_str("s1")),
        ("username".to_owned(), mp_str("bob")),
    ];
    let i = authenticate::deserialize_inputs(&m).ok().unwrap();
    assert_eq!(i.session, "s1");
    assert_eq!(i.username, "bob");
    assert_eq!(i.password, "pw");
}

#[test]
fn deserialize_reports_first_missing_input() {
    let m: InputMap = vec![("session".to_owned(), mp_str("s1"))];
    match authenticate::deserialize_inputs(&m) {
        Err(InputError::MissingInput(name)) => assert_eq!(name, "username"),
        _ => panic!("expected a missing input"),
    }
    let e = authenticate::deserialize_inputs(&m).err().unwrap();
    assert_eq!(e.to_string(), "Input data for port 'username' missing");
}

#[test]
fn deserialize_reports_undecodable_input() {
    let m: InputMap = vec![("offset".to_owned(), vec![0xc1]), ("limit".to_owned(), vec![0x05])];
    assert!(matches!(list_users::deserialize_inputs(&m), Err(InputError::Codec(_))));
    let e = list_users::deserialize_inputs(&m).err().unwrap();
    assert!(e.to_string().starts_with("Failed to deserialize MessagePack payload"));
}

#[test]
fn deserialize_integers_and_lists() {
    let m: InputMap = vec![("offset".to_owned(), vec![0x02]), ("limit".to_owned(), vec![0x05])];
    let i = list_users::deserialize_inputs(&m).ok().unwrap();
    assert_eq!((i.offset, i.limit), (2, 5));
    let mut list = vec![0x92];
    list.extend(mp_str("read"));
    list.extend(mp_str("write"));
    let m: InputMap = vec![("user_id".to_owned(), mp_str("u")), ("permissions".to_owned(), list)];
    let i = update_permissions::deserialize_inputs(&m).ok().unwrap();
    assert_eq!(i.permissions, vec!["read".to_owned(), "write".to_owned()]);
}

#[test]
fn deserialize_collection_inputs() {
    let m: InputMap = vec![
        ("document_id".to_owned(), mp_str("d")),
        ("collection_id".to_owned(), mp_str("c")),
        ("document".to_owned(), mp_str("text")),
    ];
    let i = add_item::deserialize_inputs(&m).ok().unwrap();
    assert_eq!((i.document_id.as_str(), i.collection_id.as_str(), i.document.as_str()), ("d", "c", "text"));
}
