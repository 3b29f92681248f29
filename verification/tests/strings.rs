use std::sync::Arc;
use tihu::LightString;
use tihu::SharedString;

#[test]
fn light_string_from_static() {
    let text = LightString::from_static("hello");
    assert_eq!(text, LightString::Static("hello"));
    assert_eq!(text.as_str(), "hello");
    assert_eq!(text.as_bytes(), b"hello");
    assert_eq!(text.to_string(), "hello");
    assert_eq!(&text.into_bytes()[..], b"hello");
}

#[test]
fn light_string_from_owned() {
    let text = LightString::from(String::from("héllo"));
    assert!(matches!(text, LightString::Arc(_)));
    assert_eq!(text.as_str(), "héllo");
    assert_eq!(text.as_bytes(), "héllo".as_bytes());
    assert_eq!(&text.clone().into_bytes()[..], "héllo".as_bytes());
    let text = LightString::from(String::from("boxed").into_boxed_str());
    assert_eq!(text.as_str(), "boxed");
    let text = LightString::from(Arc::<str>::from("shared"));
    assert_eq!(text.as_str(), "shared");
    let text = LightString::from("literal");
    assert_eq!(text, LightString::Static("literal"));
}

#[test]
fn light_string_default_is_empty() {
    assert_eq!(LightString::default().as_str(), "");
    assert_eq!(LightString::default().as_bytes().len(), 0);
}

#[test]
fn shared_string_from_static() {
    let text = SharedString::from_static("hello");
    assert_eq!(text, SharedString::Static("hello"));
    assert_eq!(text.as_str(), "hello");
    assert_eq!(text.as_bytes(), b"hello");
    assert_eq!(text.to_string(), "hello");
    assert_eq!(&text.into_bytes()[..], b"hello");
}

#[test]
fn shared_string_from_owned() {
    let text = SharedString::from(String::from("数据"));
    assert!(matches!(text, SharedString::Arc(_)));
    assert_eq!(text.as_str(), "数据");
    assert_eq!(text.as_bytes(), "数据".as_bytes());
    assert_eq!(&text.clone().into_bytes()[..], "数据".as_bytes());
    let text = SharedString::from(String::from("boxed").into_boxed_str());
    assert_eq!(text.as_str(), "boxed");
    let text = SharedString::from(Arc::<str>::from("shared"));
    assert_eq!(text.as_str(), "shared");
    assert_eq!(SharedString::default().as_str(), "");
}

#[test]
fn strings_convert_into_each_other() {
    let light = LightString::from(SharedString::from_static("a"));
    assert_eq!(light, LightString::Static("a"));
    let shared = SharedString::from(LightString::from(String::from("b")));
    assert!(matches!(shared, SharedString::Arc(_)));
    assert_eq!(shared.as_str(), "b");
}

#[test]
fn strings_deref_to_str() {
    let light = LightString::from_static("hello");
    assert_eq!(&*light, "hello");
    assert_eq!(light.len(), 5);
    assert!(light.starts_with("he"));
    let text: &str = light.as_ref();
    assert_eq!(text, "hello");
    let shared = SharedString::from(String::from("数据"));
    assert_eq!(&*shared, "数据");
    assert_eq!(shared.chars().count(), 2);
    let text: &str = shared.as_ref();
    assert_eq!(text, "数据");
}
