use lvgl::analysis::CParameter;
use lvgl::handle::Handle;
use lvgl::label::{Label, LabelAlign};
use lvgl::obj::{LvError, Obj};

#[test]
fn alignments_have_the_numbers_of_the_engine() {
    assert_eq!(LabelAlign::Left.to_native(), 0);
    assert_eq!(LabelAlign::Center.to_native(), 1);
    assert_eq!(LabelAlign::Right.to_native(), 2);
    assert_eq!(LabelAlign::Auto.to_native(), 3);
}

#[test]
fn set_label_align_tells_the_engine() {
    let mut label = Label::from_obj(Obj::from_raw(Handle::new(0x5000).unwrap()));
    let mut calls = Vec::new();
    let result = label.set_label_align(LabelAlign::Right, |obj, align| calls.push((obj, align)));
    assert_eq!(result, Ok(()));
    assert_eq!(calls, vec![(0x5000, 2)]);
}

#[test]
fn set_label_align_on_a_label_that_refers_to_nothing() {
    let mut label = Label::from_obj(Obj::null());
    let mut calls = 0;
    let result = label.set_label_align(LabelAlign::Center, |_, _| calls += 1);
    assert_eq!(result, Err(LvError::InvalidReference));
    assert_eq!(calls, 0);
}

#[test]
fn handles_are_never_null() {
    assert!(Handle::new(0).is_none());
    assert_eq!(Handle::new(1).unwrap().as_ptr(), 1);
    assert_eq!(Handle::new(usize::MAX).unwrap().as_ptr(), usize::MAX);
}

#[test]
fn objects_give_their_address_or_an_error() {
    let obj = Obj::from_raw(Handle::new(0x77).unwrap());
    assert_eq!(obj.raw().unwrap().as_ptr(), 0x77);
    assert_eq!(Obj::null().raw(), Err(LvError::InvalidReference));
}

#[test]
fn a_parameter_keeps_what_it_was_made_with() {
    let param = CParameter::new("label".to_string(), "*mut lv_obj_t".to_string(), false, true, true);
    assert_eq!(param.name(), "label");
    assert_eq!(param.c_type(), "*mut lv_obj_t");
    assert!(!param.owned());
    assert!(param.mutable());
    assert!(param.nullable());
}

#[test]
fn label_text_ends_the_bytes_with_zero() {
    let text = lvgl::label::label_text("temperature").unwrap();
    assert_eq!(text.as_bytes(), b"temperature");
    assert_eq!(text.as_bytes_with_nul(), b"temperature\0");
    let empty = lvgl::label::label_text("").unwrap();
    assert_eq!(empty.as_bytes_with_nul(), b"\0");
    let text = lvgl::label::label_text("21 °C").unwrap();
    assert_eq!(text.as_bytes(), "21 °C".as_bytes());
}

#[test]
fn label_text_with_a_zero_byte_has_no_form() {
    assert!(lvgl::label::label_text("a\0b").is_none());
    assert!(lvgl::label::label_text("\0").is_none());
    assert!(lvgl::label::label_text("ab\0").is_none());
}
