use kiss_ui::attr::{AttrError, AttrValue};
use kiss_ui::button::Button;
use kiss_ui::container::{Horizontal, Vertical};
use kiss_ui::cstr::check_nul_free;
use kiss_ui::dialog::Dialog;
use kiss_ui::image::Image;
use kiss_ui::text::TextBox;
use kiss_ui::widget::{BaseWidget, BorrowedWidget, Downcast};

#[test]
fn null_wrapper_has_null_id() {
    let w = BaseWidget::null();
    assert_eq!(w.as_raw(), 0);
}

#[test]
fn from_raw_keeps_id() {
    let w = BaseWidget::from_raw(42);
    assert_eq!(w.as_raw(), 42);
    assert_eq!(w.checked_raw(), 42);
}

#[test]
fn from_raw_opt_null_is_none() {
    assert!(BaseWidget::from_raw_opt(0).is_none());
}

#[test]
fn from_raw_opt_live_is_some() {
    let w = BaseWidget::from_raw_opt(7).expect("non-null id must wrap");
    assert_eq!(w.as_raw(), 7);
}

#[test]
fn borrowed_from_raw_opt() {
    assert!(BorrowedWidget::from_raw_opt(0).is_none());
    let b = BorrowedWidget::from_raw_opt(9).expect("non-null id must wrap");
    assert_eq!(b.as_raw(), 9);
}

#[test]
fn check_nul_free_accepts_plain_text() {
    assert!(check_nul_free(&b"Hello IUP".to_vec()));
    assert!(check_nul_free(&Vec::new()));
}

#[test]
fn check_nul_free_rejects_interior_nul() {
    assert!(!check_nul_free(&b"He\0llo".to_vec()));
    assert!(!check_nul_free(&b"\0".to_vec()));
    // A trailing NUL is rejected too: the C string conversion adds its own.
    assert!(!check_nul_free(&b"Hello\0".to_vec()));
}

#[test]
fn set_str_attribute_builds_text_command() {
    let w = BaseWidget::from_raw(3);
    let cmd = w.set_str_attribute("TITLE", b"Main".to_vec()).expect("NUL-free text must pass");
    assert_eq!(cmd.target, 3);
    assert_eq!(cmd.name, "TITLE");
    assert_eq!(cmd.value, AttrValue::Text(b"Main".to_vec()));
    assert!(check_nul_free(&b"Main".to_vec()));
}

#[test]
fn set_str_attribute_rejects_interior_nul() {
    let w = BaseWidget::from_raw(3);
    let r = w.set_str_attribute("TITLE", b"Ma\0in".to_vec());
    assert_eq!(r, Err(AttrError::InteriorNul));
}

#[test]
fn set_opt_str_attribute_none_clears() {
    let w = BaseWidget::from_raw(4);
    let cmd = w.set_opt_str_attribute("VALUE", None).expect("clearing always passes");
    assert_eq!(cmd.target, 4);
    assert_eq!(cmd.name, "VALUE");
    // Clearing must become the null order, never an empty string.
    assert_eq!(cmd.value, AttrValue::Clear);
}

#[test]
fn set_opt_str_attribute_some_sets() {
    let w = BaseWidget::from_raw(4);
    let cmd = w.set_opt_str_attribute("VALUE", Some(b"abc".to_vec())).expect("NUL-free text");
    assert_eq!(cmd.value, AttrValue::Text(b"abc".to_vec()));
}

#[test]
fn set_opt_str_attribute_some_with_nul_fails() {
    let w = BaseWidget::from_raw(4);
    let r = w.set_opt_str_attribute("VALUE", Some(b"a\0c".to_vec()));
    assert_eq!(r, Err(AttrError::InteriorNul));
}

#[test]
fn set_const_str_attribute_builds_text_command() {
    let w = BaseWidget::from_raw(5);
    let cmd = w.set_const_str_attribute("RESIZE", "NO").expect("constant text");
    assert_eq!(cmd.target, 5);
    assert_eq!(cmd.name, "RESIZE");
    assert_eq!(cmd.value, AttrValue::Text(b"NO".to_vec()));
}

#[test]
fn borrowed_widget_sets_but_never_destroys() {
    let b = BorrowedWidget::from_raw_opt(8).expect("non-null id must wrap");
    let cmd = b.set_str_attribute("TITLE", b"Sub".to_vec()).expect("NUL-free text");
    assert_eq!(cmd.target, 8);
    assert_eq!(cmd.value, AttrValue::Text(b"Sub".to_vec()));
    let cleared = b.set_opt_str_attribute("TIP", None).expect("clearing always passes");
    assert_eq!(cleared.value, AttrValue::Clear);
    // A BorrowedWidget has no destroy operation: releasing a handle the
    // container still owns would free the widget twice.
}

#[test]
fn set_attr_handle_consumes_and_points() {
    let parent = BaseWidget::from_raw(10);
    let child = BaseWidget::from_raw(11);
    let cmd = parent.set_attr_handle("MENU", child);
    assert_eq!(cmd.target, 10);
    assert_eq!(cmd.name, "MENU");
    assert_eq!(cmd.value, AttrValue::Handle(11));
}

#[test]
fn destroy_yields_the_id_once() {
    let w = BaseWidget::from_raw(12);
    let id = w.destroy();
    assert_eq!(id, 12);
    // `w` is consumed here; a second release through it cannot compile.
}

#[test]
fn downcast_matching_tag_rebrands() {
    let w = BaseWidget::from_raw(20);
    let d: Dialog = w.downcast("dialog").ok().expect("tag matches");
    assert_eq!(d.base().as_raw(), 20);
}

#[test]
fn downcast_mismatched_tag_returns_original() {
    let w = BaseWidget::from_raw(21);
    let r: Result<Button, BaseWidget> = w.downcast("dialog");
    let back = r.err().expect("tag differs");
    assert_eq!(back.as_raw(), 21);
}

#[test]
fn downcast_roundtrip_keeps_ownership() {
    let w = BaseWidget::from_raw(22);
    let t: TextBox = w.downcast("text").ok().expect("tag matches");
    let back = t.into_base();
    assert_eq!(back.as_raw(), 22);
}

#[test]
fn classnames_match_the_toolkit_tags() {
    assert_eq!(<Dialog as Downcast>::classname(), "dialog");
    assert_eq!(<Button as Downcast>::classname(), "button");
    assert_eq!(<TextBox as Downcast>::classname(), "text");
    assert_eq!(<Image as Downcast>::classname(), "image");
    assert_eq!(<Horizontal as Downcast>::classname(), "hbox");
    assert_eq!(<Vertical as Downcast>::classname(), "vbox");
}

#[test]
fn dialog_set_title() {
    let d: Dialog = BaseWidget::from_raw(30).downcast("dialog").ok().unwrap();
    let cmd = d.set_title(b"My App".to_vec()).expect("NUL-free title");
    assert_eq!(cmd.target, 30);
    assert_eq!(cmd.name, "TITLE");
    assert_eq!(cmd.value, AttrValue::Text(b"My App".to_vec()));
}

#[test]
fn button_set_label_rejects_nul() {
    let b: Button = BaseWidget::from_raw(31).downcast("button").ok().unwrap();
    assert_eq!(b.set_label(b"O\0K".to_vec()), Err(AttrError::InteriorNul));
}

#[test]
fn text_box_set_text_none_clears() {
    let t: TextBox = BaseWidget::from_raw(32).downcast("text").ok().unwrap();
    let cmd = t.set_text(None).expect("clearing always passes");
    assert_eq!(cmd.target, 32);
    assert_eq!(cmd.name, "VALUE");
    assert_eq!(cmd.value, AttrValue::Clear);
}

#[test]
fn text_box_set_text_some_sets() {
    let t: TextBox = BaseWidget::from_raw(33).downcast("text").ok().unwrap();
    let cmd = t.set_text(Some(b"typed".to_vec())).expect("NUL-free text");
    assert_eq!(cmd.value, AttrValue::Text(b"typed".to_vec()));
}

#[test]
fn image_and_containers_wrap_their_base() {
    let i: Image = BaseWidget::from_raw(40).downcast("image").ok().unwrap();
    assert_eq!(i.base().as_raw(), 40);
    let h: Horizontal = BaseWidget::from_raw(41).downcast("hbox").ok().unwrap();
    assert_eq!(h.base().as_raw(), 41);
    let v: Vertical = BaseWidget::from_raw(42).downcast("vbox").ok().unwrap();
    assert_eq!(v.base().as_raw(), 42);
}
