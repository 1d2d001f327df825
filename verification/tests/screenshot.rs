use autotest::needle::PNG;
use autotest::screenshot::{name_file, ScreenshotWriter};
use autotest::text::{push_decimal, push_padded};

fn frame(value: u8) -> PNG {
    PNG::new(2, 2, vec![value; 12]).unwrap()
}

#[test]
fn numbers_are_padded_to_five_digits() {
    assert_eq!(name_file(1, "20240102030405", "user"), "output-00001-20240102030405-user.png");
    assert_eq!(name_file(99999, "t", "x"), "output-99999-t-x.png");
    assert_eq!(name_file(100000, "t", "x"), "output-100000-t-x.png");
    assert_eq!(name_file(0, "t", ""), "output-00000-t-.png");
    let mut s = String::from("n=");
    push_decimal(&mut s, 0);
    push_decimal(&mut s, 18446744073709551615);
    push_padded(&mut s, 42, 0);
    push_padded(&mut s, 7, 3);
    assert_eq!(s, "n=01844674407370955161542007");
}

#[test]
fn repeats_are_numbered_but_not_written() {
    assert!(ScreenshotWriter::new().finish("t9").is_none());
    let mut w = ScreenshotWriter::new();
    assert_eq!(w.save(frame(1), "a", "t1").as_deref(), Some("output-00001-t1-a.png"));
    assert_eq!(w.save(frame(1), "b", "t2"), None);
    assert_eq!(w.save(frame(2), "c", "t3").as_deref(), Some("output-00003-t3-c.png"));
    assert_eq!(w.save(frame(1), "d", "t4").as_deref(), Some("output-00004-t4-d.png"));
    assert_eq!(w.count(), 4);
    assert!(w.last().as_ref().unwrap().same_as(&frame(1)));
    let (name, png) = w.finish("t9").unwrap();
    assert_eq!(name, "output-00005-t9-last.png");
    assert!(png.same_as(&frame(1)));
}

#[test]
fn the_last_file_bears_a_number_of_its_own() {
    let mut w = ScreenshotWriter::new();
    assert_eq!(w.save(frame(7), "a", "t1").as_deref(), Some("output-00001-t1-a.png"));
    assert_eq!(w.save(frame(7), "a", "t1"), None);
    assert_eq!(w.save(frame(7), "a", "t1"), None);
    assert_eq!(w.count(), 3);
    let (name, png) = w.finish("t1").unwrap();
    assert_eq!(name, "output-00004-t1-last.png");
    assert!(png.same_as(&frame(7)));
    let mut one = ScreenshotWriter::new();
    assert_eq!(one.save(frame(9), "user", "t2").as_deref(), Some("output-00001-t2-user.png"));
    assert_eq!(one.finish("t3").map(|f| f.0).as_deref(), Some("output-00002-t3-last.png"));
}
