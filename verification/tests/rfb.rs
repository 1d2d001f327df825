use autotest::needle::PNG;
use autotest::rfb::{
    apply_update, encode, events_for, frame, protocol_version, send_keys, server_init,
    set_encodings, set_pixel_format, to_rgb, type_string, Frame, PointerState, ServerInit, Wire,
};
use autotest::vnc::{send_key_codes, VNCEventReq};

fn key(key: u32, down: bool) -> Wire {
    Wire::Key { key, down }
}

fn update(rects: &[(u16, u16, u16, u16, Vec<u8>)]) -> Vec<u8> {
    let mut msg = vec![0, 0];
    msg.extend_from_slice(&(rects.len() as u16).to_be_bytes());
    for (x, y, w, h, pixels) in rects {
        for v in [x, y, w, h] {
            msg.extend_from_slice(&v.to_be_bytes());
        }
        msg.extend_from_slice(&[0, 0, 0, 0]);
        msg.extend_from_slice(pixels);
    }
    msg
}

#[test]
fn messages_are_laid_out_high_byte_first() {
    assert_eq!(encode(Wire::Pointer { buttons: 5, x: 0x0102, y: 0xfffe }), vec![5, 5, 1, 2, 0xff, 0xfe]);
    assert_eq!(encode(key(0xffe3, true)), vec![4, 1, 0, 0, 0, 0, 0xff, 0xe3]);
    assert_eq!(encode(key(0x01020304, false)), vec![4, 0, 0, 0, 1, 2, 3, 4]);
    assert_eq!(
        encode(Wire::UpdateRequest { incremental: true, width: 1024, height: 768 }),
        vec![3, 1, 0, 0, 0, 0, 4, 0, 3, 0]
    );
    assert_eq!(protocol_version(), "RFB 003.008\n");
    assert_eq!(set_encodings(), vec![2, 0, 0, 1, 0, 0, 0, 0]);
    assert_eq!(
        set_pixel_format(),
        vec![0, 0, 0, 0, 32, 24, 0, 1, 0, 255, 0, 255, 0, 255, 16, 8, 0, 0, 0, 0]
    );
}

#[test]
fn ctrl_a_goes_down_in_order_and_comes_up_in_reverse() {
    let keys = send_key_codes("ctrl-a");
    assert_eq!(
        send_keys(&keys),
        vec![key(0xffe3, true), key(0x61, true), key(0x61, false), key(0xffe3, false)]
    );
    assert_eq!(send_keys(&send_key_codes("-")), vec![key(0x2d, true), key(0x2d, false)]);
    assert_eq!(send_keys(&[]), Vec::<Wire>::new());
}

#[test]
fn typing_presses_one_key_after_the_other() {
    assert_eq!(
        type_string("a\n"),
        vec![key(0x61, true), key(0x61, false), key(0xff0d, true), key(0xff0d, false)]
    );
    assert_eq!(type_string(""), Vec::<Wire>::new());
}

#[test]
fn requests_move_the_pointer() {
    let mut p = PointerState::new();
    let at = |buttons, x, y| Wire::Pointer { buttons, x, y };
    assert_eq!(events_for(&VNCEventReq::MouseMove(15, 16), &mut p, 640, 480), vec![at(0, 15, 16)]);
    assert_eq!(
        events_for(&VNCEventReq::MouseClick(1), &mut p, 640, 480),
        vec![at(1, 15, 16), at(0, 15, 16)]
    );
    assert_eq!(
        events_for(&VNCEventReq::MouseClick(4), &mut p, 640, 480),
        vec![at(4, 15, 16), at(0, 15, 16)]
    );
    assert_eq!(events_for(&VNCEventReq::MoveDown(4), &mut p, 640, 480), vec![at(4, 15, 16)]);
    assert_eq!(
        events_for(&VNCEventReq::MouseDrag(20, 30), &mut p, 640, 480),
        vec![at(5, 15, 16), at(5, 20, 30), at(4, 20, 30)]
    );
    assert_eq!(events_for(&VNCEventReq::MoveUp(4), &mut p, 640, 480), vec![at(0, 20, 30)]);
    assert_eq!(events_for(&VNCEventReq::MouseHide, &mut p, 640, 480), vec![at(0, 639, 479)]);
    assert_eq!(p, PointerState { x: 639, y: 479, buttons: 0 });
    assert_eq!(events_for(&VNCEventReq::MouseHide, &mut p, 0, 0), vec![at(0, 0, 0)]);
    assert_eq!(
        events_for(&VNCEventReq::Refresh, &mut p, 640, 480),
        vec![Wire::UpdateRequest { incremental: false, width: 640, height: 480 }]
    );
    assert!(events_for(&VNCEventReq::GetScreenShot, &mut p, 640, 480).is_empty());
    assert!(events_for(&VNCEventReq::TakeScreenShot("x".to_string()), &mut p, 1, 1).is_empty());
    assert_eq!(
        events_for(&VNCEventReq::SendKey { keys: vec![7] }, &mut p, 1, 1),
        vec![key(7, true), key(7, false)]
    );
    assert_eq!(
        events_for(&VNCEventReq::TypeString("b".to_string()), &mut p, 1, 1),
        vec![key(0x62, true), key(0x62, false)]
    );
}

#[test]
fn messages_are_framed() {
    assert_eq!(frame(&[]), Frame::Incomplete);
    assert_eq!(frame(&[2]), Frame::Whole(1));
    assert_eq!(frame(&[2, 0, 0]), Frame::Whole(1));
    assert_eq!(frame(&[9]), Frame::Unknown);
    assert_eq!(frame(&[3, 0, 0, 0, 0, 0, 0, 2, b'h']), Frame::Incomplete);
    assert_eq!(frame(&[3, 0, 0, 0, 0, 0, 0, 2, b'h', b'i', 2]), Frame::Whole(10));
    assert_eq!(frame(&[1, 0, 0, 0, 0, 1, 1, 2, 3, 4, 5]), Frame::Incomplete);
    assert_eq!(frame(&[1, 0, 0, 0, 0, 1, 1, 2, 3, 4, 5, 6]), Frame::Whole(12));
    assert_eq!(frame(&[0, 0, 0]), Frame::Incomplete);
    assert_eq!(frame(&[0, 0, 0, 0]), Frame::Whole(4));
    let msg = update(&[(0, 0, 1, 1, vec![1, 2, 3, 0]), (1, 0, 1, 2, vec![0; 8])]);
    assert_eq!(frame(&msg), Frame::Whole(msg.len()));
    assert_eq!(frame(&msg[..msg.len() - 1]), Frame::Incomplete);
    assert_eq!(frame(&msg[..10]), Frame::Incomplete);
    let mut other = msg.clone();
    other[15] = 1;
    assert_eq!(frame(&other), Frame::Unknown);
}

#[test]
fn updates_are_painted_into_the_framebuffer() {
    assert_eq!(to_rgb(&[3, 2, 1, 0, 6, 5, 4, 9, 7]), vec![1, 2, 3, 4, 5, 6]);
    let screen = PNG::blank(3, 2).unwrap();
    assert_eq!(screen.data(), &[0u8; 18]);
    let msg = update(&[
        (1, 0, 2, 1, vec![3, 2, 1, 0, 6, 5, 4, 0]),
        (0, 1, 1, 1, vec![9, 8, 7, 0]),
        (2, 1, 2, 1, vec![1; 8]),
    ]);
    let screen = apply_update(screen, &msg);
    assert_eq!((screen.width(), screen.height()), (3, 2));
    assert_eq!(
        screen.data(),
        &[0, 0, 0, 1, 2, 3, 4, 5, 6, 7, 8, 9, 0, 0, 0, 0, 0, 0]
    );
    let same = apply_update(screen.duplicate(), &msg[..msg.len() - 1]);
    assert!(same.same_as(&screen));
    let same = apply_update(screen.duplicate(), &[2]);
    assert!(same.same_as(&screen));
    let painted = screen.paint(0, 0, 1, 2, &[1, 1, 1, 2, 2, 2]);
    assert_eq!(
        painted.data(),
        &[1, 1, 1, 1, 2, 3, 4, 5, 6, 2, 2, 2, 0, 0, 0, 0, 0, 0]
    );
    let kept = painted.duplicate().paint(0, 0, 1, 2, &[1, 1, 1]);
    assert!(kept.same_as(&painted));
    assert_eq!(PNG::empty().data().len(), 0);
}

#[test]
fn the_server_says_its_size_first() {
    let mut init = vec![0u8; 24];
    init[0..4].copy_from_slice(&[4, 0, 3, 0]);
    init[20..24].copy_from_slice(&[0, 0, 1, 2]);
    assert_eq!(server_init(&init), Some(ServerInit { width: 1024, height: 768, name_len: 258 }));
    assert_eq!(server_init(&init[..23]), None);
}
