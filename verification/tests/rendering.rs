use virtual_gamepad::Renderer;

#[test]
fn new_renderer_is_transparent() {
    let r = Renderer::new(3, 2).unwrap();
    assert_eq!(r.pixmap.width(), 3);
    assert_eq!(r.pixmap.height(), 2);
    assert_eq!(r.pixmap.data().len(), 24);
    assert!(r.pixmap.data().iter().all(|b| *b == 0));
}

#[test]
fn new_renderer_refuses_empty_size() {
    assert!(Renderer::new(0, 5).is_none());
    assert!(Renderer::new(5, 0).is_none());
    assert!(Renderer::new(0, 0).is_none());
}

#[test]
fn new_renderer_refuses_too_wide_rows() {
    // a row of 4 * w bytes must fit in an i32
    assert!(Renderer::new(0x2000_0000, 1).is_none());
}

#[test]
fn resize_to_same_size_keeps_pixels() {
    let mut r = Renderer::new(2, 2).unwrap();
    r.pixmap.data_mut()[0] = 9;
    r.resize(2, 2);
    assert_eq!(r.pixmap.data()[0], 9);
}

#[test]
fn resize_to_new_size_makes_fresh_pixmap() {
    let mut r = Renderer::new(2, 2).unwrap();
    r.pixmap.data_mut()[0] = 9;
    r.resize(4, 1);
    assert_eq!(r.pixmap.width(), 4);
    assert_eq!(r.pixmap.height(), 1);
    assert!(r.pixmap.data().iter().all(|b| *b == 0));
}

#[test]
fn resize_to_refused_size_keeps_pixmap() {
    let mut r = Renderer::new(2, 2).unwrap();
    r.pixmap.data_mut()[5] = 7;
    r.resize(0, 10);
    assert_eq!(r.pixmap.width(), 2);
    assert_eq!(r.pixmap.data()[5], 7);
}

#[test]
fn clear_makes_every_pixel_transparent() {
    let mut r = Renderer::new(2, 1).unwrap();
    for b in r.pixmap.data_mut().iter_mut() {
        *b = 200;
    }
    r.clear();
    assert_eq!(r.pixmap.width(), 2);
    assert!(r.pixmap.data().iter().all(|b| *b == 0));
    let mut buf = vec![0xdead_beef_u32; 2];
    r.to_argb_buffer(&mut buf);
    assert_eq!(buf, vec![0, 0]);
}

#[test]
fn argb_words_from_rgba_bytes() {
    let mut r = Renderer::new(2, 1).unwrap();
    r.pixmap.data_mut().copy_from_slice(&[0x11, 0x22, 0x33, 0x44, 0xaa, 0xbb, 0xcc, 0xff]);
    let mut buf = vec![0u32; 2];
    r.to_argb_buffer(&mut buf);
    assert_eq!(buf, vec![0x4411_2233, 0xffaa_bbcc]);
}

#[test]
fn argb_buffer_longer_than_pixmap_keeps_tail() {
    let mut r = Renderer::new(1, 1).unwrap();
    r.pixmap.data_mut().copy_from_slice(&[1, 2, 3, 4]);
    let mut buf = vec![7u32, 8, 9];
    r.to_argb_buffer(&mut buf);
    assert_eq!(buf, vec![0x0401_0203, 8, 9]);
}

#[test]
fn argb_buffer_shorter_than_pixmap() {
    let mut r = Renderer::new(3, 1).unwrap();
    r.pixmap.data_mut().copy_from_slice(&[1, 2, 3, 4, 5, 6, 7, 8, 9, 10, 11, 12]);
    let mut buf = vec![0u32; 2];
    r.to_argb_buffer(&mut buf);
    assert_eq!(buf, vec![0x0401_0203, 0x0805_0607]);
    let mut empty: Vec<u32> = Vec::new();
    r.to_argb_buffer(&mut empty);
    assert!(empty.is_empty());
}

#[test]
fn resizing_twice_is_resizing_once() {
    let mut r = Renderer::new(2, 2).unwrap();
    r.resize(3, 3);
    r.pixmap.data_mut()[4] = 11;
    r.resize(3, 3);
    assert_eq!(r.pixmap.width(), 3);
    assert_eq!(r.pixmap.data()[4], 11);
}
