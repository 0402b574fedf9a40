use cryptfall::engine::framebuffer::FrameBuffer;
use cryptfall::engine::renderer::Renderer;

#[test]
fn one_cell_frame() {
    let mut fb = FrameBuffer::new(1, 1);
    let mut r = Renderer::new(64);
    assert!(r.compose(&fb));
    assert_eq!(
        r.output(),
        "\x1b[?2026h\x1b[H\x1b[48;2;30;30;30m\x1b[38;2;30;30;30m\u{2584}\x1b[0m\x1b[?2026l"
    );
    fb.set_pixel(0, 0, [255, 7, 100]);
    fb.set_pixel(0, 1, [1, 2, 3]);
    assert!(r.compose(&fb));
    assert_eq!(
        r.output(),
        "\x1b[?2026h\x1b[H\x1b[48;2;255;7;100m\x1b[38;2;1;2;3m\u{2584}\x1b[0m\x1b[?2026l"
    );
}

#[test]
fn colors_are_only_set_when_they_change() {
    let fb = FrameBuffer::new(3, 2);
    let mut r = Renderer::new(0);
    assert!(r.compose(&fb));
    let cell = "\u{2584}";
    let expected = format!(
        "\x1b[?2026h\x1b[H\x1b[48;2;30;30;30m\x1b[38;2;30;30;30m{c}{c}{c}\r\n{c}{c}{c}\x1b[0m\x1b[?2026l",
        c = cell
    );
    assert_eq!(r.output(), expected);
}

#[test]
fn empty_framebuffer_keeps_last_output() {
    let mut r = Renderer::new(8);
    assert!(r.compose(&FrameBuffer::new(1, 1)));
    let before = r.output().to_string();
    assert!(!r.compose(&FrameBuffer::new(0, 4)));
    assert!(!r.compose(&FrameBuffer::new(4, 0)));
    assert_eq!(r.output(), before);
}
