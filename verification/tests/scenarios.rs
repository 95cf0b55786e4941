//! End-to-end runs of the verified pipeline pieces, the way one loop
//! iteration strings them together.

use helion::color::RGB8;
use helion::protocol::{check_write, new_pixel_buf_header, rgbs_as_bytes, WriteCheck};
use helion::runloop::{plan_iteration, IterationStep};
use helion::smooth::{apply_smoothing, SmoothingPolicy};

#[test]
fn one_led_no_transforms_none_smoothing() {
    // one LED whose region averages to {200,100,50}, nothing assigned to
    // transform it, and the "none" smoothing policy
    let mut out_pixels = vec![RGB8::black()];
    let targets = vec![RGB8 { r: 200, g: 100, b: 50 }];

    assert_eq!(plan_iteration(false, true), IterationStep::Refresh);
    apply_smoothing(&mut out_pixels, &targets, SmoothingPolicy::NoSmooth, 0, 1);
    assert_eq!(out_pixels[0], RGB8 { r: 200, g: 100, b: 50 });

    let header = new_pixel_buf_header(1);
    let payload = rgbs_as_bytes(&out_pixels);
    assert_eq!(header, [b'A', b'd', b'a', 0, 0, 0x55]);
    assert_eq!(payload, vec![200, 100, 50]);

    // the transport takes the header, then the payload
    let mut frame = Vec::new();
    frame.extend_from_slice(&header);
    frame.extend_from_slice(&payload);
    assert_eq!(frame, vec![65, 100, 97, 0, 0, 0x55, 200, 100, 50]);
    assert_eq!(check_write(frame.len(), Some(frame.len())), WriteCheck::Complete);
}

#[test]
fn capture_failure_leaves_buffer_and_transport_untouched() {
    let out_pixels = vec![RGB8::black()];
    let mut bytes_handed_to_transport: Vec<u8> = Vec::new();

    // iteration one: the capture fails
    let step = plan_iteration(true, false);
    match step {
        IterationStep::Backoff { sleep_ms } => {
            assert_eq!(sleep_ms, 1000);
            // neither smoothing nor a write happens on this path
        }
        IterationStep::Refresh => {
            bytes_handed_to_transport.extend_from_slice(&rgbs_as_bytes(&out_pixels));
        }
        IterationStep::Pace => {}
    }

    assert_eq!(out_pixels, vec![RGB8 { r: 0, g: 0, b: 0 }]);
    assert!(bytes_handed_to_transport.is_empty());
}
