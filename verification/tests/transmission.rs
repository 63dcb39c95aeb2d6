use blelight::codec::{construct_message, keep_alive_message, light_message};
use blelight::color::Color;
use blelight::dispatcher::handle_color_request;
use blelight::gateway::Gateway;
use blelight::keepalive::{
    keep_alive_tick, keep_alive_transition, run_keep_alive, KeepAliveEvent, KeepAliveState,
};
use blelight::LightError;

#[test]
fn gateway_starts_empty() {
    let g = Gateway::new();
    assert!(g.wire.is_empty());
}

#[test]
fn gateway_stream_is_whole_frames() {
    let mut g = Gateway::new();
    let ka = keep_alive_message();
    let color = light_message(1, 2, 3);
    g.send(&ka);
    g.send(&color);
    g.send(&ka);
    assert_eq!(g.wire.len(), 60);
    assert_eq!(g.wire.len() % 20, 0);
    let mut expected = ka.clone();
    expected.extend_from_slice(&color);
    expected.extend_from_slice(&ka);
    assert_eq!(g.wire, expected);
}

#[test]
fn keep_alive_tick_sends_one_keep_alive_frame() {
    let mut g = Gateway::new();
    keep_alive_tick(&mut g);
    assert_eq!(g.wire, keep_alive_message());
}

#[test]
fn keep_alive_sends_one_frame_per_tick() {
    let mut g = Gateway::new();
    run_keep_alive(&mut g, 5);
    assert_eq!(g.wire.len(), 100);
    let ka = keep_alive_message();
    for tick in 0..5 {
        assert_eq!(&g.wire[tick * 20..(tick + 1) * 20], ka.as_slice());
    }
}

#[test]
fn keep_alive_state_machine_cycles() {
    let (st, frame) = keep_alive_transition(KeepAliveState::Idle, KeepAliveEvent::TimerFired);
    assert_eq!(st, KeepAliveState::Sending);
    assert_eq!(frame, Some(keep_alive_message()));

    let (st, frame) = keep_alive_transition(st, KeepAliveEvent::SendCompleted);
    assert_eq!(st, KeepAliveState::Idle);
    assert_eq!(frame, None);

    // events out of place change nothing and send nothing
    let (st, frame) = keep_alive_transition(KeepAliveState::Idle, KeepAliveEvent::SendCompleted);
    assert_eq!(st, KeepAliveState::Idle);
    assert_eq!(frame, None);
    let (st, frame) = keep_alive_transition(KeepAliveState::Sending, KeepAliveEvent::TimerFired);
    assert_eq!(st, KeepAliveState::Sending);
    assert_eq!(frame, None);
}

#[test]
fn color_request_transmits_exact_frame() {
    let mut g = Gateway::new();
    let r = handle_color_request(b"ff0000", &mut g);
    assert_eq!(r, Ok(Color { r: 0xFF, g: 0x00, b: 0x00 }));
    let expected = construct_message(
        0x33,
        vec![0x05, 0x15, 0x01, 0xFF, 0x00, 0x00, 0x00, 0x00, 0x00, 0x00, 0x00, 0xFF, 0x0F],
    );
    assert_eq!(g.wire, expected);
    assert_eq!(
        &g.wire[1..14],
        &[0x05, 0x15, 0x01, 0xFF, 0x00, 0x00, 0x00, 0x00, 0x00, 0x00, 0x00, 0xFF, 0x0F]
    );
}

#[test]
fn invalid_color_request_transmits_nothing() {
    let mut g = Gateway::new();
    let r = handle_color_request(b"zz0000", &mut g);
    assert_eq!(r, Err(LightError::InvalidColorFormat));
    assert!(g.wire.is_empty());

    // a keep-alive before the bad request stays untouched
    keep_alive_tick(&mut g);
    let before = g.wire.clone();
    let r = handle_color_request(b"ff00", &mut g);
    assert_eq!(r, Err(LightError::InvalidColorFormat));
    assert_eq!(g.wire, before);
}

#[test]
fn mixed_traffic_never_interleaves() {
    let mut g = Gateway::new();
    keep_alive_tick(&mut g);
    handle_color_request(b"00ff00", &mut g).unwrap();
    keep_alive_tick(&mut g);
    handle_color_request(b"nonsense-string", &mut g).unwrap_err();
    handle_color_request(b"0000ff", &mut g).unwrap();
    assert_eq!(g.wire.len(), 80);
    assert_eq!(g.wire.len() % 20, 0);
    assert_eq!(&g.wire[0..20], keep_alive_message().as_slice());
    assert_eq!(&g.wire[20..40], light_message(0, 255, 0).as_slice());
    assert_eq!(&g.wire[40..60], keep_alive_message().as_slice());
    assert_eq!(&g.wire[60..80], light_message(0, 0, 255).as_slice());
}
