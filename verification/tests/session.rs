use ngspice::{Callbacks, EngineVector, NgSpice, NgSpiceError};

struct Recorder {
    strs: Vec<String>,
    exits: Vec<(i32, bool, bool)>,
}

impl Recorder {
    fn new() -> Recorder {
        Recorder { strs: Vec::new(), exits: Vec::new() }
    }
}

impl Callbacks for Recorder {
    fn send_char(&mut self, s: &str) {
        self.strs.push(s.to_string());
    }

    fn controlled_exit(&mut self, status: i32, unload: bool, quit: bool) {
        self.exits.push((status, unload, quit));
    }
}

struct Nop {}

impl Callbacks for Nop {}

#[test]
fn first_construction_initiates() {
    let first = NgSpice::new(Nop {}, false).unwrap();
    assert!(first.initiated());
    assert!(!first.exited());
}

#[test]
fn later_constructions_fail_without_side_effects() {
    let second = NgSpice::new(Nop {}, true);
    match second {
        Err(e) => assert_eq!(e, NgSpiceError::DoubleInitError),
        Ok(_) => panic!("second construction must not produce a session"),
    }
}

#[test]
fn command_encodes_with_terminator() {
    let s = NgSpice::new(Nop {}, false).unwrap();
    let req = s.command("echo hello").unwrap();
    assert_eq!(req, b"echo hello\0".to_vec());
}

#[test]
fn command_rejects_embedded_terminator() {
    let s = NgSpice::new(Nop {}, false).unwrap();
    let r = s.command("echo\u{0}hello");
    assert_eq!(r.unwrap_err(), NgSpiceError::EncodingError);
}

#[test]
fn command_status_maps_engine_codes() {
    let s = NgSpice::new(Nop {}, false).unwrap();
    assert!(s.command_status(0).is_ok());
    assert_eq!(s.command_status(1).unwrap_err(), NgSpiceError::CommandError);
    assert_eq!(s.command_status(-3).unwrap_err(), NgSpiceError::CommandError);
}

#[test]
fn circuit_appends_empty_line() {
    let s = NgSpice::new(Nop {}, false).unwrap();
    let lines = vec![
        ".title t".to_string(),
        "R1 a b 10k".to_string(),
        "V1 a b dc(5)".to_string(),
        ".end".to_string(),
    ];
    let bufs = s.circuit(&lines).unwrap();
    assert_eq!(bufs.len(), 5);
    assert_eq!(bufs[0], b".title t\0".to_vec());
    assert_eq!(bufs[1], b"R1 a b 10k\0".to_vec());
    assert_eq!(bufs[2], b"V1 a b dc(5)\0".to_vec());
    assert_eq!(bufs[3], b".end\0".to_vec());
    assert_eq!(bufs[4], b"\0".to_vec());
}

#[test]
fn circuit_rejects_embedded_terminator() {
    let s = NgSpice::new(Nop {}, false).unwrap();
    let lines = vec![".title t".to_string(), "R1 a\u{0}b 10k".to_string()];
    assert_eq!(s.circuit(&lines).unwrap_err(), NgSpiceError::EncodingError);
}

#[test]
fn circuit_status_one_is_failure() {
    let s = NgSpice::new(Nop {}, false).unwrap();
    assert_eq!(s.circuit_status(1).unwrap_err(), NgSpiceError::CommandError);
    assert!(s.circuit_status(0).is_ok());
}

#[test]
fn output_lines_are_forwarded() {
    let mut s = NgSpice::new(Recorder::new(), false).unwrap();
    let req = s.command("echo hello").unwrap();
    assert_eq!(req, b"echo hello\0".to_vec());
    s.on_output(&b"stdout hello".to_vec());
    assert_eq!(s.callbacks.strs.last().unwrap(), "stdout hello");
}

#[test]
fn undecodable_output_is_dropped() {
    let mut s = NgSpice::new(Recorder::new(), false).unwrap();
    s.on_output(&vec![0xff, 0xfe]);
    assert!(s.callbacks.strs.is_empty());
    assert!(!s.exited());
}

#[test]
fn exit_flag_is_set_before_forwarding() {
    let mut s = NgSpice::new(Recorder::new(), false).unwrap();
    s.on_exit(2, true, false);
    assert!(s.exited());
    assert_eq!(s.callbacks.exits, vec![(2, true, false)]);
}

#[test]
fn post_exit_sessions_stay_exited() {
    let mut s = NgSpice::new(Recorder::new(), false).unwrap();
    s.on_exit(0, false, true);
    for _ in 0..3 {
        assert!(s.exited());
        s.on_output(&b"late line".to_vec());
        assert!(s.exited());
    }
    assert!(!s.needs_shutdown());
}

#[test]
fn live_initiated_session_needs_shutdown() {
    let s = NgSpice::new(Nop {}, false).unwrap();
    assert!(s.needs_shutdown());
}

#[test]
fn current_plot_decodes_name() {
    let s = NgSpice::new(Nop {}, false).unwrap();
    let name = s.current_plot(&b"op1".to_vec()).unwrap();
    assert_eq!(name, "op1");
    let bad = s.current_plot(&vec![0xff]);
    assert_eq!(bad.unwrap_err(), NgSpiceError::EncodingError);
}

#[test]
fn vector_length_rejects_negative() {
    let s = NgSpice::new(Nop {}, false).unwrap();
    assert_eq!(s.vector_length(3).unwrap(), 3);
    assert_eq!(s.vector_length(-1).unwrap_err(), NgSpiceError::RangeError);
}

#[test]
fn vector_info_real_copies_all_samples() {
    let s = NgSpice::new(Nop {}, false).unwrap();
    let samples = vec![1.5f64.to_bits(), (-2.0f64).to_bits(), 0.0f64.to_bits()];
    let raw = EngineVector { name: b"op1.v-sweep".to_vec(), length: 3, real: Some(samples.clone()) };
    let info = s.vector_info(&raw).unwrap();
    assert_eq!(info.name, "op1.v-sweep");
    assert_eq!(info.data, samples);
    let values: Vec<f64> = info.data.iter().map(|d| f64::from_bits(*d)).collect();
    assert_eq!(values, vec![1.5f64, -2.0f64, 0.0f64]);
}

#[test]
fn vector_info_complex_returns_empty() {
    let s = NgSpice::new(Nop {}, false).unwrap();
    let raw = EngineVector { name: b"ac1.out".to_vec(), length: 4, real: None };
    let info = s.vector_info(&raw).unwrap();
    assert_eq!(info.name, "ac1.out");
    assert!(info.data.is_empty());
}

#[test]
fn vector_info_bad_name_is_encoding_error() {
    let s = NgSpice::new(Nop {}, false).unwrap();
    let raw = EngineVector { name: vec![0xc0], length: 0, real: None };
    assert_eq!(s.vector_info(&raw).unwrap_err(), NgSpiceError::EncodingError);
}

#[test]
fn vector_info_negative_length_is_range_error() {
    let s = NgSpice::new(Nop {}, false).unwrap();
    let raw = EngineVector { name: b"op1.x".to_vec(), length: -7, real: None };
    assert_eq!(s.vector_info(&raw).unwrap_err(), NgSpiceError::RangeError);
}

#[test]
fn simulated_run_round_trip() {
    // The engine itself is outside this crate; its documented replies to a
    // minimal netlist followed by an operating-point command are played back
    // here through the same decoding paths the boundary shell uses.
    let mut s = NgSpice::new(Recorder::new(), false).unwrap();
    let lines = vec![
        ".title t".to_string(),
        "R1 a b 10k".to_string(),
        "V1 a b dc(5)".to_string(),
        ".end".to_string(),
    ];
    let bufs = s.circuit(&lines).unwrap();
    assert_eq!(bufs.len(), lines.len() + 1);
    assert!(s.circuit_status(0).is_ok());
    let req = s.command("op").unwrap();
    assert_eq!(req, b"op\0".to_vec());
    assert!(s.command_status(0).is_ok());
    s.on_output(&b"stdout No. of Data Rows : 1".to_vec());

    let current = s.current_plot(&b"op1".to_vec()).unwrap();
    assert!(!current.is_empty());
    let plots = s.all_plots(&vec![Some(b"op1".to_vec()), Some(b"const".to_vec()), None]).unwrap();
    assert!(plots.contains(&current));

    let vecs_req = s.all_vecs_request(&current).unwrap();
    assert_eq!(vecs_req, b"op1\0".to_vec());
    let vecs = s
        .all_vecs(&vec![Some(b"a".to_vec()), Some(b"b".to_vec()), Some(b"v1#branch".to_vec()), None])
        .unwrap();
    assert!(!vecs.is_empty());

    let name_req = s.vector_info_request(&format!("{}.{}", current, vecs[0])).unwrap();
    assert_eq!(name_req, b"op1.a\0".to_vec());
}
