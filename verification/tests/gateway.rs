use decompression::{
    maybe_decompress_file, Action, Codec, Compression, Decoder, Event, Failure, FailureKind,
    Gateway, Phase, Platform, Sink,
};
use std::io::Write;

const ARTIFACT: &str = "/tmp/downloads/.tmpSrc001";
const SCRATCH: &str = "/tmp/downloads/.tmpDst002";
const PLAINTEXT: &[u8] = b"debug symbols, many of them, debug symbols, many of them";

fn zstd_of(plain: &[u8]) -> Vec<u8> {
    zstd::stream::encode_all(plain, 0).unwrap()
}

fn gzip_of(plain: &[u8]) -> Vec<u8> {
    let mut encoder = flate2::write::GzEncoder::new(Vec::new(), flate2::Compression::default());
    encoder.write_all(plain).unwrap();
    encoder.finish().unwrap()
}

fn zlib_of(plain: &[u8]) -> Vec<u8> {
    let mut encoder = flate2::write::ZlibEncoder::new(Vec::new(), flate2::Compression::default());
    encoder.write_all(plain).unwrap();
    encoder.finish().unwrap()
}

fn zip_of(plain: &[u8]) -> Vec<u8> {
    let mut writer = zip::ZipWriter::new(std::io::Cursor::new(Vec::new()));
    writer
        .start_file("artifact", zip::write::SimpleFileOptions::default())
        .unwrap();
    writer.write_all(plain).unwrap();
    writer.finish().unwrap().into_inner()
}

fn prefix_of(content: &[u8]) -> Vec<u8> {
    content[..4].to_vec()
}

/// Drives a run on `content` as a driver with a working disk would, up to the
/// action that needs the decoder, and returns the state and that action.
fn sniff(host: Platform, content: &[u8]) -> (Gateway, Action) {
    let gateway = Gateway::new(host, ARTIFACT.to_string());
    let (gateway, action) =
        maybe_decompress_file(gateway, Event::Measured { len: content.len() as u64 });
    if content.len() < 4 {
        return (gateway, action);
    }
    assert!(matches!(action, Action::ReadPrefix));
    maybe_decompress_file(gateway, Event::Sniffed { prefix: prefix_of(content) })
}

/// Drives a whole run on `content` through a codec of this process and
/// returns what the replacement file would hold.
fn replace_in_process(content: &[u8], kind: Compression, codec: Codec) -> Vec<u8> {
    let (gateway, action) = sniff(Platform::Other, content);
    assert_eq!(gateway.kind(), Some(kind));
    match action {
        Action::Reserve { dir } => assert_eq!(dir, "/tmp/downloads"),
        other => panic!("unexpected action {:?}", other),
    }
    assert!(matches!(gateway.phase(), Phase::Reserving { decoder: Decoder::Library(c) } if *c == codec));

    let (gateway, action) =
        maybe_decompress_file(gateway, Event::Reserved { path: SCRATCH.to_string() });
    assert!(matches!(action, Action::Load));
    assert_eq!(gateway.artifact(), ARTIFACT);

    let (gateway, action) =
        maybe_decompress_file(gateway, Event::Loaded { content: content.to_vec() });
    let stored = match action {
        Action::Store { content } => content,
        other => panic!("unexpected action {:?}", other),
    };
    assert_eq!(gateway.artifact(), ARTIFACT);
    assert!(!gateway.is_done());

    let (gateway, action) = maybe_decompress_file(gateway, Event::Stored);
    assert!(matches!(action, Action::Swap));
    assert!(gateway.is_done());
    assert_eq!(gateway.artifact(), SCRATCH);
    assert_eq!(gateway.kind(), Some(kind));
    stored
}

#[test]
fn a_new_run_waits_for_the_size() {
    let gateway = Gateway::new(Platform::Other, ARTIFACT.to_string());
    assert_eq!(gateway.artifact(), ARTIFACT);
    assert_eq!(gateway.kind(), None);
    assert!(!gateway.is_done());
    assert!(matches!(gateway.phase(), Phase::Measuring));
}

#[test]
fn short_artifacts_are_kept_unread() {
    for len in 0..4u64 {
        let gateway = Gateway::new(Platform::Other, ARTIFACT.to_string());
        let (gateway, action) = maybe_decompress_file(gateway, Event::Measured { len });
        assert!(matches!(action, Action::Keep));
        assert!(gateway.is_done());
        assert_eq!(gateway.kind(), Some(Compression::Uncompressed));
        assert_eq!(gateway.artifact(), ARTIFACT);
    }
}

#[test]
fn four_bytes_are_enough_to_be_read() {
    let gateway = Gateway::new(Platform::Other, ARTIFACT.to_string());
    let (gateway, action) = maybe_decompress_file(gateway, Event::Measured { len: 4 });
    assert!(matches!(action, Action::ReadPrefix));
    assert!(matches!(gateway.phase(), Phase::Sniffing));
    assert_eq!(gateway.kind(), None);
}

#[test]
fn uncompressed_artifact_is_kept_twice() {
    let content = b"plain text that carries no signature";
    for _ in 0..2 {
        let (gateway, action) = sniff(Platform::Other, content);
        assert!(matches!(action, Action::Keep));
        assert!(gateway.is_done());
        assert_eq!(gateway.kind(), Some(Compression::Uncompressed));
        assert_eq!(gateway.artifact(), ARTIFACT);
    }
}

#[test]
fn second_run_starts_where_the_first_ended() {
    let content = b"plain text that carries no signature";
    let (first, _) = sniff(Platform::Other, content);
    let again = Gateway::new(Platform::Other, first.artifact().to_string());
    let (again, action) =
        maybe_decompress_file(again, Event::Measured { len: content.len() as u64 });
    assert!(matches!(action, Action::ReadPrefix));
    let (again, action) =
        maybe_decompress_file(again, Event::Sniffed { prefix: prefix_of(content) });
    assert!(matches!(action, Action::Keep));
    assert_eq!(again.artifact(), first.artifact());
    assert_eq!(again.kind(), first.kind());
}

#[test]
fn zstd_end_to_end() {
    let packed = zstd_of(b"hello");
    assert_eq!(&packed[..4], &[0x28, 0xb5, 0x2f, 0xfd]);
    let stored = replace_in_process(&packed, Compression::Zstd, Codec::Zstd);
    assert_eq!(stored, b"hello");
}

#[test]
fn zstd_round_trip_through_the_gateway() {
    let stored = replace_in_process(&zstd_of(PLAINTEXT), Compression::Zstd, Codec::Zstd);
    assert_eq!(stored, PLAINTEXT);
}

#[test]
fn gzip_round_trip_through_the_gateway() {
    let stored = replace_in_process(&gzip_of(PLAINTEXT), Compression::Gzip, Codec::Gzip);
    assert_eq!(stored, PLAINTEXT);
}

#[test]
fn zlib_round_trip_through_the_gateway() {
    let stored = replace_in_process(&zlib_of(PLAINTEXT), Compression::Zlib, Codec::Zlib);
    assert_eq!(stored, PLAINTEXT);
}

#[test]
fn zip_round_trip_through_the_gateway() {
    let stored = replace_in_process(&zip_of(PLAINTEXT), Compression::Zip, Codec::Zip);
    assert_eq!(stored, PLAINTEXT);
}

#[test]
fn malformed_content_fails_and_keeps_the_artifact() {
    let mut content = vec![0x1f, 0x8b, 0x08, 0x00];
    content.extend_from_slice(b"this is no deflate stream at all");
    let (gateway, action) = sniff(Platform::Other, &content);
    assert!(matches!(action, Action::Reserve { .. }));
    let (gateway, action) =
        maybe_decompress_file(gateway, Event::Reserved { path: SCRATCH.to_string() });
    assert!(matches!(action, Action::Load));
    let (gateway, action) = maybe_decompress_file(gateway, Event::Loaded { content });
    match action {
        Action::Fail { failure } => {
            assert_eq!(failure.kind(), FailureKind::Inherited);
            assert!(matches!(failure, Failure::Decode { codec: Codec::Gzip, .. }));
        }
        other => panic!("unexpected action {:?}", other),
    }
    assert!(gateway.is_done());
    assert_eq!(gateway.artifact(), ARTIFACT);
}

#[test]
fn cab_runs_the_extractor_and_swaps() {
    let mut content = b"MSCF".to_vec();
    content.extend_from_slice(&[0u8; 60]);
    let (gateway, action) = sniff(Platform::Other, &content);
    assert_eq!(gateway.kind(), Some(Compression::Cab));
    match action {
        Action::Reserve { dir } => assert_eq!(dir, "/tmp/downloads"),
        other => panic!("unexpected action {:?}", other),
    }
    assert!(matches!(gateway.phase(), Phase::Reserving { decoder: Decoder::Tool }));

    let (gateway, action) =
        maybe_decompress_file(gateway, Event::Reserved { path: SCRATCH.to_string() });
    match action {
        Action::Run { command } => {
            assert_eq!(command.program, "cabextract");
            assert_eq!(command.args, vec!["-sfqp".to_string(), ARTIFACT.to_string()]);
            assert_eq!(command.stdout, Sink::Replacement);
            assert_eq!(command.stderr, Sink::Pipe);
        }
        other => panic!("unexpected action {:?}", other),
    }
    assert!(matches!(gateway.phase(), Phase::Extracting { scratch } if scratch == SCRATCH));
    assert_eq!(gateway.artifact(), ARTIFACT);

    let (gateway, action) = maybe_decompress_file(
        gateway,
        Event::Exited { success: true, stderr: Vec::new() },
    );
    assert!(matches!(action, Action::Swap));
    assert!(gateway.is_done());
    assert_eq!(gateway.artifact(), SCRATCH);
}

#[test]
fn cab_on_windows_runs_expand() {
    let (gateway, _) = sniff(Platform::Windows, b"MSCF\0\0\0\0");
    let (_, action) =
        maybe_decompress_file(gateway, Event::Reserved { path: SCRATCH.to_string() });
    match action {
        Action::Run { command } => {
            assert_eq!(command.program, "expand");
            assert_eq!(command.args, vec![ARTIFACT.to_string(), SCRATCH.to_string()]);
            assert_eq!(command.stdout, Sink::Pipe);
            assert_eq!(command.stderr, Sink::Pipe);
        }
        other => panic!("unexpected action {:?}", other),
    }
}

#[test]
fn failed_extractor_names_the_tool_and_keeps_the_artifact() {
    let (gateway, _) = sniff(Platform::Other, b"MSCF but nothing like a cabinet");
    let (gateway, _) =
        maybe_decompress_file(gateway, Event::Reserved { path: SCRATCH.to_string() });
    let (gateway, action) = maybe_decompress_file(
        gateway,
        Event::Exited { success: false, stderr: b"no valid cabinets found\n".to_vec() },
    );
    match action {
        Action::Fail { failure } => {
            assert_eq!(failure.kind(), FailureKind::InvalidData);
            match failure {
                Failure::Tool { tool, stderr, message } => {
                    assert_eq!(tool, "cabextract");
                    assert_eq!(stderr, "no valid cabinets found\n");
                    assert!(message.contains("cabextract"));
                    assert_eq!(
                        message,
                        "Failed to decompress CAB file with 'cabextract': no valid cabinets found\n"
                    );
                }
                other => panic!("unexpected failure {:?}", other),
            }
        }
        other => panic!("unexpected action {:?}", other),
    }
    assert!(gateway.is_done());
    assert_eq!(gateway.artifact(), ARTIFACT);
    assert_eq!(gateway.kind(), Some(Compression::Cab));
}

#[test]
fn extractor_output_is_read_permissively() {
    let (gateway, _) = sniff(Platform::Windows, b"MSCF\0\0\0\0");
    let (gateway, _) =
        maybe_decompress_file(gateway, Event::Reserved { path: SCRATCH.to_string() });
    let (_, action) = maybe_decompress_file(
        gateway,
        Event::Exited { success: false, stderr: vec![b'b', b'a', b'd', 0xff, b'!'] },
    );
    match action {
        Action::Fail { failure: Failure::Tool { tool, stderr, message } } => {
            assert_eq!(tool, "expand");
            assert_eq!(stderr, "bad\u{fffd}!");
            assert_eq!(message, "Failed to decompress CAB file with 'expand': bad\u{fffd}!");
        }
        other => panic!("unexpected action {:?}", other),
    }
}

#[test]
fn a_path_without_parent_fails_before_anything_is_created() {
    let gateway = Gateway::new(Platform::Other, "/".to_string());
    let (gateway, _) = maybe_decompress_file(gateway, Event::Measured { len: 100 });
    let (gateway, action) =
        maybe_decompress_file(gateway, Event::Sniffed { prefix: vec![0x28, 0xb5, 0x2f, 0xfd] });
    match action {
        Action::Fail { failure } => {
            assert!(matches!(failure, Failure::NoParent));
            assert_eq!(failure.kind(), FailureKind::NotFound);
        }
        other => panic!("unexpected action {:?}", other),
    }
    assert!(gateway.is_done());
    assert_eq!(gateway.kind(), Some(Compression::Zstd));
    assert_eq!(gateway.artifact(), "/");
}

#[test]
fn a_path_without_parent_is_no_obstacle_to_keeping() {
    let gateway = Gateway::new(Platform::Other, "/".to_string());
    let (gateway, _) = maybe_decompress_file(gateway, Event::Measured { len: 100 });
    let (gateway, action) =
        maybe_decompress_file(gateway, Event::Sniffed { prefix: b"text".to_vec() });
    assert!(matches!(action, Action::Keep));
    assert_eq!(gateway.artifact(), "/");
}

#[test]
fn with_parent_takes_the_directory_as_given() {
    let gateway = Gateway::with_parent(
        Platform::Other,
        ARTIFACT.to_string(),
        Some("/elsewhere".to_string()),
    );
    let (gateway, _) = maybe_decompress_file(gateway, Event::Measured { len: 100 });
    let (_, action) =
        maybe_decompress_file(gateway, Event::Sniffed { prefix: vec![0x78, 0x9c, 0, 0] });
    match action {
        Action::Reserve { dir } => assert_eq!(dir, "/elsewhere"),
        other => panic!("unexpected action {:?}", other),
    }
}

#[test]
fn a_failed_action_ends_the_run_with_its_cause() {
    let phases: [u32; 5] = [0, 1, 2, 3, 4];
    for reached in phases {
        let packed = zstd_of(PLAINTEXT);
        let mut gateway = Gateway::new(Platform::Other, ARTIFACT.to_string());
        let events = vec![
            Event::Measured { len: packed.len() as u64 },
            Event::Sniffed { prefix: prefix_of(&packed) },
            Event::Reserved { path: SCRATCH.to_string() },
            Event::Loaded { content: packed.clone() },
        ];
        for event in events.into_iter().take(reached as usize) {
            let (next, action) = maybe_decompress_file(gateway, event);
            assert!(!matches!(action, Action::Fail { .. }));
            gateway = next;
        }
        let cause = std::io::Error::new(std::io::ErrorKind::PermissionDenied, "denied");
        let (gateway, action) = maybe_decompress_file(gateway, Event::Failed { cause });
        match action {
            Action::Fail { failure } => {
                assert_eq!(failure.kind(), FailureKind::Inherited);
                match failure {
                    Failure::Resource { cause } => {
                        assert_eq!(cause.kind(), std::io::ErrorKind::PermissionDenied);
                        assert_eq!(cause.to_string(), "denied");
                    }
                    other => panic!("unexpected failure {:?}", other),
                }
            }
            other => panic!("unexpected action {:?}", other),
        }
        assert!(gateway.is_done());
        assert_eq!(gateway.artifact(), ARTIFACT);
    }
}

#[test]
fn an_event_out_of_turn_ends_the_run() {
    let gateway = Gateway::new(Platform::Other, ARTIFACT.to_string());
    let (gateway, action) = maybe_decompress_file(gateway, Event::Stored);
    match action {
        Action::Fail { failure } => {
            assert!(matches!(failure, Failure::Unexpected));
            assert_eq!(failure.kind(), FailureKind::InvalidInput);
        }
        other => panic!("unexpected action {:?}", other),
    }
    assert!(gateway.is_done());
    assert_eq!(gateway.artifact(), ARTIFACT);

    let (gateway, _) = sniff(Platform::Other, b"MSCF\0\0\0\0");
    let (gateway, action) =
        maybe_decompress_file(gateway, Event::Loaded { content: b"MSCF".to_vec() });
    assert!(matches!(action, Action::Fail { failure: Failure::Unexpected }));
    assert!(gateway.is_done());
}

#[test]
fn a_finished_run_answers_nothing_more() {
    let (gateway, action) = sniff(Platform::Other, b"plain");
    assert!(matches!(action, Action::Keep));
    let (gateway, action) = maybe_decompress_file(gateway, Event::Measured { len: 5 });
    assert!(matches!(action, Action::Fail { failure: Failure::Unexpected }));
    assert!(gateway.is_done());
    assert_eq!(gateway.kind(), Some(Compression::Uncompressed));
    let cause = std::io::Error::new(std::io::ErrorKind::Other, "late");
    let (gateway, action) = maybe_decompress_file(gateway, Event::Failed { cause });
    assert!(matches!(action, Action::Fail { failure: Failure::Unexpected }));
    assert_eq!(gateway.artifact(), ARTIFACT);
}

#[test]
fn no_run_takes_more_than_five_events() {
    let packed = gzip_of(PLAINTEXT);
    let gateway = Gateway::new(Platform::Other, ARTIFACT.to_string());
    let events = vec![
        Event::Measured { len: packed.len() as u64 },
        Event::Sniffed { prefix: prefix_of(&packed) },
        Event::Reserved { path: SCRATCH.to_string() },
        Event::Loaded { content: packed.clone() },
        Event::Stored,
    ];
    let mut gateway = gateway;
    let mut ended = 0;
    for event in events {
        assert!(!gateway.is_done());
        let (next, action) = maybe_decompress_file(gateway, event);
        if matches!(action, Action::Keep | Action::Swap | Action::Fail { .. }) {
            ended += 1;
            assert!(next.is_done());
        } else {
            assert!(!next.is_done());
        }
        gateway = next;
    }
    assert_eq!(ended, 1);
    assert!(gateway.is_done());
}
