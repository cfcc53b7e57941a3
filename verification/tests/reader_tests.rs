use mysql_proxy::{ConnReader, IoOutcome, Packet, ProxyError, ReadEvent};

fn drain(reader: &mut ConnReader) -> Vec<Packet> {
    let mut out = Vec::new();
    while let Some(p) = reader.next() {
        out.push(p);
    }
    out
}

fn packet(sequence_id: u8, payload: &[u8]) -> Vec<u8> {
    let n = payload.len();
    let mut bytes = vec![n as u8, (n >> 8) as u8, (n >> 16) as u8, sequence_id];
    bytes.extend_from_slice(payload);
    bytes
}

#[test]
fn new_reader_holds_nothing() {
    let mut reader = ConnReader::new();
    assert_eq!(reader.read_pos(), 0);
    assert!(reader.buffered().is_empty());
    assert!(reader.next().is_none());
}

#[test]
fn next_waits_for_the_header() {
    let mut reader = ConnReader::new();
    reader.feed(&[0, 0, 0]);
    assert!(reader.next().is_none());
    assert_eq!(reader.buffered(), &[0, 0, 0]);
    reader.feed(&[9]);
    let p = reader.next().unwrap();
    assert_eq!(p.bytes, vec![0, 0, 0, 9]);
    assert_eq!(reader.read_pos(), 0);
}

#[test]
fn next_waits_for_the_whole_payload() {
    let mut reader = ConnReader::new();
    reader.feed(&[3, 0, 0, 0, 0x03, b'a']);
    assert!(reader.next().is_none());
    assert_eq!(reader.read_pos(), 6);
    reader.feed(&[b'b']);
    assert_eq!(reader.next().unwrap().bytes, vec![3, 0, 0, 0, 0x03, b'a', b'b']);
    assert!(reader.next().is_none());
}

#[test]
fn empty_payload_is_a_packet() {
    let mut reader = ConnReader::new();
    reader.feed(&[0, 0, 0, 5, 0, 0, 0, 6]);
    assert_eq!(reader.next().unwrap().bytes, vec![0, 0, 0, 5]);
    assert_eq!(reader.next().unwrap().bytes, vec![0, 0, 0, 6]);
    assert!(reader.next().is_none());
}

/// Feeds `stream` in chunks of 1, 2, 3, ... bytes, asks for a packet after
/// each chunk, and gives the packets with the number of bytes fed when each
/// came out.
fn feed_in_growing_chunks(stream: &[u8]) -> Vec<(usize, Packet)> {
    let mut reader = ConnReader::new();
    let mut fed = 0;
    let mut size = 1;
    let mut got = Vec::new();
    while fed < stream.len() {
        assert!(size <= 50);
        let end = (fed + size).min(stream.len());
        reader.feed(&stream[fed..end]);
        fed = end;
        size += 1;
        if let Some(p) = reader.next() {
            got.push((fed, p));
        }
    }
    assert!(reader.next().is_none());
    got
}

#[test]
fn chunked_framing() {
    let mut whole = vec![0x28, 0x01, 0x00, 0x00];
    whole.extend((0..296u32).map(|i| (i % 251) as u8));
    assert_eq!(whole.len(), 300);

    let got = feed_in_growing_chunks(&whole);
    assert_eq!(got.len(), 1);
    assert_eq!(got[0].0, 300);
    assert_eq!(got[0].1.bytes, whole);
}

#[test]
fn chunked_framing_waits_for_the_announced_length() {
    let mut whole = vec![0x2c, 0x01, 0x00, 0x00];
    whole.extend((0..296u32).map(|i| (i % 251) as u8));
    assert!(feed_in_growing_chunks(&whole).is_empty());

    whole.extend_from_slice(&[1, 2, 3, 4]);
    let got = feed_in_growing_chunks(&whole);
    assert_eq!(got.len(), 1);
    assert_eq!(got[0].0, 304);
    assert_eq!(got[0].1.bytes, whole);
}

#[test]
fn back_to_back_packets() {
    let ping = [1, 0, 0, 0, 0x0e];
    let mut stream = Vec::new();
    stream.extend_from_slice(&ping);
    stream.extend_from_slice(&ping);
    stream.extend_from_slice(&ping);

    let mut reader = ConnReader::new();
    reader.feed(&stream);
    assert_eq!(reader.next().unwrap().bytes, ping.to_vec());
    assert_eq!(reader.next().unwrap().bytes, ping.to_vec());
    assert_eq!(reader.next().unwrap().bytes, ping.to_vec());
    assert!(reader.next().is_none());
}

#[test]
fn extraction_shifts_the_rest_down() {
    let first = packet(0, b"\x03SELECT 1");
    let second = packet(0, b"\x0e");
    let tail = [7u8, 0, 0];
    let mut stream = first.clone();
    stream.extend_from_slice(&second);
    stream.extend_from_slice(&tail);

    let mut reader = ConnReader::new();
    reader.feed(&stream);
    let before = reader.read_pos();
    assert_eq!(before, stream.len());

    let p = reader.next().unwrap();
    assert_eq!(p.bytes, first);
    assert_eq!(reader.read_pos(), before - first.len());
    assert_eq!(reader.buffered(), &stream[first.len()..]);

    let p = reader.next().unwrap();
    assert_eq!(p.bytes, second);
    assert_eq!(reader.buffered(), &tail);
    assert!(reader.next().is_none());
    assert_eq!(reader.buffered(), &tail);
}

#[test]
fn any_chunking_yields_the_same_packets() {
    let packets = vec![
        packet(0, b"\x03SELECT 1;"),
        packet(1, b""),
        packet(2, &[0x0e]),
        packet(3, &vec![0xaa; 700]),
        packet(4, b"\x02db"),
    ];
    let stream: Vec<u8> = packets.concat();
    for chunk in [1usize, 2, 3, 4, 5, 7, 64, 699, 700, 701, 5000] {
        let mut reader = ConnReader::new();
        let mut got = Vec::new();
        for piece in stream.chunks(chunk) {
            reader.feed(piece);
            got.extend(drain(&mut reader));
        }
        let got: Vec<Vec<u8>> = got.into_iter().map(|p| p.bytes).collect();
        assert_eq!(got, packets);
        assert_eq!(reader.read_pos(), 0);
    }
}

#[test]
fn a_packet_larger_than_the_first_buffer_is_framed() {
    let big = packet(0, &vec![0x5a; 100_000]);
    let mut reader = ConnReader::new();
    for piece in big.chunks(4096) {
        assert!(reader.next().is_none());
        reader.feed(piece);
    }
    assert_eq!(reader.next().unwrap().bytes, big);
    assert_eq!(reader.read_pos(), 0);
}

#[test]
fn read_buffers_what_the_socket_gave() {
    let mut reader = ConnReader::new();
    assert_eq!(reader.read(ReadEvent::Data(vec![1, 0, 0])), None);
    assert_eq!(reader.read(ReadEvent::Data(vec![0, 0x0e, 1])), None);
    assert_eq!(reader.buffered(), &[1, 0, 0, 0, 0x0e, 1]);
    assert_eq!(reader.next().unwrap().bytes, vec![1, 0, 0, 0, 0x0e]);
    assert_eq!(reader.buffered(), &[1]);
}

#[test]
fn read_of_no_bytes_is_a_closed_connection() {
    let mut reader = ConnReader::new();
    reader.feed(&[1, 2]);
    assert_eq!(
        reader.read(ReadEvent::Data(Vec::new())),
        Some(IoOutcome::Failed(ProxyError::ConnectionClosed))
    );
    assert_eq!(reader.buffered(), &[1, 2]);
}

#[test]
fn read_that_cannot_proceed_is_pending() {
    let mut reader = ConnReader::new();
    reader.feed(&[1, 2]);
    assert_eq!(reader.read(ReadEvent::NotReady), Some(IoOutcome::Pending));
    assert_eq!(reader.read(ReadEvent::WouldBlock), Some(IoOutcome::Pending));
    assert_eq!(reader.buffered(), &[1, 2]);
}

#[test]
fn read_that_fails_is_a_transport_error() {
    let mut reader = ConnReader::new();
    reader.feed(&[1, 2]);
    assert_eq!(
        reader.read(ReadEvent::Failed),
        Some(IoOutcome::Failed(ProxyError::Transport))
    );
    assert_eq!(reader.buffered(), &[1, 2]);
}

#[test]
fn header_of_every_packet_announces_its_payload() {
    let payloads: [&[u8]; 5] = [b"", b"\x0e", b"\x03SELECT 1", &[0u8; 255], &[7u8; 65_536]];
    let mut reader = ConnReader::new();
    for (i, payload) in payloads.iter().enumerate() {
        reader.feed(&packet(i as u8, payload));
    }
    for (i, payload) in payloads.iter().enumerate() {
        let p = reader.next().unwrap();
        assert_eq!(mysql_proxy::parse_packet_length(&p.bytes), payload.len());
        assert_eq!(p.bytes.len(), 4 + payload.len());
        assert_eq!(p.sequence_id(), i as u8);
        assert_eq!(&p.bytes[4..], *payload);
    }
    assert!(reader.next().is_none());
}
