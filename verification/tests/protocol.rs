use rsm::protocol::{socket_path, FrameReader, Packet};

#[test]
fn frame_starts_with_the_length() {
    assert_eq!(Packet::build(&vec![]), vec![0, 0]);
    assert_eq!(Packet::build(&vec![7, 8, 9]), vec![0, 3, 7, 8, 9]);
    let long = Packet::build(&vec![1; 258]);
    assert_eq!(long[0..3], [1, 2, 1]);
    assert_eq!(long.len(), 260);
}

#[test]
fn longest_encoding_comes_through() {
    let payload: Vec<u8> = (0..65535u32).map(|i| (i % 251) as u8).collect();
    let bytes = Packet::build(&payload);
    assert_eq!(bytes[0..2], [255, 255]);
    assert_eq!(Packet::from_stream(&bytes, 0), Some((payload, 65537)));
}

#[test]
fn too_long_encoding_is_cut_short() {
    let bytes = Packet::build(&vec![5; 65538]);
    assert_eq!(bytes[0..2], [0, 2]);
    assert_eq!(bytes.len(), 65540);
    assert_eq!(Packet::from_stream(&bytes, 0), Some((vec![5, 5], 4)));
}

#[test]
fn frames_are_read_one_after_the_other() {
    let mut stream = Packet::build(&vec![1, 2]);
    stream.extend(Packet::build(&vec![]));
    stream.extend(Packet::build(&vec![3]));
    assert_eq!(Packet::from_stream(&stream, 0), Some((vec![1, 2], 4)));
    assert_eq!(Packet::from_stream(&stream, 4), Some((vec![], 6)));
    assert_eq!(Packet::from_stream(&stream, 6), Some((vec![3], 9)));
    assert_eq!(Packet::from_stream(&stream, 9), None);
}

#[test]
fn stream_can_end_too_early() {
    assert_eq!(Packet::from_stream(&vec![], 0), None);
    assert_eq!(Packet::from_stream(&vec![0], 0), None);
    assert_eq!(Packet::from_stream(&vec![0, 2, 9], 0), None);
}

#[test]
fn reader_asks_for_header_and_encoding() {
    let mut reader = FrameReader::new();
    assert_eq!(reader.missing(), 2);
    reader.push(&vec![1]);
    assert_eq!(reader.missing(), 1);
    reader.push(&vec![0]);
    assert_eq!(reader.missing(), 256);
    reader.push(&vec![4; 200]);
    assert_eq!(reader.missing(), 56);
    reader.push(&vec![4; 56]);
    assert_eq!(reader.missing(), 0);
    assert_eq!(reader.into_payload(), vec![4; 256]);
}

#[test]
fn socket_is_the_users_own() {
    assert_eq!(socket_path("1000"), "/var/run/user/1000/rsm.sock");
}
