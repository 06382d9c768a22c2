use rdp_session::data_channel::{DataChannelConnection, InboundMessage, ReadPoll, TransportError};

fn drain(conn: &mut DataChannelConnection, chunk: usize) -> Vec<u8> {
    let mut out = Vec::new();
    loop {
        match conn.poll_read(chunk) {
            ReadPoll::Ready(bytes) => {
                assert!(bytes.len() <= chunk);
                assert!(!bytes.is_empty());
                out.extend_from_slice(&bytes);
            }
            ReadPoll::Pending => return out,
        }
    }
}

#[test]
fn new_connection_is_empty_and_open() {
    let conn = DataChannelConnection::new();
    assert_eq!(conn.buffered_len(), 0);
    assert!(!conn.has_waiter());
    assert!(!conn.is_closed());
}

#[test]
fn read_on_empty_buffer_is_pending_and_parks_the_reader() {
    let mut conn = DataChannelConnection::new();
    assert_eq!(conn.poll_read(16), ReadPoll::Pending);
    assert!(conn.has_waiter());
    assert_eq!(conn.buffered_len(), 0);
}

#[test]
fn binary_message_wakes_the_parked_reader_once() {
    let mut conn = DataChannelConnection::new();
    assert!(!conn.on_message(InboundMessage::Binary(vec![1, 2])));
    assert_eq!(conn.poll_read(1), ReadPoll::Ready(vec![1]));
    assert!(conn.has_waiter());
    assert!(conn.on_message(InboundMessage::Binary(vec![3])));
    assert!(!conn.has_waiter());
    assert!(!conn.on_message(InboundMessage::Binary(vec![4])));
    assert_eq!(conn.buffered_len(), 3);
}

#[test]
fn non_binary_message_is_dropped() {
    let mut conn = DataChannelConnection::new();
    assert_eq!(conn.poll_read(4), ReadPoll::Pending);
    assert!(!conn.on_message(InboundMessage::Other));
    assert!(conn.has_waiter());
    assert_eq!(conn.buffered_len(), 0);
    assert!(conn.on_message(InboundMessage::Binary(vec![9])));
    assert!(!conn.on_message(InboundMessage::Other));
    assert_eq!(conn.poll_read(4), ReadPoll::Ready(vec![9]));
}

#[test]
fn read_returns_what_is_there_without_waiting_for_more() {
    let mut conn = DataChannelConnection::new();
    conn.on_message(InboundMessage::Binary(vec![1, 2, 3]));
    assert_eq!(conn.poll_read(100), ReadPoll::Ready(vec![1, 2, 3]));
    assert_eq!(conn.poll_read(100), ReadPoll::Pending);
}

#[test]
fn read_takes_the_front_and_leaves_the_rest() {
    let mut conn = DataChannelConnection::new();
    conn.on_message(InboundMessage::Binary(vec![1, 2, 3]));
    conn.on_message(InboundMessage::Binary(vec![4, 5]));
    assert_eq!(conn.poll_read(2), ReadPoll::Ready(vec![1, 2]));
    assert_eq!(conn.buffered_len(), 3);
    assert_eq!(conn.poll_read(2), ReadPoll::Ready(vec![3, 4]));
    assert_eq!(conn.poll_read(2), ReadPoll::Ready(vec![5]));
    assert_eq!(conn.poll_read(2), ReadPoll::Pending);
}

#[test]
fn read_of_nothing_from_a_filled_buffer_is_ready_and_empty() {
    let mut conn = DataChannelConnection::new();
    conn.on_message(InboundMessage::Binary(vec![7]));
    assert_eq!(conn.poll_read(0), ReadPoll::Ready(vec![]));
    assert_eq!(conn.buffered_len(), 1);
}

#[test]
fn empty_binary_message_adds_nothing() {
    let mut conn = DataChannelConnection::new();
    conn.on_message(InboundMessage::Binary(vec![]));
    assert_eq!(conn.buffered_len(), 0);
    assert_eq!(conn.poll_read(8), ReadPoll::Pending);
}

#[test]
fn stream_round_trips_for_any_chunk_size() {
    let messages: Vec<Vec<u8>> =
        vec![vec![1, 2, 3], vec![], vec![4], (5..=40).collect(), vec![41, 42]];
    let expected: Vec<u8> = messages.iter().flatten().copied().collect();
    for chunk in [1usize, 2, 3, 5, 7, 16, 42, 1000] {
        let mut conn = DataChannelConnection::new();
        for message in &messages {
            conn.on_message(InboundMessage::Binary(message.clone()));
        }
        let read = drain(&mut conn, chunk);
        assert_eq!(read, expected);
        assert_eq!(read.len(), 42);
    }
}

#[test]
fn stream_round_trips_when_reads_and_deliveries_interleave() {
    let mut conn = DataChannelConnection::new();
    let mut read = Vec::new();
    let mut expected = Vec::new();
    for round in 0u8..20 {
        let message: Vec<u8> = (0..round).map(|i| round.wrapping_mul(7).wrapping_add(i)).collect();
        expected.extend_from_slice(&message);
        conn.on_message(InboundMessage::Binary(message));
        if let ReadPoll::Ready(bytes) = conn.poll_read(usize::from(round % 4) + 1) {
            read.extend_from_slice(&bytes);
        }
    }
    read.extend(drain(&mut conn, 3));
    assert_eq!(read, expected);
}

#[test]
fn write_sends_the_whole_buffer_as_one_message() {
    assert_eq!(DataChannelConnection::outbound_message(&[1, 2, 3]), vec![1, 2, 3]);
    assert_eq!(DataChannelConnection::outbound_message(&[]), Vec::<u8>::new());
    assert_eq!(DataChannelConnection::poll_write(3, Ok(())), Ok(3));
    assert_eq!(DataChannelConnection::poll_write(0, Ok(())), Ok(0));
}

#[test]
fn failed_send_surfaces_with_the_channel_description() {
    let result = DataChannelConnection::poll_write(3, Err("InvalidStateError".to_owned()));
    assert_eq!(result, Err(TransportError::SendFailed("InvalidStateError".to_owned())));
    assert_eq!(result.unwrap_err().message(), "Send failed: InvalidStateError");
}

#[test]
fn flush_is_a_no_op() {
    let mut conn = DataChannelConnection::new();
    conn.on_message(InboundMessage::Binary(vec![1]));
    assert_eq!(conn.poll_flush(), Ok(()));
    assert_eq!(conn.buffered_len(), 1);
}

#[test]
fn close_is_idempotent() {
    let mut conn = DataChannelConnection::new();
    conn.on_message(InboundMessage::Binary(vec![1, 2]));
    assert!(conn.poll_close());
    assert!(conn.is_closed());
    assert!(!conn.poll_close());
    assert!(conn.is_closed());
    assert_eq!(conn.buffered_len(), 2);
    assert_eq!(conn.poll_read(8), ReadPoll::Ready(vec![1, 2]));
}
