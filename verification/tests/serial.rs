use bhwi::jade::serial::{ReadEvent, ReadStep, SerialReader, JADE_READ_TIMEOUT_MS};
use bhwi::runner::http_success;

#[test]
fn a_reply_ends_with_the_first_quiet_spell() {
    assert_eq!(JADE_READ_TIMEOUT_MS, 500);
    let mut reader = SerialReader::new();
    assert_eq!(reader.accept(ReadEvent::Chunk(vec![1, 2])), ReadStep::Again);
    assert_eq!(reader.accept(ReadEvent::Chunk(vec![])), ReadStep::Again);
    assert_eq!(reader.accept(ReadEvent::Chunk(vec![3])), ReadStep::Again);
    assert_eq!(reader.accept(ReadEvent::TimedOut), ReadStep::Finished);
    assert_eq!(reader.into_data(), vec![1, 2, 3]);
}

#[test]
fn reading_goes_on_until_there_is_a_byte() {
    let mut reader = SerialReader::new();
    assert_eq!(reader.accept(ReadEvent::Chunk(vec![])), ReadStep::Again);
    assert_eq!(reader.accept(ReadEvent::TimedOut), ReadStep::Again);
    assert_eq!(reader.accept(ReadEvent::TimedOut), ReadStep::Again);
    assert_eq!(reader.accept(ReadEvent::Chunk(vec![9])), ReadStep::Again);
    assert_eq!(reader.accept(ReadEvent::TimedOut), ReadStep::Finished);
    assert_eq!(reader.into_data(), vec![9]);
}

#[test]
fn the_first_read_decides_whether_there_is_a_reply() {
    let mut reader = SerialReader::new();
    assert_eq!(reader.accept(ReadEvent::Failed), ReadStep::Lost);
    let mut reader = SerialReader::new();
    assert_eq!(reader.accept(ReadEvent::NoChunk), ReadStep::Finished);
    assert!(reader.into_data().is_empty());
}

#[test]
fn a_later_failure_ends_the_reply() {
    let mut reader = SerialReader::new();
    reader.accept(ReadEvent::Chunk(vec![5]));
    assert_eq!(reader.accept(ReadEvent::Failed), ReadStep::Finished);
    assert_eq!(reader.into_data(), vec![5]);
    let mut reader = SerialReader::new();
    reader.accept(ReadEvent::Chunk(vec![]));
    assert_eq!(reader.accept(ReadEvent::Failed), ReadStep::Finished);
    let mut reader = SerialReader::new();
    reader.accept(ReadEvent::Chunk(vec![6, 7]));
    assert_eq!(reader.accept(ReadEvent::NoChunk), ReadStep::Finished);
    assert_eq!(reader.into_data(), vec![6, 7]);
}

#[test]
fn only_2xx_is_a_success() {
    for status in [200u16, 201, 204, 299] {
        assert!(http_success(status));
    }
    for status in [0u16, 100, 199, 300, 301, 404, 500, 503, u16::MAX] {
        assert!(!http_success(status));
    }
}
