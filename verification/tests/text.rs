use ion_cli::decompress::{
    compression_for_extension, detect_compression, next_read_state, read_reliably, CompressionDetected, ReadState,
};
use ion_cli::text::{join_strings, split_on, usize_to_string};

#[test]
fn split_and_join_namespaces() {
    assert_eq!(split_on("org.example", '.'), vec!["org".to_string(), "example".to_string()]);
    assert_eq!(split_on("", '.'), vec!["".to_string()]);
    assert_eq!(split_on("a..b.", '.'), vec!["a", "", "b", ""]);
    let parts = split_on("org.example.foo", '.');
    assert_eq!(join_strings(&parts, "."), "org.example.foo");
}

#[test]
fn decimal_text() {
    assert_eq!(usize_to_string(0), "0");
    assert_eq!(usize_to_string(1234567), "1234567");
}

#[test]
fn compression_by_extension() {
    assert_eq!(compression_for_extension(Some("gz")), CompressionDetected::Gzip);
    assert_eq!(compression_for_extension(Some("zst")), CompressionDetected::Zstd);
    assert_eq!(compression_for_extension(Some("png")), CompressionDetected::Uncompressed);
    assert_eq!(compression_for_extension(None), CompressionDetected::Uncompressed);
}

#[test]
fn compression_by_header() {
    assert_eq!(detect_compression(&[0x1f, 0x8b, 0x08, 0x00]), CompressionDetected::Gzip);
    assert_eq!(detect_compression(&[0x28, 0xb5, 0x2f, 0xfd]), CompressionDetected::Zstd);
    assert_eq!(detect_compression(&[0xe0, 0x01, 0x00, 0xea]), CompressionDetected::Uncompressed);
}

/// A reader that hands out its data a few bytes at a time.
struct Trickle {
    data: Vec<u8>,
    pos: usize,
    chunk: usize,
}

impl std::io::Read for Trickle {
    fn read(&mut self, buf: &mut [u8]) -> std::io::Result<usize> {
        let n = self.chunk.min(buf.len()).min(self.data.len() - self.pos);
        buf[..n].copy_from_slice(&self.data[self.pos..self.pos + n]);
        self.pos += n;
        Ok(n)
    }
}

struct Failing;

impl std::io::Read for Failing {
    fn read(&mut self, _buf: &mut [u8]) -> std::io::Result<usize> {
        Err(std::io::Error::new(std::io::ErrorKind::Other, "broken"))
    }
}

#[test]
fn read_reliably_stops_at_the_end_of_the_data() {
    let mut reader = std::io::Cursor::new(vec![1u8, 2, 3]);
    let mut buf = [0u8; 5];
    assert_eq!(read_reliably(&mut reader, &mut buf).unwrap(), 3);
    assert_eq!(buf, [1u8, 2, 3, 0, 0]);
    assert_eq!(reader.position(), 3);
}

#[test]
fn read_reliably_joins_fragmented_reads() {
    let mut reader = Trickle { data: (1u8..=10).collect(), pos: 0, chunk: 3 };
    let mut buf = [0u8; 8];
    assert_eq!(read_reliably(&mut reader, &mut buf).unwrap(), 8);
    assert_eq!(buf, [1u8, 2, 3, 4, 5, 6, 7, 8]);
    assert_eq!(reader.pos, 8);
}

#[test]
fn read_reliably_on_an_empty_buffer_reads_nothing() {
    let mut buf: [u8; 0] = [];
    assert_eq!(read_reliably(&mut Failing, &mut buf).unwrap(), 0);
}

#[test]
fn read_reliably_hands_back_a_failed_read() {
    let mut buf = [0u8; 4];
    let err = read_reliably(&mut Failing, &mut buf).unwrap_err();
    assert_eq!(err.kind(), std::io::ErrorKind::Other);
    assert_eq!(err.to_string(), "broken");
}

#[test]
fn read_states() {
    assert!(matches!(next_read_state(2, 5, Ok(0)), ReadState::Finished(2)));
    assert!(matches!(next_read_state(2, 5, Ok(3)), ReadState::Finished(5)));
    assert!(matches!(next_read_state(2, 5, Ok(1)), ReadState::Reading(3)));
    assert!(matches!(
        next_read_state(2, 5, Err(std::io::Error::new(std::io::ErrorKind::Other, "x"))),
        ReadState::Failed(_)
    ));
}
