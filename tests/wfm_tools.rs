use wfm_reader::{frame_slice, WfmError, WfmFile, WfmHeader};

fn put_u32(buf: &mut [u8], at: usize, v: u32) {
    buf[at..at + 4].copy_from_slice(&v.to_le_bytes());
}

fn put_f64(buf: &mut [u8], at: usize, v: f64) {
    buf[at..at + 8].copy_from_slice(&v.to_le_bytes());
}

fn create_test_header() -> Vec<u8> {
    let mut header = vec![0u8; 838];
    header[2..10].copy_from_slice(b":WFM#003");
    put_u32(&mut header, 0x072, 1);
    put_u32(&mut header, 0x076, 1);
    put_u32(&mut header, 0x300, 0);
    put_u32(&mut header, 0x04e, 1);
    put_u32(&mut header, 0x048, 4);
    put_f64(&mut header, 0x0a8, 0.01);
    put_f64(&mut header, 0x0b0, 0.0);
    put_f64(&mut header, 0x1e8, 1e-9);
    put_f64(&mut header, 0x1f0, -5e-6);
    put_u32(&mut header, 0x336, 0);
    put_u32(&mut header, 0x33a, 1000);
    put_u32(&mut header, 0x33e, 1000);
    header
}

#[test]
fn test_header_parsing() {
    let header_data = create_test_header();
    let header = WfmHeader::parse_header(&header_data).unwrap();

    assert_eq!(header.wfm_version, ":WFM#003");
    assert_eq!(header.num_impl_dim, 1);
    assert_eq!(header.num_expl_dim, 1);
    assert_eq!(header.num_fastframes, 5);
    assert_eq!(f64::from_bits(header.voltage_scale_bits), 0.01);
    assert_eq!(f64::from_bits(header.voltage_offset_bits), 0.0);
    assert_eq!(header.full_record_length, 1000);
}

#[test]
fn test_invalid_header_size() {
    let header_data = vec![0u8; 100];
    let result = WfmHeader::parse_header(&header_data);
    assert!(matches!(result, Err(WfmError::InvalidHeaderSize(100))));
}

#[test]
fn test_file_loading() {
    let header = create_test_header();
    let trailers = vec![0u8; 54 * 4];
    let mut body = trailers.clone();
    for _frame in 0..5 {
        for sample in 0..1000 {
            let value = ((sample as i32 - 500) / 5) as i8;
            body.push(value as u8);
        }
    }

    let mut wfm = WfmFile::new();
    let result = wfm.load_file("test.wfm".to_string(), &header, &body);
    assert!(result.is_ok(), "Failed to load file: {:?}", result.err());

    assert_eq!(wfm.file_header.num_fastframes, 5);
    assert_eq!(wfm.file_content.raw_frames.len(), 5000);
    assert_eq!(wfm.file_path, "test.wfm");
}

#[test]
fn test_frame_access() {
    let scaled_frames = vec![1.0, 2.0, 3.0, 4.0, 5.0, 6.0];

    let frame0 = frame_slice(&scaled_frames, 2, 3, 0).unwrap();
    assert_eq!(frame0, &[1.0, 2.0, 3.0]);

    let frame1 = frame_slice(&scaled_frames, 2, 3, 1).unwrap();
    assert_eq!(frame1, &[4.0, 5.0, 6.0]);

    assert!(frame_slice(&scaled_frames, 2, 3, 2).is_none());
}
